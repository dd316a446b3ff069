//! An owner-administered student registry. A single designated principal,
//! fixed at construction, records a display name and a score-derived
//! performance tier under a numeric identifier; any caller may read the
//! stored values back, with explicit defaults for identifiers that were
//! never written.

pub mod access;
pub mod level;
pub mod registry;

pub use access::authorize;
pub use access::AccountId;
pub use access::UpdateError;
pub use level::classify;
pub use level::Level;
pub use registry::Classcontract;
pub use registry::UpdateStudent;
