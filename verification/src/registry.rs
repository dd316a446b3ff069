//! The registry's root state and its single write path.

use vstd::prelude::*;

use std::collections::HashMap;

use crate::access::authorize;
use crate::access::AccountId;
use crate::access::UpdateError;
use crate::level::classify;
use crate::level::classify_spec;
use crate::level::lemma_classify_total;
use crate::level::valid_score;
use crate::level::Level;

verus! {

broadcast use vstd::std_specs::hash::group_hash_axioms;

/// The notification emitted once per successful update, carrying the new
/// name and score. Delivery to observers is the hosting environment's
/// business; the registry only produces the value.
#[derive(Debug)]
pub struct UpdateStudent {
    pub student: Option<String>,
    pub point: Option<u32>,
}

/// The registry: the owning principal, the identifier-to-name map and the
/// identifier-to-tier map. The owner is set at construction and never
/// changes; records are only added or overwritten, never removed.
pub struct Classcontract {
    teacher: AccountId,
    student_name: HashMap<u32, String>,
    student_level: HashMap<u32, Level>,
}

impl Classcontract {
    /// The sole principal authorized to write.
    pub closed spec fn owner(self) -> AccountId {
        self.teacher
    }

    /// The stored identifier-to-name map.
    pub closed spec fn names(self) -> Map<u32, String> {
        self.student_name@
    }

    /// The stored identifier-to-tier map.
    pub closed spec fn levels(self) -> Map<u32, Level> {
        self.student_level@
    }

    /// What a name lookup returns: the stored name, or empty text when no
    /// record exists.
    pub open spec fn spec_name(self, id: u32) -> Seq<char> {
        if self.names().contains_key(id) {
            self.names()[id]@
        } else {
            Seq::<char>::empty()
        }
    }

    /// What a tier lookup returns: the stored tier, or the `NotUpdated`
    /// sentinel when no record exists.
    pub open spec fn spec_level(self, id: u32) -> Level {
        if self.levels().contains_key(id) {
            self.levels()[id]
        } else {
            Level::NotUpdated
        }
    }

    /// Well-formedness: the `NotUpdated` sentinel is never stored, so every
    /// persisted tier is the outcome of classifying a valid score.
    pub open spec fn wf(self) -> bool {
        forall|id: u32|
            self.levels().contains_key(id) ==> #[trigger] self.levels()[id] != Level::NotUpdated
    }

    /// The caller becomes the owner; both maps start empty.
    pub fn new(caller: AccountId) -> (c: Classcontract)
        ensures
            c.owner() == caller,
            c.names() == Map::<u32, String>::empty(),
            c.levels() == Map::<u32, Level>::empty(),
            c.wf(),
    {
        Classcontract {
            teacher: caller,
            student_name: HashMap::new(),
            student_level: HashMap::new(),
        }
    }

    /// Construction without an explicit owner. A no-owner state is refused:
    /// the zero principal is recorded as owner, so only a caller presenting
    /// that identity may ever write to this registry.
    pub fn default() -> (c: Classcontract)
        ensures
            c.owner() == (AccountId { id: 0 }),
            c.names() == Map::<u32, String>::empty(),
            c.levels() == Map::<u32, Level>::empty(),
            c.wf(),
    {
        Classcontract::new(AccountId { id: 0 })
    }

    /// Records `name` and the tier classified from `point` under `id`,
    /// overwriting any prior record, and returns the notification to emit.
    /// The caller is authorized first and the score validated second; a
    /// refusal on either count leaves both maps untouched. The owner is
    /// never changed.
    pub fn update_student(&mut self, caller: AccountId, id: u32, name: String, point: u32) -> (result:
        Result<UpdateStudent, UpdateError>)
        ensures
            final(self).owner() == old(self).owner(),
            result is Ok <==> caller == old(self).owner() && valid_score(point),
            caller != old(self).owner() ==> result == Err::<UpdateStudent, UpdateError>(
                UpdateError::Unauthorized,
            ),
            caller == old(self).owner() && !valid_score(point) ==> result == Err::<
                UpdateStudent,
                UpdateError,
            >(UpdateError::InvalidScore),
            result is Err ==> final(self).names() == old(self).names() && final(self).levels()
                == old(self).levels(),
            result is Ok ==> final(self).names() == old(self).names().insert(id, name)
                && final(self).levels() == old(self).levels().insert(id, classify_spec(point)),
            result matches Ok(event) ==> event.student == Some(name) && event.point == Some(point),
            old(self).wf() ==> final(self).wf(),
    {
        if let Err(refusal) = authorize(caller, self.teacher) {
            return Err(refusal);
        }
        if point < 1 || point > 10 {
            return Err(UpdateError::InvalidScore);
        }
        let level = classify(point);
        proof {
            lemma_classify_total(point);
        }
        self.student_name.insert(id, name.clone());
        self.student_level.insert(id, level);
        Ok(UpdateStudent { student: Some(name), point: Some(point) })
    }

    /// Returns the stored name for `id`, or empty text when no record
    /// exists. Never fails, never mutates.
    pub fn get_student_name(&self, id: u32) -> (name: String)
        ensures
            name@ == self.spec_name(id),
    {
        match self.student_name.get(&id) {
            Some(stored) => stored.clone(),
            None => String::new(),
        }
    }

    /// Returns the stored tier for `id`, or `NotUpdated` when no record
    /// exists. Never fails, never mutates.
    pub fn get_student_level(&self, id: u32) -> (level: Level)
        ensures
            level == self.spec_level(id),
    {
        match self.student_level.get(&id) {
            Some(stored) => *stored,
            None => Level::NotUpdated,
        }
    }
}

} // verus!
