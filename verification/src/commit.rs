//! The atomic-commit semantics over the kernel-side property state.
//!
//! One commit submits a batch of property updates; the kernel applies
//! them all or rejects the batch as a whole, never a prefix. The table
//! below is the verified model of that state: one slot per (resource,
//! property) pair with its current value, its bounds and its mutability.
//! `commit` validates the whole batch against the current state and
//! either applies every update or leaves every slot untouched; nothing is
//! retried and nothing is silently corrected.

use vstd::prelude::*;
use crate::error::Error;
use crate::property::PropertyUpdate;

verus! {

/// One configurable property of one resource, as the kernel holds it:
/// the current value, the admissible range and whether it may be written.
#[derive(Debug, Clone, Copy, PartialEq, Eq, Structural)]
pub struct PropertySlot {
    pub resource: u32,
    pub property: u32,
    pub value: i64,
    pub min: i64,
    pub max: i64,
    pub mutable: bool,
}

/// Whether the slot belongs to `resource`'s property `property`.
pub open spec fn slot_matches(s: PropertySlot, resource: u32, property: u32) -> bool {
    s.resource == resource && s.property == property
}

/// No two slots share a (resource, property) pair.
pub open spec fn unique_keys(s: Seq<PropertySlot>) -> bool {
    forall|i: int, j: int|
        0 <= i < s.len() && 0 <= j < s.len() && i != j ==> !(#[trigger] slot_matches(
            s[i],
            s[j].resource,
            s[j].property,
        ))
}

/// Whether the state holds a slot for the update's target that is
/// mutable and admits the update's value: what the kernel would accept.
pub open spec fn spec_valid_update(s: Seq<PropertySlot>, u: PropertyUpdate) -> bool {
    exists|i: int|
        0 <= i < s.len() && #[trigger] slot_matches(s[i], u.resource, u.property) && s[i].mutable
            && s[i].min <= u.value <= s[i].max
}

/// Whether every update of the batch is valid against the current state.
pub open spec fn spec_all_valid(s: Seq<PropertySlot>, us: Seq<PropertyUpdate>) -> bool {
    forall|k: int| 0 <= k < us.len() ==> spec_valid_update(s, #[trigger] us[k])
}

/// The state after one update: the targeted slot carries the new value,
/// every other slot is untouched.
pub open spec fn spec_apply_one(s: Seq<PropertySlot>, u: PropertyUpdate) -> Seq<PropertySlot> {
    Seq::new(
        s.len(),
        |i: int|
            if slot_matches(s[i], u.resource, u.property) {
                PropertySlot { value: u.value, ..s[i] }
            } else {
                s[i]
            },
    )
}

/// The state after a whole batch, applied in order.
pub open spec fn spec_apply(s: Seq<PropertySlot>, us: Seq<PropertyUpdate>) -> Seq<PropertySlot>
    decreases us.len(),
{
    if us.len() == 0 {
        s
    } else {
        spec_apply(spec_apply_one(s, us.first()), us.drop_first())
    }
}

/// Position of the slot for `resource`'s property `property`, if any.
fn find_slot(slots: &Vec<PropertySlot>, resource: u32, property: u32) -> (r: Option<usize>)
    ensures
        match r {
            Some(j) => j < slots@.len() && slot_matches(slots@[j as int], resource, property),
            None => forall|i: int|
                0 <= i < slots@.len() ==> !#[trigger] slot_matches(slots@[i], resource, property),
        },
{
    let mut i: usize = 0;
    while i < slots.len()
        invariant
            i <= slots@.len(),
            forall|k: int| 0 <= k < i ==> !#[trigger] slot_matches(slots@[k], resource, property),
        decreases slots@.len() - i,
    {
        let s = slots[i];
        if s.resource == resource && s.property == property {
            return Some(i);
        }
        i = i + 1;
    }
    None
}

/// The kernel-side property state of one device session, modeled slot by
/// slot.
pub struct PropertyTable {
    slots: Vec<PropertySlot>,
}

impl View for PropertyTable {
    type V = Seq<PropertySlot>;

    closed spec fn view(&self) -> Seq<PropertySlot> {
        self.slots@
    }
}

impl PropertyTable {
    /// The table's invariant: one slot per (resource, property) pair.
    pub open spec fn wf(&self) -> bool {
        unique_keys(self@)
    }

    /// An empty state.
    pub fn new() -> (r: PropertyTable)
        ensures
            r.wf(),
            r@ == Seq::<PropertySlot>::empty(),
    {
        PropertyTable { slots: Vec::new() }
    }

    /// Adds a slot; refused when its (resource, property) pair is already
    /// present.
    pub fn add_slot(&mut self, slot: PropertySlot) -> (ok: bool)
        requires
            old(self).wf(),
        ensures
            final (self).wf(),
            ok == !(exists|i: int|
                0 <= i < old(self)@.len() && #[trigger] slot_matches(
                    old(self)@[i],
                    slot.resource,
                    slot.property,
                )),
            ok ==> final (self)@ == old(self)@.push(slot),
            !ok ==> *final (self) == *old(self),
    {
        match find_slot(&self.slots, slot.resource, slot.property) {
            Some(_) => false,
            None => {
                self.slots.push(slot);
                proof {
                    let s2 = self@;
                    let n = old(self)@.len() as int;
                    assert forall|i: int, j: int|
                        0 <= i < s2.len() && 0 <= j < s2.len() && i != j implies !(
                    #[trigger] slot_matches(s2[i], s2[j].resource, s2[j].property)) by {
                        if i < n && j < n {
                            assert(!slot_matches(old(self)@[i], old(self)@[j].resource, old(self)@[j].property));
                        } else if i == n {
                            assert(!slot_matches(old(self)@[j], slot.resource, slot.property));
                        } else {
                            assert(!slot_matches(old(self)@[i], slot.resource, slot.property));
                        }
                    }
                }
                true
            },
        }
    }

    /// The current value of `resource`'s property `property`, if the state
    /// holds such a slot.
    pub fn get_value(&self, resource: u32, property: u32) -> (r: Option<i64>)
        requires
            self.wf(),
        ensures
            match r {
                Some(v) => exists|i: int|
                    0 <= i < self@.len() && #[trigger] slot_matches(self@[i], resource, property)
                        && self@[i].value == v,
                None => forall|i: int|
                    0 <= i < self@.len() ==> !#[trigger] slot_matches(self@[i], resource, property),
            },
    {
        match find_slot(&self.slots, resource, property) {
            Some(j) => Some(self.slots[j].value),
            None => None,
        }
    }

    /// Submits a batch of updates as one atomic commit. The commit
    /// succeeds if and only if every update of the batch is valid against
    /// the current state; then all updates apply in order. A rejected
    /// batch leaves the whole state exactly as it was: a caller re-reading
    /// any property after a failure observes its pre-commit value.
    pub fn commit(&mut self, updates: &Vec<PropertyUpdate>) -> (r: Result<(), Error>)
        requires
            old(self).wf(),
        ensures
            final (self).wf(),
            r is Ok <==> spec_all_valid(old(self)@, updates@),
            r is Ok ==> final (self)@ == spec_apply(old(self)@, updates@),
            r is Err ==> *final (self) == *old(self) && r == Err::<(), Error>(Error::Incompatible),
    {
        // First pass: validate the whole batch against the current state;
        // nothing is written yet, so a rejection leaves the state as it was.
        let mut k: usize = 0;
        while k < updates.len()
            invariant
                old(self).wf(),
                *self == *old(self),
                k <= updates@.len(),
                forall|t: int| 0 <= t < k ==> spec_valid_update(self@, #[trigger] updates@[t]),
            decreases updates@.len() - k,
        {
            let u = updates[k];
            match find_slot(&self.slots, u.resource, u.property) {
                Some(j) => {
                    let s = self.slots[j];
                    if !(s.mutable && s.min <= u.value && u.value <= s.max) {
                        proof {
                            assert forall|i: int|
                                0 <= i < self@.len() && #[trigger] slot_matches(
                                    self@[i],
                                    u.resource,
                                    u.property,
                                ) implies !(self@[i].mutable && self@[i].min <= u.value
                                <= self@[i].max) by {
                                if i != j {
                                    assert(slot_matches(self@[i], self@[j as int].resource, self@[j as int].property));
                                }
                            }
                            assert(!spec_valid_update(self@, updates@[k as int]));
                        }
                        return Err(Error::Incompatible);
                    }
                },
                None => {
                    proof {
                        assert(!spec_valid_update(self@, updates@[k as int]));
                    }
                    return Err(Error::Incompatible);
                },
            }
            k = k + 1;
        }
        // Second pass: every update is valid; apply them in order.
        let ghost orig = self@;
        let mut k: usize = 0;
        while k < updates.len()
            invariant
                unique_keys(orig),
                spec_all_valid(orig, updates@),
                k <= updates@.len(),
                self@ == spec_apply(orig, updates@.take(k as int)),
                same_keys(orig, self@),
            decreases updates@.len() - k,
        {
            let ghost prev = self@;
            let u = updates[k];
            match find_slot(&self.slots, u.resource, u.property) {
                Some(j) => {
                    let mut s = self.slots[j];
                    s.value = u.value;
                    self.slots.set(j, s);
                    proof {
                        assert forall|i: int|
                            0 <= i < prev.len() && i != j implies !slot_matches(
                            prev[i],
                            u.resource,
                            u.property,
                        ) by {
                            assert(unique_keys(prev)) by {
                                lemma_same_keys_unique(orig, prev);
                            }
                            if slot_matches(prev[i], u.resource, u.property) {
                                assert(slot_matches(prev[i], prev[j as int].resource, prev[j as int].property));
                            }
                        }
                        assert(self@ =~= spec_apply_one(prev, u));
                        assert(updates@.take(k + 1int) =~= updates@.take(k as int).push(
                            updates@[k as int],
                        ));
                        lemma_apply_snoc(orig, updates@.take(k as int), updates@[k as int]);
                    }
                },
                None => {
                    proof {
                        // Unreachable: the update is valid against the
                        // pre-commit state and the keys have not changed.
                        assert(spec_valid_update(orig, updates@[k as int]));
                        let i = choose|i: int|
                            0 <= i < orig.len() && #[trigger] slot_matches(
                                orig[i],
                                updates@[k as int].resource,
                                updates@[k as int].property,
                            ) && orig[i].mutable && orig[i].min <= updates@[k as int].value
                                <= orig[i].max;
                        assert(slot_matches(self@[i], u.resource, u.property));
                        assert(false);
                    }
                },
            }
            k = k + 1;
        }
        proof {
            assert(updates@.take(updates@.len() as int) =~= updates@);
            lemma_same_keys_unique(orig, self@);
        }
        Ok(())
    }
}

/// Whether two states hold the same slots up to their current values:
/// same length, and key, bounds and mutability agree slot for slot.
pub open spec fn same_keys(a: Seq<PropertySlot>, b: Seq<PropertySlot>) -> bool {
    &&& a.len() == b.len()
    &&& forall|i: int|
        0 <= i < a.len() ==> {
            &&& (#[trigger] b[i]).resource == a[i].resource
            &&& b[i].property == a[i].property
            &&& b[i].min == a[i].min
            &&& b[i].max == a[i].max
            &&& b[i].mutable == a[i].mutable
        }
}

/// Key uniqueness carries over to any state with the same keys.
proof fn lemma_same_keys_unique(a: Seq<PropertySlot>, b: Seq<PropertySlot>)
    requires
        unique_keys(a),
        same_keys(a, b),
    ensures
        unique_keys(b),
{
    assert forall|i: int, j: int|
        0 <= i < b.len() && 0 <= j < b.len() && i != j implies !(#[trigger] slot_matches(
        b[i],
        b[j].resource,
        b[j].property,
    )) by {
        if slot_matches(b[i], b[j].resource, b[j].property) {
            assert(slot_matches(a[i], a[j].resource, a[j].property));
        }
    }
}

/// Applying a batch extended by one update equals applying the batch and
/// then the update.
proof fn lemma_apply_snoc(s: Seq<PropertySlot>, us: Seq<PropertyUpdate>, u: PropertyUpdate)
    ensures
        spec_apply(s, us.push(u)) == spec_apply_one(spec_apply(s, us), u),
    decreases us.len(),
{
    if us.len() == 0 {
        assert(us.push(u).first() == u);
        assert(us.push(u).drop_first() =~= Seq::<PropertyUpdate>::empty());
        assert(spec_apply(spec_apply_one(s, u), Seq::<PropertyUpdate>::empty()) == spec_apply_one(
            s,
            u,
        ));
        assert(spec_apply(s, us) == s);
    } else {
        assert(us.push(u).first() == us.first());
        assert(us.push(u).drop_first() =~= us.drop_first().push(u));
        lemma_apply_snoc(spec_apply_one(s, us.first()), us.drop_first(), u);
        assert(spec_apply(s, us) == spec_apply(spec_apply_one(s, us.first()), us.drop_first()));
    }
}

/// Law: a commit is all or nothing. A batch with any invalid update is
/// rejected as a whole: no slot's value changes, as `commit`'s contract
/// states; and under a successful commit every slot's value is the last
/// value the batch wrote to it, or its old value where the batch never
/// targeted it.
pub proof fn lemma_apply_keeps_untargeted(
    s: Seq<PropertySlot>,
    us: Seq<PropertyUpdate>,
    i: int,
)
    requires
        0 <= i < s.len(),
        forall|k: int|
            0 <= k < us.len() ==> !slot_matches(s[i], (#[trigger] us[k]).resource, us[k].property),
    ensures
        spec_apply(s, us).len() == s.len(),
        spec_apply(s, us)[i] == s[i],
    decreases us.len(),
{
    if us.len() > 0 {
        let s1 = spec_apply_one(s, us.first());
        assert(s1[i] == s[i]);
        assert forall|k: int|
            0 <= k < us.drop_first().len() implies !slot_matches(
            s1[i],
            (#[trigger] us.drop_first()[k]).resource,
            us.drop_first()[k].property,
        ) by {
            assert(us.drop_first()[k] == us[k + 1]);
        }
        lemma_apply_keeps_untargeted(s1, us.drop_first(), i);
    }
}

} // verus!
