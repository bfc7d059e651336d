//! The resource-ownership registry.
//!
//! One registry per device session tracks which resource ids are currently
//! checked out as live handles. Per kind, every id sits in exactly one of
//! two partitions, available or checked-out; `checkout` moves it out of the
//! available set or fails with `NotAvailable`, and releasing the handle
//! moves it back. The registry is the sole in-process safeguard against two
//! call sites reconfiguring the same physical resource; it is no lock
//! against other processes, which the device's own master mechanism covers.

use vstd::prelude::*;
use crate::error::Error;
use crate::resource::{CardResources, PlaneResources};

verus! {

/// The kind of resource an id is scoped to, as far as the registry tracks
/// ownership.
#[derive(Debug, Clone, Copy, PartialEq, Eq, Structural)]
pub enum ResourceKind {
    Connector,
    Encoder,
    Controller,
    Plane,
}

/// The two partitions of one kind's ids, as sets: the registry's
/// mathematical model.
#[verifier::ext_equal]
pub struct PoolView {
    pub available: Set<u32>,
    pub taken: Set<u32>,
}

impl PoolView {
    /// A pool is well formed when both partitions are finite and no id sits
    /// in both at once.
    pub open spec fn wf(self) -> bool {
        &&& self.available.finite()
        &&& self.taken.finite()
        &&& self.available.disjoint(self.taken)
    }

    /// Whether a checkout of `id` would succeed on this pool.
    pub open spec fn can_checkout(self, id: u32) -> bool {
        self.available.contains(id)
    }

    /// The pool after a successful checkout of `id`.
    pub open spec fn after_checkout(self, id: u32) -> PoolView {
        PoolView { available: self.available.remove(id), taken: self.taken.insert(id) }
    }

    /// The pool after the handle of `id` is released.
    pub open spec fn after_release(self, id: u32) -> PoolView {
        PoolView { available: self.available.insert(id), taken: self.taken.remove(id) }
    }
}

/// The registry's model: one pool per resource kind.
#[verifier::ext_equal]
pub struct RegistryView {
    pub connectors: PoolView,
    pub encoders: PoolView,
    pub controllers: PoolView,
    pub planes: PoolView,
}

impl RegistryView {
    pub open spec fn wf(self) -> bool {
        &&& self.connectors.wf()
        &&& self.encoders.wf()
        &&& self.controllers.wf()
        &&& self.planes.wf()
    }

    /// The pool of one kind.
    pub open spec fn pool(self, kind: ResourceKind) -> PoolView {
        match kind {
            ResourceKind::Connector => self.connectors,
            ResourceKind::Encoder => self.encoders,
            ResourceKind::Controller => self.controllers,
            ResourceKind::Plane => self.planes,
        }
    }

    /// The registry with one kind's pool replaced.
    pub open spec fn with_pool(self, kind: ResourceKind, p: PoolView) -> RegistryView {
        match kind {
            ResourceKind::Connector => RegistryView { connectors: p, ..self },
            ResourceKind::Encoder => RegistryView { encoders: p, ..self },
            ResourceKind::Controller => RegistryView { controllers: p, ..self },
            ResourceKind::Plane => RegistryView { planes: p, ..self },
        }
    }

    /// Whether a checkout of `id` under `kind` would succeed.
    pub open spec fn can_checkout(self, kind: ResourceKind, id: u32) -> bool {
        self.pool(kind).can_checkout(id)
    }

    /// The registry after a successful checkout.
    pub open spec fn after_checkout(self, kind: ResourceKind, id: u32) -> RegistryView {
        self.with_pool(kind, self.pool(kind).after_checkout(id))
    }

    /// The registry after a release.
    pub open spec fn after_release(self, kind: ResourceKind, id: u32) -> RegistryView {
        self.with_pool(kind, self.pool(kind).after_release(id))
    }
}

/// A live claim on one resource id. A handle exists only between a
/// successful `checkout` and the `release` that consumes it, and it cannot
/// be copied, so an id can be released at most once per checkout.
#[derive(Debug)]
pub struct Handle {
    kind: ResourceKind,
    id: u32,
}

impl Handle {
    /// The kind the handle's id is scoped to.
    pub closed spec fn spec_kind(&self) -> ResourceKind {
        self.kind
    }

    /// The id the handle owns.
    pub closed spec fn spec_id(&self) -> u32 {
        self.id
    }

    pub fn kind(&self) -> (k: ResourceKind)
        ensures
            k == self.spec_kind(),
    {
        self.kind
    }

    pub fn id(&self) -> (i: u32)
        ensures
            i == self.spec_id(),
    {
        self.id
    }
}

/// One kind's partition of ids into available and checked-out.
struct Pool {
    available: Vec<u32>,
    taken: Vec<u32>,
}

impl Pool {
    spec fn inv(&self) -> bool {
        &&& self.available@.no_duplicates()
        &&& self.taken@.no_duplicates()
        &&& forall|id: u32|
            !(#[trigger] self.available@.contains(id) && #[trigger] self.taken@.contains(id))
    }

    spec fn view_of(&self) -> PoolView {
        PoolView { available: self.available@.to_set(), taken: self.taken@.to_set() }
    }
}

/// The privileged resource-ownership registry of one device session.
pub struct Registry {
    connectors: Pool,
    encoders: Pool,
    controllers: Pool,
    planes: Pool,
}

impl View for Registry {
    type V = RegistryView;

    closed spec fn view(&self) -> RegistryView {
        RegistryView {
            connectors: self.connectors.view_of(),
            encoders: self.encoders.view_of(),
            controllers: self.controllers.view_of(),
            planes: self.planes.view_of(),
        }
    }
}

impl Registry {
    /// The registry's internal invariant; every operation preserves it.
    pub closed spec fn wf(&self) -> bool {
        &&& self.connectors.inv()
        &&& self.encoders.inv()
        &&& self.controllers.inv()
        &&& self.planes.inv()
    }

    /// Law: the partition invariant. In a well-formed registry — and
    /// every operation preserves well-formedness — each kind's available
    /// and checked-out sets are finite and disjoint: a given id belongs
    /// to at most one partition at a time.
    pub proof fn lemma_wf_view(&self)
        requires
            self.wf(),
        ensures
            self@.wf(),
    {
        self.connectors.lemma_inv_view();
        self.encoders.lemma_inv_view();
        self.controllers.lemma_inv_view();
        self.planes.lemma_inv_view();
    }

    /// One-time load of the id lists the two resource queries reported;
    /// they become the available-set baseline, with nothing checked out.
    pub fn snapshot(cres: &CardResources, pres: &PlaneResources) -> (r: Registry)
        ensures
            r.wf(),
            r@.connectors == (PoolView {
                available: cres.connectors@.to_set(),
                taken: Set::<u32>::empty(),
            }),
            r@.encoders == (PoolView {
                available: cres.encoders@.to_set(),
                taken: Set::<u32>::empty(),
            }),
            r@.controllers == (PoolView {
                available: cres.crtcs@.to_set(),
                taken: Set::<u32>::empty(),
            }),
            r@.planes == (PoolView {
                available: pres.planes@.to_set(),
                taken: Set::<u32>::empty(),
            }),
    {
        Registry {
            connectors: Pool::from_ids(&cres.connectors),
            encoders: Pool::from_ids(&cres.encoders),
            controllers: Pool::from_ids(&cres.crtcs),
            planes: Pool::from_ids(&pres.planes),
        }
    }

    /// Claims `id` under `kind`. Succeeds if and only if the id is in the
    /// available set; a second attempt before release fails with
    /// `NotAvailable`. On success the id moves to the checked-out set and
    /// the returned handle witnesses the claim.
    pub fn checkout(&mut self, kind: ResourceKind, id: u32) -> (r: Result<Handle, Error>)
        requires
            old(self).wf(),
        ensures
            final (self).wf(),
            r is Ok <==> old(self)@.can_checkout(kind, id),
            r matches Ok(h) ==> {
                &&& h.spec_kind() == kind
                &&& h.spec_id() == id
                &&& final (self)@ == old(self)@.after_checkout(kind, id)
            },
            r is Err ==> r == Err::<Handle, Error>(Error::NotAvailable) && *final (self)
                == *old(self),
    {
        let taken = match kind {
            ResourceKind::Connector => self.connectors.take_id(id),
            ResourceKind::Encoder => self.encoders.take_id(id),
            ResourceKind::Controller => self.controllers.take_id(id),
            ResourceKind::Plane => self.planes.take_id(id),
        };
        if taken {
            proof {
                assert(self@ =~= old(self)@.after_checkout(kind, id));
            }
            Ok(Handle { kind, id })
        } else {
            Err(Error::NotAvailable)
        }
    }

    /// Returns a handle's id to the available set, consuming the handle.
    /// By construction the handle's id is checked out, so the transfer
    /// always succeeds.
    pub fn release(&mut self, h: Handle)
        requires
            old(self).wf(),
            old(self)@.pool(h.spec_kind()).taken.contains(h.spec_id()),
        ensures
            final (self).wf(),
            final (self)@ == old(self)@.after_release(h.spec_kind(), h.spec_id()),
    {
        let Handle { kind, id } = h;
        match kind {
            ResourceKind::Connector => self.connectors.put_back(id),
            ResourceKind::Encoder => self.encoders.put_back(id),
            ResourceKind::Controller => self.controllers.put_back(id),
            ResourceKind::Plane => self.planes.put_back(id),
        }
        proof {
            assert(self@ =~= old(self)@.after_release(kind, id));
        }
    }

    /// Snapshots the ids currently available under `kind`, each exactly
    /// once. A caller iterating the list checks each id out in turn;
    /// a failed checkout of one id does not disturb the others.
    pub fn iterate(&self, kind: ResourceKind) -> (ids: Vec<u32>)
        requires
            self.wf(),
        ensures
            ids@.no_duplicates(),
            ids@.to_set() == self@.pool(kind).available,
            forall|id: u32| #[trigger]
                ids@.contains(id) <==> self@.pool(kind).available.contains(id),
    {
        let pool = match kind {
            ResourceKind::Connector => &self.connectors,
            ResourceKind::Encoder => &self.encoders,
            ResourceKind::Controller => &self.controllers,
            ResourceKind::Plane => &self.planes,
        };
        let mut out: Vec<u32> = Vec::new();
        let mut i: usize = 0;
        while i < pool.available.len()
            invariant
                i <= pool.available@.len(),
                out@ == pool.available@.take(i as int),
            decreases pool.available@.len() - i,
        {
            out.push(pool.available[i]);
            proof {
                assert(out@ =~= pool.available@.take(i + 1int));
            }
            i = i + 1;
        }
        proof {
            assert(out@ =~= pool.available@);
        }
        out
    }
}

impl Registry {
    /// Checks out every id currently available under `kind`, in snapshot
    /// order: the body of an iteration over the kind. Within one
    /// registry, nothing intervenes between the snapshot and the
    /// checkouts, so every checkout succeeds; a checkout that loses to a
    /// concurrent claimant is an error item for the caller looping over
    /// `iterate`'s snapshot instead.
    pub fn checkout_available(&mut self, kind: ResourceKind) -> (hs: Vec<Handle>)
        requires
            old(self).wf(),
        ensures
            final (self).wf(),
            forall|i: int|
                0 <= i < hs@.len() ==> (#[trigger] hs@[i]).spec_kind() == kind && old(
                    self,
                )@.pool(kind).available.contains(hs@[i].spec_id()),
            forall|x: u32|
                old(self)@.pool(kind).available.contains(x) ==> exists|i: int|
                    0 <= i < hs@.len() && (#[trigger] hs@[i]).spec_id() == x,
            final (self)@.pool(kind).available == Set::<u32>::empty(),
            final (self)@.pool(kind).taken == old(self)@.pool(kind).taken + old(self)@.pool(
                kind,
            ).available,
    {
        let ids = self.iterate(kind);
        let mut hs: Vec<Handle> = Vec::new();
        let mut i: usize = 0;
        while i < ids.len()
            invariant
                self.wf(),
                i <= ids@.len(),
                ids@.no_duplicates(),
                hs@.len() == i,
                forall|k: int|
                    0 <= k < i ==> (#[trigger] hs@[k]).spec_kind() == kind && hs@[k].spec_id()
                        == ids@[k],
                forall|x: u32| #[trigger]
                    self@.pool(kind).available.contains(x) <==> (ids@.contains(x) && !ids@.take(
                        i as int,
                    ).contains(x)),
                self@.pool(kind).taken == old(self)@.pool(kind).taken + ids@.take(
                    i as int,
                ).to_set(),
                forall|k: ResourceKind| k != kind ==> self@.pool(k) == old(self)@.pool(k),
                ids@.to_set() == old(self)@.pool(kind).available,
            decreases ids@.len() - i,
        {
            let id = ids[i];
            proof {
                assert(ids@.contains(id));
                assert(!ids@.take(i as int).contains(id)) by {
                    if ids@.take(i as int).contains(id) {
                        let k = choose|k: int|
                            0 <= k < i && ids@.take(i as int)[k] == id;
                        assert(ids@[k] == id);
                    }
                }
            }
            let h = match self.checkout(kind, id) {
                Ok(h) => h,
                Err(_) => {
                    proof {
                        assert(false);
                    }
                    return hs;
                },
            };
            hs.push(h);
            proof {
                let prev = ids@.take(i as int);
                let cur = ids@.take(i + 1int);
                assert(cur =~= prev.push(id));
                lemma_push_contains(prev, id);
                assert(self@.pool(kind).taken =~= old(self)@.pool(kind).taken + cur.to_set());
            }
            i = i + 1;
        }
        proof {
            assert(ids@.take(ids@.len() as int) =~= ids@);
            assert(self@.pool(kind).available =~= Set::<u32>::empty());
            assert forall|x: u32|
                old(self)@.pool(kind).available.contains(x) implies exists|i: int|
                0 <= i < hs@.len() && (#[trigger] hs@[i]).spec_id() == x by {
                assert(ids@.contains(x));
                let k = choose|k: int| 0 <= k < ids@.len() && ids@[k] == x;
                assert(hs@[k].spec_id() == x);
            }
        }
        hs
    }
}

impl Pool {
    proof fn lemma_inv_view(&self)
        requires
            self.inv(),
        ensures
            self.view_of().wf(),
    {
        assert forall|id: u32| #[trigger]
            self.view_of().available.contains(id) implies !self.view_of().taken.contains(
            id,
        ) by {
            assert(self.available@.contains(id));
        }
        assert(self.view_of().available.disjoint(self.view_of().taken));
    }

    /// Builds a pool whose available partition holds each reported id once,
    /// dropping duplicates, and whose checked-out partition is empty.
    fn from_ids(ids: &Vec<u32>) -> (p: Pool)
        ensures
            p.inv(),
            p.view_of() == (PoolView { available: ids@.to_set(), taken: Set::<u32>::empty() }),
    {
        let mut available: Vec<u32> = Vec::new();
        let mut i: usize = 0;
        while i < ids.len()
            invariant
                i <= ids@.len(),
                available@.no_duplicates(),
                forall|x: u32| #[trigger]
                    available@.contains(x) <==> ids@.take(i as int).contains(x),
            decreases ids@.len() - i,
        {
            let ghost pre = available@;
            let id = ids[i];
            if !contains_id(&available, id) {
                proof {
                    lemma_push_new(pre, id);
                }
                available.push(id);
            }
            proof {
                let prev = ids@.take(i as int);
                let cur = ids@.take(i + 1int);
                assert(cur =~= prev.push(ids@[i as int]));
                lemma_push_contains(prev, ids@[i as int]);
            }
            i = i + 1;
        }
        proof {
            assert(ids@.take(ids@.len() as int) =~= ids@);
        }
        let p = Pool { available, taken: Vec::new() };
        proof {
            assert(p.view_of().available =~= ids@.to_set());
            assert(p.view_of().taken =~= Set::<u32>::empty());
        }
        p
    }

    /// Moves `id` from available to checked-out; reports whether the id was
    /// available.
    fn take_id(&mut self, id: u32) -> (ok: bool)
        requires
            old(self).inv(),
        ensures
            final (self).inv(),
            ok == old(self).view_of().can_checkout(id),
            ok ==> final (self).view_of() == old(self).view_of().after_checkout(id),
            !ok ==> *final (self) == *old(self),
    {
        match find_index(&self.available, id) {
            Some(p) => {
                proof {
                    assert(old(self).available@.contains(id));
                    lemma_remove_keeps_rest(self.available@, p as int);
                }
                self.available.remove(p);
                proof {
                    assert(!old(self).taken@.contains(id));
                    lemma_push_new(self.taken@, id);
                }
                self.taken.push(id);
                proof {
                    assert(self.view_of().available =~= old(self).view_of().available.remove(id));
                    assert(self.view_of().taken =~= old(self).view_of().taken.insert(id));
                    assert(self.view_of() =~= old(self).view_of().after_checkout(id));
                }
                true
            },
            None => false,
        }
    }

    /// Moves `id` from checked-out back to available.
    fn put_back(&mut self, id: u32)
        requires
            old(self).inv(),
            old(self).view_of().taken.contains(id),
        ensures
            final (self).inv(),
            final (self).view_of() == old(self).view_of().after_release(id),
    {
        match find_index(&self.taken, id) {
            Some(p) => {
                proof {
                    assert(old(self).taken@.contains(id));
                    lemma_remove_keeps_rest(self.taken@, p as int);
                }
                self.taken.remove(p);
                proof {
                    assert(!old(self).available@.contains(id));
                    lemma_push_new(self.available@, id);
                }
                self.available.push(id);
                proof {
                    assert(self.view_of().taken =~= old(self).view_of().taken.remove(id));
                    assert(self.view_of().available =~= old(self).view_of().available.insert(id));
                    assert(self.view_of() =~= old(self).view_of().after_release(id));
                }
            },
            None => {
                // Unreachable: the precondition puts the id in the
                // checked-out partition.
                proof {
                    assert(old(self).taken@.contains(id));
                    assert(false);
                }
            },
        }
    }
}

/// Position of the first occurrence of `id` in `v`, if any.
fn find_index(v: &Vec<u32>, id: u32) -> (r: Option<usize>)
    ensures
        match r {
            Some(p) => p < v@.len() && v@[p as int] == id,
            None => !v@.contains(id),
        },
{
    let mut i: usize = 0;
    while i < v.len()
        invariant
            i <= v@.len(),
            forall|k: int| 0 <= k < i ==> v@[k] != id,
        decreases v@.len() - i,
    {
        if v[i] == id {
            return Some(i);
        }
        i = i + 1;
    }
    None
}

/// Whether `v` holds `id`.
fn contains_id(v: &Vec<u32>, id: u32) -> (r: bool)
    ensures
        r == v@.contains(id),
{
    match find_index(v, id) {
        Some(_) => true,
        None => false,
    }
}

/// Removing the element at `p` of a duplicate-free sequence keeps every
/// other value and drops `s[p]`.
proof fn lemma_remove_keeps_rest(s: Seq<u32>, p: int)
    requires
        s.no_duplicates(),
        0 <= p < s.len(),
    ensures
        s.remove(p).no_duplicates(),
        forall|x: u32| #[trigger] s.remove(p).contains(x) <==> (s.contains(x) && x != s[p]),
{
    let t = s.remove(p);
    assert forall|x: u32| #[trigger] t.contains(x) implies (s.contains(x) && x != s[p]) by {
        let k = choose|k: int| 0 <= k < t.len() && t[k] == x;
        if k < p {
            assert(s[k] == x);
        } else {
            assert(s[k + 1] == x);
        }
    }
    assert forall|x: u32| s.contains(x) && x != s[p] implies #[trigger] t.contains(x) by {
        let k = choose|k: int| 0 <= k < s.len() && s[k] == x;
        if k < p {
            assert(t[k] == x);
        } else {
            assert(t[k - 1] == x);
        }
    }
}

/// A pushed sequence holds exactly the old values and the pushed one.
proof fn lemma_push_contains(s: Seq<u32>, a: u32)
    ensures
        forall|x: u32| #[trigger] s.push(a).contains(x) <==> (s.contains(x) || x == a),
{
    let t = s.push(a);
    assert forall|x: u32| #[trigger] t.contains(x) implies (s.contains(x) || x == a) by {
        let k = choose|k: int| 0 <= k < t.len() && t[k] == x;
        if k < s.len() {
            assert(s[k] == x);
        }
    }
    assert forall|x: u32| s.contains(x) || x == a implies #[trigger] t.contains(x) by {
        if x == a {
            assert(t[s.len() as int] == x);
        } else {
            let k = choose|k: int| 0 <= k < s.len() && s[k] == x;
            assert(t[k] == x);
        }
    }
}

/// Pushing a value a duplicate-free sequence lacks keeps it duplicate-free
/// and adds exactly that value.
proof fn lemma_push_new(s: Seq<u32>, id: u32)
    requires
        s.no_duplicates(),
        !s.contains(id),
    ensures
        s.push(id).no_duplicates(),
        forall|x: u32| #[trigger] s.push(id).contains(x) <==> (s.contains(x) || x == id),
{
    let t = s.push(id);
    assert forall|x: u32| #[trigger] t.contains(x) implies (s.contains(x) || x == id) by {
        let k = choose|k: int| 0 <= k < t.len() && t[k] == x;
        if k < s.len() {
            assert(s[k] == x);
        }
    }
    assert forall|x: u32| s.contains(x) || x == id implies #[trigger] t.contains(x) by {
        if x == id {
            assert(t[s.len() as int] == x);
        } else {
            let k = choose|k: int| 0 <= k < s.len() && s[k] == x;
            assert(t[k] == x);
        }
    }
}

/// Law: right after `snapshot` every reported id is available, so its first
/// checkout succeeds; once a checkout of an id has succeeded, the id is no
/// longer available, so a second attempt before release fails (the checkout
/// contract then returns `NotAvailable`), whatever other ids were checked
/// out in between.
pub proof fn lemma_checkout_exactly_once(v: RegistryView, kind: ResourceKind, id: u32)
    requires
        v.can_checkout(kind, id),
    ensures
        !v.after_checkout(kind, id).can_checkout(kind, id),
        forall|other: u32|
            other != id ==> v.after_checkout(kind, other).can_checkout(kind, id),
{
}

/// Law: an id released by a handle's destruction reappears in the next
/// `iterate` snapshot of its kind: after a release the id is in the
/// available set, and `iterate` returns exactly that set.
pub proof fn lemma_released_id_reappears(v: RegistryView, kind: ResourceKind, id: u32)
    ensures
        v.after_release(kind, id).pool(kind).available.contains(id),
{
}

} // verus!
