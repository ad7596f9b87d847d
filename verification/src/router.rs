//! The prefix router: a sender that hands each envelope to the sender bound
//! at the nearest reference before the envelope's destination, where that
//! reference is a prefix of the destination.

use vstd::prelude::*;
use crate::envelope::{
    DeliveryError, DeliveryErrorView, EnvelopeView, MessageEnvelope, ReturnHandle,
};
use crate::muxer::{states, states_after};
use crate::reference::{
    lemma_prefix_le, lemma_prefixes_nest, lemma_sign_chain, lemma_sign_flip, lemma_sign_zero,
    ActorKey, Reference, ReferenceKey,
};
use crate::sender::{MailboxSender, SenderState};

verus! {

/// Whether the references are in strictly ascending order.
pub open spec fn ascending(keys: Seq<ReferenceKey>) -> bool {
    forall|i: int, j: int| 0 <= i < j < keys.len() ==> (#[trigger] keys[i]).lt(#[trigger] keys[j])
}

/// Whether `keys[i]` is the nearest of the references at or before `dest`.
pub open spec fn is_floor(keys: Seq<ReferenceKey>, dest: ReferenceKey, i: int) -> bool {
    &&& 0 <= i < keys.len()
    &&& keys[i].le(dest)
    &&& forall|j: int| 0 <= j < keys.len() && (#[trigger] keys[j]).le(dest) ==> keys[j].le(keys[i])
}

/// Where an envelope for `dest` is routed: to the nearest of the
/// references at or before `dest`, if that one is a prefix of `dest`.
pub open spec fn route(keys: Seq<ReferenceKey>, dest: ReferenceKey) -> Option<int> {
    if exists|i: int| is_floor(keys, dest, i) && keys[i].is_prefix_of(dest) {
        Some(choose|i: int| is_floor(keys, dest, i) && keys[i].is_prefix_of(dest))
    } else {
        None
    }
}

/// Among references in ascending order at most one is the nearest at or
/// before a destination.
pub proof fn lemma_floor_unique(keys: Seq<ReferenceKey>, dest: ReferenceKey, i: int, j: int)
    requires
        ascending(keys),
        is_floor(keys, dest, i),
        is_floor(keys, dest, j),
    ensures
        i == j,
{
    lemma_sign_flip(keys[i], keys[j]);
    if i < j {
        assert(keys[i].lt(keys[j]));
    } else if j < i {
        assert(keys[j].lt(keys[i]));
    }
}

/// Routing goes to the longest prefix: the reference that an envelope is
/// routed to is a prefix of the destination, and every bound prefix of the
/// destination is a prefix of it and fixes no more than it.
pub proof fn lemma_routes_to_longest_prefix(keys: Seq<ReferenceKey>, dest: ReferenceKey, j: int)
    requires
        ascending(keys),
        route(keys, dest) is Some,
        0 <= j < keys.len(),
        keys[j].is_prefix_of(dest),
    ensures
        keys[route(keys, dest)->0].is_prefix_of(dest),
        keys[j].le(keys[route(keys, dest)->0]),
        keys[j].depth() <= keys[route(keys, dest)->0].depth(),
        keys[j].is_prefix_of(keys[route(keys, dest)->0]),
{
    let i = route(keys, dest)->0;
    lemma_prefix_le(keys[j], dest);
    lemma_prefixes_nest(keys[j], keys[i], dest);
}

/// Where no bound reference is a prefix of the destination, nothing is
/// routed.
pub proof fn lemma_no_prefix_no_route(keys: Seq<ReferenceKey>, dest: ReferenceKey)
    requires
        forall|j: int| 0 <= j < keys.len() ==> !(#[trigger] keys[j]).is_prefix_of(dest),
    ensures
        route(keys, dest) is None,
{
}

/// Where a bound reference is a prefix of the destination and every bound
/// reference between it and the destination is a prefix of the destination
/// too, the envelope is routed, and to the longest of the bound prefixes.
pub proof fn lemma_prefix_routing(keys: Seq<ReferenceKey>, dest: ReferenceKey, p: int)
    requires
        ascending(keys),
        0 <= p < keys.len(),
        keys[p].is_prefix_of(dest),
        forall|j: int|
            0 <= j < keys.len() && keys[p].le(#[trigger] keys[j]) && keys[j].le(dest)
                ==> keys[j].is_prefix_of(dest),
    ensures
        route(keys, dest) matches Some(i) && keys[i].is_prefix_of(dest) && keys[p].le(keys[i])
            && forall|j: int|
            0 <= j < keys.len() && (#[trigger] keys[j]).is_prefix_of(dest) ==> keys[j].depth()
                <= keys[i].depth(),
{
    lemma_prefix_le(keys[p], dest);
    let m = lemma_floor_exists(keys, dest, p);
    assert(is_floor(keys, dest, m));
    assert(keys[p].le(keys[m]));
    assert(keys[m].is_prefix_of(dest));
    let i = route(keys, dest)->0;
    lemma_floor_unique(keys, dest, i, m);
    assert forall|j: int| 0 <= j < keys.len() && (#[trigger] keys[j]).is_prefix_of(
        dest,
    ) implies keys[j].depth() <= keys[i].depth() by {
        lemma_routes_to_longest_prefix(keys, dest, j);
    }
}

/// Where some reference is at or before the destination, one of them is
/// the nearest.
pub proof fn lemma_floor_exists(keys: Seq<ReferenceKey>, dest: ReferenceKey, p: int) -> (m: int)
    requires
        ascending(keys),
        0 <= p < keys.len(),
        keys[p].le(dest),
    ensures
        is_floor(keys, dest, m),
        p <= m,
    decreases keys.len() - p,
{
    if exists|q: int| p < q < keys.len() && keys[q].le(dest) {
        let q = choose|q: int| p < q < keys.len() && keys[q].le(dest);
        lemma_floor_exists(keys, dest, q)
    } else {
        assert forall|j: int|
            0 <= j < keys.len() && (#[trigger] keys[j]).le(dest) implies keys[j].le(keys[p]) by {
            lemma_sign_zero(keys[j], keys[p]);
            if j < p {
                assert(keys[j].lt(keys[p]));
            }
        }
        p
    }
}

/// One entry of a routing table: a reference and what is bound at it.
pub struct Route<T> {
    pub dest: Reference,
    pub target: T,
}

/// A table from references to what is bound at them, in the order of the
/// references.
pub struct RouteTable<T> {
    entries: Vec<Route<T>>,
}

impl<T> RouteTable<T> {
    /// The references that are bound, in ascending order.
    pub closed spec fn keys(&self) -> Seq<ReferenceKey> {
        Seq::new(self.entries@.len(), |i: int| self.entries@[i].dest@)
    }

    /// What is bound, each at the place of its reference.
    pub closed spec fn targets(&self) -> Seq<T> {
        Seq::new(self.entries@.len(), |i: int| self.entries@[i].target)
    }

    /// Whether the table is in order.
    pub open spec fn wf(&self) -> bool {
        ascending(self.keys()) && self.keys().len() == self.targets().len()
    }

    /// What an envelope for `dest` is routed to, if it is routed.
    pub open spec fn routed(&self, dest: ReferenceKey) -> Option<T> {
        match route(self.keys(), dest) {
            Some(i) => Some(self.targets()[i]),
            None => None,
        }
    }

    /// A new, empty table.
    pub fn new() -> (r: Self)
        ensures
            r.keys() == Seq::<ReferenceKey>::empty(),
            r.targets() == Seq::<T>::empty(),
            r.wf(),
    {
        let r = RouteTable { entries: Vec::new() };
        assert(r.keys() =~= Seq::empty());
        assert(r.targets() =~= Seq::empty());
        r
    }

    /// The number of bound references.
    pub fn len(&self) -> (r: usize)
        ensures
            r == self.keys().len(),
            r == self.targets().len(),
    {
        self.entries.len()
    }

    /// The reference at a place.
    pub fn key(&self, i: usize) -> (r: &Reference)
        requires
            i < self.keys().len(),
        ensures
            r@ == self.keys()[i as int],
    {
        &self.entries[i].dest
    }

    /// What is bound at a place.
    pub fn target(&self, i: usize) -> (r: &T)
        requires
            i < self.keys().len(),
        ensures
            *r == self.targets()[i as int],
    {
        &self.entries[i].target
    }

    /// The number of references at or before `dest`: they are the first so
    /// many, the table being in order.
    fn rank(&self, dest: &Reference) -> (n: usize)
        requires
            self.wf(),
        ensures
            n <= self.keys().len(),
            forall|j: int| 0 <= j < n ==> (#[trigger] self.keys()[j]).le(dest@),
            forall|j: int| n <= j < self.keys().len() ==> !(#[trigger] self.keys()[j]).le(dest@),
    {
        let mut n: usize = 0;
        while n < self.entries.len() && self.entries[n].dest.le(dest)
            invariant
                n <= self.entries@.len(),
                forall|j: int| 0 <= j < n ==> (#[trigger] self.keys()[j]).le(dest@),
            decreases self.entries@.len() - n,
        {
            n += 1;
        }
        assert forall|j: int| n <= j < self.keys().len() implies !(#[trigger] self.keys()[j]).le(
            dest@,
        ) by {
            if j > n {
                assert(self.keys()[n as int].lt(self.keys()[j]));
                lemma_sign_flip(self.keys()[n as int], dest@);
                lemma_sign_flip(self.keys()[j], dest@);
                lemma_sign_flip(self.keys()[n as int], self.keys()[j]);
                if self.keys()[j].le(dest@) {
                    lemma_sign_chain(self.keys()[n as int], self.keys()[j], dest@);
                }
            }
        }
        n
    }

    /// Where an envelope for `dest` is routed, if it is routed.
    pub fn lookup(&self, dest: &Reference) -> (r: Option<usize>)
        requires
            self.wf(),
        ensures
            match r {
                Some(i) => route(self.keys(), dest@) == Some(i as int) && i < self.keys().len(),
                None => route(self.keys(), dest@) is None,
            },
    {
        let n = self.rank(dest);
        if n == 0 {
            return None;
        }
        let i = n - 1;
        proof {
            assert forall|j: int| 0 <= j < self.keys().len() && (#[trigger] self.keys()[j]).le(
                dest@,
            ) implies self.keys()[j].le(self.keys()[i as int]) by {
                lemma_sign_zero(self.keys()[j], self.keys()[i as int]);
                if j < i {
                    assert(self.keys()[j].lt(self.keys()[i as int]));
                }
            }
            assert(is_floor(self.keys(), dest@, i as int));
            assert forall|k: int| is_floor(self.keys(), dest@, k) implies k == i by {
                lemma_floor_unique(self.keys(), dest@, k, i as int);
            }
        }
        if self.entries[i].dest.is_prefix_of(dest) {
            Some(i)
        } else {
            None
        }
    }

    /// Binds `target` at `dest`, in place of what was bound there. Returns
    /// what was bound there.
    pub fn insert(&mut self, dest: Reference, target: T) -> (r: Option<T>)
        requires
            old(self).wf(),
        ensures
            final(self).wf(),
            inserted(old(self).keys(), old(self).targets(), dest@, target, final(self).keys(),
                final(self).targets(), r),
    {
        let n = self.rank(&dest);
        if n > 0 && self.entries[n - 1].dest == dest {
            let mut entry = Route { dest, target };
            std::mem::swap(&mut entry, &mut self.entries[n - 1]);
            assert(self.keys() =~= old(self).keys());
            assert(self.targets() =~= old(self).targets().update(n - 1, target));
            proof {
                let old_keys = old(self).keys();
                assert(old_keys[n - 1] == dest@);
                assert forall|k: int| 0 <= k < old_keys.len() && old_keys[k] == dest@ implies k
                    == n - 1 by {
                    lemma_sign_zero(old_keys[k], old_keys[n - 1]);
                    if k < n - 1 {
                        assert(old_keys[k].lt(old_keys[n - 1]));
                    } else if k > n - 1 {
                        assert(old_keys[n - 1].lt(old_keys[k]));
                    }
                }
            }
            Some(entry.target)
        } else {
            self.entries.insert(n, Route { dest, target });
            assert(self.keys() =~= old(self).keys().insert(n as int, dest@));
            assert(self.targets() =~= old(self).targets().insert(n as int, target));
            proof {
                let old_keys = old(self).keys();
                let keys = self.keys();
                assert forall|k: int| 0 <= k < old_keys.len() implies old_keys[k] != dest@ by {
                    lemma_sign_zero(dest@, dest@);
                    lemma_sign_zero(old_keys[k], dest@);
                    if k < n {
                        if k < n - 1 {
                            assert(old_keys[k].lt(old_keys[n - 1]));
                            assert(old_keys[n - 1].le(dest@));
                            lemma_sign_chain(old_keys[k], old_keys[n - 1], dest@);
                        } else {
                            assert(old_keys[n - 1] != dest@);
                        }
                    } else {
                        assert(!old_keys[k].le(dest@));
                    }
                }
                assert forall|i: int, j: int| 0 <= i < j < keys.len() implies (
                #[trigger] keys[i]).lt(#[trigger] keys[j]) by {
                    if j == n {
                        assert(old_keys[i].le(dest@));
                        lemma_sign_zero(old_keys[i], dest@);
                        if i == n - 1 {
                        } else {
                            assert(old_keys[i].lt(old_keys[n - 1]));
                            lemma_sign_chain(old_keys[i], old_keys[n - 1], dest@);
                        }
                    } else if i == n {
                        assert(!old_keys[j - 1].le(dest@));
                        lemma_sign_flip(old_keys[j - 1], dest@);
                    } else if i < n && j > n {
                        assert(old_keys[i].lt(old_keys[j - 1]));
                    } else if i > n {
                        assert(old_keys[i - 1].lt(old_keys[j - 1]));
                    } else {
                        assert(old_keys[i].lt(old_keys[j]));
                    }
                }
            }
            None
        }
    }

    /// Removes what is bound at a place, and hands it out with its reference.
    pub fn remove(&mut self, i: usize) -> (r: Route<T>)
        requires
            old(self).wf(),
            i < old(self).keys().len(),
        ensures
            final(self).wf(),
            r.dest@ == old(self).keys()[i as int],
            r.target == old(self).targets()[i as int],
            final(self).keys() == old(self).keys().remove(i as int),
            final(self).targets() == old(self).targets().remove(i as int),
    {
        let r = self.entries.remove(i);
        assert(self.keys() =~= old(self).keys().remove(i as int));
        assert(self.targets() =~= old(self).targets().remove(i as int));
        proof {
            let old_keys = old(self).keys();
            let keys = self.keys();
            assert forall|a: int, b: int| 0 <= a < b < keys.len() implies (#[trigger] keys[a]).lt(
                #[trigger] keys[b],
            ) by {
                let x = if a < i {
                    a
                } else {
                    a + 1
                };
                let y = if b < i {
                    b
                } else {
                    b + 1
                };
                assert(old_keys[x].lt(old_keys[y]));
            }
        }
        r
    }
}

/// What binding `target` at `dest` makes of a table: where `dest` was
/// bound its target is replaced and handed out, and else the entry is put
/// in at its place in the order.
pub open spec fn inserted<T>(
    old_keys: Seq<ReferenceKey>,
    old_targets: Seq<T>,
    dest: ReferenceKey,
    target: T,
    keys: Seq<ReferenceKey>,
    targets: Seq<T>,
    previous: Option<T>,
) -> bool {
    if exists|i: int| 0 <= i < old_keys.len() && old_keys[i] == dest {
        let i = choose|i: int| 0 <= i < old_keys.len() && old_keys[i] == dest;
        &&& keys == old_keys
        &&& targets == old_targets.update(i, target)
        &&& previous == Some(old_targets[i])
    } else {
        &&& previous is None
        &&& exists|n: int|
            0 <= n <= old_keys.len() && keys == old_keys.insert(n, dest) && targets
                == old_targets.insert(n, target)
    }
}

/// The error of an envelope that the router has no route for.
pub open spec fn no_destination() -> DeliveryErrorView {
    DeliveryErrorView::Unroutable("no destination found for actor in routing table"@)
}

/// The error of an envelope posted to a weak router whose router is gone.
pub open spec fn no_upgrade() -> DeliveryErrorView {
    DeliveryErrorView::BrokenLink("failed to upgrade WeakMailboxRouter"@)
}

/// A router: it routes each envelope to the sender that is bound at the
/// nearest reference at or before the actor of the envelope's destination,
/// where that reference is a prefix of the actor.
pub struct MailboxRouter<S> {
    table: RouteTable<S>,
}

impl<S> MailboxRouter<S> {
    /// The references that are bound, in ascending order.
    pub closed spec fn keys(&self) -> Seq<ReferenceKey> {
        self.table.keys()
    }

    /// The senders that are bound, each at the place of its reference.
    pub closed spec fn senders(&self) -> Seq<S> {
        self.table.targets()
    }

    /// Whether the table of the router is in order.
    pub closed spec fn ordered(&self) -> bool {
        self.table.wf()
    }

    /// The sender that an envelope for the actor is routed to, if any.
    pub open spec fn sender_for(&self, actor: ActorKey) -> Option<S> {
        match route(self.keys(), ReferenceKey::Actor(actor)) {
            Some(i) => Some(self.senders()[i]),
            None => None,
        }
    }

    /// In an ordered router every reference has its sender.
    pub proof fn lemma_ordered(&self)
        requires
            self.ordered(),
        ensures
            ascending(self.keys()),
            self.keys().len() == self.senders().len(),
    {
    }

    /// A new, empty router.
    pub fn new() -> (r: Self)
        ensures
            r.keys() == Seq::<ReferenceKey>::empty(),
            r.senders() == Seq::<S>::empty(),
            r.ordered(),
    {
        MailboxRouter { table: RouteTable::new() }
    }

    /// Binds the sender at the reference, in place of the sender that was
    /// bound there: messages for everything that the reference is a prefix
    /// of are routed to the sender, unless a longer prefix is bound.
    pub fn bind(&mut self, dest: Reference, sender: S)
        requires
            old(self).ordered(),
        ensures
            final(self).ordered(),
            exists|previous: Option<S>|
                inserted(
                    old(self).keys(),
                    old(self).senders(),
                    dest@,
                    sender,
                    final(self).keys(),
                    final(self).senders(),
                    previous,
                ),
    {
        let previous = self.table.insert(dest, sender);
        assert(inserted(
            old(self).keys(),
            old(self).senders(),
            dest@,
            sender,
            self.keys(),
            self.senders(),
            previous,
        ));
    }

    /// Unbinds what is bound at the reference and hands it out, if
    /// something is bound at it.
    pub fn unbind(&mut self, dest: &Reference) -> (r: Option<S>)
        requires
            old(self).ordered(),
        ensures
            final(self).ordered(),
            match r {
                Some(sender) => exists|i: int|
                    0 <= i < old(self).keys().len() && old(self).keys()[i] == dest@ && sender
                        == old(self).senders()[i] && final(self).keys() == old(self).keys().remove(
                        i,
                    ) && final(self).senders() == old(self).senders().remove(i),
                None => final(self).keys() == old(self).keys() && final(self).senders() == old(
                    self).senders() && !old(self).keys().contains(dest@),
            },
    {
        let mut i: usize = 0;
        while i < self.table.len()
            invariant
                *self == *old(self),
                self.table.wf(),
                i <= self.table.keys().len(),
                forall|j: int| 0 <= j < i ==> self.table.keys()[j] != dest@,
            decreases self.table.keys().len() - i,
        {
            if *self.table.key(i) == *dest {
                let route = self.table.remove(i);
                assert(old(self).keys()[i as int] == dest@ && route.target == old(
                    self).senders()[i as int] && self.keys() == old(self).keys().remove(i as int)
                    && self.senders() == old(self).senders().remove(i as int));
                return Some(route.target);
            }
            i += 1;
        }
        None
    }

    /// The sender bound at the reference, to work on it in place.
    pub fn sender_mut(&mut self, dest: &Reference) -> (r: Option<&mut S>)
        requires
            old(self).ordered(),
        ensures
            final(self).keys() == old(self).keys(),
            final(self).senders().len() == old(self).senders().len(),
            match r {
                Some(sender) => exists|i: int|
                    0 <= i < old(self).keys().len() && old(self).keys()[i] == dest@ && *sender
                        == old(self).senders()[i] && final(self).senders()[i] == *final(sender)
                        && forall|j: int|
                        0 <= j < old(self).senders().len() && j != i ==> final(self).senders()[j]
                            == old(self).senders()[j],
                None => !old(self).keys().contains(dest@) && final(self).senders() == old(
                    self).senders(),
            },
    {
        let mut i: usize = 0;
        while i < self.table.len()
            invariant
                *self == *old(self),
                self.table.wf(),
                i <= self.table.keys().len(),
                forall|j: int| 0 <= j < i ==> self.table.keys()[j] != dest@,
            decreases self.table.keys().len() - i,
        {
            if *self.table.key(i) == *dest {
                let entry = &mut self.table.entries[i];
                return Some(&mut entry.target);
            }
            i += 1;
        }
        None
    }

    /// A router whose references are those of an ordered router is ordered.
    pub proof fn lemma_same_keys(&self, other: &Self)
        requires
            other.ordered(),
            self.keys() == other.keys(),
            self.senders().len() == other.senders().len(),
        ensures
            self.ordered(),
    {
    }

    /// Turns the router into a weak router that still has it.
    pub fn downgrade(self) -> (r: WeakMailboxRouter<S>)
        ensures
            r.router() == Some(self),
    {
        WeakMailboxRouter { router: Some(self) }
    }
}

impl<S: MailboxSender> MailboxSender for MailboxRouter<S> {
    open spec fn wf(&self) -> bool {
        &&& self.ordered()
        &&& forall|i: int| 0 <= i < self.senders().len() ==> (#[trigger] self.senders()[i]).wf()
    }

    open spec fn state(&self) -> SenderState {
        SenderState::Table(states(self.senders()))
    }

    open spec fn after(&self, envelope: EnvelopeView) -> SenderState {
        SenderState::Table(
            states_after(
                self.senders(),
                route(self.keys(), ReferenceKey::Actor(envelope.dest.actor)),
                envelope,
            ),
        )
    }

    open spec fn refuses(&self, envelope: EnvelopeView) -> bool {
        match self.sender_for(envelope.dest.actor) {
            Some(sender) => sender.refuses(envelope),
            None => false,
        }
    }

    open spec fn bounced(&self, envelope: EnvelopeView) -> Option<EnvelopeView> {
        match self.sender_for(envelope.dest.actor) {
            Some(sender) => sender.bounced(envelope),
            None => Some(envelope.stamped(no_destination())),
        }
    }

    /// Posts the envelope to the sender that it is routed to, and to no
    /// other; where it is not routed the envelope goes back as unroutable.
    fn post(&mut self, envelope: MessageEnvelope, return_handle: &mut ReturnHandle)
        ensures
            final(self).keys() == old(self).keys(),
            final(self).senders().len() == old(self).senders().len(),
            forall|i: int|
                0 <= i < old(self).senders().len() && Some(i) != route(
                    old(self).keys(),
                    ReferenceKey::Actor(envelope@.dest.actor),
                ) ==> final(self).senders()[i] == old(self).senders()[i],
    {
        let dest = Reference::Actor(envelope.dest().actor_id().clone());
        match self.table.lookup(&dest) {
            None => {
                envelope.undeliverable(
                    DeliveryError::unroutable("no destination found for actor in routing table"),
                    return_handle,
                );
                assert(states(self.senders()) =~= states_after(self.senders(), None, envelope@));
            },
            Some(i) => {
                assert(old(self).senders()[i as int].wf());
                let entry = &mut self.table.entries[i];
                entry.target.post(envelope, return_handle);
                assert(self.keys() =~= old(self).keys());
                assert forall|j: int| 0 <= j < self.senders().len() implies (
                #[trigger] self.senders()[j]).wf() by {
                    if j != i {
                        assert(self.senders()[j] == old(self).senders()[j]);
                    }
                }
                assert(states(self.senders()) =~= states_after(
                    old(self).senders(),
                    Some(i as int),
                    envelope@,
                )) by {
                    assert forall|j: int| 0 <= j < self.senders().len() implies states(
                        self.senders(),
                    )[j] == states_after(old(self).senders(), Some(i as int), envelope@)[j] by {
                        if j != i {
                            assert(self.senders()[j] == old(self).senders()[j]);
                        }
                    }
                }
            },
        }
    }
}

/// A router that may be gone: what is posted to it reaches the router as
/// long as that is there, and goes back as a broken link afterwards.
pub struct WeakMailboxRouter<S> {
    router: Option<MailboxRouter<S>>,
}

impl<S> WeakMailboxRouter<S> {
    /// The router, if it is still there.
    pub closed spec fn router(&self) -> Option<MailboxRouter<S>> {
        self.router
    }

    /// The router, if it is still there.
    pub fn upgrade(self) -> (r: Option<MailboxRouter<S>>)
        ensures
            r == self.router(),
    {
        self.router
    }

    /// The router goes away.
    pub fn release(&mut self)
        ensures
            final(self).router() is None,
    {
        self.router = None;
    }
}

impl<S: MailboxSender> MailboxSender for WeakMailboxRouter<S> {
    open spec fn wf(&self) -> bool {
        match self.router() {
            Some(router) => router.wf(),
            None => true,
        }
    }

    open spec fn state(&self) -> SenderState {
        SenderState::Weak(
            match self.router() {
                Some(router) => Some(Box::new(router.state())),
                None => None,
            },
        )
    }

    open spec fn after(&self, envelope: EnvelopeView) -> SenderState {
        SenderState::Weak(
            match self.router() {
                Some(router) => Some(Box::new(router.after(envelope))),
                None => None,
            },
        )
    }

    open spec fn refuses(&self, envelope: EnvelopeView) -> bool {
        match self.router() {
            Some(router) => router.refuses(envelope),
            None => false,
        }
    }

    open spec fn bounced(&self, envelope: EnvelopeView) -> Option<EnvelopeView> {
        match self.router() {
            Some(router) => router.bounced(envelope),
            None => Some(envelope.stamped(no_upgrade())),
        }
    }

    /// Posts the envelope to the router if that is still there; else the
    /// envelope goes back as a broken link.
    fn post(&mut self, envelope: MessageEnvelope, return_handle: &mut ReturnHandle)
        ensures
            final(self).router() is Some == old(self).router() is Some,
    {
        match self.router.take() {
            Some(mut router) => {
                router.post(envelope, return_handle);
                self.router = Some(router);
            },
            None => {
                envelope.undeliverable(
                    DeliveryError::broken_link("failed to upgrade WeakMailboxRouter"),
                    return_handle,
                );
            },
        }
    }
}

} // verus!
