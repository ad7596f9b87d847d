//! The dial router: a router from references to channel addresses, with a
//! cache of the clients of the channels, the addresses that it asks to be
//! dialed, and a default sender for what it has no address for.

use vstd::prelude::*;
use vstd::string::StringExecFns;
use crate::client::{AddrView, ChannelAddr, MailboxClient};
use crate::envelope::{
    DeliveryError, DeliveryErrorView, EnvelopeView, MessageEnvelope, ReturnHandle,
};
use crate::error::{
    ChannelError, ChannelErrorView, MailboxSenderError, MailboxSenderErrorKind,
    MailboxSenderErrorKindView, MailboxSenderErrorView, PortLocationView,
};
use crate::muxer::{dropped, states, states_after};
use crate::reference::{ActorId, ActorKey, Reference, ReferenceKey};
use crate::router::{ascending, inserted, route, RouteTable};
use crate::sender::{MailboxSender, SenderState, UnroutableMailboxSender};

verus! {

/// One entry of the cache: the client of the channel at an address.
pub struct Dialed {
    pub addr: ChannelAddr,
    pub client: MailboxClient,
}

/// A router that routes by reference to the clients of channels: it keeps
/// an address book from references to channel addresses and a cache of the
/// clients of the channels, one for each address at most. It makes the
/// client for an address when the first message for the address comes, and
/// asks then that the address be dialed. Messages that it has no address
/// for go to the default sender.
pub struct DialMailboxRouter<D> {
    address_book: RouteTable<ChannelAddr>,
    sender_cache: Vec<Dialed>,
    default: D,
    requests: Vec<ChannelAddr>,
}

/// The place of an address in a list of addresses, if it is in the list.
pub open spec fn cached(addrs: Seq<AddrView>, addr: AddrView) -> Option<int> {
    if exists|i: int| 0 <= i < addrs.len() && addrs[i] == addr {
        Some(choose|i: int| 0 <= i < addrs.len() && addrs[i] == addr)
    } else {
        None
    }
}

/// Whether no address occurs twice in the list.
pub open spec fn no_repeats(addrs: Seq<AddrView>) -> bool {
    forall|i: int, j: int| 0 <= i < j < addrs.len() ==> addrs[i] != addrs[j]
}

/// The error of an envelope whose destination could not be dialed.
pub open spec fn cannot_dial(actor: ActorKey, error: ChannelErrorView) -> DeliveryErrorView {
    DeliveryErrorView::Unroutable(
        "cannot dial destination: "@ + (MailboxSenderErrorView {
            location: PortLocationView::Unbound(actor, "unknown"@),
            kind: MailboxSenderErrorKindView::Channel(error),
        }).shown(),
    )
}

impl<D> DialMailboxRouter<D> {
    /// The references of the address book, in ascending order.
    pub closed spec fn book_keys(&self) -> Seq<ReferenceKey> {
        self.address_book.keys()
    }

    /// The addresses of the address book, each at the place of its reference.
    pub closed spec fn book_addrs(&self) -> Seq<AddrView> {
        Seq::new(
            self.address_book.targets().len(),
            |i: int| self.address_book.targets()[i]@,
        )
    }

    /// The addresses that a client is cached for.
    pub closed spec fn cache_addrs(&self) -> Seq<AddrView> {
        Seq::new(self.sender_cache@.len(), |i: int| self.sender_cache@[i].addr@)
    }

    /// The cached clients, each at the place of its address.
    pub closed spec fn cache_clients(&self) -> Seq<MailboxClient> {
        Seq::new(self.sender_cache@.len(), |i: int| self.sender_cache@[i].client)
    }

    /// The default sender.
    pub closed spec fn default_sender(&self) -> D {
        self.default
    }

    /// The addresses that wait to be dialed, in the order of the requests.
    pub closed spec fn requests(&self) -> Seq<AddrView> {
        Seq::new(self.requests@.len(), |i: int| self.requests@[i]@)
    }

    /// Whether the address book is in order and no address is cached twice.
    pub closed spec fn consistent(&self) -> bool {
        &&& self.address_book.wf()
        &&& no_repeats(self.cache_addrs())
    }

    /// The address that the book has for the actor, if it has one.
    pub open spec fn addr_of(&self, actor: ActorKey) -> Option<AddrView> {
        match route(self.book_keys(), ReferenceKey::Actor(actor)) {
            Some(i) => Some(self.book_addrs()[i]),
            None => None,
        }
    }

    /// A consistent router has its book in ascending order, an address for
    /// each reference, and a client for each cached address.
    pub proof fn lemma_consistent(&self)
        requires
            self.consistent(),
        ensures
            ascending(self.book_keys()),
            self.book_keys().len() == self.book_addrs().len(),
            self.cache_addrs().len() == self.cache_clients().len(),
            no_repeats(self.cache_addrs()),
    {
    }

    /// A new router with an empty address book and the given default
    /// sender, to which every message with an unknown destination goes.
    pub fn new_with_default(default: D) -> (r: Self)
        ensures
            r.consistent(),
            r.book_keys() == Seq::<ReferenceKey>::empty(),
            r.book_addrs() == Seq::<AddrView>::empty(),
            r.cache_addrs() == Seq::<AddrView>::empty(),
            r.requests() == Seq::<AddrView>::empty(),
            r.default_sender() == default,
    {
        let r = DialMailboxRouter {
            address_book: RouteTable::new(),
            sender_cache: Vec::new(),
            default,
            requests: Vec::new(),
        };
        assert(r.book_addrs() =~= Seq::empty());
        assert(r.cache_addrs() =~= Seq::empty());
        assert(r.requests() =~= Seq::empty());
        r
    }

    /// Where the client for the address is cached, if one is.
    fn find(&self, addr: &ChannelAddr) -> (r: Option<usize>)
        ensures
            match r {
                Some(i) => i < self.cache_addrs().len() && self.cache_addrs()[i as int] == addr@,
                None => forall|i: int| 0 <= i < self.cache_addrs().len() ==> self.cache_addrs()[i]
                    != addr@,
            },
    {
        let mut i: usize = 0;
        while i < self.sender_cache.len()
            invariant
                i <= self.sender_cache@.len(),
                forall|j: int| 0 <= j < i ==> self.cache_addrs()[j] != addr@,
            decreases self.sender_cache@.len() - i,
        {
            if self.sender_cache[i].addr == *addr {
                return Some(i);
            }
            i += 1;
        }
        None
    }

    /// Takes the client for the address out of the cache, if one is cached.
    fn evict(&mut self, addr: &ChannelAddr)
        requires
            old(self).consistent(),
        ensures
            final(self).consistent(),
            final(self).book_keys() == old(self).book_keys(),
            final(self).book_addrs() == old(self).book_addrs(),
            final(self).default_sender() == old(self).default_sender(),
            final(self).requests() == old(self).requests(),
            final(self).cache_addrs() == without(old(self).cache_addrs(), addr@),
            final(self).cache_clients() == dropped(
                old(self).cache_clients(),
                cached(old(self).cache_addrs(), addr@),
            ),
    {
        proof {
            lemma_without(self.cache_addrs(), addr@);
        }
        match self.find(addr) {
            Some(i) => {
                self.sender_cache.remove(i);
                assert(self.cache_clients() =~= old(self).cache_clients().remove(i as int));
                proof {
                    let before = old(self).cache_addrs();
                    let c = cached(before, addr@)->0;
                    if c < i {
                        assert(before[c] != before[i as int]);
                    } else if c > i {
                        assert(before[i as int] != before[c]);
                    }
                }
                assert(self.cache_addrs() =~= old(self).cache_addrs().remove(i as int));
            },
            None => {},
        }
    }

    /// Binds the reference to the address, in place of any address that it
    /// was bound to. Where the address changes, the client of the old
    /// address leaves the cache, so that the next message dials anew.
    pub fn bind(&mut self, dest: Reference, addr: ChannelAddr)
        requires
            old(self).consistent(),
        ensures
            final(self).consistent(),
            final(self).default_sender() == old(self).default_sender(),
            final(self).requests() == old(self).requests(),
            exists|previous: Option<AddrView>|
                inserted(
                    old(self).book_keys(),
                    old(self).book_addrs(),
                    dest@,
                    addr@,
                    final(self).book_keys(),
                    final(self).book_addrs(),
                    previous,
                ) && final(self).cache_addrs() == match previous {
                    Some(old_addr) if old_addr != addr@ => without(
                        old(self).cache_addrs(),
                        old_addr,
                    ),
                    _ => old(self).cache_addrs(),
                } && final(self).cache_clients() == match previous {
                    Some(old_addr) if old_addr != addr@ => dropped(
                        old(self).cache_clients(),
                        cached(old(self).cache_addrs(), old_addr),
                    ),
                    _ => old(self).cache_clients(),
                },
    {
        let ghost old_targets = self.address_book.targets();
        let previous = self.address_book.insert(dest, addr.clone());
        let ghost book_addrs = self.book_addrs();
        proof {
            let keys = old(self).book_keys();
            let targets = self.address_book.targets();
            if exists|i: int| 0 <= i < keys.len() && keys[i] == dest@ {
                let i = choose|i: int| 0 <= i < keys.len() && keys[i] == dest@;
                assert(book_addrs =~= old(self).book_addrs().update(i, addr@));
            } else {
                let n = choose|n: int|
                    0 <= n <= keys.len() && self.address_book.keys() == keys.insert(n, dest@)
                        && targets == old_targets.insert(n, addr);
                assert(book_addrs =~= old(self).book_addrs().insert(n, addr@));
            }
        }
        let ghost witness: Option<AddrView> = opt_addr(previous);
        match previous {
            Some(old_addr) => {
                if old_addr != addr {
                    self.evict(&old_addr);
                }
            },
            None => {},
        }
        assert(inserted(
            old(self).book_keys(),
            old(self).book_addrs(),
            dest@,
            addr@,
            self.book_keys(),
            self.book_addrs(),
            witness,
        ));
    }

    /// The address that the book has for the actor: that of the nearest
    /// reference at or before the actor, if that reference is a prefix of
    /// the actor.
    pub fn lookup_addr(&self, actor_id: &ActorId) -> (r: Option<ChannelAddr>)
        requires
            self.consistent(),
        ensures
            match r {
                Some(addr) => self.addr_of(actor_id@) == Some(addr@),
                None => self.addr_of(actor_id@) is None,
            },
    {
        let dest = Reference::Actor(actor_id.clone());
        match self.address_book.lookup(&dest) {
            Some(i) => Some(self.address_book.target(i).clone()),
            None => None,
        }
    }

    /// Removes from the address book every reference that `dest` is a
    /// prefix of, and from the cache the clients of their addresses.
    pub fn unbind(&mut self, dest: &Reference)
        requires
            old(self).consistent(),
        ensures
            final(self).consistent(),
            final(self).default_sender() == old(self).default_sender(),
            final(self).requests() == old(self).requests(),
            final(self).book_keys() == remaining(
                old(self).book_keys(),
                dest@,
                old(self).book_keys().len() as int,
            ),
            final(self).book_addrs() == remaining_addrs(
                old(self).book_keys(),
                old(self).book_addrs(),
                dest@,
                old(self).book_keys().len() as int,
            ),
            final(self).cache_addrs() == swept(
                old(self).cache_addrs(),
                old(self).book_keys(),
                old(self).book_addrs(),
                dest@,
                old(self).book_keys().len() as int,
            ),
            final(self).cache_clients() == swept_clients(
                old(self).cache_clients(),
                old(self).cache_addrs(),
                old(self).book_keys(),
                old(self).book_addrs(),
                dest@,
                old(self).book_keys().len() as int,
            ),
    {
        let ghost keys = self.book_keys();
        let ghost addrs = self.book_addrs();
        let ghost cache = self.cache_addrs();
        let ghost clients = self.cache_clients();
        let ghost mut k: int = 0;
        let mut i: usize = 0;
        assert(self.book_keys() =~= remaining(keys, dest@, 0) + keys.subrange(
            0,
            keys.len() as int,
        ));
        assert(self.book_addrs() =~= remaining_addrs(keys, addrs, dest@, 0) + addrs.subrange(
            0,
            keys.len() as int,
        ));
        while i < self.address_book.len()
            invariant
                self.consistent(),
                self.default_sender() == old(self).default_sender(),
                self.requests() == old(self).requests(),
                keys.len() == addrs.len(),
                0 <= k <= keys.len(),
                i == remaining(keys, dest@, k).len(),
                i == remaining_addrs(keys, addrs, dest@, k).len(),
                self.book_keys() == remaining(keys, dest@, k) + keys.subrange(k, keys.len() as int),
                self.book_addrs() == remaining_addrs(keys, addrs, dest@, k) + addrs.subrange(
                    k,
                    keys.len() as int,
                ),
                self.cache_addrs() == swept(cache, keys, addrs, dest@, k),
                self.cache_clients() == swept_clients(clients, cache, keys, addrs, dest@, k),
            decreases keys.len() - k,
        {
            let ghost front = remaining(keys, dest@, k);
            let ghost front_addrs = remaining_addrs(keys, addrs, dest@, k);
            assert(k < keys.len());
            assert(self.book_keys()[i as int] == keys[k]);
            assert(self.book_addrs()[i as int] == addrs[k]);
            if dest.is_prefix_of(self.address_book.key(i)) {
                let ghost before_addrs = self.book_addrs();
                let entry = self.address_book.remove(i);
                assert(self.book_addrs() =~= before_addrs.remove(i as int));
                self.evict(&entry.target);
                assert(self.book_keys() =~= front + keys.subrange(k + 1, keys.len() as int));
                assert(self.book_addrs() =~= front_addrs + addrs.subrange(
                    k + 1,
                    keys.len() as int,
                ));
            } else {
                assert(self.book_keys() =~= front.push(keys[k]) + keys.subrange(
                    k + 1,
                    keys.len() as int,
                ));
                assert(self.book_addrs() =~= front_addrs.push(addrs[k]) + addrs.subrange(
                    k + 1,
                    keys.len() as int,
                ));
                i += 1;
            }
            proof {
                k = k + 1;
            }
        }
        assert(k == keys.len());
        assert(self.book_keys() =~= remaining(keys, dest@, k));
        assert(self.book_addrs() =~= remaining_addrs(keys, addrs, dest@, k));
    }

    /// Takes the envelope that is to be transmitted next to the address.
    pub fn next_for(&mut self, addr: &ChannelAddr) -> (r: Option<MessageEnvelope>)
        requires
            old(self).consistent(),
        ensures
            final(self).consistent(),
            final(self).book_keys() == old(self).book_keys(),
            final(self).book_addrs() == old(self).book_addrs(),
            final(self).cache_addrs() == old(self).cache_addrs(),
            final(self).default_sender() == old(self).default_sender(),
            final(self).requests() == old(self).requests(),
            match r {
                Some(envelope) => cached(old(self).cache_addrs(), addr@) matches Some(i) && old(
                    self).cache_clients()[i].outbox().len() > 0 && envelope@ == old(
                    self).cache_clients()[i].outbox()[0] && final(self).cache_clients()[i].outbox()
                    == old(self).cache_clients()[i].outbox().drop_first() && forall|j: int|
                    0 <= j < old(self).cache_clients().len() && j != i ==> final(
                        self).cache_clients()[j] == old(self).cache_clients()[j],
                None => match cached(old(self).cache_addrs(), addr@) {
                    Some(i) => old(self).cache_clients()[i].outbox().len() == 0,
                    None => true,
                },
            },
    {
        match self.find(addr) {
            Some(i) => {
                proof {
                    let c = cached(self.cache_addrs(), addr@)->0;
                    if c < i {
                        assert(self.cache_addrs()[c] != self.cache_addrs()[i as int]);
                    } else if c > i {
                        assert(self.cache_addrs()[i as int] != self.cache_addrs()[c]);
                    }
                }
                let entry = &mut self.sender_cache[i];
                let r = entry.client.next();
                assert(self.cache_addrs() =~= old(self).cache_addrs());
                r
            },
            None => None,
        }
    }
}

/// An optional address as what it stands for.
pub open spec fn opt_addr(addr: Option<ChannelAddr>) -> Option<AddrView> {
    match addr {
        Some(a) => Some(a@),
        None => None,
    }
}

/// What taking the client of `addr` out of the cache makes of the cached
/// addresses: the address is gone, and the others stay in their order.
pub open spec fn evicted(before: Seq<AddrView>, addr: AddrView, after: Seq<AddrView>) -> bool {
    match cached(before, addr) {
        Some(i) => after == before.remove(i),
        None => after == before,
    }
}

/// After an eviction, what is cached was cached before.
pub proof fn lemma_evicted_subset(
    before: Seq<AddrView>,
    addr: AddrView,
    after: Seq<AddrView>,
    other: AddrView,
)
    requires
        evicted(before, addr, after),
    ensures
        cached(after, other) is Some ==> cached(before, other) is Some,
{
    if cached(after, other) is Some {
        let j = cached(after, other)->0;
        match cached(before, addr) {
            Some(i) => {
                let b = if j < i {
                    j
                } else {
                    j + 1
                };
                assert(before[b] == other);
            },
            None => {},
        }
    }
}

/// The first `n` references without those that `dest` is a prefix of.
pub open spec fn remaining(keys: Seq<ReferenceKey>, dest: ReferenceKey, n: int) -> Seq<
    ReferenceKey,
>
    decreases n,
{
    if n <= 0 {
        Seq::empty()
    } else if dest.is_prefix_of(keys[n - 1]) {
        remaining(keys, dest, n - 1)
    } else {
        remaining(keys, dest, n - 1).push(keys[n - 1])
    }
}

/// The addresses of the first `n` references without those of the
/// references that `dest` is a prefix of.
pub open spec fn remaining_addrs(
    keys: Seq<ReferenceKey>,
    addrs: Seq<AddrView>,
    dest: ReferenceKey,
    n: int,
) -> Seq<AddrView>
    decreases n,
{
    if n <= 0 {
        Seq::empty()
    } else if dest.is_prefix_of(keys[n - 1]) {
        remaining_addrs(keys, addrs, dest, n - 1)
    } else {
        remaining_addrs(keys, addrs, dest, n - 1).push(addrs[n - 1])
    }
}

/// The cached addresses without one address.
pub open spec fn without(cache: Seq<AddrView>, addr: AddrView) -> Seq<AddrView> {
    match cached(cache, addr) {
        Some(i) => cache.remove(i),
        None => cache,
    }
}

/// The cached clients without those of the addresses of those of the first
/// `n` references that `dest` is a prefix of.
pub open spec fn swept_clients<C>(
    clients: Seq<C>,
    cache: Seq<AddrView>,
    keys: Seq<ReferenceKey>,
    addrs: Seq<AddrView>,
    dest: ReferenceKey,
    n: int,
) -> Seq<C>
    decreases n,
{
    if n <= 0 {
        clients
    } else if dest.is_prefix_of(keys[n - 1]) {
        dropped(
            swept_clients(clients, cache, keys, addrs, dest, n - 1),
            cached(swept(cache, keys, addrs, dest, n - 1), addrs[n - 1]),
        )
    } else {
        swept_clients(clients, cache, keys, addrs, dest, n - 1)
    }
}

/// The cached addresses without the addresses of those of the first `n`
/// references that `dest` is a prefix of.
pub open spec fn swept(
    cache: Seq<AddrView>,
    keys: Seq<ReferenceKey>,
    addrs: Seq<AddrView>,
    dest: ReferenceKey,
    n: int,
) -> Seq<AddrView>
    decreases n,
{
    if n <= 0 {
        cache
    } else if dest.is_prefix_of(keys[n - 1]) {
        without(swept(cache, keys, addrs, dest, n - 1), addrs[n - 1])
    } else {
        swept(cache, keys, addrs, dest, n - 1)
    }
}

/// After an unbind the book holds no reference that `dest` is a prefix
/// of, and every other reference that it held.
pub proof fn lemma_remaining(keys: Seq<ReferenceKey>, dest: ReferenceKey, n: int)
    requires
        0 <= n <= keys.len(),
    ensures
        forall|j: int|
            0 <= j < remaining(keys, dest, n).len() ==> !dest.is_prefix_of(
                #[trigger] remaining(keys, dest, n)[j],
            ),
        forall|k: int|
            0 <= k < n && !dest.is_prefix_of(#[trigger] keys[k]) ==> remaining(
                keys,
                dest,
                n,
            ).contains(keys[k]),
        forall|j: int|
            0 <= j < remaining(keys, dest, n).len() ==> keys.contains(
                #[trigger] remaining(keys, dest, n)[j],
            ),
    decreases n,
{
    if n > 0 {
        lemma_remaining(keys, dest, n - 1);
        let before = remaining(keys, dest, n - 1);
        let after = remaining(keys, dest, n);
        assert forall|k: int|
            0 <= k < n && !dest.is_prefix_of(#[trigger] keys[k]) implies after.contains(
            keys[k],
        ) by {
            if k < n - 1 {
                let j = choose|j: int| 0 <= j < before.len() && before[j] == keys[k];
                assert(after[j] == keys[k]);
            } else {
                assert(after[after.len() - 1] == keys[k]);
            }
        }
        assert forall|j: int| 0 <= j < after.len() implies keys.contains(#[trigger] after[j]) by {
            if j < before.len() {
                assert(after[j] == before[j]);
            } else {
                assert(keys[n - 1] == after[j]);
            }
        }
    }
}

/// After an unbind no client is cached for the address of a reference
/// that left the book, provided no address was cached twice.
pub proof fn lemma_swept(
    cache: Seq<AddrView>,
    keys: Seq<ReferenceKey>,
    addrs: Seq<AddrView>,
    dest: ReferenceKey,
    n: int,
)
    requires
        0 <= n <= keys.len(),
        keys.len() == addrs.len(),
        no_repeats(cache),
    ensures
        no_repeats(swept(cache, keys, addrs, dest, n)),
        forall|a: AddrView|
            cached(swept(cache, keys, addrs, dest, n), a) is Some ==> cached(cache, a) is Some,
        forall|k: int|
            0 <= k < n && dest.is_prefix_of(#[trigger] keys[k]) ==> cached(
                swept(cache, keys, addrs, dest, n),
                addrs[k],
            ) is None,
    decreases n,
{
    if n > 0 {
        lemma_swept(cache, keys, addrs, dest, n - 1);
        let before = swept(cache, keys, addrs, dest, n - 1);
        let after = swept(cache, keys, addrs, dest, n);
        if dest.is_prefix_of(keys[n - 1]) {
            lemma_without(before, addrs[n - 1]);
            assert forall|a: AddrView| cached(after, a) is Some implies cached(cache, a)
                is Some by {
                lemma_evicted_subset(before, addrs[n - 1], after, a);
            }
            assert forall|k: int|
                0 <= k < n && dest.is_prefix_of(#[trigger] keys[k]) implies cached(
                after,
                addrs[k],
            ) is None by {
                if k < n - 1 {
                    lemma_evicted_subset(before, addrs[n - 1], after, addrs[k]);
                }
            }
        }
    }
}

/// Taking an address out of a list without repeats leaves a list without
/// repeats that does not hold the address.
pub proof fn lemma_without(cache: Seq<AddrView>, addr: AddrView)
    requires
        no_repeats(cache),
    ensures
        no_repeats(without(cache, addr)),
        cached(without(cache, addr), addr) is None,
        evicted(cache, addr, without(cache, addr)),
{
    match cached(cache, addr) {
        Some(i) => {
            let after = cache.remove(i);
            assert forall|a: int, b: int| 0 <= a < b < after.len() implies after[a] != after[b] by {
                let x = if a < i {
                    a
                } else {
                    a + 1
                };
                let y = if b < i {
                    b
                } else {
                    b + 1
                };
                assert(cache[x] != cache[y]);
            }
            if cached(after, addr) is Some {
                let j = cached(after, addr)->0;
                let y = if j < i {
                    j
                } else {
                    j + 1
                };
                assert(cache[y] == addr);
                if y < i {
                    assert(cache[y] != cache[i]);
                } else {
                    assert(cache[i] != cache[y]);
                }
            }
        },
        None => {},
    }
}

impl<D> DialMailboxRouter<D> {
    /// The address that posting an envelope for the actor asks to dial:
    /// the one that the book has for the actor, unless a client is cached
    /// for it.
    pub open spec fn dials(&self, actor: ActorKey) -> Option<AddrView> {
        match self.addr_of(actor) {
            Some(addr) => if cached(self.cache_addrs(), addr) is None {
                Some(addr)
            } else {
                None
            },
            None => None,
        }
    }

    /// The client for the address: the cached one, or else a new one,
    /// which is cached, and for which the address is asked to be dialed.
    /// Returns the client's place in the cache.
    fn dial(&mut self, addr: &ChannelAddr) -> (r: usize)
        requires
            old(self).consistent(),
        ensures
            final(self).consistent(),
            final(self).book_keys() == old(self).book_keys(),
            final(self).book_addrs() == old(self).book_addrs(),
            final(self).default_sender() == old(self).default_sender(),
            r < final(self).cache_addrs().len(),
            cached(final(self).cache_addrs(), addr@) == Some(r as int),
            cached(old(self).cache_addrs(), addr@) matches Some(i) ==> {
                &&& r == i
                &&& final(self).cache_addrs() == old(self).cache_addrs()
                &&& final(self).cache_clients() == old(self).cache_clients()
                &&& final(self).requests() == old(self).requests()
            },
            cached(old(self).cache_addrs(), addr@) is None ==> {
                &&& r == old(self).cache_addrs().len()
                &&& final(self).requests() == old(self).requests().push(addr@)
                &&& final(self).cache_addrs() == old(self).cache_addrs().push(addr@)
                &&& final(self).cache_clients().len() == old(self).cache_clients().len() + 1
                &&& final(self).cache_clients().drop_last() == old(self).cache_clients()
                &&& final(self).cache_clients().last().is_open()
                &&& final(self).cache_clients().last().outbox() == Seq::<EnvelopeView>::empty()
                &&& final(self).cache_clients().last().sent() == 0
                &&& final(self).cache_clients().last().done() == 0
            },
    {
        match self.find(addr) {
            Some(i) => {
                proof {
                    let c = cached(self.cache_addrs(), addr@)->0;
                    if c < i {
                        assert(self.cache_addrs()[c] != self.cache_addrs()[i as int]);
                    } else if c > i {
                        assert(self.cache_addrs()[i as int] != self.cache_addrs()[c]);
                    }
                }
                i
            },
            None => {
                let i = self.sender_cache.len();
                self.sender_cache.push(
                    Dialed { addr: addr.clone(), client: MailboxClient::new(addr.clone()) },
                );
                self.requests.push(addr.clone());
                assert(self.requests() =~= old(self).requests().push(addr@));
                assert(self.cache_addrs() =~= old(self).cache_addrs().push(addr@));
                assert(self.cache_clients().drop_last() =~= old(self).cache_clients());
                proof {
                    let after = self.cache_addrs();
                    assert(after[i as int] == addr@);
                    assert forall|a: int, b: int| 0 <= a < b < after.len() implies after[a]
                        != after[b] by {
                        if b < i {
                            assert(old(self).cache_addrs()[a] != old(self).cache_addrs()[b]);
                        }
                    }
                    let c = cached(after, addr@)->0;
                    if c < i {
                        assert(old(self).cache_addrs()[c] == addr@);
                    }
                }
                i
            },
        }
    }

    /// The address that is to be dialed next, if one waits: the caller
    /// dials it, and reports back with [`DialMailboxRouter::dial_failed`]
    /// where that fails.
    pub fn next_dial(&mut self) -> (r: Option<ChannelAddr>)
        requires
            old(self).consistent(),
        ensures
            final(self).consistent(),
            final(self).book_keys() == old(self).book_keys(),
            final(self).book_addrs() == old(self).book_addrs(),
            final(self).cache_addrs() == old(self).cache_addrs(),
            final(self).cache_clients() == old(self).cache_clients(),
            final(self).default_sender() == old(self).default_sender(),
            match r {
                Some(addr) => old(self).requests().len() > 0 && addr@ == old(self).requests()[0]
                    && final(self).requests() == old(self).requests().drop_first(),
                None => old(self).requests().len() == 0 && final(self).requests() == old(
                    self).requests(),
            },
    {
        if self.requests.len() == 0 {
            None
        } else {
            let addr = self.requests.remove(0);
            assert(self.requests() =~= old(self).requests().drop_first());
            Some(addr)
        }
    }

    /// The address could not be dialed: its client leaves the cache, and
    /// every envelope that waits in it goes back as unroutable, in the
    /// order in which they were posted.
    pub fn dial_failed(
        &mut self,
        addr: &ChannelAddr,
        error: &ChannelError,
        return_handle: &mut ReturnHandle,
    )
        requires
            old(self).consistent(),
        ensures
            final(self).consistent(),
            final(self).book_keys() == old(self).book_keys(),
            final(self).book_addrs() == old(self).book_addrs(),
            final(self).default_sender() == old(self).default_sender(),
            final(self).requests() == old(self).requests(),
            final(self).cache_addrs() == without(old(self).cache_addrs(), addr@),
            final(self).cache_clients() == dropped(
                old(self).cache_clients(),
                cached(old(self).cache_addrs(), addr@),
            ),
            final(return_handle)@ == old(return_handle)@ + match cached(
                old(self).cache_addrs(),
                addr@,
            ) {
                Some(i) => undialed(old(self).cache_clients()[i].outbox(), error@),
                None => Seq::empty(),
            },
    {
        proof {
            lemma_without(self.cache_addrs(), addr@);
        }
        match self.find(addr) {
            Some(i) => {
                proof {
                    let before = old(self).cache_addrs();
                    let c = cached(before, addr@)->0;
                    if c < i {
                        assert(before[c] != before[i as int]);
                    } else if c > i {
                        assert(before[i as int] != before[c]);
                    }
                }
                let mut entry = self.sender_cache.remove(i);
                assert(self.cache_addrs() =~= old(self).cache_addrs().remove(i as int));
                assert(self.cache_clients() =~= old(self).cache_clients().remove(i as int));
                let ghost outbox = entry.client.outbox();
                assert(outbox == old(self).cache_clients()[i as int].outbox());
                assert(cached(old(self).cache_addrs(), addr@) == Some(i as int));
                let ghost mut n: int = 0;
                assert(undialed(outbox.take(0), error@) =~= Seq::empty());
                assert(outbox.skip(0) =~= outbox);
                loop
                    invariant
                        0 <= n <= outbox.len(),
                        entry.client.outbox() == outbox.skip(n),
                        return_handle@ == old(return_handle)@ + undialed(outbox.take(n), error@),
                    ensures
                        n == outbox.len(),
                    decreases outbox.len() - n,
                {
                    match entry.client.next() {
                        Some(envelope) => {
                            let mut reason = String::from_str("cannot dial destination: ");
                            let cause = MailboxSenderError::new_unbound_type(
                                envelope.dest().actor_id().clone(),
                                MailboxSenderErrorKind::Channel(error.clone()),
                                "unknown",
                            );
                            reason.append(cause.to_string().as_str());
                            envelope.undeliverable(
                                DeliveryError::Unroutable(reason),
                                return_handle,
                            );
                            proof {
                                assert(outbox.skip(n)[0] == outbox[n]);
                                assert(outbox.skip(n).drop_first() =~= outbox.skip(n + 1));
                                assert(undialed(outbox.take(n + 1), error@) =~= undialed(
                                    outbox.take(n),
                                    error@,
                                ).push(
                                    outbox[n].stamped(
                                        cannot_dial(outbox[n].dest.actor, error@),
                                    ),
                                ));
                                n = n + 1;
                            }
                        },
                        None => {
                            break ;
                        },
                    }
                }
                assert(outbox.take(n) =~= outbox);
            },
            None => {
                assert(return_handle@ + Seq::<EnvelopeView>::empty() =~= return_handle@);
            },
        }
    }
}

/// The envelopes that come back when their address could not be dialed.
pub open spec fn undialed(outbox: Seq<EnvelopeView>, error: ChannelErrorView) -> Seq<EnvelopeView> {
    Seq::new(
        outbox.len(),
        |i: int| outbox[i].stamped(cannot_dial(outbox[i].dest.actor, error)),
    )
}

impl DialMailboxRouter<UnroutableMailboxSender> {
    /// A new router with an empty address book. What it has no address
    /// for goes back as unroutable.
    pub fn new() -> (r: Self)
        ensures
            r.consistent(),
            r.book_keys() == Seq::<ReferenceKey>::empty(),
            r.book_addrs() == Seq::<AddrView>::empty(),
            r.cache_addrs() == Seq::<AddrView>::empty(),
            r.requests() == Seq::<AddrView>::empty(),
    {
        Self::new_with_default(UnroutableMailboxSender)
    }
}

impl<D: MailboxSender> MailboxSender for DialMailboxRouter<D> {
    open spec fn wf(&self) -> bool {
        self.consistent() && self.default_sender().wf()
    }

    open spec fn state(&self) -> SenderState {
        SenderState::Dial {
            cache: self.cache_addrs(),
            clients: states(self.cache_clients()),
            default: Box::new(self.default_sender().state()),
            requests: self.requests(),
        }
    }

    open spec fn after(&self, envelope: EnvelopeView) -> SenderState {
        match self.addr_of(envelope.dest.actor) {
            None => SenderState::Dial {
                cache: self.cache_addrs(),
                clients: states(self.cache_clients()),
                default: Box::new(self.default_sender().after(envelope)),
                requests: self.requests(),
            },
            Some(addr) => match cached(self.cache_addrs(), addr) {
                Some(i) => SenderState::Dial {
                    cache: self.cache_addrs(),
                    clients: states_after(self.cache_clients(), Some(i), envelope),
                    default: Box::new(self.default_sender().state()),
                    requests: self.requests(),
                },
                None => SenderState::Dial {
                    cache: self.cache_addrs().push(addr),
                    clients: states(self.cache_clients()).push(first_post(envelope)),
                    default: Box::new(self.default_sender().state()),
                    requests: self.requests().push(addr),
                },
            },
        }
    }

    open spec fn refuses(&self, envelope: EnvelopeView) -> bool {
        match self.addr_of(envelope.dest.actor) {
            Some(_) => false,
            None => self.default_sender().refuses(envelope),
        }
    }

    open spec fn bounced(&self, envelope: EnvelopeView) -> Option<EnvelopeView> {
        match self.addr_of(envelope.dest.actor) {
            None => self.default_sender().bounced(envelope),
            Some(addr) => match cached(self.cache_addrs(), addr) {
                Some(i) => self.cache_clients()[i].bounced(envelope),
                None => None,
            },
        }
    }

    /// Posts the envelope to the client of the address that the book has
    /// for the actor of the destination. Where no client is cached for the
    /// address a new one is made and cached, and the address is asked to be
    /// dialed: that happens exactly when the book has an address and no
    /// client is cached for it. An envelope that the book has no address
    /// for goes to the default sender.
    fn post(&mut self, envelope: MessageEnvelope, return_handle: &mut ReturnHandle)
        ensures
            final(self).book_keys() == old(self).book_keys(),
            final(self).book_addrs() == old(self).book_addrs(),
            after_post(*old(self), envelope@.dest.actor, *final(self)),
    {
        let addr = match self.lookup_addr(envelope.dest().actor_id()) {
            Some(addr) => addr,
            None => {
                self.default.post(envelope, return_handle);
                return ;
            },
        };
        let i = self.dial(&addr);
        let ghost before = self.cache_addrs();
        let ghost clients = self.cache_clients();
        let ghost at: Option<int> = Some(i as int);
        proof {
            old(self).lemma_consistent();
            self.lemma_consistent();
            if cached(old(self).cache_addrs(), addr@) is None {
                assert(old(self).cache_addrs().len() == old(self).cache_clients().len());
                assert(clients.len() == old(self).cache_clients().len() + 1);
                assert(clients.last() == clients[i as int]);
                assert(clients[i as int].is_open());
            } else {
                assert(clients[i as int] == old(self).cache_clients()[i as int]);
            }
        }
        assert(i < self.sender_cache@.len());
        let entry = &mut self.sender_cache[i];
        entry.client.post(envelope, return_handle);
        assert(self.cache_addrs() =~= before);
        proof {
            let now = self.cache_clients();
            assert(now.len() == clients.len());
            assert forall|j: int| 0 <= j < now.len() && j != i implies now[j] == clients[j] by {}
            assert(now[i as int].state() == clients[i as int].after(envelope@));
            if cached(old(self).cache_addrs(), addr@) is None {
                let earlier = old(self).cache_clients();
                assert(clients.drop_last() == earlier);
                assert forall|j: int| 0 <= j < earlier.len() implies clients[j] == earlier[j] by {
                    assert(clients.drop_last()[j] == clients[j]);
                }
                assert(states(now) =~= states(earlier).push(first_post(envelope@)));
            } else {
                assert(states(now) =~= states_after(clients, at, envelope@));
            }
        }
    }
}

/// What a client that was just made stands for once its first envelope
/// was posted to it.
pub open spec fn first_post(envelope: EnvelopeView) -> SenderState {
    SenderState::Client { outbox: seq![envelope], open: true, sent: 1, done: 0 }
}

/// Whether `after` is the router that a post of an envelope for `actor`
/// makes of `before`, as far as the cache and the requests to dial go: an
/// address is cached and asked to be dialed exactly when the book has it
/// for the actor and no client is cached for it.
pub open spec fn after_post<D>(
    before: DialMailboxRouter<D>,
    actor: ActorKey,
    after: DialMailboxRouter<D>,
) -> bool {
    &&& after.book_keys() == before.book_keys()
    &&& after.book_addrs() == before.book_addrs()
    &&& after.cache_addrs() == match before.dials(actor) {
        Some(addr) => before.cache_addrs().push(addr),
        None => before.cache_addrs(),
    }
    &&& after.requests() == match before.dials(actor) {
        Some(addr) => before.requests().push(addr),
        None => before.requests(),
    }
}

/// The dial cache: once an envelope was posted for an address, no later
/// post for that address, for whichever actor the book has it, asks to
/// dial: a client is cached for the address, and stays so until an unbind,
/// a bind of another address, or a failed dial evicts it.
pub proof fn lemma_dial_once<D>(
    before: DialMailboxRouter<D>,
    first: ActorKey,
    after: DialMailboxRouter<D>,
    second: ActorKey,
)
    requires
        after_post(before, first, after),
        before.addr_of(first) is Some,
        after.addr_of(second) == before.addr_of(first),
    ensures
        after.dials(second) is None,
        after_post(after, second, after),
{
    let addr = before.addr_of(first)->0;
    match before.dials(first) {
        Some(a) => {
            assert(before.cache_addrs().push(addr)[before.cache_addrs().len() as int] == addr);
        },
        None => {},
    }
}

} // verus!
