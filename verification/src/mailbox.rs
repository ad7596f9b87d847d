//! The mailbox of an actor: its port table, the state behind its ports, and
//! the dispatch of envelopes that are posted to it.

use vstd::prelude::*;
use dashmap::DashMap;
use vstd::string::StringExecFns;
use crate::accum::{resolve_reducer, Reducer, ReducerSpec, ReducerSpecView};
use crate::attrs::Attrs;
use crate::data::{Serialized, SerializedView, WireFormat};
use crate::envelope::{
    DeliveryError, DeliveryErrorView, EnvelopeView, MessageEnvelope, ReturnHandle,
};
use crate::error::{
    MailboxError, MailboxErrorKind, MailboxErrorView, MailboxSenderError,
    MailboxSenderErrorKindView, MailboxSenderErrorView, PortLocationView,
};
use crate::port::{
    Accepted, Channel, ChannelView, Delivery, Sink, SinkView, SplitPortBuffer, Take,
};
use crate::reference::{ActorId, ActorKey, PortId, PortKey};
use crate::sender::{after_return, MailboxSender, PanickingMailboxSender, SenderState};

verus! {

/// The first port index that a mailbox hands out: the indices below it are
/// kept for the ports of actor handlers.
pub const USER_PORT_OFFSET: u64 = 1024;

/// `dashmap::DashMap`, the concurrent hash map that holds the port table.
/// Nothing is known of a value of it but what [`bound_ports`] names.
#[verifier::external_type_specification]
#[verifier::external_body]
#[verifier::reject_recursive_types(K)]
#[verifier::reject_recursive_types(V)]
#[verifier::reject_recursive_types(S)]
pub struct ExDashMap<K, V, S>(DashMap<K, V, S>);

/// The entries of a port table: the channel behind each bound port index.
/// The mailbox holds its table alone and changes it through the functions
/// below only, so that the entries are what those functions made of them.
pub uninterp spec fn bound_ports(table: DashMap<u64, u64>) -> Map<u64, u64>;

/// A port table without entries.
///
/// Trusted: `DashMap::new` makes an empty map.
#[verifier::external_body]
fn table_new() -> (table: DashMap<u64, u64>)
    ensures
        bound_ports(table).dom() == Set::<u64>::empty(),
{
    DashMap::new()
}

/// The channel bound under a port index, if one is.
///
/// Trusted: `DashMap::get` finds the value that was last inserted under the
/// key and not removed since.
#[verifier::external_body]
fn table_get(table: &DashMap<u64, u64>, index: u64) -> (found: Option<u64>)
    ensures
        found == if bound_ports(*table).contains_key(index) {
            Some(bound_ports(*table)[index])
        } else {
            None::<u64>
        },
{
    table.get(&index).map(|entry| *entry.value())
}

/// Binds a port index to a channel, in place of what was bound under it.
///
/// Trusted: `DashMap::insert` puts the value under the key, leaves the
/// other entries as they are, and returns the value that it replaces.
#[verifier::external_body]
fn table_insert(table: &mut DashMap<u64, u64>, index: u64, channel: u64) -> (previous: Option<u64>)
    ensures
        bound_ports(*final(table)) == bound_ports(*old(table)).insert(index, channel),
        previous == if bound_ports(*old(table)).contains_key(index) {
            Some(bound_ports(*old(table))[index])
        } else {
            None::<u64>
        },
{
    table.insert(index, channel)
}

/// Removes the entry under a port index, if there is one.
///
/// Trusted: `DashMap::remove` takes out the entry under the key, leaves
/// the other entries as they are, and returns the value that was there.
#[verifier::external_body]
fn table_remove(table: &mut DashMap<u64, u64>, index: u64) -> (removed: Option<u64>)
    ensures
        bound_ports(*final(table)) == bound_ports(*old(table)).remove(index),
        removed == if bound_ports(*old(table)).contains_key(index) {
            Some(bound_ports(*old(table))[index])
        } else {
            None::<u64>
        },
{
    table.remove(&index).map(|entry| entry.1)
}

/// What a mailbox stands for: the actor, the next port index to hand out,
/// the port table, the state behind each port that was ever opened, the
/// size of the batches that split ports reduce, and the actor's port for
/// the envelopes that come back to it.
pub struct MailboxView {
    pub actor_id: ActorKey,
    pub next_port: u64,
    pub ports: Map<u64, u64>,
    pub channels: Seq<ChannelView>,
    pub split_limit: usize,
    /// The envelopes that came back to the actor and wait to be taken, if
    /// the actor bound its port for them.
    pub undeliverable: Option<Seq<EnvelopeView>>,
    /// Whether the actor was warned that it sends without that port.
    pub warned: bool,
}

/// Where an envelope that was posted to a mailbox ends up.
pub enum Trip {
    /// A port of the mailbox took the message.
    Delivered,
    /// The envelope is for another actor, and goes to the forwarder.
    Forwarded(EnvelopeView),
    /// The envelope goes back to its sender.
    Returned(EnvelopeView),
}

/// The error of an envelope for a port that is not bound.
pub open spec fn port_not_bound() -> DeliveryErrorView {
    DeliveryErrorView::Unroutable("port not bound in mailbox"@)
}

/// The error of an envelope that went round in a cycle of split ports.
pub open spec fn split_cycle() -> DeliveryErrorView {
    DeliveryErrorView::Mailbox("split ports form a cycle"@)
}

/// The error of an envelope whose message the port at `dest` did not take.
pub open spec fn not_taken(dest: PortKey, kind: MailboxSenderErrorKindView) -> DeliveryErrorView {
    DeliveryErrorView::Mailbox(
        (MailboxSenderErrorView { location: PortLocationView::Bound(dest), kind }).shown(),
    )
}

/// The envelope in which a split port passes a message on.
pub open spec fn passed_on(from: ActorKey, target: PortKey, data: SerializedView) -> EnvelopeView {
    EnvelopeView { sender: from, dest: target, data, error: None, headers: Seq::empty() }
}

impl MailboxView {
    /// Whether the mailbox is consistent: it hands out user ports only, it
    /// reduces batches of at least one update, and every bound port has a
    /// channel.
    pub open spec fn wf(self) -> bool {
        &&& self.next_port >= USER_PORT_OFFSET
        &&& self.split_limit >= 1
        &&& forall|k: u64| #[trigger]
            self.ports.contains_key(k) ==> self.ports[k] < self.channels.len()
    }

    /// The mailbox with other state behind one port.
    pub open spec fn with_channel(self, channel: int, state: ChannelView) -> MailboxView {
        MailboxView { channels: self.channels.update(channel, state), ..self }
    }

    /// The mailbox without the binding of a port index.
    pub open spec fn unbound(self, index: u64) -> MailboxView {
        MailboxView { ports: self.ports.remove(index), ..self }
    }

    /// The mailbox with a port index bound to a channel.
    pub open spec fn bound(self, index: u64, channel: u64) -> MailboxView {
        MailboxView { ports: self.ports.insert(index, channel), ..self }
    }

    /// What posting an envelope does: the mailbox afterwards, and where the
    /// envelope ends up. An envelope for another actor is forwarded. One for
    /// a port that is not bound goes back as unroutable. Otherwise the port
    /// decides: it takes the message (and is unbound where it is used up),
    /// passes it on to another port, which is then posted to in turn, or
    /// hands it back, and then the envelope goes back with the error of the
    /// port. `hops` bounds how often a message is passed on.
    pub open spec fn deliver(self, envelope: EnvelopeView, hops: nat) -> (MailboxView, Trip)
        decreases hops,
    {
        if envelope.dest.actor != self.actor_id {
            (self, Trip::Forwarded(envelope))
        } else if !self.ports.contains_key(envelope.dest.index) {
            (self, Trip::Returned(envelope.stamped(port_not_bound())))
        } else {
            let ch = self.ports[envelope.dest.index] as int;
            let (state, accepted) = self.channels[ch].accept(
                envelope.headers,
                envelope.data,
                self.split_limit,
            );
            let next = self.with_channel(ch, state);
            match accepted {
                Accepted::Kept { still_valid } => (
                    if still_valid {
                        next
                    } else {
                        next.unbound(envelope.dest.index)
                    },
                    Trip::Delivered,
                ),
                Accepted::Passed { target, data } => {
                    let onward = passed_on(self.actor_id, target, data);
                    if hops == 0 {
                        (next, Trip::Returned(onward.stamped(split_cycle())))
                    } else {
                        next.deliver(onward, (hops - 1) as nat)
                    }
                },
                Accepted::Refused { data, kind } => (
                    next,
                    Trip::Returned(
                        envelope.metadata().sealed(data).stamped(not_taken(envelope.dest, kind)),
                    ),
                ),
            }
        }
    }

    /// What posting an envelope does, a message being passed on at most as
    /// often as there are channels.
    pub open spec fn posted(self, envelope: EnvelopeView) -> (MailboxView, Trip) {
        self.deliver(envelope, self.channels.len())
    }
}

/// Posting keeps a consistent mailbox consistent, with the same channels
/// in number, the same actor and the same next port index, and what goes
/// back carries an error.
pub proof fn lemma_deliver_wf(mailbox: MailboxView, envelope: EnvelopeView, hops: nat)
    requires
        mailbox.wf(),
    ensures
        mailbox.deliver(envelope, hops).0.wf(),
        mailbox.deliver(envelope, hops).0.channels.len() == mailbox.channels.len(),
        mailbox.deliver(envelope, hops).0.actor_id == mailbox.actor_id,
        mailbox.deliver(envelope, hops).0.next_port == mailbox.next_port,
        mailbox.deliver(envelope, hops).0.split_limit == mailbox.split_limit,
        mailbox.deliver(envelope, hops).0.undeliverable == mailbox.undeliverable,
        mailbox.deliver(envelope, hops).0.warned == mailbox.warned,
        mailbox.deliver(envelope, hops).1 matches Trip::Returned(e) ==> e.error is Some,
    decreases hops,
{
    if envelope.dest.actor == mailbox.actor_id && mailbox.ports.contains_key(envelope.dest.index) {
        let ch = mailbox.ports[envelope.dest.index] as int;
        let (state, accepted) = mailbox.channels[ch].accept(
            envelope.headers,
            envelope.data,
            mailbox.split_limit,
        );
        let next = mailbox.with_channel(ch, state);
        assert(next.wf());
        assert(next.unbound(envelope.dest.index).wf());
        match accepted {
            Accepted::Passed { target, data } => {
                if hops > 0 {
                    lemma_deliver_wf(
                        next,
                        passed_on(mailbox.actor_id, target, data),
                        (hops - 1) as nat,
                    );
                }
            },
            _ => {},
        }
    }
}

/// The mailbox of an actor. `F` is the sender to which it forwards the
/// envelopes for other actors.
pub struct Mailbox<F> {
    actor_id: ActorId,
    ports: DashMap<u64, u64>,
    channels: Vec<Channel>,
    next_port: u64,
    forwarder: F,
    split_limit: usize,
    undeliverable: Option<ReturnHandle>,
    warned: bool,
}

/// The channels of a list as what they stand for.
pub open spec fn channel_views(channels: Seq<Channel>) -> Seq<ChannelView> {
    Seq::new(channels.len(), |i: int| channels[i]@)
}

impl<F> View for Mailbox<F> {
    type V = MailboxView;

    closed spec fn view(&self) -> MailboxView {
        MailboxView {
            actor_id: self.actor_id@,
            next_port: self.next_port,
            ports: bound_ports(self.ports),
            channels: channel_views(self.channels@),
            split_limit: self.split_limit,
            undeliverable: match self.undeliverable {
                Some(handle) => Some(handle@),
                None => None,
            },
            warned: self.warned,
        }
    }
}

/// The mailbox that was just made for an actor.
pub open spec fn new_mailbox(actor_id: ActorKey) -> MailboxView {
    MailboxView {
        actor_id,
        next_port: USER_PORT_OFFSET,
        ports: Map::empty(),
        channels: Seq::empty(),
        split_limit: SPLIT_MAX_BUFFER_SIZE,
        undeliverable: None,
        warned: false,
    }
}

/// The size of the batches that split ports reduce, unless set otherwise.
pub const SPLIT_MAX_BUFFER_SIZE: usize = 5;

impl<F> Mailbox<F> {
    /// The sender to which the mailbox forwards.
    pub closed spec fn forwarder_spec(&self) -> F {
        self.forwarder
    }

    /// A new mailbox for the actor, which forwards the envelopes for other
    /// actors to `forwarder`.
    pub fn new(actor_id: ActorId, forwarder: F) -> (r: Self)
        ensures
            r@ == new_mailbox(actor_id@),
            r@.wf(),
            r.forwarder_spec() == forwarder,
    {
        let r = Mailbox {
            actor_id,
            ports: table_new(),
            channels: Vec::new(),
            next_port: USER_PORT_OFFSET,
            forwarder,
            split_limit: SPLIT_MAX_BUFFER_SIZE,
            undeliverable: None,
            warned: false,
        };
        assert(r@.ports =~= Map::empty());
        assert(r@.channels =~= Seq::empty());
        r
    }

    /// The sender to which the mailbox forwards.
    pub fn forwarder(&self) -> (r: &F)
        ensures
            *r == self.forwarder_spec(),
    {
        &self.forwarder
    }

    /// The sender to which the mailbox forwards, to work on it in place.
    pub fn forwarder_mut(&mut self) -> (r: &mut F)
        ensures
            *r == old(self).forwarder_spec(),
            final(self)@ == old(self)@,
            final(self).forwarder_spec() == *final(r),
    {
        &mut self.forwarder
    }

    /// The actor whose mailbox this is.
    pub fn actor_id(&self) -> (r: &ActorId)
        ensures
            r@ == self@.actor_id,
    {
        &self.actor_id
    }

    /// The port index that the mailbox hands out next.
    pub fn next_port(&self) -> (r: u64)
        ensures
            r == self@.next_port,
    {
        self.next_port
    }

    /// The size of the batches that split ports reduce.
    pub fn split_limit(&self) -> (r: usize)
        ensures
            r == self@.split_limit,
    {
        self.split_limit
    }

    /// Sets the size of the batches that split ports reduce; a size of
    /// zero is taken as one.
    pub fn set_split_limit(&mut self, limit: usize)
        requires
            old(self)@.wf(),
        ensures
            final(self)@ == (MailboxView {
                split_limit: if limit == 0 {
                    1
                } else {
                    limit
                },
                ..old(self)@
            }),
            final(self)@.wf(),
            final(self).forwarder_spec() == old(self).forwarder_spec(),
    {
        self.split_limit = if limit == 0 {
            1
        } else {
            limit
        };
    }

    /// Whether the port index is bound.
    pub fn is_bound(&self, index: u64) -> (r: bool)
        ensures
            r == self@.ports.contains_key(index),
    {
        table_get(&self.ports, index).is_some()
    }

    /// Hands out a fresh port index.
    pub(crate) fn allocate_port(&mut self) -> (index: u64)
        requires
            old(self)@.next_port < u64::MAX,
        ensures
            index == old(self)@.next_port,
            final(self)@ == (MailboxView { next_port: (index + 1) as u64, ..old(self)@ }),
            final(self).forwarder_spec() == old(self).forwarder_spec(),
    {
        let index = self.next_port;
        self.next_port = index + 1;
        index
    }

    /// The error of the given kind in this mailbox.
    pub(crate) fn error(&self, kind: MailboxErrorKind) -> (r: MailboxError)
        ensures
            r@ == (MailboxErrorView { actor_id: self@.actor_id, kind: kind@ }),
    {
        MailboxError::new(self.actor_id.clone(), kind)
    }
}

impl MailboxView {
    /// The mailbox with one more channel, opened under the next port index.
    pub open spec fn opened(self, channel: ChannelView) -> MailboxView {
        MailboxView {
            next_port: (self.next_port + 1) as u64,
            channels: self.channels.push(channel),
            ..self
        }
    }

    /// The mailbox with the port index bound to the channel, unless the
    /// index is bound already.
    pub open spec fn bound_if_vacant(self, index: u64, channel: u64) -> MailboxView {
        if self.ports.contains_key(index) {
            self
        } else {
            self.bound(index, channel)
        }
    }

    /// The mailbox after the receiver of a port went away: the port is
    /// unbound, and the channel takes no more messages.
    pub open spec fn receiver_closed(self, index: u64, channel: int) -> MailboxView {
        MailboxView {
            ports: self.ports.remove(index),
            channels: self.channels.update(
                channel,
                ChannelView { receiving: false, ..self.channels[channel] },
            ),
            ..self
        }
    }

    /// The mailbox after the sending side of a port went away.
    pub open spec fn sender_closed(self, channel: int) -> MailboxView {
        let state = self.channels[channel];
        self.with_channel(
            channel,
            match state.sink {
                SinkView::Once { value, taken } => ChannelView {
                    sending: false,
                    sink: SinkView::Once { value, taken: true },
                    ..state
                },
                _ => ChannelView { sending: false, ..state },
            },
        )
    }
}

/// The channel behind a split port that passes messages on to `target`.
pub open spec fn split_channel(target: PortKey, through: Option<Reducer>) -> ChannelView {
    ChannelView {
        typename: Seq::empty(),
        format: WireFormat::Any,
        sink: SinkView::Split { target, through, buffer: Seq::empty() },
        receiving: true,
        sending: true,
    }
}

/// The reducer that a spec names, if it names one that is registered.
pub open spec fn resolved(spec: Option<ReducerSpecView>) -> Option<Reducer> {
    match spec {
        Some(s) => if exists|r: Reducer| r.typehash_spec() == s.typehash {
            Some(choose|r: Reducer| r.typehash_spec() == s.typehash)
        } else {
            None
        },
        None => None,
    }
}

impl<F> Mailbox<F> {
    /// The number of channels that were opened.
    pub fn channel_count(&self) -> (r: usize)
        ensures
            r == self@.channels.len(),
    {
        self.channels.len()
    }

    /// Opens a channel under a fresh port index. Returns the index and the
    /// channel's number.
    pub(crate) fn open_channel(&mut self, channel: Channel) -> (r: (u64, usize))
        requires
            old(self)@.wf(),
            old(self)@.next_port < u64::MAX,
        ensures
            r.0 == old(self)@.next_port,
            r.1 == old(self)@.channels.len(),
            final(self)@ == old(self)@.opened(channel@),
            final(self)@.wf(),
            final(self).forwarder_spec() == old(self).forwarder_spec(),
    {
        let index = self.next_port;
        let slot = self.channels.len();
        self.next_port = index + 1;
        self.channels.push(channel);
        assert(self@.channels =~= old(self)@.channels.push(channel@));
        (index, slot)
    }

    /// Offers a message to a channel.
    pub(crate) fn offer(&mut self, slot: usize, headers: &Attrs, data: Serialized) -> (r: Delivery)
        requires
            old(self)@.wf(),
            slot < old(self)@.channels.len(),
        ensures
            final(self)@ == old(self)@.with_channel(
                slot as int,
                old(self)@.channels[slot as int].accept(headers@, data@, old(self)@.split_limit).0,
            ),
            r@ == old(self)@.channels[slot as int].accept(
                headers@,
                data@,
                old(self)@.split_limit,
            ).1,
            final(self)@.wf(),
            final(self).forwarder_spec() == old(self).forwarder_spec(),
    {
        let limit = self.split_limit;
        let channel = &mut self.channels[slot];
        let delivery = channel.accept(headers, data, limit);
        assert(self@.channels =~= old(self)@.channels.update(
            slot as int,
            self.channels@[slot as int]@,
        ));
        delivery
    }

    /// Binds the port index to the channel unless the index is bound
    /// already. Says whether it bound it.
    pub(crate) fn bind_slot(&mut self, index: u64, slot: usize) -> (r: bool)
        requires
            old(self)@.wf(),
            slot < old(self)@.channels.len(),
        ensures
            r == !old(self)@.ports.contains_key(index),
            final(self)@ == old(self)@.bound_if_vacant(index, slot as u64),
            final(self)@.wf(),
            final(self).forwarder_spec() == old(self).forwarder_spec(),
    {
        if table_get(&self.ports, index).is_none() {
            table_insert(&mut self.ports, index, slot as u64);
            assert forall|k: u64| #[trigger] self@.ports.contains_key(k) implies self@.ports[k]
                < self@.channels.len() by {
                if k != index {
                    assert(old(self)@.ports.contains_key(k));
                }
            }
            true
        } else {
            false
        }
    }

    /// Looks for the next message of a channel.
    pub(crate) fn take(&mut self, slot: usize, coalesce: bool) -> (r: Take)
        requires
            old(self)@.wf(),
            slot < old(self)@.channels.len(),
        ensures
            final(self)@ == old(self)@.with_channel(
                slot as int,
                old(self)@.channels[slot as int].take(coalesce).0,
            ),
            r@ == old(self)@.channels[slot as int].take(coalesce).1,
            final(self)@.wf(),
            final(self).forwarder_spec() == old(self).forwarder_spec(),
    {
        let channel = &mut self.channels[slot];
        let r = channel.take(coalesce);
        assert(self@.channels =~= old(self)@.channels.update(
            slot as int,
            self.channels@[slot as int]@,
        ));
        proof {
            lemma_wf_kept(old(self)@, self@);
        }
        r
    }

    /// Hands out the messages that wait in a channel.
    pub(crate) fn drain(&mut self, slot: usize, coalesce: bool) -> (r: Vec<Serialized>)
        requires
            old(self)@.wf(),
            slot < old(self)@.channels.len(),
        ensures
            final(self)@ == old(self)@.with_channel(
                slot as int,
                old(self)@.channels[slot as int].emptied(),
            ),
            crate::port::messages(r@) == old(self)@.channels[slot as int].drained(coalesce),
            final(self)@.wf(),
            final(self).forwarder_spec() == old(self).forwarder_spec(),
    {
        let channel = &mut self.channels[slot];
        let r = channel.drain(coalesce);
        assert(self@.channels =~= old(self)@.channels.update(
            slot as int,
            self.channels@[slot as int]@,
        ));
        proof {
            lemma_wf_kept(old(self)@, self@);
        }
        r
    }

    /// The receiver of a port went away.
    pub(crate) fn close_receiver(&mut self, index: u64, slot: usize)
        requires
            old(self)@.wf(),
            slot < old(self)@.channels.len(),
        ensures
            final(self)@ == old(self)@.receiver_closed(index, slot as int),
            final(self)@.wf(),
            final(self).forwarder_spec() == old(self).forwarder_spec(),
    {
        table_remove(&mut self.ports, index);
        let channel = &mut self.channels[slot];
        channel.receiving = false;
        assert(self@.channels =~= old(self)@.channels.update(
            slot as int,
            self.channels@[slot as int]@,
        ));
        proof {
            lemma_wf_kept(old(self)@, self@);
        }
    }

    /// The sending side of a port went away.
    pub(crate) fn close_sender(&mut self, slot: usize)
        requires
            old(self)@.wf(),
            slot < old(self)@.channels.len(),
        ensures
            final(self)@ == old(self)@.sender_closed(slot as int),
            final(self)@.wf(),
            final(self).forwarder_spec() == old(self).forwarder_spec(),
    {
        let channel = &mut self.channels[slot];
        channel.sending = false;
        match &mut channel.sink {
            Sink::Once { value, taken } => {
                *taken = true;
            },
            _ => {},
        }
        assert(self@.channels =~= old(self)@.channels.update(
            slot as int,
            self.channels@[slot as int]@,
        ));
        proof {
            lemma_wf_kept(old(self)@, self@);
        }
    }

    /// Whether the channel passes messages on to another port.
    pub(crate) fn is_split(&self, slot: usize) -> (r: bool)
        requires
            slot < self@.channels.len(),
        ensures
            r == (self@.channels[slot as int].sink is Split),
    {
        match &self.channels[slot].sink {
            Sink::Split { .. } => true,
            _ => false,
        }
    }

    /// Opens a port on this mailbox that passes what it takes on to the
    /// port `port_id`: verbatim where `reducer_spec` names no registered
    /// reducer, and else in batches, each reduced to one message. Returns
    /// the id of the new port, which is bound unless its index was bound
    /// before.
    pub fn split(&mut self, port_id: PortId, reducer_spec: Option<ReducerSpec>) -> (r: Result<
        PortId,
        String,
    >)
        requires
            old(self)@.wf(),
            old(self)@.next_port < u64::MAX,
        ensures
            r matches Ok(split_port) && split_port@ == (PortKey {
                actor: old(self)@.actor_id,
                index: old(self)@.next_port,
            }) && final(self)@ == old(self)@.opened(
                split_channel(port_id@, resolved(crate::accum::opt_spec(reducer_spec))),
            ).bound_if_vacant(old(self)@.next_port, old(self)@.channels.len() as u64),
            final(self)@.wf(),
            final(self).forwarder_spec() == old(self).forwarder_spec(),
    {
        let through = match &reducer_spec {
            Some(spec) => resolve_reducer(spec),
            None => None,
        };
        proof {
            lemma_typehash_injective();
        }
        let channel = Channel {
            typename: String::new(),
            format: WireFormat::Any,
            sink: Sink::Split { target: port_id, through, buffer: SplitPortBuffer::new() },
            receiving: true,
            sending: true,
        };
        let (index, slot) = self.open_channel(channel);
        self.bind_slot(index, slot);
        Ok(self.actor_id.port_id(index))
    }
}

/// A mailbox that differs from a consistent one only in the state behind
/// its ports, or in that it lacks some bindings, is consistent.
pub proof fn lemma_wf_kept(before: MailboxView, after: MailboxView)
    requires
        before.wf(),
        after.next_port >= before.next_port,
        after.split_limit == before.split_limit,
        after.channels.len() >= before.channels.len(),
        after.ports.submap_of(before.ports),
    ensures
        after.wf(),
{
    assert forall|k: u64| #[trigger] after.ports.contains_key(k) implies after.ports[k]
        < after.channels.len() by {
        assert(before.ports.contains_key(k));
    }
}

/// No two reducers are registered under one number.
pub proof fn lemma_typehash_injective()
    ensures
        forall|a: Reducer, b: Reducer| a.typehash_spec() == b.typehash_spec() ==> a == b,
{
}

impl MailboxView {
    /// The mailbox with another port for the envelopes that come back.
    pub open spec fn with_undeliverable(self, undeliverable: Option<Seq<EnvelopeView>>)
        -> MailboxView {
        MailboxView { undeliverable, ..self }
    }

    /// The envelope that the actor of the mailbox sends.
    pub open spec fn outgoing(
        self,
        dest: PortKey,
        headers: Seq<(Seq<char>, SerializedView)>,
        data: SerializedView,
    ) -> EnvelopeView {
        EnvelopeView { sender: self.actor_id, dest, data, error: None, headers }
    }
}

/// Posting does not look at the port for the envelopes that come back, and
/// leaves it as it is.
pub proof fn lemma_deliver_frame(
    mailbox: MailboxView,
    envelope: EnvelopeView,
    hops: nat,
    undeliverable: Option<Seq<EnvelopeView>>,
)
    ensures
        mailbox.with_undeliverable(undeliverable).deliver(envelope, hops) == (
            mailbox.deliver(envelope, hops).0.with_undeliverable(undeliverable),
            mailbox.deliver(envelope, hops).1,
        ),
    decreases hops,
{
    let other = mailbox.with_undeliverable(undeliverable);
    if envelope.dest.actor == mailbox.actor_id && mailbox.ports.contains_key(envelope.dest.index) {
        let ch = mailbox.ports[envelope.dest.index] as int;
        let (state, accepted) = mailbox.channels[ch].accept(
            envelope.headers,
            envelope.data,
            mailbox.split_limit,
        );
        let next = mailbox.with_channel(ch, state);
        assert(other.with_channel(ch, state) == next.with_undeliverable(undeliverable));
        assert(other.with_channel(ch, state).unbound(envelope.dest.index) == next.unbound(
            envelope.dest.index,
        ).with_undeliverable(undeliverable));
        match accepted {
            Accepted::Passed { target, data } => {
                if hops > 0 {
                    lemma_deliver_frame(
                        next,
                        passed_on(mailbox.actor_id, target, data),
                        (hops - 1) as nat,
                        undeliverable,
                    );
                }
            },
            _ => {},
        }
    }
}

impl<F> Mailbox<F> {
    /// Binds the actor's port for the envelopes that come back to it. A
    /// port that is bound stays as it is.
    pub fn bind_return_handle(&mut self)
        requires
            old(self)@.wf(),
        ensures
            final(self)@ == old(self)@.with_undeliverable(
                match old(self)@.undeliverable {
                    Some(waiting) => Some(waiting),
                    None => Some(Seq::empty()),
                },
            ),
            final(self)@.wf(),
            final(self).forwarder_spec() == old(self).forwarder_spec(),
    {
        if self.undeliverable.is_none() {
            self.undeliverable = Some(ReturnHandle::new());
        }
    }

    /// The actor's port for the envelopes that come back to it, if the
    /// actor bound it.
    pub fn bound_return_handle(&self) -> (r: Option<&ReturnHandle>)
        ensures
            match r {
                Some(handle) => self@.undeliverable == Some(handle@),
                None => self@.undeliverable is None,
            },
    {
        self.undeliverable.as_ref()
    }

    /// Takes the envelope that came back first, if one waits.
    pub fn try_recv_undeliverable(&mut self) -> (r: Option<MessageEnvelope>)
        requires
            old(self)@.wf(),
        ensures
            final(self)@.wf(),
            final(self).forwarder_spec() == old(self).forwarder_spec(),
            match r {
                Some(envelope) => old(self)@.undeliverable matches Some(waiting) && waiting.len()
                    > 0 && envelope@ == waiting[0] && final(self)@ == old(
                    self,
                )@.with_undeliverable(Some(waiting.drop_first())),
                None => final(self)@ == old(self)@ && !(old(self)@.undeliverable matches Some(
                    waiting,
                ) && waiting.len() > 0),
            },
    {
        let mut own = self.undeliverable.take();
        let r = match &mut own {
            Some(handle) => match handle.try_recv() {
                Some(message) => Some(message.into_inner()),
                None => None,
            },
            None => None,
        };
        self.undeliverable = own;
        r
    }
}

impl<F: MailboxSender> Mailbox<F> {
    /// Sends a message from the actor of the mailbox: posts the envelope
    /// with the actor as its sender. What comes back goes to the actor's
    /// port for it if that is bound, and else to `monitored`; the result
    /// says whether the actor is to be warned of that, which it is the
    /// first time.
    pub fn send(
        &mut self,
        dest: PortId,
        headers: Attrs,
        data: Serialized,
        monitored: &mut ReturnHandle,
    ) -> (warn: bool)
        requires
            old(self).wf(),
            !old(self).refuses(old(self)@.outgoing(dest@, headers@, data@)),
        ensures
            final(self).wf(),
            sent(
                old(self)@,
                old(self)@.outgoing(dest@, headers@, data@),
                bounce(
                    old(self).forwarder_spec(),
                    old(self)@.posted(old(self)@.outgoing(dest@, headers@, data@)).1,
                ),
                old(monitored)@,
                final(self)@,
                final(monitored)@,
                warn,
            ),
    {
        let envelope = MessageEnvelope::new(self.actor_id.clone(), dest, data, headers);
        let ghost before = self@;
        let mut own = self.undeliverable.take();
        let ghost posted = before.posted(envelope@).0;
        proof {
            lemma_deliver_frame(before, envelope@, before.channels.len(), None);
            lemma_deliver_wf(before, envelope@, before.channels.len());
            assert(self@ == before.with_undeliverable(None));
            assert(self@.posted(envelope@).0 == posted.with_undeliverable(None));
            assert(self@.posted(envelope@).1 == before.posted(envelope@).1);
            lemma_wf_kept(before, self@);
        }
        match own {
            Some(mut handle) => {
                self.post(envelope, &mut handle);
                self.undeliverable = Some(handle);
                proof {
                    lemma_wf_kept(posted, self@);
                }
                false
            },
            None => {
                self.post(envelope, monitored);
                let warn = !self.warned;
                self.warned = true;
                proof {
                    assert(posted.undeliverable is None);
                    assert(posted.with_undeliverable(None) == posted);
                    lemma_wf_kept(posted, self@);
                }
                warn
            },
        }
    }
}

/// What sending does: the envelope is posted; what comes back goes to the
/// actor's own port if that is bound, and else to the monitored handle,
/// with a warning the first time.
pub open spec fn sent(
    before: MailboxView,
    envelope: EnvelopeView,
    back: Option<EnvelopeView>,
    monitored_before: Seq<EnvelopeView>,
    after: MailboxView,
    monitored_after: Seq<EnvelopeView>,
    warn: bool,
) -> bool {
    let posted = before.posted(envelope).0;
    match before.undeliverable {
        Some(waiting) => {
            &&& after == posted.with_undeliverable(Some(after_return(waiting, back)))
            &&& monitored_after == monitored_before
            &&& !warn
        },
        None => {
            &&& after == MailboxView { warned: true, ..posted }
            &&& monitored_after == after_return(monitored_before, back)
            &&& warn == !before.warned
        },
    }
}

impl Mailbox<PanickingMailboxSender> {
    /// A new mailbox for the actor that forwards nothing: only envelopes
    /// for the actor itself may be posted to it.
    pub fn new_detached(actor_id: ActorId) -> (r: Self)
        ensures
            r@ == new_mailbox(actor_id@),
            r@.wf(),
            r.forwarder_spec() == PanickingMailboxSender,
    {
        Mailbox::new(actor_id, PanickingMailboxSender)
    }
}

/// Where the envelope ends up once the forwarder had its say.
pub open spec fn bounce<F: MailboxSender>(forwarder: F, trip: Trip) -> Option<EnvelopeView> {
    match trip {
        Trip::Delivered => None,
        Trip::Forwarded(envelope) => forwarder.bounced(envelope),
        Trip::Returned(envelope) => Some(envelope),
    }
}

impl<F: MailboxSender> MailboxSender for Mailbox<F> {
    open spec fn wf(&self) -> bool {
        self@.wf() && self.forwarder_spec().wf()
    }

    open spec fn state(&self) -> SenderState {
        SenderState::Mailbox {
            mailbox: self@,
            forwarder: Box::new(self.forwarder_spec().state()),
        }
    }

    open spec fn after(&self, envelope: EnvelopeView) -> SenderState {
        SenderState::Mailbox {
            mailbox: self@.posted(envelope).0,
            forwarder: Box::new(
                match self@.posted(envelope).1 {
                    Trip::Forwarded(onward) => self.forwarder_spec().after(onward),
                    _ => self.forwarder_spec().state(),
                },
            ),
        }
    }

    open spec fn refuses(&self, envelope: EnvelopeView) -> bool {
        match self@.posted(envelope).1 {
            Trip::Forwarded(onward) => self.forwarder_spec().refuses(onward),
            _ => false,
        }
    }

    open spec fn bounced(&self, envelope: EnvelopeView) -> Option<EnvelopeView> {
        bounce(self.forwarder_spec(), self@.posted(envelope).1)
    }

    /// Posts the envelope: see [`MailboxView::deliver`]. The forwarder is
    /// posted to exactly when the envelope, or the message that a split
    /// port made of it, is for another actor.
    fn post(&mut self, envelope: MessageEnvelope, return_handle: &mut ReturnHandle)
        ensures
            final(self)@ == old(self)@.posted(envelope@).0,
            !(old(self)@.posted(envelope@).1 is Forwarded) ==> final(self).forwarder_spec() == old(
                self,
            ).forwarder_spec(),
    {
        let ghost start = self@;
        let ghost first = envelope@;
        let mut current = envelope;
        let mut hops: usize = self.channels.len();
        proof {
            lemma_deliver_wf(start, first, hops as nat);
        }
        loop
            invariant
                self@.wf(),
                self.forwarder.wf(),
                self.forwarder == old(self).forwarder,
                start.posted(first) == self@.deliver(current@, hops as nat),
                return_handle@ == old(return_handle)@,
                start == old(self)@,
                first == envelope@,
                !old(self).refuses(envelope@),
            decreases hops,
        {
            let ghost here = self@;
            proof {
                lemma_deliver_wf(here, current@, hops as nat);
            }
            if !(*current.dest().actor_id() == self.actor_id) {
                self.forwarder.post(current, return_handle);
                return ;
            }
            let index = current.dest().index();
            match table_get(&self.ports, index) {
                None => {
                    current.undeliverable(
                        DeliveryError::unroutable("port not bound in mailbox"),
                        return_handle,
                    );
                    return ;
                },
                Some(ch) => {
                    let (metadata, data) = current.open();
                    assert(here.ports.contains_key(index));
                    // The channel's number fits the machine's index type.
                    let size = self.channels.len();
                    let slot = ch as usize;
                    assert(slot == ch);
                    let delivery = self.offer(slot, &metadata.headers, data);
                    match delivery {
                        Delivery::Kept(still_valid) => {
                            if !still_valid {
                                table_remove(&mut self.ports, index);
                            }
                            return ;
                        },
                        Delivery::Passed(target, payload) => {
                            let onward = MessageEnvelope::new(
                                self.actor_id.clone(),
                                target,
                                payload,
                                Attrs::new(),
                            );
                            if hops == 0 {
                                onward.undeliverable(
                                    DeliveryError::Mailbox(
                                        String::from_str("split ports form a cycle"),
                                    ),
                                    return_handle,
                                );
                                return ;
                            }
                            hops = hops - 1;
                            current = onward;
                        },
                        Delivery::Refused(data, kind) => {
                            let error = MailboxSenderError::new_bound(metadata.dest.clone(), kind);
                            let reason = error.to_string();
                            MessageEnvelope::seal(metadata, data).undeliverable(
                                DeliveryError::Mailbox(reason),
                                return_handle,
                            );
                            return ;
                        },
                    }
                },
            }
        }
    }
}

} // verus!
