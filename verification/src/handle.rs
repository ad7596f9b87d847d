//! Port handles and receivers: the typed ends of the ports of a mailbox.
//!
//! A handle and a receiver name a port; the state behind the port is in the
//! mailbox, which every operation takes.

use vstd::prelude::*;
use std::marker::PhantomData;
use vstd::string::StringExecFns;
use crate::accum::{opt_spec, Accumulator, Reducer, ReducerSpec, ReducerSpecView};
use crate::attrs::Attrs;
use crate::data::{Named, RemoteMessage, Serialized, SerializedView, WireFormat};
use crate::error::{
    MailboxError, MailboxErrorKind, MailboxErrorKindView, MailboxErrorView, MailboxSenderError,
    MailboxSenderErrorKind, MailboxSenderErrorKindView, MailboxSenderErrorView, PortLocation,
    PortLocationView,
};
use crate::mailbox::{Mailbox, MailboxView};
use crate::port::{
    messages, Accepted, Channel, ChannelView, Delivery, FuncSink, Sink, SinkView, Take, Taken,
};
use crate::portref::{OncePortRef, PortRef};
use crate::reference::{ActorId, ActorKey, PortId, PortKey};

verus! {

/// A handle to a port for messages of type `M`: the sending end.
#[derive(Debug)]
pub struct PortHandle<M> {
    mailbox: ActorId,
    port_index: u64,
    channel: usize,
    reducer_spec: Option<ReducerSpec>,
    phantom: PhantomData<M>,
}

/// The receiving end of a port for messages of type `M`.
#[derive(Debug)]
pub struct PortReceiver<M> {
    port_id: PortId,
    channel: usize,
    coalesce: bool,
    phantom: PhantomData<M>,
}

/// A handle to a one-shot port for a message of type `M`. Sending or
/// binding uses the handle up.
#[derive(Debug)]
pub struct OncePortHandle<M> {
    port_id: PortId,
    channel: usize,
    phantom: PhantomData<M>,
}

/// The receiving end of a one-shot port for a message of type `M`.
#[derive(Debug)]
pub struct OncePortReceiver<M> {
    port_id: PortId,
    channel: usize,
    phantom: PhantomData<M>,
}

/// The state behind a port that was just opened.
pub open spec fn new_channel(typename: Seq<char>, format: WireFormat, sink: SinkView)
    -> ChannelView {
    ChannelView { typename, format, sink, receiving: true, sending: true }
}

/// The state behind a new port with a queue.
pub open spec fn queue_channel<M: RemoteMessage>() -> ChannelView {
    new_channel(M::typename_spec(), M::format_spec(), SinkView::Queue { items: Seq::empty() })
}

/// The state behind a new port with an accumulator.
pub open spec fn accum_channel<U: RemoteMessage>(reducer: Reducer) -> ChannelView {
    new_channel(
        U::typename_spec(),
        U::format_spec(),
        SinkView::Accum { reducer, state: reducer.initial(), items: Seq::empty() },
    )
}

/// The state behind a new port with a function.
pub open spec fn func_channel<M: RemoteMessage>(func: FuncSink) -> ChannelView {
    new_channel(M::typename_spec(), M::format_spec(), SinkView::Func(func))
}

/// The state behind a new one-shot port.
pub open spec fn once_channel<M: RemoteMessage>() -> ChannelView {
    new_channel(
        M::typename_spec(),
        M::format_spec(),
        SinkView::Once { value: None, taken: false },
    )
}

/// What a handle or a receiver names: the actor, a port index, and the
/// channel behind the port.
pub struct PortName {
    pub owner: ActorKey,
    pub index: u64,
    pub slot: int,
}

impl PortName {
    /// Whether the name is that of a typed port of the mailbox.
    pub open spec fn valid_in(self, mailbox: MailboxView) -> bool {
        &&& self.owner == mailbox.actor_id
        &&& 0 <= self.slot < mailbox.channels.len()
        &&& !(mailbox.channels[self.slot].sink is Split)
    }

    /// The id of the port.
    pub open spec fn port(self) -> PortKey {
        PortKey { actor: self.owner, index: self.index }
    }
}

/// The text of the error of a local send that the port did not take.
pub open spec fn local_reason(kind: MailboxSenderErrorKindView) -> Seq<char> {
    match kind {
        MailboxSenderErrorKindView::Other(reason) => reason,
        other => other.shown(),
    }
}

/// The error of a send through a handle that is not bound.
pub open spec fn unbound_error<M: RemoteMessage>(owner: ActorKey, kind: MailboxSenderErrorKindView)
    -> MailboxSenderErrorView {
    MailboxSenderErrorView { location: PortLocationView::Unbound(owner, M::typename_spec()), kind }
}

/// What sending `message` through the named port does to the mailbox, and
/// with what result. A name that is not valid in the mailbox gives
/// `Invalid`, a message without an encoding gives `Serialize`; both leave
/// the mailbox as it is. Otherwise the port decides, and where it does
/// not take the message the result is `other`, with the port's reason.
pub open spec fn send_post<M: RemoteMessage>(
    name: PortName,
    before: MailboxView,
    message: M,
    after: MailboxView,
    r: Result<(), MailboxSenderError>,
    other: spec_fn(Seq<char>) -> MailboxSenderErrorKindView,
) -> bool {
    if !name.valid_in(before) {
        &&& after == before
        &&& r matches Err(e) && e@ == unbound_error::<M>(
            before.actor_id,
            MailboxSenderErrorKindView::Invalid,
        )
    } else {
        match message.encoding() {
            None => {
                &&& after == before
                &&& r matches Err(e) && e@.location == PortLocationView::Unbound(
                    before.actor_id,
                    M::typename_spec(),
                ) && e@.kind is Serialize
            },
            Some(bytes) => {
                let (state, accepted) = before.channels[name.slot].accept(
                    Seq::empty(),
                    SerializedView { typename: Some(M::typename_spec()), bytes },
                    before.split_limit,
                );
                after == before.with_channel(name.slot, state) && match accepted {
                    Accepted::Refused { kind, .. } => r matches Err(e) && e@ == unbound_error::<M>(
                        before.actor_id,
                        other(local_reason(kind)),
                    ),
                    _ => r is Ok,
                }
            },
        }
    }
}

/// What a receive through the named port does to the mailbox, and with
/// what result: the message that the channel hands out, decoded; nothing
/// where none waits; `Closed` where none will come; `Deserialize` where the
/// message does not decode; `InvalidPort` where the name is not valid.
pub open spec fn recv_post<M: RemoteMessage>(
    name: PortName,
    coalesce: bool,
    before: MailboxView,
    after: MailboxView,
    r: Result<Option<M>, MailboxError>,
) -> bool {
    if !name.valid_in(before) {
        &&& after == before
        &&& r matches Err(e) && e@ == (MailboxErrorView {
            actor_id: name.owner,
            kind: MailboxErrorKindView::InvalidPort(name.port()),
        })
    } else {
        let (state, taken) = before.channels[name.slot].take(coalesce);
        after == before.with_channel(name.slot, state) && match taken {
            Taken::Message(m) => match M::decoding(m.bytes) {
                Some(value) => r == Ok::<Option<M>, MailboxError>(Some(value)),
                None => r matches Err(e) && e@.actor_id == name.owner && e@.kind is Deserialize,
            },
            Taken::Empty => r == Ok::<Option<M>, MailboxError>(None),
            Taken::Closed => r matches Err(e) && e@ == (MailboxErrorView {
                actor_id: name.owner,
                kind: MailboxErrorKindView::Closed,
            }),
        }
    }
}

/// The values that a list of messages decodes to, in order; messages that
/// do not decode are left out.
pub open spec fn decoded<M: RemoteMessage>(items: Seq<SerializedView>) -> Seq<M>
    decreases items.len(),
{
    if items.len() == 0 {
        Seq::empty()
    } else {
        let front = decoded::<M>(items.drop_last());
        match M::decoding(items.last().bytes) {
            Some(value) => front.push(value),
            None => front,
        }
    }
}

impl<F> Mailbox<F> {
    /// Whether the name is that of a typed port of this mailbox.
    pub(crate) fn holds(&self, owner: &ActorId, slot: usize) -> (r: bool)
        ensures
            r == (PortName { owner: owner@, index: 0, slot: slot as int }).valid_in(self@),
    {
        *owner == *self.actor_id() && slot < self.channel_count() && !self.is_split(slot)
    }

    /// Opens a new port for messages of type `M`. The handle may be cloned
    /// and passed around; the receiver is for the actor that takes the
    /// messages.
    pub fn open_port<M: RemoteMessage>(&mut self) -> (r: (PortHandle<M>, PortReceiver<M>))
        requires
            old(self)@.wf(),
            old(self)@.next_port < u64::MAX,
        ensures
            final(self)@ == old(self)@.opened(queue_channel::<M>()),
            final(self)@.wf(),
            final(self).forwarder_spec() == old(self).forwarder_spec(),
            r.0.name() == old(self)@.fresh(),
            r.1.name() == old(self)@.fresh(),
            r.0.reducer() is None,
            !r.1.coalescing(),
    {
        let channel = Channel {
            typename: String::from_str(M::typename()),
            format: M::format(),
            sink: Sink::Queue { items: Vec::new() },
            receiving: true,
            sending: true,
        };
        assert(messages(Seq::<Serialized>::empty()) =~= Seq::empty());
        let (port_index, slot) = self.open_channel(channel);
        let port_id = self.actor_id().port_id(port_index);
        (
            PortHandle {
                mailbox: self.actor_id().clone(),
                port_index,
                channel: slot,
                reducer_spec: None,
                phantom: PhantomData,
            },
            PortReceiver { port_id, channel: slot, coalesce: false, phantom: PhantomData },
        )
    }

    /// Opens a new port with an accumulator: each update that the port
    /// takes is folded into a state, and the receiver gets the states, the
    /// newest in place of any older ones that still wait.
    pub fn open_accum_port<A: Accumulator>(&mut self, accum: A) -> (r: (
        PortHandle<A::Update>,
        PortReceiver<A::State>,
    ))
        requires
            old(self)@.wf(),
            old(self)@.next_port < u64::MAX,
        ensures
            final(self)@ == old(self)@.opened(accum_channel::<A::Update>(accum.reducer_spec_fn())),
            final(self)@.wf(),
            final(self).forwarder_spec() == old(self).forwarder_spec(),
            r.0.name() == old(self)@.fresh(),
            r.1.name() == old(self)@.fresh(),
            r.0.reducer() == Some(
                ReducerSpecView {
                    typehash: accum.reducer_spec_fn().typehash_spec(),
                    builder_params: None,
                },
            ),
            r.1.coalescing(),
    {
        let reducer = accum.reducer();
        let reducer_spec = accum.reducer_spec();
        let channel = Channel {
            typename: String::from_str(<A::Update as Named>::typename()),
            format: A::Update::format(),
            sink: Sink::Accum { reducer, state: reducer.initial_state(), items: Vec::new() },
            receiving: true,
            sending: true,
        };
        assert(messages(Seq::<Serialized>::empty()) =~= Seq::empty());
        let (port_index, slot) = self.open_channel(channel);
        let port_id = self.actor_id().port_id(port_index);
        (
            PortHandle {
                mailbox: self.actor_id().clone(),
                port_index,
                channel: slot,
                reducer_spec,
                phantom: PhantomData,
            },
            PortReceiver { port_id, channel: slot, coalesce: true, phantom: PhantomData },
        )
    }

    /// Opens a new port for messages of type `M` behind which stands the
    /// given function; the port has no receiver.
    pub fn open_enqueue_port<M: RemoteMessage>(&mut self, enqueue: FuncSink) -> (r: PortHandle<M>)
        requires
            old(self)@.wf(),
            old(self)@.next_port < u64::MAX,
        ensures
            final(self)@ == old(self)@.opened(func_channel::<M>(enqueue)),
            final(self)@.wf(),
            final(self).forwarder_spec() == old(self).forwarder_spec(),
            r.name() == old(self)@.fresh(),
            r.reducer() is None,
    {
        let channel = Channel {
            typename: String::from_str(M::typename()),
            format: M::format(),
            sink: Sink::Func(enqueue),
            receiving: true,
            sending: true,
        };
        let (port_index, slot) = self.open_channel(channel);
        PortHandle {
            mailbox: self.actor_id().clone(),
            port_index,
            channel: slot,
            reducer_spec: None,
            phantom: PhantomData,
        }
    }

    /// Opens a new one-shot port for a message of type `M`: the handle
    /// sends a single message, and the receiver receives it.
    pub fn open_once_port<M: RemoteMessage>(&mut self) -> (r: (
        OncePortHandle<M>,
        OncePortReceiver<M>,
    ))
        requires
            old(self)@.wf(),
            old(self)@.next_port < u64::MAX,
        ensures
            final(self)@ == old(self)@.opened(once_channel::<M>()),
            final(self)@.wf(),
            final(self).forwarder_spec() == old(self).forwarder_spec(),
            r.0.name() == old(self)@.fresh(),
            r.1.name() == old(self)@.fresh(),
    {
        let channel = Channel {
            typename: String::from_str(M::typename()),
            format: M::format(),
            sink: Sink::Once { value: None, taken: false },
            receiving: true,
            sending: true,
        };
        let (port_index, slot) = self.open_channel(channel);
        let port_id = self.actor_id().port_id(port_index);
        (
            OncePortHandle { port_id: port_id.clone(), channel: slot, phantom: PhantomData },
            OncePortReceiver { port_id, channel: slot, phantom: PhantomData },
        )
    }
}

impl MailboxView {
    /// The name of the port that the mailbox opens next.
    pub open spec fn fresh(self) -> PortName {
        PortName { owner: self.actor_id, index: self.next_port, slot: self.channels.len() as int }
    }
}

/// The kind `Other` with the given reason.
pub open spec fn other_kind() -> spec_fn(Seq<char>) -> MailboxSenderErrorKindView {
    |reason: Seq<char>| MailboxSenderErrorKindView::Other(reason)
}

/// The kind `Closed`, whatever the reason.
pub open spec fn closed_kind() -> spec_fn(Seq<char>) -> MailboxSenderErrorKindView {
    |reason: Seq<char>| MailboxSenderErrorKindView::Closed
}

/// Sends a message through a port from its handle.
fn send_local<F, M: RemoteMessage>(
    mailbox: &mut Mailbox<F>,
    owner: &ActorId,
    slot: usize,
    message: &M,
    once: bool,
) -> (r: Result<(), MailboxSenderError>)
    requires
        old(mailbox)@.wf(),
    ensures
        final(mailbox)@.wf(),
        final(mailbox).forwarder_spec() == old(mailbox).forwarder_spec(),
        send_post(
            PortName { owner: owner@, index: 0, slot: slot as int },
            old(mailbox)@,
            *message,
            final(mailbox)@,
            r,
            if once {
                closed_kind()
            } else {
                other_kind()
            },
        ),
{
    if !mailbox.holds(owner, slot) {
        return Err(
            MailboxSenderError::new_unbound_type(
                mailbox.actor_id().clone(),
                MailboxSenderErrorKind::Invalid,
                M::typename(),
            ),
        );
    }
    let data = match Serialized::serialize(message) {
        Ok(data) => data,
        Err(reason) => {
            return Err(
                MailboxSenderError::new_unbound_type(
                    mailbox.actor_id().clone(),
                    MailboxSenderErrorKind::Serialize(reason),
                    M::typename(),
                ),
            );
        },
    };
    let headers = Attrs::new();
    match mailbox.offer(slot, &headers, data) {
        Delivery::Refused(_, kind) => {
            let kind = if once {
                MailboxSenderErrorKind::Closed
            } else {
                match kind {
                    MailboxSenderErrorKind::Other(reason) => MailboxSenderErrorKind::Other(reason),
                    other => MailboxSenderErrorKind::Other(other.to_string()),
                }
            };
            Err(
                MailboxSenderError::new_unbound_type(
                    mailbox.actor_id().clone(),
                    kind,
                    M::typename(),
                ),
            )
        },
        _ => Ok(()),
    }
}

/// Receives through a port.
fn recv_local<F, M: RemoteMessage>(
    mailbox: &mut Mailbox<F>,
    port_id: &PortId,
    slot: usize,
    coalesce: bool,
) -> (r: Result<Option<M>, MailboxError>)
    requires
        old(mailbox)@.wf(),
    ensures
        final(mailbox)@.wf(),
        final(mailbox).forwarder_spec() == old(mailbox).forwarder_spec(),
        recv_post(
            PortName { owner: port_id@.actor, index: port_id@.index, slot: slot as int },
            coalesce,
            old(mailbox)@,
            final(mailbox)@,
            r,
        ),
{
    if !mailbox.holds(port_id.actor_id(), slot) {
        return Err(
            MailboxError::new(
                port_id.actor_id().clone(),
                MailboxErrorKind::InvalidPort(port_id.clone()),
            ),
        );
    }
    match mailbox.take(slot, coalesce) {
        Take::Message(m) => match m.deserialized::<M>() {
            Ok(value) => Ok(Some(value)),
            Err(reason) => Err(
                MailboxError::new(
                    port_id.actor_id().clone(),
                    MailboxErrorKind::Deserialize(String::from_str(M::typename()), reason),
                ),
            ),
        },
        Take::Empty => Ok(None),
        Take::Closed => Err(
            MailboxError::new(port_id.actor_id().clone(), MailboxErrorKind::Closed),
        ),
    }
}

impl<M: RemoteMessage> PortHandle<M> {
    /// What the handle names.
    pub closed spec fn name(&self) -> PortName {
        PortName { owner: self.mailbox@, index: self.port_index, slot: self.channel as int }
    }

    /// The reducer that goes with the port.
    pub closed spec fn reducer(&self) -> Option<ReducerSpecView> {
        opt_spec(self.reducer_spec)
    }

    /// The index of the port.
    pub fn port_index(&self) -> (r: u64)
        ensures
            r == self.name().index,
    {
        self.port_index
    }

    /// The reducer that goes with the port.
    pub fn reducer_spec(&self) -> (r: &Option<ReducerSpec>)
        ensures
            opt_spec(*r) == self.reducer(),
    {
        &self.reducer_spec
    }

    /// Whether the handle is one of the mailbox: only then can the port
    /// be bound.
    pub fn belongs_to<F>(&self, mailbox: &Mailbox<F>) -> (r: bool)
        ensures
            r == self.name().valid_in(mailbox@),
    {
        mailbox.holds(&self.mailbox, self.channel)
    }

    /// Where the port is: under its id if it is bound, else on its actor.
    pub fn location<F>(&self, mailbox: &Mailbox<F>) -> (r: PortLocation)
        ensures
            r@ == if mailbox@.ports.contains_key(self.name().index) {
                PortLocationView::Bound(self.name().port())
            } else {
                PortLocationView::Unbound(self.name().owner, M::typename_spec())
            },
    {
        if mailbox.is_bound(self.port_index) {
            PortLocation::Bound(self.mailbox.port_id(self.port_index))
        } else {
            PortLocation::new_unbound_type(self.mailbox.clone(), M::typename())
        }
    }

    /// Sends a message to the port: see [`send_post`].
    pub fn send<F>(&self, mailbox: &mut Mailbox<F>, message: M) -> (r: Result<
        (),
        MailboxSenderError,
    >)
        requires
            old(mailbox)@.wf(),
        ensures
            final(mailbox)@.wf(),
            final(mailbox).forwarder_spec() == old(mailbox).forwarder_spec(),
            send_post(self.name(), old(mailbox)@, message, final(mailbox)@, r, other_kind()),
    {
        send_local(mailbox, &self.mailbox, self.channel, &message, false)
    }

    /// Binds the port under its own index, so that messages posted to the
    /// mailbox reach it; a port index that is bound stays as it is. Returns
    /// the reference to the port, with the reducer of the handle.
    pub fn bind<F>(&self, mailbox: &mut Mailbox<F>) -> (r: PortRef<M>)
        requires
            old(mailbox)@.wf(),
            self.name().valid_in(old(mailbox)@),
        ensures
            final(mailbox)@ == old(mailbox)@.bound_if_vacant(
                self.name().index,
                self.name().slot as u64,
            ),
            final(mailbox)@.wf(),
            final(mailbox).forwarder_spec() == old(mailbox).forwarder_spec(),
            r.id() == self.name().port(),
            r.reducer() == self.reducer(),
    {
        mailbox.bind_slot(self.port_index, self.channel);
        let reducer_spec = match &self.reducer_spec {
            Some(spec) => Some(spec.clone()),
            None => None,
        };
        PortRef::attest_reducible(self.mailbox.port_id(self.port_index), reducer_spec)
    }

    /// Binds the port under the given index, which must not be bound.
    pub fn bind_to<F>(&self, mailbox: &mut Mailbox<F>, port_index: u64)
        requires
            old(mailbox)@.wf(),
            self.name().valid_in(old(mailbox)@),
            !old(mailbox)@.ports.contains_key(port_index),
        ensures
            final(mailbox)@ == old(mailbox)@.bound(port_index, self.name().slot as u64),
            final(mailbox)@.wf(),
            final(mailbox).forwarder_spec() == old(mailbox).forwarder_spec(),
    {
        mailbox.bind_slot(port_index, self.channel);
    }

    /// The sending side of the port goes away: once the messages that
    /// wait were received, the receiver finds the port closed.
    pub fn close<F>(self, mailbox: &mut Mailbox<F>)
        requires
            old(mailbox)@.wf(),
        ensures
            final(mailbox)@ == if self.name().valid_in(old(mailbox)@) {
                old(mailbox)@.sender_closed(self.name().slot)
            } else {
                old(mailbox)@
            },
            final(mailbox)@.wf(),
            final(mailbox).forwarder_spec() == old(mailbox).forwarder_spec(),
    {
        if mailbox.holds(&self.mailbox, self.channel) {
            mailbox.close_sender(self.channel);
        }
    }

    /// The port's location in its written form.
    pub fn to_string<F>(&self, mailbox: &Mailbox<F>) -> (s: String)
        ensures
            s@ == if mailbox@.ports.contains_key(self.name().index) {
                self.name().port().shown()
            } else {
                PortLocationView::Unbound(self.name().owner, M::typename_spec()).shown()
            },
    {
        self.location(mailbox).to_string()
    }
}

impl<M: RemoteMessage> Clone for PortHandle<M> {
    fn clone(&self) -> (r: Self)
        ensures
            r.name() == self.name(),
            r.reducer() == self.reducer(),
    {
        PortHandle {
            mailbox: self.mailbox.clone(),
            port_index: self.port_index,
            channel: self.channel,
            reducer_spec: match &self.reducer_spec {
                Some(spec) => Some(spec.clone()),
                None => None,
            },
            phantom: PhantomData,
        }
    }
}

impl<M: RemoteMessage> OncePortHandle<M> {
    /// What the handle names.
    pub closed spec fn name(&self) -> PortName {
        PortName {
            owner: self.port_id@.actor,
            index: self.port_id@.index,
            slot: self.channel as int,
        }
    }

    /// This port's id.
    pub fn port_id(&self) -> (r: &PortId)
        ensures
            r@ == self.name().port(),
    {
        &self.port_id
    }

    /// Whether the handle is one of the mailbox: only then can the port
    /// be bound.
    pub fn belongs_to<F>(&self, mailbox: &Mailbox<F>) -> (r: bool)
        ensures
            r == self.name().valid_in(mailbox@),
    {
        mailbox.holds(self.port_id.actor_id(), self.channel)
    }

    /// Sends the message to the port, and uses the handle up: see
    /// [`send_post`]. The error of a port that does not take the message
    /// is `Closed`.
    pub fn send<F>(self, mailbox: &mut Mailbox<F>, message: M) -> (r: Result<
        (),
        MailboxSenderError,
    >)
        requires
            old(mailbox)@.wf(),
        ensures
            final(mailbox)@.wf(),
            final(mailbox).forwarder_spec() == old(mailbox).forwarder_spec(),
            send_post(self.name(), old(mailbox)@, message, final(mailbox)@, r, closed_kind()),
    {
        send_local(mailbox, self.port_id.actor_id(), self.channel, &message, true)
    }

    /// Binds the port under its own index and uses the handle up; a port
    /// index that is bound stays as it is. Returns the reference to the
    /// port.
    pub fn bind<F>(self, mailbox: &mut Mailbox<F>) -> (r: OncePortRef<M>)
        requires
            old(mailbox)@.wf(),
            self.name().valid_in(old(mailbox)@),
        ensures
            final(mailbox)@ == old(mailbox)@.bound_if_vacant(
                self.name().index,
                self.name().slot as u64,
            ),
            final(mailbox)@.wf(),
            final(mailbox).forwarder_spec() == old(mailbox).forwarder_spec(),
            r.id() == self.name().port(),
    {
        mailbox.bind_slot(self.port_id.index(), self.channel);
        OncePortRef::attest(self.port_id)
    }

    /// The handle goes away unused: the receiver finds the port closed.
    pub fn close<F>(self, mailbox: &mut Mailbox<F>)
        requires
            old(mailbox)@.wf(),
        ensures
            final(mailbox)@ == if self.name().valid_in(old(mailbox)@) {
                old(mailbox)@.sender_closed(self.name().slot)
            } else {
                old(mailbox)@
            },
            final(mailbox)@.wf(),
            final(mailbox).forwarder_spec() == old(mailbox).forwarder_spec(),
    {
        if mailbox.holds(self.port_id.actor_id(), self.channel) {
            mailbox.close_sender(self.channel);
        }
    }

    /// The port's id in its written form.
    pub fn to_string(&self) -> (s: String)
        ensures
            s@ == self.name().port().shown(),
    {
        self.port_id().to_string()
    }
}

impl<M: RemoteMessage> PortReceiver<M> {
    /// What the receiver names.
    pub closed spec fn name(&self) -> PortName {
        PortName {
            owner: self.port_id@.actor,
            index: self.port_id@.index,
            slot: self.channel as int,
        }
    }

    /// Whether the receiver takes the newest message only.
    pub closed spec fn coalescing(&self) -> bool {
        self.coalesce
    }

    /// The index of the port.
    pub fn port(&self) -> (r: u64)
        ensures
            r == self.name().index,
    {
        self.port_id.index()
    }

    /// The actor of the port.
    pub fn actor_id(&self) -> (r: &ActorId)
        ensures
            r@ == self.name().owner,
    {
        self.port_id.actor_id()
    }

    /// Takes the next message of the port if one waits: see [`recv_post`].
    pub fn try_recv<F>(&mut self, mailbox: &mut Mailbox<F>) -> (r: Result<Option<M>, MailboxError>)
        requires
            old(mailbox)@.wf(),
        ensures
            final(mailbox)@.wf(),
            final(mailbox).forwarder_spec() == old(mailbox).forwarder_spec(),
            recv_post(old(self).name(), old(self).coalescing(), old(mailbox)@, final(mailbox)@, r),
            final(self).name() == old(self).name(),
            final(self).coalescing() == old(self).coalescing(),
    {
        recv_local(mailbox, &self.port_id, self.channel, self.coalesce)
    }

    /// Takes the next message of the port. Where none waits and one may
    /// still come, the result is `Ok(None)`, and the caller waits before it
    /// asks again: see [`recv_post`].
    pub fn recv<F>(&mut self, mailbox: &mut Mailbox<F>) -> (r: Result<Option<M>, MailboxError>)
        requires
            old(mailbox)@.wf(),
        ensures
            final(mailbox)@.wf(),
            final(mailbox).forwarder_spec() == old(mailbox).forwarder_spec(),
            recv_post(old(self).name(), old(self).coalescing(), old(mailbox)@, final(mailbox)@, r),
            final(self).name() == old(self).name(),
            final(self).coalescing() == old(self).coalescing(),
    {
        recv_local(mailbox, &self.port_id, self.channel, self.coalesce)
    }

    /// Takes all messages that wait: each that decodes, oldest first, or
    /// only the newest for a coalescing receiver.
    pub fn drain<F>(&mut self, mailbox: &mut Mailbox<F>) -> (r: Vec<M>)
        requires
            old(mailbox)@.wf(),
        ensures
            final(mailbox)@.wf(),
            final(mailbox).forwarder_spec() == old(mailbox).forwarder_spec(),
            final(self).name() == old(self).name(),
            final(self).coalescing() == old(self).coalescing(),
            if old(self).name().valid_in(old(mailbox)@) {
                let channel = old(mailbox)@.channels[old(self).name().slot];
                &&& final(mailbox)@ == old(mailbox)@.with_channel(
                    old(self).name().slot,
                    channel.emptied(),
                )
                &&& r@ == decoded::<M>(channel.drained(old(self).coalescing()))
            } else {
                &&& final(mailbox)@ == old(mailbox)@
                &&& r@.len() == 0
            },
    {
        let mut drained: Vec<M> = Vec::new();
        if !mailbox.holds(self.port_id.actor_id(), self.channel) {
            return drained;
        }
        let items = mailbox.drain(self.channel, self.coalesce);
        let ghost all = messages(items@);
        let mut i: usize = 0;
        assert(all.take(0) =~= Seq::empty());
        while i < items.len()
            invariant
                i <= items@.len(),
                all == messages(items@),
                drained@ == decoded::<M>(all.take(i as int)),
            decreases items@.len() - i,
        {
            proof {
                let next = all.take(i as int + 1);
                assert(next.drop_last() =~= all.take(i as int));
                assert(next.last() == items@[i as int]@);
            }
            match items[i].deserialized::<M>() {
                Ok(value) => {
                    drained.push(value);
                },
                Err(_) => {},
            }
            i += 1;
        }
        assert(all.take(i as int) =~= all);
        drained
    }

    /// The receiver goes away: the port is unbound, and the port takes no
    /// more messages.
    pub fn close<F>(self, mailbox: &mut Mailbox<F>)
        requires
            old(mailbox)@.wf(),
        ensures
            final(mailbox)@ == if self.name().valid_in(old(mailbox)@) {
                old(mailbox)@.receiver_closed(self.name().index, self.name().slot)
            } else {
                old(mailbox)@
            },
            final(mailbox)@.wf(),
            final(mailbox).forwarder_spec() == old(mailbox).forwarder_spec(),
    {
        if mailbox.holds(self.port_id.actor_id(), self.channel) {
            mailbox.close_receiver(self.port_id.index(), self.channel);
        }
    }
}

impl<M: RemoteMessage> OncePortReceiver<M> {
    /// What the receiver names.
    pub closed spec fn name(&self) -> PortName {
        PortName {
            owner: self.port_id@.actor,
            index: self.port_id@.index,
            slot: self.channel as int,
        }
    }

    /// The index of the port.
    pub fn port(&self) -> (r: u64)
        ensures
            r == self.name().index,
    {
        self.port_id.index()
    }

    /// The actor of the port.
    pub fn actor_id(&self) -> (r: &ActorId)
        ensures
            r@ == self.name().owner,
    {
        self.port_id.actor_id()
    }

    /// Takes the message of the port. Where it has not come and may still
    /// come, the result is `Ok(None)`, and the caller waits before it asks
    /// again: see [`recv_post`]. Where none will come, the error is `Closed`.
    pub fn recv<F>(&mut self, mailbox: &mut Mailbox<F>) -> (r: Result<Option<M>, MailboxError>)
        requires
            old(mailbox)@.wf(),
        ensures
            final(mailbox)@.wf(),
            final(mailbox).forwarder_spec() == old(mailbox).forwarder_spec(),
            recv_post(old(self).name(), false, old(mailbox)@, final(mailbox)@, r),
            final(self).name() == old(self).name(),
    {
        recv_local(mailbox, &self.port_id, self.channel, false)
    }

    /// The receiver goes away: the port is unbound, and the port takes no
    /// message any more.
    pub fn close<F>(self, mailbox: &mut Mailbox<F>)
        requires
            old(mailbox)@.wf(),
        ensures
            final(mailbox)@ == if self.name().valid_in(old(mailbox)@) {
                old(mailbox)@.receiver_closed(self.name().index, self.name().slot)
            } else {
                old(mailbox)@
            },
            final(mailbox)@.wf(),
            final(mailbox).forwarder_spec() == old(mailbox).forwarder_spec(),
    {
        if mailbox.holds(self.port_id.actor_id(), self.channel) {
            mailbox.close_receiver(self.port_id.index(), self.channel);
        }
    }
}

/// Opens a port on a mailbox: see [`Mailbox::open_port`].
pub fn open_port<F, M: RemoteMessage>(caps: &mut Mailbox<F>) -> (r: (
    PortHandle<M>,
    PortReceiver<M>,
))
    requires
        old(caps)@.wf(),
        old(caps)@.next_port < u64::MAX,
    ensures
        final(caps)@ == old(caps)@.opened(queue_channel::<M>()),
        final(caps)@.wf(),
        final(caps).forwarder_spec() == old(caps).forwarder_spec(),
        r.0.name() == old(caps)@.fresh(),
        r.1.name() == old(caps)@.fresh(),
        r.0.reducer() is None,
        !r.1.coalescing(),
{
    caps.open_port()
}

/// Opens a one-shot port on a mailbox: see [`Mailbox::open_once_port`].
pub fn open_once_port<F, M: RemoteMessage>(caps: &mut Mailbox<F>) -> (r: (
    OncePortHandle<M>,
    OncePortReceiver<M>,
))
    requires
        old(caps)@.wf(),
        old(caps)@.next_port < u64::MAX,
    ensures
        final(caps)@ == old(caps)@.opened(once_channel::<M>()),
        final(caps)@.wf(),
        final(caps).forwarder_spec() == old(caps).forwarder_spec(),
        r.0.name() == old(caps)@.fresh(),
        r.1.name() == old(caps)@.fresh(),
{
    caps.open_once_port()
}

} // verus!
