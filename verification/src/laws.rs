//! What holds of mailboxes and their ports, whatever their state.

use vstd::prelude::*;
use crate::accum::{Accumulator, Reducer};
use crate::data::{RemoteMessage, SerializedView};
use crate::envelope::EnvelopeView;
use crate::error::MailboxSenderErrorKindView;
use crate::handle::PortName;
use crate::mailbox::{
    bounce, lemma_deliver_wf, port_not_bound, MailboxView, Trip, USER_PORT_OFFSET,
};
use crate::port::{Accepted, ChannelView, SinkView, Taken};
use crate::sender::MailboxSender;

verus! {

/// Port indices are unique: a port that a mailbox opens has an index of
/// at least [`USER_PORT_OFFSET`], and every port that the mailbox opens
/// later, whatever happened to the mailbox in between, has a greater one.
pub proof fn lemma_port_uniqueness(first: MailboxView, channel: ChannelView, later: MailboxView)
    requires
        first.wf(),
        first.next_port < u64::MAX,
        first.opened(channel).next_port <= later.next_port,
    ensures
        first.fresh().index >= USER_PORT_OFFSET,
        first.fresh().index < later.fresh().index,
        first.opened(channel).wf(),
{
    let after = first.opened(channel);
    assert forall|k: u64| #[trigger] after.ports.contains_key(k) implies after.ports[k]
        < after.channels.len() by {
        assert(first.ports.contains_key(k));
    }
}

/// No operation on a mailbox lowers the next port index: posting leaves it
/// as it is.
pub proof fn lemma_post_keeps_next_port(mailbox: MailboxView, envelope: EnvelopeView)
    requires
        mailbox.wf(),
    ensures
        mailbox.posted(envelope).0.next_port == mailbox.next_port,
        mailbox.posted(envelope).0.wf(),
{
    lemma_deliver_wf(mailbox, envelope, mailbox.channels.len());
}

/// Whether the named port of the mailbox is a port with a queue for
/// messages of type `M` that is bound under its index and has its receiver.
pub open spec fn is_bound_queue<M: RemoteMessage>(mailbox: MailboxView, name: PortName) -> bool {
    &&& name.valid_in(mailbox)
    &&& mailbox.channels[name.slot].sink is Queue
    &&& mailbox.channels[name.slot].format == M::format_spec()
    &&& mailbox.channels[name.slot].receiving
    &&& mailbox.ports.contains_key(name.index)
    &&& mailbox.ports[name.index] == name.slot
}

/// Local delivery: an envelope with the serialized `value` that is posted
/// to the mailbox for a bound port with a queue is delivered to that port,
/// where it waits behind the messages that waited before; and once it is
/// the oldest, the receiver takes it and it decodes to `value`.
pub proof fn lemma_local_delivery<M: RemoteMessage>(
    mailbox: MailboxView,
    name: PortName,
    value: M,
    envelope: EnvelopeView,
)
    requires
        mailbox.wf(),
        is_bound_queue::<M>(mailbox, name),
        envelope.dest == name.port(),
        value.encoding() == Some(envelope.data.bytes),
    ensures
        mailbox.posted(envelope).1 is Delivered,
        mailbox.posted(envelope).0 == mailbox.with_channel(
            name.slot,
            mailbox.channels[name.slot].with_sink(
                SinkView::Queue { items: mailbox.channels[name.slot].items().push(envelope.data) },
            ),
        ),
        M::decoding(envelope.data.bytes) == Some(value),
        mailbox.channels[name.slot].items().len() == 0 ==> mailbox.posted(
            envelope,
        ).0.channels[name.slot].take(false).1 == Taken::Message(envelope.data),
{
    value.lemma_round_trip();
    M::lemma_format(envelope.data.bytes);
    let channel = mailbox.channels[name.slot];
    let after = mailbox.posted(envelope).0.channels[name.slot];
    assert(after.items() == channel.items().push(envelope.data));
    if channel.items().len() == 0 {
        assert(after.items()[0] == envelope.data);
    }
}

/// The channel after each of the messages was offered to it, in order.
pub open spec fn offered(channel: ChannelView, data: Seq<SerializedView>, limit: usize)
    -> ChannelView
    decreases data.len(),
{
    if data.len() == 0 {
        channel
    } else {
        offered(channel, data.drop_last(), limit).accept(Seq::empty(), data.last(), limit).0
    }
}

/// The channel after `n` messages were received from it in turn.
pub open spec fn after_takes(channel: ChannelView, n: nat) -> ChannelView
    decreases n,
{
    if n == 0 {
        channel
    } else {
        after_takes(channel, (n - 1) as nat).take(false).0
    }
}

/// Whether the channel is a port with a queue that has its receiver.
pub open spec fn is_queue(channel: ChannelView) -> bool {
    channel.sink is Queue && channel.receiving
}

/// Whether every one of the messages decodes under the format of the channel.
pub open spec fn all_admitted(channel: ChannelView, data: Seq<SerializedView>) -> bool {
    forall|i: int| 0 <= i < data.len() ==> channel.format.admits((#[trigger] data[i]).bytes)
}

/// A port with a queue takes every message that decodes, and puts it
/// behind those that wait.
pub proof fn lemma_offered(channel: ChannelView, data: Seq<SerializedView>, limit: usize)
    requires
        is_queue(channel),
        all_admitted(channel, data),
    ensures
        is_queue(offered(channel, data, limit)),
        offered(channel, data, limit).format == channel.format,
        offered(channel, data, limit).items() == channel.items() + data,
    decreases data.len(),
{
    if data.len() > 0 {
        lemma_offered(channel, data.drop_last(), limit);
        let before = offered(channel, data.drop_last(), limit);
        assert(channel.format.admits(data.last().bytes));
        assert(before.items().push(data.last()) =~= channel.items() + data);
    } else {
        assert(channel.items() + data =~= channel.items());
    }
}

/// Receiving takes the messages of a queue from the front.
pub proof fn lemma_after_takes(channel: ChannelView, n: nat)
    requires
        channel.sink is Queue,
        n <= channel.items().len(),
    ensures
        after_takes(channel, n).sink is Queue,
        after_takes(channel, n).items() == channel.items().skip(n as int),
        n < channel.items().len() ==> after_takes(channel, n).take(false).1 == Taken::Message(
            channel.items()[n as int],
        ),
    decreases n,
{
    if n > 0 {
        lemma_after_takes(channel, (n - 1) as nat);
        let before = after_takes(channel, (n - 1) as nat);
        assert(before.items().drop_first() =~= channel.items().skip(n as int));
    } else {
        assert(channel.items().skip(0) =~= channel.items());
    }
}

/// First in, first out: the messages that are sent to a port with an
/// empty queue, one after the other, are received in the order in which
/// they were sent.
pub proof fn lemma_fifo(channel: ChannelView, data: Seq<SerializedView>, limit: usize, k: nat)
    requires
        is_queue(channel),
        channel.items().len() == 0,
        all_admitted(channel, data),
        k < data.len(),
    ensures
        after_takes(offered(channel, data, limit), k).take(false).1 == Taken::Message(
            data[k as int],
        ),
{
    lemma_offered(channel, data, limit);
    assert(channel.items() + data =~= data);
    lemma_after_takes(offered(channel, data, limit), k);
}

/// One shot, at most once: a one-shot port that took a message is used
/// up. It takes no message again: whatever decodes is refused as closed.
pub proof fn lemma_once_at_most_once(
    channel: ChannelView,
    first: SerializedView,
    second: SerializedView,
    limit: usize,
)
    requires
        channel.sink is Once,
        channel.accept(Seq::empty(), first, limit).1 is Kept,
        channel.format.admits(second.bytes),
    ensures
        channel.accept(Seq::empty(), first, limit).1 == (Accepted::Kept { still_valid: false }),
        channel.accept(Seq::empty(), first, limit).0.accept(Seq::empty(), second, limit).1 == (
            Accepted::Refused { data: second, kind: MailboxSenderErrorKindView::Closed }
        ),
{
}

/// One shot, at most once, in the mailbox: the post that a bound one-shot
/// port takes unbinds the port, and an envelope that is posted to the port
/// afterwards goes back as unroutable.
pub proof fn lemma_once_unbinds(mailbox: MailboxView, first: EnvelopeView, second: EnvelopeView)
    requires
        mailbox.wf(),
        first.dest.actor == mailbox.actor_id,
        second.dest == first.dest,
        mailbox.ports.contains_key(first.dest.index),
        mailbox.channels[mailbox.ports[first.dest.index] as int].sink is Once,
        mailbox.posted(first).1 is Delivered,
    ensures
        !mailbox.posted(first).0.ports.contains_key(first.dest.index),
        mailbox.posted(first).0.posted(second).1 == Trip::Returned(
            second.stamped(port_not_bound()),
        ),
{
}

/// The closed loop: an envelope for the actor of the mailbox whose port is
/// not bound comes back, once, marked as unroutable; and whatever the
/// mailbox cannot deliver or forward comes back with an error on it.
pub proof fn lemma_undeliverable_returns<F: MailboxSender>(
    mailbox: MailboxView,
    forwarder: F,
    envelope: EnvelopeView,
)
    requires
        mailbox.wf(),
    ensures
        envelope.dest.actor == mailbox.actor_id && !mailbox.ports.contains_key(envelope.dest.index)
            ==> bounce(forwarder, mailbox.posted(envelope).1) == Some(
            envelope.stamped(port_not_bound()),
        ),
        mailbox.posted(envelope).1 matches Trip::Returned(back) ==> back.error is Some,
{
    lemma_deliver_wf(mailbox, envelope, mailbox.channels.len());
}

/// The encoded state after each of the encoded updates was folded into
/// it, in order: none where one of the folds fails.
pub open spec fn fold_all(reducer: Reducer, state: Seq<u8>, updates: Seq<SerializedView>)
    -> Option<Seq<u8>>
    decreases updates.len(),
{
    if updates.len() == 0 {
        Some(state)
    } else {
        match fold_all(reducer, state, updates.drop_last()) {
            Some(s) => reducer.combined(s, updates.last().bytes),
            None => None,
        }
    }
}

/// The state of an accumulator port.
pub open spec fn accum_state(channel: ChannelView) -> Seq<u8> {
    match channel.sink {
        SinkView::Accum { state, .. } => state,
        _ => Seq::empty(),
    }
}

/// The reducer of an accumulator port.
pub open spec fn accum_reducer(channel: ChannelView) -> Reducer {
    match channel.sink {
        SinkView::Accum { reducer, .. } => reducer,
        _ => arbitrary(),
    }
}

/// An accumulator port folds each update that it takes into its state, and
/// lets each new state wait for the receiver.
pub proof fn lemma_accumulated(channel: ChannelView, updates: Seq<SerializedView>, limit: usize)
    requires
        channel.sink is Accum,
        channel.receiving,
        all_admitted(channel, updates),
        fold_all(accum_reducer(channel), accum_state(channel), updates) is Some,
    ensures
        offered(channel, updates, limit).sink is Accum,
        offered(channel, updates, limit).receiving,
        offered(channel, updates, limit).format == channel.format,
        accum_reducer(offered(channel, updates, limit)) == accum_reducer(channel),
        Some(accum_state(offered(channel, updates, limit))) == fold_all(
            accum_reducer(channel),
            accum_state(channel),
            updates,
        ),
        offered(channel, updates, limit).items().len() == channel.items().len() + updates.len(),
        updates.len() > 0 ==> offered(channel, updates, limit).items().last() == (SerializedView {
            typename: None,
            bytes: accum_state(offered(channel, updates, limit)),
        }),
    decreases updates.len(),
{
    if updates.len() > 0 {
        lemma_accumulated(channel, updates.drop_last(), limit);
        assert(channel.format.admits(updates.last().bytes));
    }
}

/// Coalescing: after updates were sent to an accumulator port, one after
/// the other and with no receive in between, a single receive yields the
/// state into which all of them were folded.
pub proof fn lemma_coalescing(channel: ChannelView, updates: Seq<SerializedView>, limit: usize)
    requires
        channel.sink is Accum,
        channel.receiving,
        all_admitted(channel, updates),
        updates.len() > 0,
        fold_all(accum_reducer(channel), accum_state(channel), updates) is Some,
    ensures
        offered(channel, updates, limit).take(true).1 == Taken::Message(
            SerializedView {
                typename: None,
                bytes: fold_all(accum_reducer(channel), accum_state(channel), updates)->0,
            },
        ),
        offered(channel, updates, limit).take(true).0.items().len() == 0,
{
    lemma_accumulated(channel, updates, limit);
}

/// The state after each of the updates was folded into it by the
/// accumulator, in order: none where one of the folds fails.
pub open spec fn accumulated<A: Accumulator>(accum: A, state: A::State, updates: Seq<A::Update>)
    -> Option<A::State>
    decreases updates.len(),
{
    if updates.len() == 0 {
        Some(state)
    } else {
        match accumulated(accum, state, updates.drop_last()) {
            Some(s) => accum.next(s, updates.last()),
            None => None,
        }
    }
}

/// Whether the messages are the serialized updates, one for one.
pub open spec fn encodes<U: RemoteMessage>(data: Seq<SerializedView>, updates: Seq<U>) -> bool {
    &&& data.len() == updates.len()
    &&& forall|i: int|
        0 <= i < updates.len() ==> (#[trigger] updates[i]).encoding() == Some(data[i].bytes)
}

/// Folding encoded updates into an encoded state gives the encoding of
/// what the accumulator makes of the updates and the state, and fails
/// where the accumulator fails; and that encoding decodes to the state.
pub proof fn lemma_accumulated_typed<A: Accumulator>(
    accum: A,
    state: A::State,
    updates: Seq<A::Update>,
    data: Seq<SerializedView>,
)
    requires
        state.encoding() is Some,
        encodes(data, updates),
    ensures
        match accumulated(accum, state, updates) {
            Some(s) => s.encoding() is Some && fold_all(
                accum.reducer_spec_fn(),
                state.encoding()->0,
                data,
            ) == s.encoding() && A::State::decoding(s.encoding()->0) == Some(s),
            None => fold_all(accum.reducer_spec_fn(), state.encoding()->0, data) is None,
        },
    decreases updates.len(),
{
    if updates.len() == 0 {
        state.lemma_round_trip();
    } else {
        assert(encodes(data.drop_last(), updates.drop_last())) by {
            assert forall|i: int| 0 <= i < updates.drop_last().len() implies (
            #[trigger] updates.drop_last()[i]).encoding() == Some(data.drop_last()[i].bytes) by {
                assert(updates[i].encoding() == Some(data[i].bytes));
            }
        }
        lemma_accumulated_typed(accum, state, updates.drop_last(), data.drop_last());
        match accumulated(accum, state, updates.drop_last()) {
            Some(s) => {
                assert(updates.last() == updates[updates.len() - 1]);
                assert(updates[updates.len() - 1].encoding() == Some(
                    data[updates.len() - 1].bytes,
                ));
                accum.lemma_erased(s, updates.last());
                match accum.next(s, updates.last()) {
                    Some(n) => {
                        n.lemma_round_trip();
                    },
                    None => {},
                }
            },
            None => {},
        }
    }
}

/// Drop closes: once the receiver of a port went away the port is not in
/// the port table, and an envelope that is posted to it goes back as
/// unroutable, the mailbox staying as it is.
pub proof fn lemma_drop_closes(mailbox: MailboxView, name: PortName, envelope: EnvelopeView)
    requires
        mailbox.wf(),
        name.valid_in(mailbox),
        envelope.dest == name.port(),
    ensures
        !mailbox.receiver_closed(name.index, name.slot).ports.contains_key(name.index),
        mailbox.receiver_closed(name.index, name.slot).posted(envelope) == (
            mailbox.receiver_closed(name.index, name.slot),
            Trip::Returned(envelope.stamped(port_not_bound())),
        ),
{
}

} // verus!
