//! The mailbox client: the sender in front of an outbound channel. It
//! keeps what is posted to it until the channel takes it, and returns what
//! the channel cannot take.

use vstd::prelude::*;
use vstd::std_specs::cmp::PartialEqSpecImpl;
use vstd::string::{StrSliceExecFns, StringExecFns};
use crate::envelope::{
    return_undeliverable, DeliveryError, DeliveryErrorView, EnvelopeView, MessageEnvelope,
    ReturnHandle,
};
use crate::sender::{MailboxSender, SenderState};
use crate::text::same_str;

verus! {

/// The address of a channel: a transport, and what names the channel on
/// that transport.
#[derive(Debug)]
pub struct ChannelAddr {
    pub transport: String,
    pub name: String,
}

/// What a channel address stands for.
pub struct AddrView {
    pub transport: Seq<char>,
    pub name: Seq<char>,
}

impl AddrView {
    /// `transport!name`.
    pub open spec fn shown(self) -> Seq<char> {
        self.transport + "!"@ + self.name
    }
}

impl View for ChannelAddr {
    type V = AddrView;

    open spec fn view(&self) -> AddrView {
        AddrView { transport: self.transport@, name: self.name@ }
    }
}

impl Clone for ChannelAddr {
    fn clone(&self) -> (r: Self)
        ensures
            r == *self,
    {
        ChannelAddr { transport: self.transport.clone(), name: self.name.clone() }
    }
}

impl PartialEq for ChannelAddr {
    fn eq(&self, other: &Self) -> (r: bool) {
        same_str(self.transport.as_str(), other.transport.as_str()) && same_str(
            self.name.as_str(),
            other.name.as_str(),
        )
    }
}

impl PartialEqSpecImpl for ChannelAddr {
    open spec fn obeys_eq_spec() -> bool {
        true
    }

    open spec fn eq_spec(&self, other: &Self) -> bool {
        self@ == other@
    }
}

impl Eq for ChannelAddr {

}

/// Whether `i` is the place of the first `!` in the text.
pub open spec fn first_bang(text: Seq<char>, i: int) -> bool {
    &&& 0 <= i < text.len()
    &&& text[i] == '!'
    &&& forall|j: int| 0 <= j < i ==> text[j] != '!'
}

/// The address that a text of the form `transport!name` stands for: the
/// transport is what stands before the first `!`, the name what follows it.
pub open spec fn parsed(text: Seq<char>) -> Option<AddrView> {
    if exists|i: int| first_bang(text, i) {
        let i = choose|i: int| first_bang(text, i);
        Some(
            AddrView {
                transport: text.subrange(0, i),
                name: text.subrange(i + 1, text.len() as int),
            },
        )
    } else {
        None
    }
}

impl ChannelAddr {
    /// Reads an address of the form `transport!name`; a text without `!`
    /// is no address.
    pub fn parse(text: &str) -> (r: Option<Self>)
        ensures
            match r {
                Some(addr) => parsed(text@) == Some(addr@),
                None => parsed(text@) is None,
            },
    {
        let len = text.unicode_len();
        let mut i: usize = 0;
        while i < len
            invariant
                len == text@.len(),
                i <= len,
                forall|j: int| 0 <= j < i ==> text@[j] != '!',
            decreases len - i,
        {
            if text.get_char(i) == '!' {
                assert(first_bang(text@, i as int));
                assert forall|k: int| first_bang(text@, k) implies k == i by {
                    if k < i {
                        assert(text@[k] != '!');
                    } else if k > i {
                        assert(text@[i as int] == '!');
                    }
                }
                let transport = text.substring_char(0, i);
                let name = text.substring_char(i + 1, len);
                return Some(
                    ChannelAddr {
                        transport: String::from_str(transport),
                        name: String::from_str(name),
                    },
                );
            }
            i += 1;
        }
        None
    }

    /// The address of the named channel on the transport.
    pub fn new(transport: &str, name: &str) -> (r: Self)
        ensures
            r@ == (AddrView { transport: transport@, name: name@ }),
    {
        ChannelAddr { transport: String::from_str(transport), name: String::from_str(name) }
    }

    /// `transport!name`.
    pub fn to_string(&self) -> (s: String)
        ensures
            s@ == self@.shown(),
    {
        let mut s = self.transport.clone();
        s.append("!");
        s.append(self.name.as_str());
        s
    }
}

/// Whether a channel is still there.
#[derive(Clone, Copy, Debug, PartialEq, Eq, Structural)]
pub enum TxStatus {
    Active,
    Closed,
}

/// What the watch on a channel's health sees.
#[derive(Clone, Copy, Debug, PartialEq, Eq, Structural)]
pub enum TxEvent {
    /// The status changed to this one; none where the channel's side of the
    /// watch is gone.
    Changed(Option<TxStatus>),
    /// The client went away and called the watch off.
    Cancelled,
}

/// What the watch on a channel's health does next.
#[derive(Clone, Copy, Debug, PartialEq, Eq, Structural)]
pub enum TxWatch {
    /// Go on watching.
    Continue,
    /// The connection is lost: say so, and stop watching.
    Lost,
    /// Stop watching.
    Stop,
}

/// Decides what the watch on a channel's health does after an event: the
/// connection is lost where the channel closed or its side of the watch is
/// gone, and the watch stops where it was called off.
pub fn monitor_tx_health(event: TxEvent) -> (r: TxWatch)
    ensures
        r == match event {
            TxEvent::Changed(None) => TxWatch::Lost,
            TxEvent::Changed(Some(TxStatus::Closed)) => TxWatch::Lost,
            TxEvent::Changed(Some(TxStatus::Active)) => TxWatch::Continue,
            TxEvent::Cancelled => TxWatch::Stop,
        },
{
    match event {
        TxEvent::Changed(None) => TxWatch::Lost,
        TxEvent::Changed(Some(TxStatus::Closed)) => TxWatch::Lost,
        TxEvent::Changed(Some(TxStatus::Active)) => TxWatch::Continue,
        TxEvent::Cancelled => TxWatch::Stop,
    }
}

/// An unbounded buffer between those who send items and the one who
/// processes them, in the order in which they were sent. It counts what
/// was sent and what was processed, so that one can tell when everything
/// sent was processed.
pub struct Buffer<T> {
    queue: Vec<T>,
    open: bool,
    seq: usize,
    processed: usize,
}

impl<T> Buffer<T> {
    /// The items that wait to be processed, oldest first.
    pub closed spec fn waiting(&self) -> Seq<T> {
        self.queue@
    }

    /// Whether the processing side is still there.
    pub closed spec fn is_open(&self) -> bool {
        self.open
    }

    /// The number of sends, as far as a `usize` counts.
    pub closed spec fn sent(&self) -> usize {
        self.seq
    }

    /// The number of items that were processed.
    pub closed spec fn done(&self) -> usize {
        self.processed
    }

    /// A new, empty buffer.
    pub fn new() -> (r: Self)
        ensures
            r.waiting() == Seq::<T>::empty(),
            r.is_open(),
            r.sent() == 0,
            r.done() == 0,
    {
        Buffer { queue: Vec::new(), open: true, seq: 0, processed: 0 }
    }

    /// Sends an item. The send is counted; where the processing side is
    /// gone the item comes back.
    pub fn send(&mut self, item: T) -> (r: Result<(), T>)
        ensures
            final(self).sent() == if old(self).sent() < usize::MAX {
                (old(self).sent() + 1) as usize
            } else {
                usize::MAX
            },
            final(self).done() == old(self).done(),
            final(self).is_open() == old(self).is_open(),
            match r {
                Ok(()) => old(self).is_open() && final(self).waiting() == old(self).waiting().push(
                    item,
                ),
                Err(back) => !old(self).is_open() && back == item && final(self).waiting() == old(
                    self).waiting(),
            },
    {
        if self.seq < usize::MAX {
            self.seq = self.seq + 1;
        }
        if self.open {
            self.queue.push(item);
            Ok(())
        } else {
            Err(item)
        }
    }

    /// Takes the oldest of the items that wait, to process it.
    pub fn next(&mut self) -> (r: Option<T>)
        ensures
            final(self).sent() == old(self).sent(),
            final(self).done() == old(self).done(),
            final(self).is_open() == old(self).is_open(),
            match r {
                Some(item) => old(self).waiting().len() > 0 && item == old(self).waiting()[0]
                    && final(self).waiting() == old(self).waiting().drop_first(),
                None => old(self).waiting().len() == 0 && final(self).waiting() == old(
                    self).waiting(),
            },
    {
        if self.queue.len() == 0 {
            None
        } else {
            let item = self.queue.remove(0);
            assert(self.queue@ =~= old(self).queue@.drop_first());
            Some(item)
        }
    }

    /// An item was processed.
    pub fn processed(&mut self)
        ensures
            final(self).done() == if old(self).done() < usize::MAX {
                (old(self).done() + 1) as usize
            } else {
                usize::MAX
            },
            final(self).sent() == old(self).sent(),
            final(self).waiting() == old(self).waiting(),
            final(self).is_open() == old(self).is_open(),
    {
        if self.processed < usize::MAX {
            self.processed = self.processed + 1;
        }
    }

    /// Whether everything that was sent so far was processed: a flush
    /// waits until this holds.
    pub fn flush(&self) -> (r: bool)
        ensures
            r == (self.done() >= self.sent()),
    {
        self.processed >= self.seq
    }

    /// The processing side goes away.
    pub fn close(&mut self)
        ensures
            !final(self).is_open(),
            final(self).waiting() == old(self).waiting(),
            final(self).sent() == old(self).sent(),
            final(self).done() == old(self).done(),
    {
        self.open = false;
    }
}

/// The error of an envelope that the client could not hand to its channel.
pub open spec fn not_enqueued() -> DeliveryErrorView {
    DeliveryErrorView::BrokenLink("failed to enqueue in MailboxClient"@)
}

/// The envelopes of a list as what they stand for.
pub open spec fn envelopes(items: Seq<MessageEnvelope>) -> Seq<EnvelopeView> {
    Seq::new(items.len(), |i: int| items[i]@)
}

/// A mailbox client: it transmits what is posted to it on the channel to
/// a mailbox server.
pub struct MailboxClient {
    addr: ChannelAddr,
    buffer: Buffer<MessageEnvelope>,
}

impl MailboxClient {
    /// The address of the channel.
    pub closed spec fn address(&self) -> AddrView {
        self.addr@
    }

    /// The envelopes that wait for transmission, oldest first.
    pub closed spec fn outbox(&self) -> Seq<EnvelopeView> {
        envelopes(self.buffer.waiting())
    }

    /// Whether the client still takes envelopes.
    pub closed spec fn is_open(&self) -> bool {
        self.buffer.is_open()
    }

    /// The number of posts, as far as a `usize` counts.
    pub closed spec fn sent(&self) -> usize {
        self.buffer.sent()
    }

    /// The number of envelopes that the channel was given.
    pub closed spec fn done(&self) -> usize {
        self.buffer.done()
    }

    /// A new client for the channel at the address.
    pub fn new(addr: ChannelAddr) -> (r: Self)
        ensures
            r.address() == addr@,
            r.outbox() == Seq::<EnvelopeView>::empty(),
            r.is_open(),
            r.sent() == 0,
            r.done() == 0,
    {
        let r = MailboxClient { addr, buffer: Buffer::new() };
        assert(r.outbox() =~= Seq::empty());
        r
    }

    /// The address of the channel.
    pub fn addr(&self) -> (r: &ChannelAddr)
        ensures
            r@ == self.address(),
    {
        &self.addr
    }

    /// Takes the envelope that is to be transmitted next.
    pub fn next(&mut self) -> (r: Option<MessageEnvelope>)
        ensures
            final(self).address() == old(self).address(),
            final(self).is_open() == old(self).is_open(),
            final(self).sent() == old(self).sent(),
            final(self).done() == old(self).done(),
            match r {
                Some(envelope) => old(self).outbox().len() > 0 && envelope@ == old(self).outbox()[0]
                    && final(self).outbox() == old(self).outbox().drop_first(),
                None => old(self).outbox().len() == 0 && final(self).outbox() == old(
                    self).outbox(),
            },
    {
        let r = self.buffer.next();
        assert(r is Some ==> self.outbox() =~= old(self).outbox().drop_first());
        r
    }

    /// The channel was given an envelope. Where it did not take it, the
    /// envelope is in `refused`, and goes back as a broken link.
    pub fn transmitted(
        &mut self,
        refused: Option<MessageEnvelope>,
        return_handle: &mut ReturnHandle,
    )
        ensures
            final(self).address() == old(self).address(),
            final(self).is_open() == old(self).is_open(),
            final(self).sent() == old(self).sent(),
            final(self).outbox() == old(self).outbox(),
            final(self).done() == if old(self).done() < usize::MAX {
                (old(self).done() + 1) as usize
            } else {
                usize::MAX
            },
            final(return_handle)@ == match refused {
                Some(envelope) => old(return_handle)@.push(envelope@.stamped(not_enqueued())),
                None => old(return_handle)@,
            },
    {
        match refused {
            Some(envelope) => {
                envelope.undeliverable(
                    DeliveryError::broken_link("failed to enqueue in MailboxClient"),
                    return_handle,
                );
            },
            None => {},
        }
        self.buffer.processed();
    }

    /// The channel reports that it could not deliver this envelope: the
    /// envelope goes back as it is.
    pub fn delivery_failed(message: MessageEnvelope, return_handle: &mut ReturnHandle)
        ensures
            final(return_handle)@ == old(return_handle)@.push(message@),
    {
        return_undeliverable(return_handle, message);
    }

    /// Whether everything that was posted so far was given to the channel.
    pub fn flush(&self) -> (r: bool)
        ensures
            r == (self.done() >= self.sent()),
    {
        self.buffer.flush()
    }

    /// The transmitting side goes away: what is posted from now on goes
    /// back as a broken link.
    pub fn close(&mut self)
        ensures
            !final(self).is_open(),
            final(self).address() == old(self).address(),
            final(self).outbox() == old(self).outbox(),
            final(self).sent() == old(self).sent(),
            final(self).done() == old(self).done(),
    {
        self.buffer.close();
    }
}

impl MailboxSender for MailboxClient {
    open spec fn wf(&self) -> bool {
        true
    }

    open spec fn state(&self) -> SenderState {
        SenderState::Client {
            outbox: self.outbox(),
            open: self.is_open(),
            sent: self.sent(),
            done: self.done(),
        }
    }

    open spec fn after(&self, envelope: EnvelopeView) -> SenderState {
        SenderState::Client {
            outbox: if self.is_open() {
                self.outbox().push(envelope)
            } else {
                self.outbox()
            },
            open: self.is_open(),
            sent: if self.sent() < usize::MAX {
                (self.sent() + 1) as usize
            } else {
                usize::MAX
            },
            done: self.done(),
        }
    }

    open spec fn refuses(&self, envelope: EnvelopeView) -> bool {
        false
    }

    open spec fn bounced(&self, envelope: EnvelopeView) -> Option<EnvelopeView> {
        if self.is_open() {
            None
        } else {
            Some(envelope.stamped(not_enqueued()))
        }
    }

    /// Posts the envelope: it waits for transmission behind those that were
    /// posted before it, or, where the client no longer takes envelopes,
    /// goes back as a broken link.
    fn post(&mut self, envelope: MessageEnvelope, return_handle: &mut ReturnHandle)
        ensures
            final(self).address() == old(self).address(),
            final(self).is_open() == old(self).is_open(),
            final(self).done() == old(self).done(),
            final(self).outbox() == if old(self).is_open() {
                old(self).outbox().push(envelope@)
            } else {
                old(self).outbox()
            },
    {
        match self.buffer.send(envelope) {
            Ok(()) => {
                assert(self.outbox() =~= old(self).outbox().push(envelope@));
            },
            Err(envelope) => {
                envelope.undeliverable(
                    DeliveryError::broken_link("failed to enqueue in MailboxClient"),
                    return_handle,
                );
            },
        }
    }
}

} // verus!
