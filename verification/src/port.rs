//! The state behind a port: where the messages that it takes go, and the
//! verdict on each message that is offered to it.

use vstd::prelude::*;
use vstd::string::StringExecFns;
use crate::accum::{payloads, Reducer};
use crate::attrs::{Attrs, HeadersView};
use crate::data::{Serialized, SerializedView, WireFormat};
use crate::error::{MailboxSenderErrorKind, MailboxSenderErrorKindView};
use crate::reference::{PortId, PortKey};

verus! {

/// A function that stands behind a port in place of a queue.
pub trait EnqueueFn {
    /// Why the function rejects the message, if it does.
    spec fn verdict(&self, headers: Seq<(Seq<char>, SerializedView)>, data: SerializedView)
        -> Option<Seq<char>>;

    /// Takes the message, or says why not.
    fn enqueue(&self, headers: &Attrs, data: &Serialized) -> (r: Result<(), String>)
        ensures
            match r {
                Ok(()) => self.verdict(headers@, data@) is None,
                Err(reason) => self.verdict(headers@, data@) == Some(reason@),
            },
    ;
}

/// The updates that a split port holds back until a batch is full.
#[derive(Debug)]
pub struct SplitPortBuffer(pub Vec<Serialized>);

/// The messages of a list as what they stand for.
pub open spec fn messages(items: Seq<Serialized>) -> Seq<SerializedView> {
    Seq::new(items.len(), |i: int| items[i]@)
}

pub proof fn lemma_messages_push(items: Seq<Serialized>, item: Serialized)
    ensures
        messages(items.push(item)) == messages(items).push(item@),
{
    assert(messages(items.push(item)) =~= messages(items).push(item@));
}

/// The bytes of each message of a list.
pub open spec fn bytes_of(items: Seq<SerializedView>) -> Seq<Seq<u8>> {
    Seq::new(items.len(), |i: int| items[i].bytes)
}

pub proof fn lemma_bytes_of_messages(items: Seq<Serialized>)
    ensures
        bytes_of(messages(items)) == payloads(items),
{
    assert(bytes_of(messages(items)) =~= payloads(items));
}

impl View for SplitPortBuffer {
    type V = Seq<SerializedView>;

    open spec fn view(&self) -> Seq<SerializedView> {
        messages(self.0@)
    }
}

impl SplitPortBuffer {
    /// An empty buffer.
    pub fn new() -> (r: Self)
        ensures
            r@ == Seq::<SerializedView>::empty(),
    {
        let r = SplitPortBuffer(Vec::new());
        assert(r@ =~= Seq::empty());
        r
    }

    /// Adds an update to the buffer. Once the buffer holds `limit` updates
    /// or more, hands out all of them, in the order in which they came, and
    /// is empty again.
    pub fn push(&mut self, serialized: Serialized, limit: usize) -> (r: Option<Vec<Serialized>>)
        ensures
            match r {
                Some(batch) => old(self)@.len() + 1 >= limit && messages(batch@) == old(
                    self,
                )@.push(serialized@) && final(self)@ == Seq::<SerializedView>::empty(),
                None => old(self)@.len() + 1 < limit && final(self)@ == old(self)@.push(
                    serialized@,
                ),
            },
    {
        proof {
            lemma_messages_push(self.0@, serialized);
        }
        self.0.push(serialized);
        if self.0.len() >= limit {
            let mut batch: Vec<Serialized> = Vec::new();
            std::mem::swap(&mut batch, &mut self.0);
            assert(self@ =~= Seq::empty());
            Some(batch)
        } else {
            None
        }
    }
}

/// A value behind a field of a type parameter. A trait object that is held
/// so stays, to specifications, the object that was put in.
pub struct Held<T> {
    value: T,
}

impl<T> Held<T> {
    /// The value that is held.
    pub closed spec fn held(&self) -> T {
        self.value
    }

    /// Holds the value.
    pub fn new(value: T) -> (r: Self)
        ensures
            r.held() == value,
    {
        Held { value }
    }

    /// The value that is held.
    pub fn get(&self) -> (r: &T)
        ensures
            *r == self.held(),
    {
        &self.value
    }

    /// The value that is held, to work on it in place.
    pub fn get_mut(&mut self) -> (r: &mut T)
        ensures
            *r == old(self).held(),
            final(self).held() == *final(r),
    {
        &mut self.value
    }
}

/// A function behind a port.
pub struct FuncSink {
    func: Held<Box<dyn EnqueueFn>>,
}

impl FuncSink {
    /// Why the function rejects the message, if it does.
    pub closed spec fn verdict(
        &self,
        headers: Seq<(Seq<char>, SerializedView)>,
        data: SerializedView,
    ) -> Option<Seq<char>> {
        self.func.held().verdict(headers, data)
    }

    /// The given function, to stand behind a port.
    pub fn new(func: Box<dyn EnqueueFn>) -> (r: Self)
        ensures
            forall|headers: HeadersView, data: SerializedView|
                #[trigger] r.verdict(headers, data) == func.verdict(headers, data),
    {
        let held = Held::new(func);
        assert(forall|headers: HeadersView, data: SerializedView|
            #[trigger] held.held().verdict(headers, data) == func.verdict(headers, data));
        FuncSink { func: held }
    }

    /// Hands the message to the function.
    pub fn enqueue(&self, headers: &Attrs, data: &Serialized) -> (r: Result<(), String>)
        ensures
            match r {
                Ok(()) => self.verdict(headers@, data@) is None,
                Err(reason) => self.verdict(headers@, data@) == Some(reason@),
            },
    {
        self.func.get().enqueue(headers, data)
    }
}

/// Where the messages that a port takes go.
pub enum Sink {
    /// Into a queue, from which the receiver takes them in order.
    Queue { items: Vec<Serialized> },
    /// Into a state by a fold, each new state into a queue.
    Accum { reducer: Reducer, state: Vec<u8>, items: Vec<Serialized> },
    /// To a function.
    Func(FuncSink),
    /// Into a slot for a single message.
    Once { value: Option<Serialized>, taken: bool },
    /// On to another port, through a reducer where there is one.
    Split { target: PortId, through: Option<Reducer>, buffer: SplitPortBuffer },
}

/// What a sink stands for.
pub enum SinkView {
    Queue { items: Seq<SerializedView> },
    Accum { reducer: Reducer, state: Seq<u8>, items: Seq<SerializedView> },
    Func(FuncSink),
    Once { value: Option<SerializedView>, taken: bool },
    Split { target: PortKey, through: Option<Reducer>, buffer: Seq<SerializedView> },
}

impl View for Sink {
    type V = SinkView;

    open spec fn view(&self) -> SinkView {
        match self {
            Sink::Queue { items } => SinkView::Queue { items: messages(items@) },
            Sink::Accum { reducer, state, items } => SinkView::Accum {
                reducer: *reducer,
                state: state@,
                items: messages(items@),
            },
            Sink::Func(sink) => SinkView::Func(*sink),
            Sink::Once { value, taken } => SinkView::Once {
                value: match value {
                    Some(v) => Some(v@),
                    None => None,
                },
                taken: *taken,
            },
            Sink::Split { target, through, buffer } => SinkView::Split {
                target: target@,
                through: *through,
                buffer: buffer@,
            },
        }
    }
}

/// The state behind one port.
pub struct Channel {
    /// The name of the message type of the port.
    pub typename: String,
    /// Which payloads decode as the message type of the port.
    pub format: WireFormat,
    /// Where the messages go.
    pub sink: Sink,
    /// Whether the receiver of the port is still there.
    pub receiving: bool,
    /// Whether the sending side of the port is still there.
    pub sending: bool,
}

/// What the state behind a port stands for.
pub struct ChannelView {
    pub typename: Seq<char>,
    pub format: WireFormat,
    pub sink: SinkView,
    pub receiving: bool,
    pub sending: bool,
}

impl View for Channel {
    type V = ChannelView;

    open spec fn view(&self) -> ChannelView {
        ChannelView {
            typename: self.typename@,
            format: self.format,
            sink: self.sink@,
            receiving: self.receiving,
            sending: self.sending,
        }
    }
}

/// What became of a message that was offered to a port.
pub enum Accepted {
    /// The port took it. The port stays bound unless `still_valid` is false.
    Kept { still_valid: bool },
    /// The port passes this message on to another port.
    Passed { target: PortKey, data: SerializedView },
    /// The port did not take it, and hands it back.
    Refused { data: SerializedView, kind: MailboxSenderErrorKindView },
}

/// What became of a message that was offered to a port.
pub enum Delivery {
    /// The port took it. The port stays bound unless the flag is false.
    Kept(bool),
    /// The port passes this message on to another port.
    Passed(PortId, Serialized),
    /// The port did not take it, and hands it back.
    Refused(Serialized, MailboxSenderErrorKind),
}

impl View for Delivery {
    type V = Accepted;

    open spec fn view(&self) -> Accepted {
        match self {
            Delivery::Kept(still_valid) => Accepted::Kept { still_valid: *still_valid },
            Delivery::Passed(target, data) => Accepted::Passed { target: target@, data: data@ },
            Delivery::Refused(data, kind) => Accepted::Refused { data: data@, kind: kind@ },
        }
    }
}

/// A batch of updates reduced to one message: a single update is itself,
/// more are folded into bytes of no named type.
pub open spec fn reduced_message(reducer: Reducer, batch: Seq<SerializedView>) -> Option<
    SerializedView,
> {
    if batch.len() == 1 {
        Some(batch[0])
    } else {
        match reducer.reduced(bytes_of(batch)) {
            Some(bytes) => Some(SerializedView { typename: None, bytes }),
            None => None,
        }
    }
}

impl ChannelView {
    /// The channel with another sink.
    pub open spec fn with_sink(self, sink: SinkView) -> ChannelView {
        ChannelView { sink, ..self }
    }

    /// What becomes of a message that is offered to the port, and the state
    /// behind the port afterwards. `limit` is the size of the batches that a
    /// split port reduces.
    pub open spec fn accept(
        self,
        headers: Seq<(Seq<char>, SerializedView)>,
        data: SerializedView,
        limit: usize,
    ) -> (ChannelView, Accepted) {
        match self.sink {
            SinkView::Split { target, through, buffer } => match through {
                None => (self, Accepted::Passed { target, data }),
                Some(r) => {
                    let batch = buffer.push(data);
                    if batch.len() >= limit {
                        let emptied = self.with_sink(
                            SinkView::Split { target, through, buffer: Seq::empty() },
                        );
                        match reduced_message(r, batch) {
                            Some(one) => (emptied, Accepted::Passed { target, data: one }),
                            None => (
                                emptied,
                                Accepted::Refused {
                                    data,
                                    kind: MailboxSenderErrorKindView::Other(
                                        "cannot reduce updates"@,
                                    ),
                                },
                            ),
                        }
                    } else {
                        (
                            self.with_sink(SinkView::Split { target, through, buffer: batch }),
                            Accepted::Kept { still_valid: true },
                        )
                    }
                },
            },
            _ => if !self.format.admits(data.bytes) {
                (
                    self,
                    Accepted::Refused {
                        data,
                        kind: MailboxSenderErrorKindView::Deserialize(
                            self.typename,
                            "unexpected end of payload"@,
                        ),
                    },
                )
            } else {
                match self.sink {
                    SinkView::Queue { items } => if self.receiving {
                        (
                            self.with_sink(SinkView::Queue { items: items.push(data) }),
                            Accepted::Kept { still_valid: true },
                        )
                    } else {
                        (
                            self,
                            Accepted::Refused {
                                data,
                                kind: MailboxSenderErrorKindView::Other("channel closed"@),
                            },
                        )
                    },
                    SinkView::Accum { reducer, state, items } => match reducer.combined(
                        state,
                        data.bytes,
                    ) {
                        Some(next) => (
                            self.with_sink(
                                SinkView::Accum {
                                    reducer,
                                    state: next,
                                    items: if self.receiving {
                                        items.push(SerializedView { typename: None, bytes: next })
                                    } else {
                                        items
                                    },
                                },
                            ),
                            Accepted::Kept { still_valid: true },
                        ),
                        None => (
                            self,
                            Accepted::Refused {
                                data,
                                kind: MailboxSenderErrorKindView::Other(
                                    "cannot accumulate update"@,
                                ),
                            },
                        ),
                    },
                    SinkView::Func(sink) => match sink.verdict(headers, data) {
                        Some(reason) => (
                            self,
                            Accepted::Refused {
                                data,
                                kind: MailboxSenderErrorKindView::Other(reason),
                            },
                        ),
                        None => (self, Accepted::Kept { still_valid: true }),
                    },
                    SinkView::Once { value, taken } => if taken || !self.receiving {
                        (
                            self.with_sink(SinkView::Once { value, taken: true }),
                            Accepted::Refused { data, kind: MailboxSenderErrorKindView::Closed },
                        )
                    } else {
                        (
                            self.with_sink(SinkView::Once { value: Some(data), taken: true }),
                            Accepted::Kept { still_valid: false },
                        )
                    },
                    SinkView::Split { .. } => (self, Accepted::Kept { still_valid: true }),
                }
            },
        }
    }
}

impl Channel {
    /// Offers a message to the port.
    pub fn accept(&mut self, headers: &Attrs, data: Serialized, limit: usize) -> (r: Delivery)
        ensures
            (final(self)@, r@) == old(self)@.accept(headers@, data@, limit),
    {
        let admitted = data.fits(&self.format);
        if let Sink::Func(sink) = &self.sink {
            return if !admitted {
                Delivery::Refused(data, undecodable(&self.typename))
            } else {
                match sink.enqueue(headers, &data) {
                    Ok(()) => Delivery::Kept(true),
                    Err(reason) => Delivery::Refused(data, MailboxSenderErrorKind::Other(reason)),
                }
            };
        }
        match &mut self.sink {
            Sink::Split { target, through, buffer } => {
                match through {
                    None => Delivery::Passed(target.clone(), data),
                    Some(r) => {
                        let back = data.clone();
                        match buffer.push(data, limit) {
                            None => Delivery::Kept(true),
                            Some(batch) => {
                                proof {
                                    lemma_bytes_of_messages(batch@);
                                }
                                match r.reduce_updates(batch) {
                                    Ok(one) => Delivery::Passed(target.clone(), one),
                                    Err(_) => Delivery::Refused(
                                        back,
                                        MailboxSenderErrorKind::Other(
                                            String::from_str("cannot reduce updates"),
                                        ),
                                    ),
                                }
                            },
                        }
                    },
                }
            },
            Sink::Queue { items } => {
                if !admitted {
                    Delivery::Refused(data, undecodable(&self.typename))
                } else if self.receiving {
                    proof {
                        lemma_messages_push(items@, data);
                    }
                    items.push(data);
                    Delivery::Kept(true)
                } else {
                    Delivery::Refused(
                        data,
                        MailboxSenderErrorKind::Other(String::from_str("channel closed")),
                    )
                }
            },
            Sink::Accum { reducer, state, items } => {
                if !admitted {
                    Delivery::Refused(data, undecodable(&self.typename))
                } else {
                    match reducer.combine(state.as_slice(), data.bytes()) {
                        Ok(next) => {
                            if self.receiving {
                                let emitted = Serialized::new(next.clone());
                                proof {
                                    lemma_messages_push(items@, emitted);
                                }
                                items.push(emitted);
                            }
                            *state = next;
                            Delivery::Kept(true)
                        },
                        Err(_) => Delivery::Refused(
                            data,
                            MailboxSenderErrorKind::Other(
                                String::from_str("cannot accumulate update"),
                            ),
                        ),
                    }
                }
            },
            Sink::Func(_) => Delivery::Kept(true),
            Sink::Once { value, taken } => {
                if !admitted {
                    Delivery::Refused(data, undecodable(&self.typename))
                } else if *taken || !self.receiving {
                    *taken = true;
                    Delivery::Refused(data, MailboxSenderErrorKind::Closed)
                } else {
                    *taken = true;
                    *value = Some(data);
                    Delivery::Kept(false)
                }
            },
        }
    }
}

/// The error of a payload that does not decode as the named type.
fn undecodable(typename: &String) -> (r: MailboxSenderErrorKind)
    ensures
        r@ == MailboxSenderErrorKindView::Deserialize(typename@, "unexpected end of payload"@),
{
    MailboxSenderErrorKind::Deserialize(
        typename.clone(),
        String::from_str("unexpected end of payload"),
    )
}

/// What a receiver finds when it looks for the next message.
pub enum Taken {
    /// This message.
    Message(SerializedView),
    /// No message yet; one may still come.
    Empty,
    /// No message, and none will come: the sending side is gone.
    Closed,
}

/// What a receiver finds when it looks for the next message.
pub enum Take {
    /// This message.
    Message(Serialized),
    /// No message yet; one may still come.
    Empty,
    /// No message, and none will come: the sending side is gone.
    Closed,
}

impl View for Take {
    type V = Taken;

    open spec fn view(&self) -> Taken {
        match self {
            Take::Message(m) => Taken::Message(m@),
            Take::Empty => Taken::Empty,
            Take::Closed => Taken::Closed,
        }
    }
}

impl ChannelView {
    /// The messages that wait for the receiver, oldest first.
    pub open spec fn items(self) -> Seq<SerializedView> {
        match self.sink {
            SinkView::Queue { items } => items,
            SinkView::Accum { items, .. } => items,
            SinkView::Once { value: Some(v), .. } => seq![v],
            _ => Seq::empty(),
        }
    }

    /// The channel with no message waiting.
    pub open spec fn emptied(self) -> ChannelView {
        match self.sink {
            SinkView::Queue { items } => self.with_sink(SinkView::Queue { items: Seq::empty() }),
            SinkView::Accum { reducer, state, items } => self.with_sink(
                SinkView::Accum { reducer, state, items: Seq::empty() },
            ),
            SinkView::Once { value, taken } => self.with_sink(
                SinkView::Once { value: None, taken },
            ),
            _ => self,
        }
    }

    /// The channel without the oldest of the messages that wait.
    pub open spec fn popped(self) -> ChannelView {
        match self.sink {
            SinkView::Queue { items } => self.with_sink(
                SinkView::Queue { items: items.drop_first() },
            ),
            SinkView::Accum { reducer, state, items } => self.with_sink(
                SinkView::Accum { reducer, state, items: items.drop_first() },
            ),
            SinkView::Once { value, taken } => self.with_sink(
                SinkView::Once { value: None, taken },
            ),
            _ => self,
        }
    }

    /// Whether a message may still come: the sending side is there, and a
    /// one-shot port was not used yet.
    pub open spec fn alive(self) -> bool {
        match self.sink {
            SinkView::Once { taken, .. } => !taken,
            _ => self.sending,
        }
    }

    /// What the receiver finds, and the channel afterwards. A coalescing
    /// receiver takes the newest message and discards the older ones; any
    /// other takes the oldest.
    pub open spec fn take(self, coalesce: bool) -> (ChannelView, Taken) {
        let items = self.items();
        if items.len() > 0 {
            if coalesce {
                (self.emptied(), Taken::Message(items.last()))
            } else {
                (self.popped(), Taken::Message(items[0]))
            }
        } else if self.alive() {
            (self, Taken::Empty)
        } else {
            (self, Taken::Closed)
        }
    }

    /// The messages that a drain hands out: all that wait, oldest first,
    /// or only the newest for a coalescing receiver.
    pub open spec fn drained(self, coalesce: bool) -> Seq<SerializedView> {
        let items = self.items();
        if coalesce && items.len() > 0 {
            seq![items.last()]
        } else {
            items
        }
    }
}

/// Removes and returns the first message of a list.
fn pop_front(items: &mut Vec<Serialized>) -> (first: Serialized)
    requires
        old(items)@.len() > 0,
    ensures
        first@ == messages(old(items)@)[0],
        messages(final(items)@) == messages(old(items)@).drop_first(),
{
    let first = items.remove(0);
    assert(messages(items@) =~= messages(old(items)@).drop_first());
    first
}

/// Removes all messages of a list and returns the last.
fn pop_all(items: &mut Vec<Serialized>) -> (last: Serialized)
    requires
        old(items)@.len() > 0,
    ensures
        last@ == messages(old(items)@).last(),
        final(items)@.len() == 0,
{
    let mut all: Vec<Serialized> = Vec::new();
    std::mem::swap(&mut all, items);
    match all.pop() {
        Some(last) => last,
        None => Serialized::new(Vec::new()),
    }
}

/// Removes and returns all messages of a list.
fn take_all(items: &mut Vec<Serialized>) -> (all: Vec<Serialized>)
    ensures
        all@ == old(items)@,
        final(items)@.len() == 0,
{
    let mut all: Vec<Serialized> = Vec::new();
    std::mem::swap(&mut all, items);
    all
}

impl Channel {
    /// Looks for the next message: see [`ChannelView::take`].
    pub fn take(&mut self, coalesce: bool) -> (r: Take)
        ensures
            (final(self)@, r@) == old(self)@.take(coalesce),
    {
        let sending = self.sending;
        match &mut self.sink {
            Sink::Queue { items } => {
                if items.len() > 0 {
                    if coalesce {
                        let last = pop_all(items);
                        assert(messages(items@) =~= Seq::empty());
                        Take::Message(last)
                    } else {
                        Take::Message(pop_front(items))
                    }
                } else if sending {
                    Take::Empty
                } else {
                    Take::Closed
                }
            },
            Sink::Accum { reducer, state, items } => {
                if items.len() > 0 {
                    if coalesce {
                        let last = pop_all(items);
                        assert(messages(items@) =~= Seq::empty());
                        Take::Message(last)
                    } else {
                        Take::Message(pop_front(items))
                    }
                } else if sending {
                    Take::Empty
                } else {
                    Take::Closed
                }
            },
            Sink::Once { value, taken } => {
                match value.take() {
                    Some(v) => {
                        assert(old(self)@.items() =~= seq![v@]);
                        Take::Message(v)
                    },
                    None => if *taken {
                        Take::Closed
                    } else {
                        Take::Empty
                    },
                }
            },
            _ => if sending {
                Take::Empty
            } else {
                Take::Closed
            },
        }
    }

    /// Hands out the messages that wait: see [`ChannelView::drained`].
    pub fn drain(&mut self, coalesce: bool) -> (r: Vec<Serialized>)
        ensures
            final(self)@ == old(self)@.emptied(),
            messages(r@) == old(self)@.drained(coalesce),
    {
        let mut all: Vec<Serialized> = match &mut self.sink {
            Sink::Queue { items } => {
                let all = take_all(items);
                assert(messages(items@) =~= Seq::empty());
                all
            },
            Sink::Accum { reducer, state, items } => {
                let all = take_all(items);
                assert(messages(items@) =~= Seq::empty());
                all
            },
            Sink::Once { value, taken } => {
                let mut all: Vec<Serialized> = Vec::new();
                match value.take() {
                    Some(v) => {
                        all.push(v);
                        assert(messages(all@) =~= seq![v@]);
                    },
                    None => {
                        assert(messages(all@) =~= Seq::empty());
                    },
                }
                all
            },
            _ => {
                let all: Vec<Serialized> = Vec::new();
                assert(messages(all@) =~= Seq::empty());
                all
            },
        };
        assert(messages(all@) == old(self)@.items());
        if coalesce && all.len() > 0 {
            let last = pop_all(&mut all);
            all.push(last);
            assert(messages(all@) =~= seq![last@]);
        }
        all
    }
}

} // verus!
