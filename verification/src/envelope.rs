//! The message envelope, the errors of its delivery, and the handle through
//! which an undeliverable envelope goes back to its sender.

use vstd::prelude::*;
use vstd::string::StringExecFns;
use crate::attrs::Attrs;
use crate::data::{Handled, RemoteMessage, Serialized, SerializedView};
use crate::reference::{ActorId, ActorKey, PortId, PortKey, ProcKey};

verus! {

/// The port index of an actor's signal port.
pub const SIGNAL_PORT: u64 = 0;

/// The port index of an actor's port for undeliverable envelopes.
pub const UNDELIVERABLE_PORT: u64 = 1;

/// What an actor is told through its signal port.
#[derive(Clone, Copy, Debug, PartialEq, Eq, Structural)]
pub enum Signal {
    /// Stop once the messages that wait were handled.
    DrainAndStop,
    /// Stop now.
    Stop,
}

impl Handled for Signal {
    open spec fn port_spec() -> u64 {
        SIGNAL_PORT
    }

    fn port() -> (p: u64) {
        SIGNAL_PORT
    }
}

/// Why a message could not be delivered.
#[derive(Debug)]
pub enum DeliveryError {
    /// The destination address is not reachable.
    Unroutable(String),
    /// A link in the message delivery path has failed.
    BrokenLink(String),
    /// A (local) mailbox delivery error.
    Mailbox(String),
}

/// What a delivery error stands for.
pub enum DeliveryErrorView {
    Unroutable(Seq<char>),
    BrokenLink(Seq<char>),
    Mailbox(Seq<char>),
}

impl DeliveryErrorView {
    pub open spec fn shown(self) -> Seq<char> {
        match self {
            DeliveryErrorView::Unroutable(reason) => "address not routable: "@ + reason,
            DeliveryErrorView::BrokenLink(reason) => "broken link: "@ + reason,
            DeliveryErrorView::Mailbox(reason) => "mailbox error: "@ + reason,
        }
    }
}

impl View for DeliveryError {
    type V = DeliveryErrorView;

    open spec fn view(&self) -> DeliveryErrorView {
        match self {
            DeliveryError::Unroutable(reason) => DeliveryErrorView::Unroutable(reason@),
            DeliveryError::BrokenLink(reason) => DeliveryErrorView::BrokenLink(reason@),
            DeliveryError::Mailbox(reason) => DeliveryErrorView::Mailbox(reason@),
        }
    }
}

impl Clone for DeliveryError {
    fn clone(&self) -> (r: Self)
        ensures
            r == *self,
    {
        match self {
            DeliveryError::Unroutable(reason) => DeliveryError::Unroutable(reason.clone()),
            DeliveryError::BrokenLink(reason) => DeliveryError::BrokenLink(reason.clone()),
            DeliveryError::Mailbox(reason) => DeliveryError::Mailbox(reason.clone()),
        }
    }
}

impl DeliveryError {
    /// The destination is not reachable, for the given reason.
    pub fn unroutable(reason: &str) -> (r: Self)
        ensures
            r@ == DeliveryErrorView::Unroutable(reason@),
    {
        DeliveryError::Unroutable(String::from_str(reason))
    }

    /// A link on the way has failed, for the given reason.
    pub fn broken_link(reason: &str) -> (r: Self)
        ensures
            r@ == DeliveryErrorView::BrokenLink(reason@),
    {
        DeliveryError::BrokenLink(String::from_str(reason))
    }

    pub fn to_string(&self) -> (s: String)
        ensures
            s@ == self@.shown(),
    {
        let (prefix, reason) = match self {
            DeliveryError::Unroutable(reason) => ("address not routable: ", reason),
            DeliveryError::BrokenLink(reason) => ("broken link: ", reason),
            DeliveryError::Mailbox(reason) => ("mailbox error: ", reason),
        };
        let mut s = String::from_str(prefix);
        s.append(reason.as_str());
        s
    }
}

/// An optional delivery error as what it stands for.
pub open spec fn opt_error(error: Option<DeliveryError>) -> Option<DeliveryErrorView> {
    match error {
        Some(e) => Some(e@),
        None => None,
    }
}

/// An envelope that carries a serialized message with its sender and its
/// destination, and the delivery error once delivery has failed.
#[derive(Debug)]
pub struct MessageEnvelope {
    sender: ActorId,
    dest: PortId,
    data: Serialized,
    error: Option<DeliveryError>,
    headers: Attrs,
}

/// What an envelope stands for.
pub struct EnvelopeView {
    pub sender: ActorKey,
    pub dest: PortKey,
    pub data: SerializedView,
    pub error: Option<DeliveryErrorView>,
    pub headers: Seq<(Seq<char>, SerializedView)>,
}

impl EnvelopeView {
    /// The envelope marked with `error`, unless it carries an error already:
    /// the first error stays.
    pub open spec fn stamped(self, error: DeliveryErrorView) -> EnvelopeView {
        if self.error is Some {
            self
        } else {
            EnvelopeView { error: Some(error), ..self }
        }
    }

    /// What stands around the message in the envelope.
    pub open spec fn metadata(self) -> MetadataView {
        MetadataView {
            sender: self.sender,
            dest: self.dest,
            error: self.error,
            headers: self.headers,
        }
    }
}

/// What the metadata of an envelope stands for.
pub struct MetadataView {
    pub sender: ActorKey,
    pub dest: PortKey,
    pub error: Option<DeliveryErrorView>,
    pub headers: Seq<(Seq<char>, SerializedView)>,
}

impl MetadataView {
    /// The envelope of this metadata around `data`.
    pub open spec fn sealed(self, data: SerializedView) -> EnvelopeView {
        EnvelopeView {
            sender: self.sender,
            dest: self.dest,
            data,
            error: self.error,
            headers: self.headers,
        }
    }
}

/// The sender that stands for nobody in particular: `unknown[0].unknown[0]`.
pub open spec fn unknown_sender() -> ActorKey {
    ActorKey { proc: ProcKey { world: "unknown"@, rank: 0 }, name: "unknown"@, pid: 0 }
}

impl View for MessageEnvelope {
    type V = EnvelopeView;

    closed spec fn view(&self) -> EnvelopeView {
        EnvelopeView {
            sender: self.sender@,
            dest: self.dest@,
            data: self.data@,
            error: opt_error(self.error),
            headers: self.headers@,
        }
    }
}

impl Clone for MessageEnvelope {
    fn clone(&self) -> (r: Self)
        ensures
            r@ == self@,
    {
        MessageEnvelope {
            sender: self.sender.clone(),
            dest: self.dest.clone(),
            data: self.data.clone(),
            error: match &self.error {
                Some(e) => Some(e.clone()),
                None => None,
            },
            headers: self.headers.clone(),
        }
    }
}

/// What stands around the message in an envelope.
#[derive(Debug)]
pub struct MessageMetadata {
    pub sender: ActorId,
    pub dest: PortId,
    pub error: Option<DeliveryError>,
    pub headers: Attrs,
}

impl View for MessageMetadata {
    type V = MetadataView;

    open spec fn view(&self) -> MetadataView {
        MetadataView {
            sender: self.sender@,
            dest: self.dest@,
            error: opt_error(self.error),
            headers: self.headers@,
        }
    }
}

impl Clone for MessageMetadata {
    fn clone(&self) -> (r: Self)
        ensures
            r@ == self@,
    {
        MessageMetadata {
            sender: self.sender.clone(),
            dest: self.dest.clone(),
            error: match &self.error {
                Some(e) => Some(e.clone()),
                None => None,
            },
            headers: self.headers.clone(),
        }
    }
}

impl MessageEnvelope {
    /// A new envelope with the given sender, destination, message and
    /// headers, and no error.
    pub fn new(sender: ActorId, dest: PortId, data: Serialized, headers: Attrs) -> (r: Self)
        ensures
            r@ == (EnvelopeView {
                sender: sender@,
                dest: dest@,
                data: data@,
                error: None,
                headers: headers@,
            }),
    {
        Self { sender, dest, data, error: None, headers }
    }

    /// A new envelope whose sender is unknown, without headers.
    pub fn new_unknown(dest: PortId, data: Serialized) -> (r: Self)
        ensures
            r@ == (EnvelopeView {
                sender: unknown_sender(),
                dest: dest@,
                data: data@,
                error: None,
                headers: Seq::empty(),
            }),
    {
        Self::new(ActorId::unknown(), dest, data, Attrs::new())
    }

    /// A new envelope around the serialized `value`; the error says why the
    /// value could not be encoded.
    pub fn serialize<T: RemoteMessage>(
        source: ActorId,
        dest: PortId,
        value: &T,
        headers: Attrs,
    ) -> (r: Result<Self, String>)
        ensures
            match r {
                Ok(envelope) => value.encoding() matches Some(bytes) && envelope@ == (EnvelopeView {
                    sender: source@,
                    dest: dest@,
                    data: SerializedView { typename: Some(T::typename_spec()), bytes },
                    error: None,
                    headers: headers@,
                }),
                Err(_) => value.encoding() is None,
            },
    {
        match Serialized::serialize(value) {
            Ok(data) => Ok(Self { headers, data, sender: source, dest, error: None }),
            Err(e) => Err(e),
        }
    }

    /// The message in the envelope as a `T`; the error says why it is none.
    pub fn deserialized<T: RemoteMessage>(&self) -> (r: Result<T, String>)
        ensures
            match r {
                Ok(value) => T::decoding(self@.data.bytes) == Some(value),
                Err(_) => T::decoding(self@.data.bytes) is None,
            },
    {
        self.data.deserialized()
    }

    /// The serialized message.
    pub fn data(&self) -> (r: &Serialized)
        ensures
            r@ == self@.data,
    {
        &self.data
    }

    /// The message sender.
    pub fn sender(&self) -> (r: &ActorId)
        ensures
            r@ == self@.sender,
    {
        &self.sender
    }

    /// The destination of the message.
    pub fn dest(&self) -> (r: &PortId)
        ensures
            r@ == self@.dest,
    {
        &self.dest
    }

    /// The message headers.
    pub fn headers(&self) -> (r: &Attrs)
        ensures
            r@ == self@.headers,
    {
        &self.headers
    }

    /// Whether this is a signal message: one for the signal port.
    pub fn is_signal(&self) -> (r: bool)
        ensures
            r == (self@.dest.index == Signal::port_spec()),
    {
        self.dest.index() == Signal::port()
    }

    /// Marks the envelope with a delivery error, unless it carries one already.
    pub fn try_set_error(&mut self, error: DeliveryError)
        ensures
            final(self)@ == old(self)@.stamped(error@),
    {
        if self.error.is_none() {
            self.error = Some(error);
        }
    }

    /// The message was found undeliverable for the given reason: marks the
    /// envelope with the error, unless it carries one already, and hands it
    /// to the return handle.
    pub fn undeliverable(self, error: DeliveryError, return_handle: &mut ReturnHandle)
        ensures
            final(return_handle)@ == old(return_handle)@.push(self@.stamped(error@)),
    {
        let mut envelope = self;
        envelope.try_set_error(error);
        return_undeliverable(return_handle, envelope);
    }

    /// Why this message was undeliverable; none if it was not found to be so.
    pub fn error(&self) -> (r: Option<&DeliveryError>)
        ensures
            match r {
                Some(e) => self@.error == Some(e@),
                None => self@.error is None,
            },
    {
        self.error.as_ref()
    }

    /// Takes the envelope apart into its metadata and the message.
    pub fn open(self) -> (r: (MessageMetadata, Serialized))
        ensures
            r.0@ == self@.metadata(),
            r.1@ == self@.data,
    {
        let Self { sender, dest, data, error, headers } = self;
        (MessageMetadata { sender, dest, error, headers }, data)
    }

    /// Puts metadata and a message together into an envelope.
    pub fn seal(metadata: MessageMetadata, data: Serialized) -> (r: Self)
        ensures
            r@ == metadata@.sealed(data@),
    {
        let MessageMetadata { sender, dest, error, headers } = metadata;
        Self { sender, dest, data, error, headers }
    }
}

/// Opening an envelope and sealing the parts again gives the envelope back.
pub proof fn lemma_open_seal(envelope: EnvelopeView)
    ensures
        envelope.metadata().sealed(envelope.data) == envelope,
{
}

/// Once an envelope carries an error, marking it again changes nothing.
pub proof fn lemma_first_error_wins(
    envelope: EnvelopeView,
    first: DeliveryErrorView,
    second: DeliveryErrorView,
)
    ensures
        envelope.stamped(first).error is Some,
        envelope.stamped(first).stamped(second) == envelope.stamped(first),
        envelope.error is None ==> envelope.stamped(first).error == Some(first),
{
}

/// A message that was returned to its sender because it could not be delivered.
#[derive(Debug)]
pub struct Undeliverable<M>(pub M);

impl Handled for Undeliverable<MessageEnvelope> {
    open spec fn port_spec() -> u64 {
        UNDELIVERABLE_PORT
    }

    fn port() -> (p: u64) {
        UNDELIVERABLE_PORT
    }
}

impl Undeliverable<MessageEnvelope> {
    /// The envelope that came back.
    pub fn into_inner(self) -> (r: MessageEnvelope)
        ensures
            r == self.0,
    {
        self.0
    }
}

/// The handle through which undeliverable envelopes go back: it keeps, in
/// the order of their return, the envelopes that were handed to it until
/// their sender takes them.
#[derive(Debug)]
pub struct ReturnHandle {
    returned: Vec<Undeliverable<MessageEnvelope>>,
}

impl View for ReturnHandle {
    type V = Seq<EnvelopeView>;

    closed spec fn view(&self) -> Seq<EnvelopeView> {
        Seq::new(self.returned@.len(), |i: int| self.returned@[i].0@)
    }
}

impl ReturnHandle {
    /// A handle to which nothing was returned yet.
    pub fn new() -> (r: Self)
        ensures
            r@ == Seq::<EnvelopeView>::empty(),
    {
        let r = ReturnHandle { returned: Vec::new() };
        assert(r@ =~= Seq::empty());
        r
    }

    /// Hands an undeliverable message to the handle.
    pub fn send(&mut self, message: Undeliverable<MessageEnvelope>)
        ensures
            final(self)@ == old(self)@.push(message.0@),
    {
        self.returned.push(message);
        assert(self@ =~= old(self)@.push(message.0@));
    }

    /// The number of returned messages that were not taken yet.
    pub fn len(&self) -> (r: usize)
        ensures
            r == self@.len(),
    {
        self.returned.len()
    }

    /// Whether no returned message waits to be taken.
    pub fn is_empty(&self) -> (r: bool)
        ensures
            r == (self@.len() == 0),
    {
        self.returned.len() == 0
    }

    /// Takes the message that was returned first, if any waits.
    pub fn try_recv(&mut self) -> (r: Option<Undeliverable<MessageEnvelope>>)
        ensures
            match r {
                Some(message) => old(self)@.len() > 0 && message.0@ == old(self)@[0]
                    && final(self)@ == old(self)@.drop_first(),
                None => old(self)@.len() == 0 && final(self)@ == old(self)@,
            },
    {
        if self.returned.len() == 0 {
            None
        } else {
            let message = self.returned.remove(0);
            assert(self@ =~= old(self)@.drop_first());
            Some(message)
        }
    }

    /// Takes every returned message that waits, in the order of their return.
    pub fn drain(&mut self) -> (r: Vec<Undeliverable<MessageEnvelope>>)
        ensures
            final(self)@ == Seq::<EnvelopeView>::empty(),
            r@.len() == old(self)@.len(),
            forall|i: int| 0 <= i < r@.len() ==> r@[i].0@ == old(self)@[i],
    {
        let mut taken: Vec<Undeliverable<MessageEnvelope>> = Vec::new();
        std::mem::swap(&mut taken, &mut self.returned);
        assert(self@ =~= Seq::empty());
        taken
    }
}

/// Hands an undeliverable envelope to the return handle.
pub fn return_undeliverable(return_handle: &mut ReturnHandle, envelope: MessageEnvelope)
    ensures
        final(return_handle)@ == old(return_handle)@.push(envelope@),
{
    return_handle.send(Undeliverable(envelope));
}

} // verus!
