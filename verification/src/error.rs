//! The errors of mailbox operations, each with the text it is shown as.

use vstd::prelude::*;
use vstd::string::StringExecFns;
use crate::attrs::Attrs;
use crate::data::{RemoteMessage, Serialized, SerializedView};
use crate::reference::{ActorId, ActorKey, PortId, PortKey};

verus! {

/// Errors of the channel under a mailbox client or server.
#[derive(Debug)]
pub enum ChannelError {
    /// The channel was closed.
    Closed,
    /// Any other failure, with its description.
    Other(String),
}

/// What a channel error stands for.
pub enum ChannelErrorView {
    Closed,
    Other(Seq<char>),
}

impl ChannelErrorView {
    pub open spec fn shown(self) -> Seq<char> {
        match self {
            ChannelErrorView::Closed => "channel closed"@,
            ChannelErrorView::Other(reason) => reason,
        }
    }
}

impl View for ChannelError {
    type V = ChannelErrorView;

    open spec fn view(&self) -> ChannelErrorView {
        match self {
            ChannelError::Closed => ChannelErrorView::Closed,
            ChannelError::Other(reason) => ChannelErrorView::Other(reason@),
        }
    }
}

impl Clone for ChannelError {
    fn clone(&self) -> (r: Self)
        ensures
            r == *self,
    {
        match self {
            ChannelError::Closed => ChannelError::Closed,
            ChannelError::Other(reason) => ChannelError::Other(reason.clone()),
        }
    }
}

impl ChannelError {
    pub fn to_string(&self) -> (s: String)
        ensures
            s@ == self@.shown(),
    {
        match self {
            ChannelError::Closed => String::from_str("channel closed"),
            ChannelError::Other(reason) => reason.clone(),
        }
    }
}

/// The kinds of mailbox errors.
#[derive(Debug)]
#[non_exhaustive]
pub enum MailboxErrorKind {
    /// An operation was attempted on a closed mailbox.
    Closed,
    /// The port associated with an operation was invalid.
    InvalidPort(PortId),
    /// There was no sender associated with the port.
    NoSenderForPort(PortId),
    /// There was no local sender associated with the port.
    NoLocalSenderForPort(PortId),
    /// The port was closed.
    PortClosed(PortId),
    /// An error occurred during a send operation.
    Send(PortId, String),
    /// An error occurred during a receive operation.
    Recv(PortId, String),
    /// There was a serialization failure.
    Serialize(String),
    /// There was a deserialization failure, for the named type.
    Deserialize(String, String),
    /// There was an error during a channel operation.
    Channel(ChannelError),
}

/// What a mailbox error kind stands for.
pub enum MailboxErrorKindView {
    Closed,
    InvalidPort(PortKey),
    NoSenderForPort(PortKey),
    NoLocalSenderForPort(PortKey),
    PortClosed(PortKey),
    Send(PortKey, Seq<char>),
    Recv(PortKey, Seq<char>),
    Serialize(Seq<char>),
    Deserialize(Seq<char>, Seq<char>),
    Channel(ChannelErrorView),
}

impl MailboxErrorKindView {
    pub open spec fn shown(self) -> Seq<char> {
        match self {
            MailboxErrorKindView::Closed => "mailbox closed"@,
            MailboxErrorKindView::InvalidPort(p) => "invalid port: "@ + p.shown(),
            MailboxErrorKindView::NoSenderForPort(p) => "no sender for port: "@ + p.shown(),
            MailboxErrorKindView::NoLocalSenderForPort(p) => "no local sender for port: "@
                + p.shown(),
            MailboxErrorKindView::PortClosed(p) => p.shown() + ": port closed"@,
            MailboxErrorKindView::Send(p, e) => "send "@ + p.shown() + ": "@ + e,
            MailboxErrorKindView::Recv(p, e) => "recv "@ + p.shown() + ": "@ + e,
            MailboxErrorKindView::Serialize(e) => "serialize: "@ + e,
            MailboxErrorKindView::Deserialize(t, e) => "deserialize "@ + t + ": "@ + e,
            MailboxErrorKindView::Channel(e) => e.shown(),
        }
    }
}

impl View for MailboxErrorKind {
    type V = MailboxErrorKindView;

    open spec fn view(&self) -> MailboxErrorKindView {
        match self {
            MailboxErrorKind::Closed => MailboxErrorKindView::Closed,
            MailboxErrorKind::InvalidPort(p) => MailboxErrorKindView::InvalidPort(p@),
            MailboxErrorKind::NoSenderForPort(p) => MailboxErrorKindView::NoSenderForPort(p@),
            MailboxErrorKind::NoLocalSenderForPort(p) => MailboxErrorKindView::NoLocalSenderForPort(
                p@,
            ),
            MailboxErrorKind::PortClosed(p) => MailboxErrorKindView::PortClosed(p@),
            MailboxErrorKind::Send(p, e) => MailboxErrorKindView::Send(p@, e@),
            MailboxErrorKind::Recv(p, e) => MailboxErrorKindView::Recv(p@, e@),
            MailboxErrorKind::Serialize(e) => MailboxErrorKindView::Serialize(e@),
            MailboxErrorKind::Deserialize(t, e) => MailboxErrorKindView::Deserialize(t@, e@),
            MailboxErrorKind::Channel(e) => MailboxErrorKindView::Channel(e@),
        }
    }
}

impl Clone for MailboxErrorKind {
    fn clone(&self) -> (r: Self)
        ensures
            r == *self,
    {
        match self {
            MailboxErrorKind::Closed => MailboxErrorKind::Closed,
            MailboxErrorKind::InvalidPort(p) => MailboxErrorKind::InvalidPort(p.clone()),
            MailboxErrorKind::NoSenderForPort(p) => MailboxErrorKind::NoSenderForPort(p.clone()),
            MailboxErrorKind::NoLocalSenderForPort(p) => MailboxErrorKind::NoLocalSenderForPort(
                p.clone(),
            ),
            MailboxErrorKind::PortClosed(p) => MailboxErrorKind::PortClosed(p.clone()),
            MailboxErrorKind::Send(p, e) => MailboxErrorKind::Send(p.clone(), e.clone()),
            MailboxErrorKind::Recv(p, e) => MailboxErrorKind::Recv(p.clone(), e.clone()),
            MailboxErrorKind::Serialize(e) => MailboxErrorKind::Serialize(e.clone()),
            MailboxErrorKind::Deserialize(t, e) => MailboxErrorKind::Deserialize(
                t.clone(),
                e.clone(),
            ),
            MailboxErrorKind::Channel(e) => MailboxErrorKind::Channel(e.clone()),
        }
    }
}

/// `prefix`, then `middle`.
fn joined(prefix: &str, middle: &str) -> (s: String)
    ensures
        s@ == prefix@ + middle@,
{
    let mut s = String::from_str(prefix);
    s.append(middle);
    s
}

/// `a`, then `b`, then `c`, then `d`.
fn joined4(a: &str, b: &str, c: &str, d: &str) -> (s: String)
    ensures
        s@ == a@ + b@ + c@ + d@,
{
    let mut s = String::from_str(a);
    s.append(b);
    s.append(c);
    s.append(d);
    s
}

impl MailboxErrorKind {
    pub fn to_string(&self) -> (s: String)
        ensures
            s@ == self@.shown(),
    {
        match self {
            MailboxErrorKind::Closed => String::from_str("mailbox closed"),
            MailboxErrorKind::InvalidPort(p) => joined("invalid port: ", p.to_string().as_str()),
            MailboxErrorKind::NoSenderForPort(p) => joined(
                "no sender for port: ",
                p.to_string().as_str(),
            ),
            MailboxErrorKind::NoLocalSenderForPort(p) => joined(
                "no local sender for port: ",
                p.to_string().as_str(),
            ),
            MailboxErrorKind::PortClosed(p) => joined(p.to_string().as_str(), ": port closed"),
            MailboxErrorKind::Send(p, e) => joined4(
                "send ",
                p.to_string().as_str(),
                ": ",
                e.as_str(),
            ),
            MailboxErrorKind::Recv(p, e) => joined4(
                "recv ",
                p.to_string().as_str(),
                ": ",
                e.as_str(),
            ),
            MailboxErrorKind::Serialize(e) => joined("serialize: ", e.as_str()),
            MailboxErrorKind::Deserialize(t, e) => joined4(
                "deserialize ",
                t.as_str(),
                ": ",
                e.as_str(),
            ),
            MailboxErrorKind::Channel(e) => e.to_string(),
        }
    }
}

/// An error of a mailbox operation, with the actor whose mailbox it is.
#[derive(Debug)]
pub struct MailboxError {
    actor_id: ActorId,
    kind: MailboxErrorKind,
}

/// What a mailbox error stands for.
pub struct MailboxErrorView {
    pub actor_id: ActorKey,
    pub kind: MailboxErrorKindView,
}

impl MailboxErrorView {
    /// `actor: kind`.
    pub open spec fn shown(self) -> Seq<char> {
        self.actor_id.shown() + ": "@ + self.kind.shown()
    }
}

impl View for MailboxError {
    type V = MailboxErrorView;

    closed spec fn view(&self) -> MailboxErrorView {
        MailboxErrorView { actor_id: self.actor_id@, kind: self.kind@ }
    }
}

impl Clone for MailboxError {
    fn clone(&self) -> (r: Self)
        ensures
            r@ == self@,
    {
        MailboxError { actor_id: self.actor_id.clone(), kind: self.kind.clone() }
    }
}

impl MailboxError {
    /// The error of the given kind in the mailbox of the given actor.
    pub fn new(actor_id: ActorId, kind: MailboxErrorKind) -> (r: Self)
        ensures
            r@ == (MailboxErrorView { actor_id: actor_id@, kind: kind@ }),
    {
        Self { actor_id, kind }
    }

    /// The actor whose mailbox produced the error.
    pub fn actor_id(&self) -> (r: &ActorId)
        ensures
            r@ == self@.actor_id,
    {
        &self.actor_id
    }

    /// The error's kind.
    pub fn kind(&self) -> (r: &MailboxErrorKind)
        ensures
            r@ == self@.kind,
    {
        &self.kind
    }

    /// `actor: kind`.
    pub fn to_string(&self) -> (s: String)
        ensures
            s@ == self@.shown(),
    {
        let mut s = self.actor_id.to_string();
        s.append(": ");
        s.append(self.kind.to_string().as_str());
        s
    }
}

/// Where a port is: under its bound id, or unbound on an actor with the
/// name of its message type.
#[derive(Debug)]
pub enum PortLocation {
    /// The port was bound: the location is its id.
    Bound(PortId),
    /// The port was not bound: the actor and the message type.
    Unbound(ActorId, String),
}

/// What a port location stands for.
pub enum PortLocationView {
    Bound(PortKey),
    Unbound(ActorKey, Seq<char>),
}

impl PortLocationView {
    /// The actor of the location.
    pub open spec fn actor_id(self) -> ActorKey {
        match self {
            PortLocationView::Bound(p) => p.actor,
            PortLocationView::Unbound(a, _) => a,
        }
    }

    /// The port id, or `actor<type>`.
    pub open spec fn shown(self) -> Seq<char> {
        match self {
            PortLocationView::Bound(p) => p.shown(),
            PortLocationView::Unbound(a, t) => a.shown() + "<"@ + t + ">"@,
        }
    }
}

impl View for PortLocation {
    type V = PortLocationView;

    open spec fn view(&self) -> PortLocationView {
        match self {
            PortLocation::Bound(p) => PortLocationView::Bound(p@),
            PortLocation::Unbound(a, t) => PortLocationView::Unbound(a@, t@),
        }
    }
}

impl Clone for PortLocation {
    fn clone(&self) -> (r: Self)
        ensures
            r == *self,
    {
        match self {
            PortLocation::Bound(p) => PortLocation::Bound(p.clone()),
            PortLocation::Unbound(a, t) => PortLocation::Unbound(a.clone(), t.clone()),
        }
    }
}

impl PortLocation {
    /// The location of an unbound port for messages of type `M`.
    pub fn new_unbound<M: RemoteMessage>(actor_id: ActorId) -> (r: Self)
        ensures
            r@ == PortLocationView::Unbound(actor_id@, M::typename_spec()),
    {
        PortLocation::Unbound(actor_id, String::from_str(M::typename()))
    }

    /// The location of an unbound port for messages of the named type.
    pub fn new_unbound_type(actor_id: ActorId, ty: &str) -> (r: Self)
        ensures
            r@ == PortLocationView::Unbound(actor_id@, ty@),
    {
        PortLocation::Unbound(actor_id, String::from_str(ty))
    }

    /// The actor of the location.
    pub fn actor_id(&self) -> (r: &ActorId)
        ensures
            r@ == self@.actor_id(),
    {
        match self {
            PortLocation::Bound(port_id) => port_id.actor_id(),
            PortLocation::Unbound(actor_id, _) => actor_id,
        }
    }

    /// The port id, or `actor<type>`.
    pub fn to_string(&self) -> (s: String)
        ensures
            s@ == self@.shown(),
    {
        match self {
            PortLocation::Bound(p) => p.to_string(),
            PortLocation::Unbound(a, t) => joined4(a.to_string().as_str(), "<", t.as_str(), ">"),
        }
    }
}

/// The kinds of errors of sending through a port.
#[derive(Debug)]
pub enum MailboxSenderErrorKind {
    /// Error during serialization.
    Serialize(String),
    /// Error during deserialization, for the named type.
    Deserialize(String, String),
    /// A send to an invalid port.
    Invalid,
    /// A send to a closed port.
    Closed,
    /// An underlying mailbox error.
    Mailbox(MailboxError),
    /// An underlying channel error.
    Channel(ChannelError),
    /// An underlying message log error.
    MessageLog(String),
    /// An other, uncategorized error.
    Other(String),
    /// The destination was unreachable.
    Unreachable(String),
}

/// What a sender error kind stands for.
pub enum MailboxSenderErrorKindView {
    Serialize(Seq<char>),
    Deserialize(Seq<char>, Seq<char>),
    Invalid,
    Closed,
    Mailbox(MailboxErrorView),
    Channel(ChannelErrorView),
    MessageLog(Seq<char>),
    Other(Seq<char>),
    Unreachable(Seq<char>),
}

impl MailboxSenderErrorKindView {
    pub open spec fn shown(self) -> Seq<char> {
        match self {
            MailboxSenderErrorKindView::Serialize(e) => "serialization error: "@ + e,
            MailboxSenderErrorKindView::Deserialize(t, e) => "deserialization error for type "@ + t
                + ": "@ + e,
            MailboxSenderErrorKindView::Invalid => "invalid port"@,
            MailboxSenderErrorKindView::Closed => "port closed"@,
            MailboxSenderErrorKindView::Mailbox(e) => e.shown(),
            MailboxSenderErrorKindView::Channel(e) => e.shown(),
            MailboxSenderErrorKindView::MessageLog(e) => e,
            MailboxSenderErrorKindView::Other(e) => "send error: "@ + e,
            MailboxSenderErrorKindView::Unreachable(e) => "unreachable: "@ + e,
        }
    }
}

impl View for MailboxSenderErrorKind {
    type V = MailboxSenderErrorKindView;

    open spec fn view(&self) -> MailboxSenderErrorKindView {
        match self {
            MailboxSenderErrorKind::Serialize(e) => MailboxSenderErrorKindView::Serialize(e@),
            MailboxSenderErrorKind::Deserialize(t, e) => MailboxSenderErrorKindView::Deserialize(
                t@,
                e@,
            ),
            MailboxSenderErrorKind::Invalid => MailboxSenderErrorKindView::Invalid,
            MailboxSenderErrorKind::Closed => MailboxSenderErrorKindView::Closed,
            MailboxSenderErrorKind::Mailbox(e) => MailboxSenderErrorKindView::Mailbox(e@),
            MailboxSenderErrorKind::Channel(e) => MailboxSenderErrorKindView::Channel(e@),
            MailboxSenderErrorKind::MessageLog(e) => MailboxSenderErrorKindView::MessageLog(e@),
            MailboxSenderErrorKind::Other(e) => MailboxSenderErrorKindView::Other(e@),
            MailboxSenderErrorKind::Unreachable(e) => MailboxSenderErrorKindView::Unreachable(e@),
        }
    }
}

impl MailboxSenderErrorKind {
    pub fn to_string(&self) -> (s: String)
        ensures
            s@ == self@.shown(),
    {
        match self {
            MailboxSenderErrorKind::Serialize(e) => joined("serialization error: ", e.as_str()),
            MailboxSenderErrorKind::Deserialize(t, e) => joined4(
                "deserialization error for type ",
                t.as_str(),
                ": ",
                e.as_str(),
            ),
            MailboxSenderErrorKind::Invalid => String::from_str("invalid port"),
            MailboxSenderErrorKind::Closed => String::from_str("port closed"),
            MailboxSenderErrorKind::Mailbox(e) => e.to_string(),
            MailboxSenderErrorKind::Channel(e) => e.to_string(),
            MailboxSenderErrorKind::MessageLog(e) => e.clone(),
            MailboxSenderErrorKind::Other(e) => joined("send error: ", e.as_str()),
            MailboxSenderErrorKind::Unreachable(e) => joined("unreachable: ", e.as_str()),
        }
    }
}

/// An error of sending through a port, with the port's location.
#[derive(Debug)]
pub struct MailboxSenderError {
    location: PortLocation,
    kind: MailboxSenderErrorKind,
}

/// What a sender error stands for.
pub struct MailboxSenderErrorView {
    pub location: PortLocationView,
    pub kind: MailboxSenderErrorKindView,
}

impl MailboxSenderErrorView {
    /// `location: kind`.
    pub open spec fn shown(self) -> Seq<char> {
        self.location.shown() + ": "@ + self.kind.shown()
    }
}

impl View for MailboxSenderError {
    type V = MailboxSenderErrorView;

    closed spec fn view(&self) -> MailboxSenderErrorView {
        MailboxSenderErrorView { location: self.location@, kind: self.kind@ }
    }
}

impl MailboxSenderError {
    /// An error of an unbound port for messages of type `M`.
    pub fn new_unbound<M: RemoteMessage>(actor_id: ActorId, kind: MailboxSenderErrorKind) -> (r:
        Self)
        ensures
            r@ == (MailboxSenderErrorView {
                location: PortLocationView::Unbound(actor_id@, M::typename_spec()),
                kind: kind@,
            }),
    {
        Self { location: PortLocation::new_unbound::<M>(actor_id), kind }
    }

    /// An error of an unbound port for messages of the named type.
    pub fn new_unbound_type(actor_id: ActorId, kind: MailboxSenderErrorKind, ty: &str) -> (r: Self)
        ensures
            r@ == (MailboxSenderErrorView {
                location: PortLocationView::Unbound(actor_id@, ty@),
                kind: kind@,
            }),
    {
        Self { location: PortLocation::Unbound(actor_id, String::from_str(ty)), kind }
    }

    /// An error of the port bound under the given id.
    pub fn new_bound(port_id: PortId, kind: MailboxSenderErrorKind) -> (r: Self)
        ensures
            r@ == (MailboxSenderErrorView {
                location: PortLocationView::Bound(port_id@),
                kind: kind@,
            }),
    {
        Self { location: PortLocation::Bound(port_id), kind }
    }

    /// The location at which the error occurred.
    pub fn location(&self) -> (r: &PortLocation)
        ensures
            r@ == self@.location,
    {
        &self.location
    }

    /// The kind of the error.
    pub fn kind(&self) -> (r: &MailboxSenderErrorKind)
        ensures
            r@ == self@.kind,
    {
        &self.kind
    }

    /// `location: kind`.
    pub fn to_string(&self) -> (s: String)
        ensures
            s@ == self@.shown(),
    {
        let mut s = self.location.to_string();
        s.append(": ");
        s.append(self.kind.to_string().as_str());
        s
    }
}

/// Errors that end the serving of a mailbox.
#[derive(Debug)]
pub enum MailboxServerError {
    /// An underlying channel error.
    Channel(ChannelError),
    /// An underlying mailbox sender error.
    MailboxSender(MailboxSenderError),
}

/// What a server error stands for.
pub enum MailboxServerErrorView {
    Channel(ChannelErrorView),
    MailboxSender(MailboxSenderErrorView),
}

impl View for MailboxServerError {
    type V = MailboxServerErrorView;

    open spec fn view(&self) -> MailboxServerErrorView {
        match self {
            MailboxServerError::Channel(e) => MailboxServerErrorView::Channel(e@),
            MailboxServerError::MailboxSender(e) => MailboxServerErrorView::MailboxSender(e@),
        }
    }
}

impl MailboxServerError {
    pub fn to_string(&self) -> (s: String)
        ensures
            s@ == match self@ {
                MailboxServerErrorView::Channel(e) => e.shown(),
                MailboxServerErrorView::MailboxSender(e) => e.shown(),
            },
    {
        match self {
            MailboxServerError::Channel(e) => e.to_string(),
            MailboxServerError::MailboxSender(e) => e.to_string(),
        }
    }
}

/// The error of a port's serialized sender: the message that was not
/// taken, handed back with its headers, and why.
#[derive(Debug)]
pub struct SerializedSenderError {
    /// The headers associated with the message.
    pub headers: Attrs,
    /// The message that was tried to send.
    pub data: Serialized,
    /// The mailbox sender error that occurred.
    pub error: MailboxSenderError,
}

/// What a serialized sender error stands for.
pub struct SerializedSenderErrorView {
    pub headers: Seq<(Seq<char>, SerializedView)>,
    pub data: SerializedView,
    pub error: MailboxSenderErrorView,
}

impl View for SerializedSenderError {
    type V = SerializedSenderErrorView;

    open spec fn view(&self) -> SerializedSenderErrorView {
        SerializedSenderErrorView {
            headers: self.headers@,
            data: self.data@,
            error: self.error@,
        }
    }
}

} // verus!
