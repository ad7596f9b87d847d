//! Messages that are cast to a group of actors: their envelope, their
//! destination, and the cast information in the headers of what arrives.

use vstd::prelude::*;
use vstd::std_specs::cmp::PartialEqSpecImpl;
use vstd::utf8::encode_utf8;
use crate::attrs::{header, with_header, Attrs, HeadersView};
use crate::data::{Handled, Named, RemoteMessage, Serialized, SerializedView};
use crate::reference::{ActorId, ActorKey};
use crate::text::same_str;

verus! {

/// The destination port of a cast message: a port id without the rank.
/// The message goes to the actors of the given name, whichever ranks the
/// cast selects, on the port of the message type.
#[derive(Debug)]
pub struct DestinationPort {
    actor_name: String,
    port: u64,
}

/// What a destination port stands for.
pub struct DestinationView {
    pub actor_name: Seq<char>,
    pub port: u64,
}

impl View for DestinationPort {
    type V = DestinationView;

    closed spec fn view(&self) -> DestinationView {
        DestinationView { actor_name: self.actor_name@, port: self.port }
    }
}

impl Clone for DestinationPort {
    fn clone(&self) -> (r: Self)
        ensures
            r@ == self@,
    {
        DestinationPort { actor_name: self.actor_name.clone(), port: self.port }
    }
}

impl PartialEq for DestinationPort {
    fn eq(&self, other: &Self) -> (r: bool) {
        same_str(self.actor_name.as_str(), other.actor_name.as_str()) && self.port == other.port
    }
}

impl PartialEqSpecImpl for DestinationPort {
    open spec fn obeys_eq_spec() -> bool {
        true
    }

    open spec fn eq_spec(&self, other: &Self) -> bool {
        self@ == other@
    }
}

impl DestinationPort {
    /// The destination for messages of type `M` to the actors of the name.
    pub fn new<M: Handled>(actor_name: String) -> (r: Self)
        ensures
            r@ == (DestinationView { actor_name: actor_name@, port: M::port_spec() }),
    {
        Self { actor_name, port: M::port() }
    }

    /// The port index of the destination.
    pub fn port(&self) -> (r: u64)
        ensures
            r == self@.port,
    {
        self.port
    }

    /// The actor name of the destination.
    pub fn actor_name(&self) -> (r: &str)
        ensures
            r@ == self@.actor_name,
    {
        self.actor_name.as_str()
    }
}

/// The name of a mesh of procs.
#[derive(Debug)]
pub struct ProcMeshId(pub String);

/// An actor mesh: a mesh of procs and the name of the actors on it.
#[derive(Debug)]
pub struct ActorMeshId(pub ProcMeshId, pub String);

/// What an actor mesh id stands for.
pub struct ActorMeshKey {
    pub proc_mesh: Seq<char>,
    pub name: Seq<char>,
}

impl View for ActorMeshId {
    type V = ActorMeshKey;

    open spec fn view(&self) -> ActorMeshKey {
        ActorMeshKey { proc_mesh: self.0.0@, name: self.1@ }
    }
}

impl Clone for ActorMeshId {
    fn clone(&self) -> (r: Self)
        ensures
            r == *self,
    {
        ActorMeshId(ProcMeshId(self.0.0.clone()), self.1.clone())
    }
}

impl PartialEq for ActorMeshId {
    fn eq(&self, other: &Self) -> (r: bool) {
        same_str(self.0.0.as_str(), other.0.0.as_str()) && same_str(
            self.1.as_str(),
            other.1.as_str(),
        )
    }
}

impl PartialEqSpecImpl for ActorMeshId {
    open spec fn obeys_eq_spec() -> bool {
        true
    }

    open spec fn eq_spec(&self, other: &Self) -> bool {
        self@ == other@
    }
}

/// An envelope that carries a message destined to a group of actors.
#[derive(Debug)]
pub struct CastMessageEnvelope {
    actor_mesh_id: ActorMeshId,
    sender: ActorId,
    dest_port: DestinationPort,
    data: Serialized,
    shape: Serialized,
}

/// What a cast envelope stands for.
pub struct CastEnvelopeView {
    pub actor_mesh_id: ActorMeshKey,
    pub sender: ActorKey,
    pub dest_port: DestinationView,
    pub data: SerializedView,
    pub shape: SerializedView,
}

impl View for CastMessageEnvelope {
    type V = CastEnvelopeView;

    closed spec fn view(&self) -> CastEnvelopeView {
        CastEnvelopeView {
            actor_mesh_id: self.actor_mesh_id@,
            sender: self.sender@,
            dest_port: self.dest_port@,
            data: self.data@,
            shape: self.shape@,
        }
    }
}

impl Clone for CastMessageEnvelope {
    fn clone(&self) -> (r: Self)
        ensures
            r@ == self@,
    {
        CastMessageEnvelope {
            actor_mesh_id: self.actor_mesh_id.clone(),
            sender: self.sender.clone(),
            dest_port: self.dest_port.clone(),
            data: self.data.clone(),
            shape: self.shape.clone(),
        }
    }
}

impl CastMessageEnvelope {
    /// A new envelope for a message to the actors of the mesh, on the
    /// port of the message type. `shape` is the shape of the cast in its
    /// serialized form. The error says why the message could not be
    /// encoded.
    pub fn new<M: RemoteMessage + Handled>(
        actor_mesh_id: ActorMeshId,
        sender: ActorId,
        shape: Serialized,
        message: M,
    ) -> (r: Result<Self, String>)
        ensures
            match r {
                Ok(envelope) => message.encoding() matches Some(bytes) && envelope@ == (
                    CastEnvelopeView {
                        actor_mesh_id: actor_mesh_id@,
                        sender: sender@,
                        dest_port: DestinationView {
                            actor_name: actor_mesh_id@.name,
                            port: M::port_spec(),
                        },
                        data: SerializedView { typename: Some(M::typename_spec()), bytes },
                        shape: shape@,
                    }
                ),
                Err(_) => message.encoding() is None,
            },
    {
        let data = match Serialized::serialize(&message) {
            Ok(data) => data,
            Err(e) => {
                return Err(e);
            },
        };
        let actor_name = actor_mesh_id.1.clone();
        Ok(
            Self {
                actor_mesh_id,
                sender,
                dest_port: DestinationPort::new::<M>(actor_name),
                data,
                shape,
            },
        )
    }

    /// A new envelope from a message that is serialized already, for
    /// messages without reply ports, or whose replies may go to the client
    /// directly.
    pub fn from_serialized(
        actor_mesh_id: ActorMeshId,
        sender: ActorId,
        dest_port: DestinationPort,
        shape: Serialized,
        data: Serialized,
    ) -> (r: Self)
        ensures
            r@ == (CastEnvelopeView {
                actor_mesh_id: actor_mesh_id@,
                sender: sender@,
                dest_port: dest_port@,
                data: data@,
                shape: shape@,
            }),
    {
        Self { actor_mesh_id, sender, dest_port, data, shape }
    }

    /// The sender of the message.
    pub fn sender(&self) -> (r: &ActorId)
        ensures
            r@ == self@.sender,
    {
        &self.sender
    }

    /// The destination port of the message.
    pub fn dest_port(&self) -> (r: &DestinationPort)
        ensures
            r@ == self@.dest_port,
    {
        &self.dest_port
    }

    /// The serialized message.
    pub fn data(&self) -> (r: &Serialized)
        ensures
            r@ == self@.data,
    {
        &self.data
    }

    /// Puts another serialized message into the envelope.
    pub fn set_data(&mut self, data: Serialized)
        ensures
            final(self)@ == (CastEnvelopeView { data: data@, ..old(self)@ }),
    {
        self.data = data;
    }

    /// The serialized shape of the cast.
    pub fn shape(&self) -> (r: &Serialized)
        ensures
            r@ == self@.shape,
    {
        &self.shape
    }

    /// The key of the stream that the message belongs to: the comm actors
    /// on the way keep sequence numbers for each mesh and sender.
    pub fn stream_key(&self) -> (r: (ActorMeshId, ActorId))
        ensures
            r.0@ == self@.actor_mesh_id,
            r.1@ == self@.sender,
    {
        (self.actor_mesh_id.clone(), self.sender.clone())
    }
}

/// A union of slices: any subset of the ranks of a gang, as a slice that
/// stands for the whole gang and a selection within it, both in their
/// serialized forms.
#[derive(Debug)]
pub struct Uslice {
    /// A slice representing a whole gang.
    pub slice: Serialized,
    /// A selection used to represent any subset of the gang.
    pub selection: Serialized,
}

/// What starts the casting of a message to a group of actors.
#[derive(Debug)]
pub struct CastMessage {
    /// The cast destination.
    pub dest: Uslice,
    /// The message to cast.
    pub message: CastMessageEnvelope,
}

/// The header with the rank of the receiver of a cast message.
pub open spec fn cast_rank() -> Seq<char> {
    "cast_rank"@
}

/// The header with the shape of the actor mesh that a message was cast to.
pub open spec fn cast_shape() -> Seq<char> {
    "cast_shape"@
}

/// The header with the sender that a cast came from.
pub open spec fn cast_originating_sender() -> Seq<char> {
    "cast_originating_sender"@
}

/// The headers with the cast information set.
pub open spec fn with_cast_info(
    headers: HeadersView,
    rank: u64,
    shape: SerializedView,
    sender: Seq<char>,
) -> HeadersView {
    with_header(
        with_header(
            with_header(
                headers,
                cast_rank(),
                SerializedView {
                    typename: Some(u64::typename_spec()),
                    bytes: rank.encoding()->0,
                },
            ),
            cast_shape(),
            shape,
        ),
        cast_originating_sender(),
        SerializedView { typename: None, bytes: encode_utf8(sender) },
    )
}

/// Sets the cast information on the headers of a message: the rank of the
/// receiver, the shape of the mesh that the message was cast to, in its
/// serialized form, and the sender that the cast came from, in its
/// written form.
pub fn set_cast_info_on_headers(headers: &mut Attrs, rank: u64, shape: Serialized, sender: &ActorId)
    ensures
        final(headers)@ == with_cast_info(old(headers)@, rank, shape@, sender@.shown()),
{
    let _ = headers.set_value("cast_rank", &rank);
    headers.set("cast_shape", shape);
    let text = sender.to_string();
    headers.set(
        "cast_originating_sender",
        Serialized::new(vstd::string::StrSliceExecFns::as_bytes_vec(text.as_str())),
    );
}

/// The rank in the headers, if one is set that decodes.
pub open spec fn rank_of(headers: HeadersView) -> Option<u64> {
    match header(headers, cast_rank()) {
        Some(rank) => u64::decoding(rank.bytes),
        None => None,
    }
}

/// The rank and the serialized shape of a cast, as far as the headers
/// decide them: both where both are set, rank zero and no shape (the shape
/// of a single actor) otherwise.
pub open spec fn cast_info_of(headers: HeadersView) -> (u64, Option<SerializedView>) {
    match (rank_of(headers), header(headers, cast_shape())) {
        (Some(rank), Some(shape)) => (rank, Some(shape)),
        _ => (0, None),
    }
}

/// What carries the cast information of a message.
pub trait CastInfo {
    /// The headers that hold the cast information.
    spec fn cast_headers(&self) -> HeadersView;

    /// The cast rank and the serialized cast shape. What was not sent by
    /// a cast counts as the only member of a cast without dimensions: rank
    /// zero, and no shape. The headers hold either both or neither.
    fn cast_info(&self) -> (r: (u64, Option<Serialized>))
        requires
            header(self.cast_headers(), cast_rank()) is Some <==> header(
                self.cast_headers(),
                cast_shape(),
            ) is Some,
        ensures
            r.0 == cast_info_of(self.cast_headers()).0,
            match r.1 {
                Some(shape) => cast_info_of(self.cast_headers()).1 == Some(shape@),
                None => cast_info_of(self.cast_headers()).1 is None,
            },
    ;
}

impl CastInfo for Attrs {
    open spec fn cast_headers(&self) -> HeadersView {
        self@
    }

    fn cast_info(&self) -> (r: (u64, Option<Serialized>)) {
        match (self.get_value::<u64>("cast_rank"), self.get("cast_shape")) {
            (Some(rank), Some(shape)) => (rank, Some(shape.clone())),
            _ => (0, None),
        }
    }
}

impl CastInfo for crate::envelope::MessageEnvelope {
    open spec fn cast_headers(&self) -> HeadersView {
        self@.headers
    }

    fn cast_info(&self) -> (r: (u64, Option<Serialized>)) {
        self.headers().cast_info()
    }
}

} // verus!
