//! Serialized payloads and the wire encodings of the message types that the
//! library carries itself.

use vstd::prelude::*;
use vstd::bytes::{
    lemma_auto_spec_u64_to_from_le_bytes, spec_u64_from_le_bytes, spec_u64_to_le_bytes,
};
use vstd::string::StringExecFns;
use crate::order::{lemma_bytes_sign_zero, order_bytes, Order};
use crate::text::same_str;

verus! {

/// What type-erased code must know of a message type to judge a payload.
#[derive(Clone, Copy, Debug, PartialEq, Eq, Structural)]
pub enum WireFormat {
    /// A payload decodes if and only if it has at least this many bytes.
    AtLeast(usize),
    /// Every payload decodes.
    Any,
}

impl WireFormat {
    /// Whether payloads of these bytes decode.
    pub open spec fn admits(self, bytes: Seq<u8>) -> bool {
        match self {
            WireFormat::AtLeast(n) => bytes.len() >= n,
            WireFormat::Any => true,
        }
    }

    /// Whether a payload of these bytes decodes.
    pub fn check(&self, bytes: &[u8]) -> (r: bool)
        ensures
            r == self.admits(bytes@),
    {
        match self {
            WireFormat::AtLeast(n) => bytes.len() >= *n,
            WireFormat::Any => true,
        }
    }
}

/// What every message that is put into a mailbox must be.
pub trait Message: core::fmt::Debug + Send + Sync + 'static {

}

impl<M: core::fmt::Debug + Send + Sync + 'static> Message for M {

}

/// A message type that an actor handles on a port of its own, with an
/// index below those that mailboxes hand out.
pub trait Handled {
    /// The index of the port.
    spec fn port_spec() -> u64;

    /// The index of the port.
    fn port() -> (p: u64)
        ensures
            p == Self::port_spec(),
    ;
}

/// A text, as specifications see it.
pub type Text = Seq<char>;

/// The bytes of a payload, as specifications see them.
pub type Bytes = Seq<u8>;

/// A type with a globally unique name.
pub trait Named {
    /// The name of the type.
    spec fn typename_spec() -> Text;

    /// The name of the type.
    fn typename() -> (s: &'static str)
        ensures
            s@ == Self::typename_spec(),
    ;
}

/// A message type that can cross process boundaries: it has a stable name
/// and a wire encoding that decodes to what was encoded.
pub trait RemoteMessage: Named + Sized {
    /// Which payloads decode as this type.
    spec fn format_spec() -> WireFormat;

    /// The bytes that stand for the value, if it can be encoded.
    spec fn encoding(&self) -> Option<Bytes>;

    /// The value that the bytes stand for, if they stand for one.
    spec fn decoding(bytes: Bytes) -> Option<Self>;

    fn format() -> (f: WireFormat)
        ensures
            f == Self::format_spec(),
    ;

    /// Encodes the value; the error says why it could not be.
    fn encode(&self) -> (r: Result<Vec<u8>, String>)
        ensures
            match r {
                Ok(bytes) => self.encoding() == Some(bytes@),
                Err(_) => self.encoding() is None,
            },
    ;

    /// Decodes a value; the error says why the bytes stand for none.
    fn decode(bytes: &[u8]) -> (r: Result<Self, String>)
        ensures
            match r {
                Ok(value) => Self::decoding(bytes@) == Some(value),
                Err(_) => Self::decoding(bytes@) is None,
            },
    ;

    /// What was encoded is what decodes.
    proof fn lemma_round_trip(&self)
        ensures
            self.encoding() matches Some(bytes) ==> Self::decoding(bytes) == Some(*self),
    ;

    /// The format admits exactly the payloads that decode.
    proof fn lemma_format(bytes: Bytes)
        ensures
            Self::format_spec().admits(bytes) <==> Self::decoding(bytes) is Some,
    ;
}

/// Whether two byte strings are the same.
pub fn same_bytes(a: &[u8], b: &[u8]) -> (r: bool)
    ensures
        r == (a@ == b@),
{
    let r = order_bytes(a, b);
    proof {
        lemma_bytes_sign_zero(a@, b@);
    }
    r == Order::Same
}

/// The eight bytes of an unsigned integer, least significant first.
///
/// Trusted: `bincode::serialize` on a `u64` uses the fixed-width
/// little-endian integer encoding and an unbounded `Vec` writer, so it
/// always succeeds with exactly these eight bytes.
#[verifier::external_body]
fn wire_u64(value: u64) -> (bytes: Option<Vec<u8>>)
    ensures
        bytes is Some,
        bytes->0@ == spec_u64_to_le_bytes(value),
{
    bincode::serialize(&value).ok()
}

/// The unsigned integer at the front of a payload.
///
/// Trusted: `bincode::deserialize` into a `u64` reads eight bytes from the
/// front of the slice as a little-endian integer, fails when the slice is
/// shorter, and ignores what follows them.
#[verifier::external_body]
fn unwire_u64(bytes: &[u8]) -> (value: Option<u64>)
    ensures
        value == parse_u64(bytes@),
{
    bincode::deserialize::<u64>(bytes).ok()
}

/// The unsigned integer that a payload starts with, if it has eight bytes.
pub open spec fn parse_u64(bytes: Seq<u8>) -> Option<u64> {
    if bytes.len() >= 8 {
        Some(spec_u64_from_le_bytes(bytes.subrange(0, 8)))
    } else {
        None
    }
}

/// A 64-bit pattern read as a signed integer.
pub open spec fn signed(bits: u64) -> i64 {
    bits as i64
}

/// A signed integer as its 64-bit pattern.
pub open spec fn unsigned(value: i64) -> u64 {
    value as u64
}

pub proof fn lemma_signed_unsigned(value: i64)
    ensures
        signed(unsigned(value)) == value,
{
    assert((value as u64) as i64 == value) by (bit_vector);
}

pub proof fn lemma_parse_wire(value: u64)
    ensures
        parse_u64(spec_u64_to_le_bytes(value)) == Some(value),
        spec_u64_to_le_bytes(value).len() == 8,
{
    lemma_auto_spec_u64_to_from_le_bytes();
    let b = spec_u64_to_le_bytes(value);
    assert(b.subrange(0, 8) =~= b);
}

fn short_payload() -> (s: String)
    ensures
        s@ == "unexpected end of payload"@,
{
    String::from_str("unexpected end of payload")
}

impl Named for u64 {
    open spec fn typename_spec() -> Text {
        "u64"@
    }

    fn typename() -> (s: &'static str) {
        "u64"
    }
}

impl Named for i64 {
    open spec fn typename_spec() -> Text {
        "i64"@
    }

    fn typename() -> (s: &'static str) {
        "i64"
    }
}

impl RemoteMessage for u64 {
    open spec fn format_spec() -> WireFormat {
        WireFormat::AtLeast(8)
    }

    open spec fn encoding(&self) -> Option<Seq<u8>> {
        Some(spec_u64_to_le_bytes(*self))
    }

    open spec fn decoding(bytes: Seq<u8>) -> Option<Self> {
        parse_u64(bytes)
    }

    fn format() -> (f: WireFormat) {
        WireFormat::AtLeast(8)
    }

    fn encode(&self) -> (r: Result<Vec<u8>, String>) {
        match wire_u64(*self) {
            Some(bytes) => Ok(bytes),
            None => Err(String::new()),
        }
    }

    fn decode(bytes: &[u8]) -> (r: Result<Self, String>)
        ensures
            r matches Err(why) ==> why@ == "unexpected end of payload"@,
    {
        match unwire_u64(bytes) {
            Some(value) => Ok(value),
            None => Err(short_payload()),
        }
    }

    proof fn lemma_round_trip(&self) {
        lemma_parse_wire(*self);
    }

    proof fn lemma_format(bytes: Seq<u8>) {
    }
}

impl RemoteMessage for i64 {
    open spec fn format_spec() -> WireFormat {
        WireFormat::AtLeast(8)
    }

    open spec fn encoding(&self) -> Option<Seq<u8>> {
        Some(spec_u64_to_le_bytes(unsigned(*self)))
    }

    open spec fn decoding(bytes: Seq<u8>) -> Option<Self> {
        match parse_u64(bytes) {
            Some(bits) => Some(signed(bits)),
            None => None,
        }
    }

    fn format() -> (f: WireFormat) {
        WireFormat::AtLeast(8)
    }

    fn encode(&self) -> (r: Result<Vec<u8>, String>) {
        match wire_u64(*self as u64) {
            Some(bytes) => Ok(bytes),
            None => Err(String::new()),
        }
    }

    fn decode(bytes: &[u8]) -> (r: Result<Self, String>)
        ensures
            r matches Err(why) ==> why@ == "unexpected end of payload"@,
    {
        match unwire_u64(bytes) {
            Some(bits) => Ok(bits as i64),
            None => Err(short_payload()),
        }
    }

    proof fn lemma_round_trip(&self) {
        lemma_parse_wire(unsigned(*self));
        lemma_signed_unsigned(*self);
    }

    proof fn lemma_format(bytes: Seq<u8>) {
    }
}

/// A serialized message: the bytes, and the name of the type they were
/// made from where that is known.
#[derive(Debug)]
pub struct Serialized {
    typename: Option<String>,
    data: Vec<u8>,
}

/// What a serialized message stands for.
pub struct SerializedView {
    pub typename: Option<Seq<char>>,
    pub bytes: Seq<u8>,
}

impl View for Serialized {
    type V = SerializedView;

    closed spec fn view(&self) -> SerializedView {
        SerializedView {
            typename: match self.typename {
                Some(name) => Some(name@),
                None => None,
            },
            bytes: self.data@,
        }
    }
}

impl Clone for Serialized {
    fn clone(&self) -> (r: Self)
        ensures
            r@ == self@,
    {
        let typename = match &self.typename {
            Some(name) => Some(name.clone()),
            None => None,
        };
        Serialized { typename, data: self.data.clone() }
    }
}

impl Serialized {
    /// The payload of these bytes, of no known type.
    pub fn new(data: Vec<u8>) -> (r: Serialized)
        ensures
            r@ == (SerializedView { typename: None, bytes: data@ }),
    {
        Serialized { typename: None, data }
    }

    /// The payload of these bytes, made from a value of the named type.
    pub fn from_parts(typename: Option<String>, data: Vec<u8>) -> (r: Serialized)
        ensures
            r@ == (SerializedView {
                typename: match typename {
                    Some(name) => Some(name@),
                    None => None,
                },
                bytes: data@,
            }),
    {
        Serialized { typename, data }
    }

    /// Serializes a value; the error says why it could not be encoded.
    pub fn serialize<T: RemoteMessage>(value: &T) -> (r: Result<Serialized, String>)
        ensures
            match r {
                Ok(s) => value.encoding() == Some(s@.bytes) && s@.typename == Some(
                    T::typename_spec(),
                ),
                Err(_) => value.encoding() is None,
            },
    {
        match value.encode() {
            Ok(data) => Ok(Serialized { typename: Some(String::from_str(T::typename())), data }),
            Err(e) => Err(e),
        }
    }

    /// Deserializes the payload as a `T`; the error says why it is none.
    pub fn deserialized<T: RemoteMessage>(&self) -> (r: Result<T, String>)
        ensures
            match r {
                Ok(value) => T::decoding(self@.bytes) == Some(value),
                Err(_) => T::decoding(self@.bytes) is None,
            },
    {
        T::decode(self.data.as_slice())
    }

    /// The name of the type that the payload was made from, if known.
    pub fn typename(&self) -> (r: Option<&str>)
        ensures
            match r {
                Some(name) => self@.typename == Some(name@),
                None => self@.typename is None,
            },
    {
        match &self.typename {
            Some(name) => Some(name.as_str()),
            None => None,
        }
    }

    /// The bytes of the payload.
    pub fn bytes(&self) -> (r: &[u8])
        ensures
            r@ == self@.bytes,
    {
        self.data.as_slice()
    }

    /// The number of bytes in the payload.
    pub fn len(&self) -> (r: usize)
        ensures
            r == self@.bytes.len(),
    {
        self.data.len()
    }

    /// The bytes of the payload, taken out of it.
    pub fn into_bytes(self) -> (r: Vec<u8>)
        ensures
            r@ == self@.bytes,
    {
        self.data
    }

    /// Whether the two payloads have the same bytes and the same type name.
    pub fn same(&self, other: &Serialized) -> (r: bool)
        ensures
            r == (self@ == other@),
    {
        let names = match (&self.typename, &other.typename) {
            (None, None) => true,
            (Some(a), Some(b)) => same_str(a.as_str(), b.as_str()),
            _ => false,
        };
        names && same_bytes(self.data.as_slice(), other.data.as_slice())
    }

    /// Whether the payload decodes under the format.
    pub fn fits(&self, format: &WireFormat) -> (r: bool)
        ensures
            r == format.admits(self@.bytes),
    {
        format.check(self.data.as_slice())
    }
}

/// Serializing a value and deserializing the result gives the value back.
pub proof fn lemma_serialize_round_trip<T: RemoteMessage>(value: T, s: SerializedView)
    requires
        value.encoding() == Some(s.bytes),
    ensures
        T::decoding(s.bytes) == Some(value),
{
    value.lemma_round_trip();
}

} // verus!
