use hyperactor_mailbox::attrs::Attrs;
use hyperactor_mailbox::data::{
    Bytes, Handled, Named, RemoteMessage, Serialized, Text, WireFormat,
};
use hyperactor_mailbox::envelope::{
    return_undeliverable, DeliveryError, MessageEnvelope, ReturnHandle, Signal, Undeliverable,
    SIGNAL_PORT, UNDELIVERABLE_PORT,
};
use hyperactor_mailbox::error::{
    ChannelError, MailboxError, MailboxErrorKind, MailboxSenderError, MailboxSenderErrorKind,
    MailboxServerError, PortLocation,
};
use hyperactor_mailbox::multicast::{
    set_cast_info_on_headers, ActorMeshId, CastInfo, CastMessage, CastMessageEnvelope,
    DestinationPort, ProcMeshId, Uslice,
};
use hyperactor_mailbox::reference::{ActorId, PortId, ProcId, WorldId};

fn actor(world: &str, rank: usize, name: &str, pid: usize) -> ActorId {
    ActorId(ProcId(WorldId(world.into()), rank), name.into(), pid)
}

fn sample() -> MessageEnvelope {
    let mut headers = Attrs::new();
    headers.set_value("ttl", &7u64).unwrap();
    MessageEnvelope::new(
        actor("foo", 0, "bar", 0),
        PortId(actor("baz", 0, "corge", 0), 9999),
        Serialized::serialize(&1u64).unwrap(),
        headers,
    )
}

#[test]
fn envelope_fields() {
    let envelope = sample();
    assert_eq!(envelope.sender(), &actor("foo", 0, "bar", 0));
    assert_eq!(envelope.dest(), &PortId(actor("baz", 0, "corge", 0), 9999));
    assert_eq!(envelope.data().bytes(), &[1, 0, 0, 0, 0, 0, 0, 0]);
    assert_eq!(envelope.headers().get_value::<u64>("ttl"), Some(7));
    assert_eq!(envelope.headers().len(), 1);
    assert!(envelope.error().is_none());
    assert!(!envelope.is_signal());
    assert_eq!(envelope.deserialized::<u64>().unwrap(), 1);
}

#[test]
fn envelope_from_unknown_sender() {
    let dest = PortId(actor("w", 1, "a", 2), SIGNAL_PORT);
    let envelope = MessageEnvelope::new_unknown(dest, Serialized::new(vec![]));
    assert_eq!(envelope.sender().to_string(), "unknown[0].unknown[0]");
    assert_eq!(envelope.headers().len(), 0);
    assert!(envelope.is_signal());
    assert_eq!(Signal::port(), SIGNAL_PORT);
    assert_eq!(<Undeliverable<MessageEnvelope> as Handled>::port(), UNDELIVERABLE_PORT);
}

#[test]
fn envelope_serialize() {
    let envelope = MessageEnvelope::serialize(
        actor("source", 0, "actor", 0),
        PortId(actor("dest", 1, "actor", 0), 123),
        &-1i64,
        Attrs::new(),
    )
    .unwrap();
    assert_eq!(envelope.data().typename(), Some("i64"));
    assert_eq!(envelope.deserialized::<i64>().unwrap(), -1);
    assert_eq!(envelope.dest().to_string(), "dest[1].actor[0][123]");
}

#[test]
fn first_error_wins() {
    let mut envelope = sample();
    envelope.try_set_error(DeliveryError::BrokenLink("first".into()));
    envelope.try_set_error(DeliveryError::Unroutable("second".into()));
    assert!(matches!(envelope.error(), Some(DeliveryError::BrokenLink(r)) if r == "first"));

    let mut returned = ReturnHandle::new();
    envelope.undeliverable(DeliveryError::Mailbox("third".into()), &mut returned);
    sample().undeliverable(DeliveryError::Mailbox("only".into()), &mut returned);
    assert_eq!(returned.len(), 2);
    let first = returned.try_recv().unwrap().into_inner();
    assert_eq!(first.error().unwrap().to_string(), "broken link: first");
    let second = returned.try_recv().unwrap().into_inner();
    assert_eq!(second.error().unwrap().to_string(), "mailbox error: only");
    assert!(returned.try_recv().is_none());
}

#[test]
fn open_and_seal() {
    let mut envelope = sample();
    envelope.try_set_error(DeliveryError::Unroutable("nowhere".into()));
    let (metadata, data) = envelope.clone().open();
    assert_eq!(&metadata.sender, envelope.sender());
    assert_eq!(&metadata.dest, envelope.dest());
    assert!(matches!(&metadata.error, Some(DeliveryError::Unroutable(r)) if r == "nowhere"));
    let sealed = MessageEnvelope::seal(metadata, data);
    assert_eq!(sealed.sender(), envelope.sender());
    assert_eq!(sealed.dest(), envelope.dest());
    assert_eq!(sealed.data().bytes(), envelope.data().bytes());
    assert_eq!(sealed.headers().get_value::<u64>("ttl"), Some(7));
    assert_eq!(sealed.error().unwrap().to_string(), "address not routable: nowhere");
}

#[test]
fn test_detached_return_handle() {
    let mut return_handle = ReturnHandle::new();
    // Simulate an undelivered message return.
    let envelope = MessageEnvelope::new(
        actor("foo", 0, "bar", 0),
        PortId(actor("baz", 0, "corge", 0), 9999u64),
        Serialized::serialize(&1u64).unwrap(),
        Attrs::new(),
    );
    return_handle.send(Undeliverable(envelope.clone()));
    // Check we receive the undelivered message.
    let Undeliverable(mut back) = return_handle.try_recv().unwrap();
    back.try_set_error(DeliveryError::BrokenLink("returned in unit test".to_string()));
    assert_eq!(back.error().unwrap().to_string(), "broken link: returned in unit test");
    assert_eq!(back.dest(), envelope.dest());
    // Nothing else waits.
    assert!(return_handle.try_recv().is_none());
    return_undeliverable(&mut return_handle, envelope);
    assert_eq!(return_handle.drain().len(), 1);
    assert!(return_handle.is_empty());
}

#[test]
fn mailbox_error_texts() {
    let port = PortId(actor("w", 1, "a", 2), 3);
    let cases = vec![
        (MailboxErrorKind::Closed, "mailbox closed"),
        (MailboxErrorKind::InvalidPort(port.clone()), "invalid port: w[1].a[2][3]"),
        (MailboxErrorKind::NoSenderForPort(port.clone()), "no sender for port: w[1].a[2][3]"),
        (
            MailboxErrorKind::NoLocalSenderForPort(port.clone()),
            "no local sender for port: w[1].a[2][3]",
        ),
        (MailboxErrorKind::PortClosed(port.clone()), "w[1].a[2][3]: port closed"),
        (MailboxErrorKind::Send(port.clone(), "why".into()), "send w[1].a[2][3]: why"),
        (MailboxErrorKind::Recv(port.clone(), "why".into()), "recv w[1].a[2][3]: why"),
        (MailboxErrorKind::Serialize("why".into()), "serialize: why"),
        (MailboxErrorKind::Deserialize("u64".into(), "why".into()), "deserialize u64: why"),
        (MailboxErrorKind::Channel(ChannelError::Closed), "channel closed"),
        (MailboxErrorKind::Channel(ChannelError::Other("reset".into())), "reset"),
    ];
    for (kind, text) in cases {
        assert_eq!(kind.to_string(), text);
        let err = MailboxError::new(actor("w", 1, "a", 2), kind);
        assert_eq!(err.to_string(), format!("w[1].a[2]: {}", text));
        assert_eq!(err.actor_id(), &actor("w", 1, "a", 2));
        assert_eq!(err.kind().to_string(), text);
    }
}

#[test]
fn sender_error_texts() {
    let port = PortId(actor("w", 1, "a", 2), 3);
    let inner = MailboxError::new(actor("x", 0, "y", 0), MailboxErrorKind::Closed);
    let cases = vec![
        (MailboxSenderErrorKind::Serialize("why".into()), "serialization error: why"),
        (
            MailboxSenderErrorKind::Deserialize("u64".into(), "why".into()),
            "deserialization error for type u64: why",
        ),
        (MailboxSenderErrorKind::Invalid, "invalid port"),
        (MailboxSenderErrorKind::Closed, "port closed"),
        (MailboxSenderErrorKind::Mailbox(inner), "x[0].y[0]: mailbox closed"),
        (MailboxSenderErrorKind::Channel(ChannelError::Closed), "channel closed"),
        (MailboxSenderErrorKind::MessageLog("log full".into()), "log full"),
        (MailboxSenderErrorKind::Other("why".into()), "send error: why"),
        (MailboxSenderErrorKind::Unreachable("why".into()), "unreachable: why"),
    ];
    for (kind, text) in cases {
        assert_eq!(kind.to_string(), text);
        let err = MailboxSenderError::new_bound(port.clone(), kind);
        assert_eq!(err.to_string(), format!("w[1].a[2][3]: {}", text));
        assert!(matches!(err.location(), PortLocation::Bound(p) if p == &port));
    }
    let err = MailboxSenderError::new_unbound::<i64>(
        actor("w", 1, "a", 2),
        MailboxSenderErrorKind::Closed,
    );
    assert_eq!(err.to_string(), "w[1].a[2]<i64>: port closed");
    let err = MailboxSenderError::new_unbound_type(
        actor("w", 1, "a", 2),
        MailboxSenderErrorKind::Invalid,
        "unknown",
    );
    assert_eq!(err.to_string(), "w[1].a[2]<unknown>: invalid port");
    assert_eq!(err.location().actor_id(), &actor("w", 1, "a", 2));
    assert_eq!(PortLocation::new_unbound::<u64>(actor("w", 0, "a", 0)).to_string(), "w[0].a[0]<u64>");
    assert_eq!(PortLocation::Bound(port.clone()).actor_id(), &actor("w", 1, "a", 2));
    assert_eq!(
        MailboxServerError::MailboxSender(err).to_string(),
        "w[1].a[2]<unknown>: invalid port"
    );
}

#[test]
fn delivery_error_texts() {
    assert_eq!(DeliveryError::unroutable("a").to_string(), "address not routable: a");
    assert_eq!(DeliveryError::broken_link("b").to_string(), "broken link: b");
    assert_eq!(DeliveryError::Mailbox("c".into()).to_string(), "mailbox error: c");
}

#[test]
fn headers_replace_and_keep() {
    let mut headers = Attrs::new();
    assert!(headers.get("a").is_none());
    headers.set_value("a", &1u64).unwrap();
    headers.set_value("b", &2u64).unwrap();
    headers.set_value("a", &3u64).unwrap();
    assert_eq!(headers.len(), 2);
    assert_eq!(headers.get_value::<u64>("a"), Some(3));
    assert_eq!(headers.get_value::<u64>("b"), Some(2));
    assert_eq!(headers.get_value::<u64>("c"), None);
    headers.set("c", Serialized::new(vec![1]));
    // One byte is no u64.
    assert_eq!(headers.get_value::<u64>("c"), None);
    assert_eq!(headers.get("c").unwrap().bytes(), &[1]);
    let copy = headers.clone();
    assert_eq!(copy.len(), 3);
    assert_eq!(copy.get_value::<u64>("a"), Some(3));
}

#[test]
fn cast_headers() {
    let mut headers = Attrs::new();
    assert!(matches!(headers.cast_info(), (0, None)));
    set_cast_info_on_headers(
        &mut headers,
        3,
        Serialized::new(vec![2, 4]),
        &actor("w", 0, "comm", 0),
    );
    let (rank, shape) = headers.cast_info();
    assert_eq!(rank, 3);
    assert_eq!(shape.unwrap().bytes(), &[2, 4]);
    let envelope = MessageEnvelope::new(
        actor("w", 0, "comm", 0),
        PortId(actor("w", 1, "a", 0), 1024),
        Serialized::new(vec![]),
        headers.clone(),
    );
    assert_eq!(envelope.cast_info().0, 3);
    assert_eq!(
        headers.get("cast_originating_sender").unwrap().bytes(),
        "w[0].comm[0]".as_bytes()
    );
}

#[test]
fn destination_port() {
    let dest = DestinationPort::new::<Signal>("trainer".to_string());
    assert_eq!(dest.port(), SIGNAL_PORT);
    assert_eq!(dest.actor_name(), "trainer");
    assert!(dest == dest.clone());
    assert!(dest != DestinationPort::new::<Undeliverable<MessageEnvelope>>("trainer".to_string()));
}

/// A message type of an application: a number, handled on port 17.
#[derive(Clone, Debug, PartialEq)]
struct Ping(u64);

impl Named for Ping {
    fn typename_spec() -> Text {
        unreachable!()
    }

    fn typename() -> &'static str {
        "app::Ping"
    }
}

impl Handled for Ping {
    fn port_spec() -> u64 {
        unreachable!()
    }

    fn port() -> u64 {
        17
    }
}

impl RemoteMessage for Ping {
    fn format_spec() -> WireFormat {
        unreachable!()
    }

    fn encoding(&self) -> Option<Bytes> {
        unreachable!()
    }

    fn decoding(_bytes: Bytes) -> Option<Self> {
        unreachable!()
    }

    fn format() -> WireFormat {
        <u64 as RemoteMessage>::format()
    }

    fn encode(&self) -> Result<Vec<u8>, String> {
        self.0.encode()
    }

    fn decode(bytes: &[u8]) -> Result<Self, String> {
        u64::decode(bytes).map(Ping)
    }

    fn lemma_round_trip(&self) {}

    fn lemma_format(_bytes: Bytes) {}
}

fn mesh() -> ActorMeshId {
    ActorMeshId(ProcMeshId("procs".into()), "trainer".into())
}

#[test]
fn cast_envelope() {
    let shape = Serialized::new(vec![2, 4]);
    let envelope =
        CastMessageEnvelope::new(mesh(), actor("w", 0, "client", 0), shape.clone(), Ping(9))
            .unwrap();
    assert_eq!(envelope.sender(), &actor("w", 0, "client", 0));
    assert_eq!(envelope.dest_port().actor_name(), "trainer");
    assert_eq!(envelope.dest_port().port(), 17);
    assert_eq!(envelope.data().typename(), Some("app::Ping"));
    assert_eq!(envelope.data().deserialized::<Ping>().unwrap(), Ping(9));
    assert_eq!(envelope.shape().bytes(), &[2, 4]);
    let (mesh_id, sender) = envelope.stream_key();
    assert!(mesh_id == mesh());
    assert_eq!(&sender, envelope.sender());

    let mut copy = CastMessageEnvelope::from_serialized(
        mesh(),
        actor("w", 0, "client", 0),
        DestinationPort::new::<Ping>("trainer".to_string()),
        shape,
        Serialized::serialize(&Ping(9)).unwrap(),
    );
    assert!(copy.dest_port() == envelope.dest_port());
    assert_eq!(copy.data().bytes(), envelope.data().bytes());
    copy.set_data(Serialized::new(vec![]));
    assert_eq!(copy.data().len(), 0);
    assert_eq!(copy.clone().shape().bytes(), &[2, 4]);

    let cast = CastMessage {
        dest: Uslice { slice: Serialized::new(vec![1]), selection: Serialized::new(vec![2]) },
        message: copy,
    };
    assert_eq!(cast.dest.selection.bytes(), &[2]);
    assert_eq!(cast.message.dest_port().port(), 17);
}

#[test]
fn short_payloads_say_so() {
    assert_eq!(u64::decode(&[1u8; 7]), Err("unexpected end of payload".to_string()));
    assert_eq!(i64::decode(&[]), Err("unexpected end of payload".to_string()));
    assert_eq!(u64::decode(&[1, 0, 0, 0, 0, 0, 0, 0, 9]), Ok(1));
    assert_eq!(i64::decode(&[255u8; 8]), Ok(-1));
}
