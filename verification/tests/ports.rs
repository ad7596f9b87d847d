use hyperactor_mailbox::accum::{
    max_i64, max_u64, resolve_reducer, sum_u64, Accumulator, Fold, Max, Min, Reducer, ReducerSpec,
    Scalar,
};
use hyperactor_mailbox::attrs::{Attrs, HeadersView};
use hyperactor_mailbox::data::{RemoteMessage, Serialized, SerializedView, Text, WireFormat};
use hyperactor_mailbox::handle::{PortHandle, PortReceiver};
use hyperactor_mailbox::envelope::{DeliveryError, MessageEnvelope, ReturnHandle};
use hyperactor_mailbox::error::{MailboxErrorKind, MailboxSenderErrorKind, PortLocation};
use hyperactor_mailbox::mailbox::{Mailbox, USER_PORT_OFFSET};
use hyperactor_mailbox::port::{EnqueueFn, FuncSink};
use hyperactor_mailbox::reference::{ActorId, PortId, ProcId, WorldId};
use hyperactor_mailbox::sender::{MailboxSender, PanickingMailboxSender, PortSender};
use std::sync::atomic::{AtomicU64, Ordering};
use std::sync::Arc;

fn actor(world: &str, rank: usize, name: &str) -> ActorId {
    ActorId(ProcId(WorldId(world.into()), rank), name.into(), 0)
}

fn detached() -> Mailbox<PanickingMailboxSender> {
    Mailbox::new_detached(actor("test", 0, "test"))
}

#[test]
fn test_mailbox_basic() {
    let mut mbox = detached();
    let mut returned = ReturnHandle::new();
    let (port, mut receiver) = mbox.open_port::<u64>();
    let port = port.bind(&mut mbox);

    mbox.serialize_and_send(&port, 123u64, &mut returned).unwrap();
    mbox.serialize_and_send(&port, 321u64, &mut returned).unwrap();
    assert_eq!(receiver.recv(&mut mbox).unwrap(), Some(123u64));
    assert_eq!(receiver.recv(&mut mbox).unwrap(), Some(321u64));

    let serialized = Serialized::serialize(&999u64).unwrap();
    mbox.post(
        MessageEnvelope::new_unknown(port.port_id().clone(), serialized),
        &mut returned,
    );
    assert_eq!(receiver.recv(&mut mbox).unwrap(), Some(999u64));
    assert!(returned.is_empty());
}

#[test]
fn local_echo() {
    let mut mbox = detached();
    let mut returned = ReturnHandle::new();
    let (handle, mut receiver) = mbox.open_port::<u64>();
    let port = handle.bind(&mut mbox);
    mbox.post(
        MessageEnvelope::new_unknown(
            port.port_id().clone(),
            Serialized::serialize(&123u64).unwrap(),
        ),
        &mut returned,
    );
    assert_eq!(receiver.recv(&mut mbox).unwrap(), Some(123u64));
    assert_eq!(receiver.recv(&mut mbox).unwrap(), None);
    assert!(returned.is_empty());
}

#[test]
fn test_mailbox_accum() {
    let mut mbox = detached();
    let (port, mut receiver) = mbox.open_accum_port(max_i64());

    for i in -3..4 {
        port.send(&mut mbox, i).unwrap();
        let received: Max<i64> = receiver.recv(&mut mbox).unwrap().unwrap();
        let msg = received.get();
        assert_eq!(msg, &i);
    }
    // Send a smaller or same value. Should still receive the previous max.
    for i in -3..4 {
        port.send(&mut mbox, i).unwrap();
        assert_eq!(receiver.recv(&mut mbox).unwrap().unwrap().get(), &3);
    }
    // send a larger value. Should receive the new max.
    port.send(&mut mbox, 4).unwrap();
    assert_eq!(receiver.recv(&mut mbox).unwrap().unwrap().get(), &4);

    // Send multiple updates. Should only receive the final change.
    for i in 5..10 {
        port.send(&mut mbox, i).unwrap();
    }
    assert_eq!(receiver.recv(&mut mbox).unwrap().unwrap().get(), &9);
    port.send(&mut mbox, 1).unwrap();
    port.send(&mut mbox, 3).unwrap();
    port.send(&mut mbox, 2).unwrap();
    assert_eq!(receiver.recv(&mut mbox).unwrap().unwrap().get(), &9);
}

#[test]
fn accumulator_max_running_and_coalesced() {
    let mut mbox = detached();
    let (port, mut receiver) = mbox.open_accum_port(max_i64());
    for i in [-3i64, -2, -1, 0, 1, 2, 3] {
        port.send(&mut mbox, i).unwrap();
        assert_eq!(receiver.recv(&mut mbox).unwrap(), Some(Max(i)));
    }
    for i in [1i64, 3, 2] {
        port.send(&mut mbox, i).unwrap();
    }
    assert_eq!(receiver.recv(&mut mbox).unwrap(), Some(Max(3)));
    // Nothing waits after a coalescing receive.
    assert_eq!(receiver.recv(&mut mbox).unwrap(), None);
}

#[test]
fn accumulator_sum_folds_all_updates() {
    let mut mbox = detached();
    let (port, mut receiver) = mbox.open_accum_port(sum_u64());
    for i in [10u64, 5, 1, 0] {
        port.send(&mut mbox, i).unwrap();
    }
    assert_eq!(receiver.recv(&mut mbox).unwrap(), Some(16u64));
    // An overflowing sum is refused and leaves the state as it is.
    let err = port.send(&mut mbox, u64::MAX).unwrap_err();
    assert!(matches!(err.kind(), MailboxSenderErrorKind::Other(_)));
    port.send(&mut mbox, 4).unwrap();
    assert_eq!(receiver.recv(&mut mbox).unwrap(), Some(20u64));
}

#[test]
fn test_port_and_reducer() {
    let mut mbox = detached();
    // accum port could have reducer typehash
    {
        let accumulator = max_u64();
        let reducer_spec = accumulator.reducer_spec().unwrap();
        let (port, _) = mbox.open_accum_port(max_u64());
        assert_eq!(port.reducer_spec(), &Some(reducer_spec.clone()));
        let port_ref = port.bind(&mut mbox);
        assert_eq!(port_ref.reducer_spec(), &Some(reducer_spec));
    }
    // normal port should not have reducer typehash
    {
        let (port, _) = mbox.open_port::<u64>();
        assert_eq!(port.reducer_spec(), &None);
        let port_ref = port.bind(&mut mbox);
        assert_eq!(port_ref.reducer_spec(), &None);
    }
}

#[test]
fn test_mailbox_once() {
    let mut mbox = detached();
    let (port, mut receiver) = mbox.open_once_port::<u64>();
    port.send(&mut mbox, 123u64).unwrap();
    assert_eq!(receiver.recv(&mut mbox).unwrap(), Some(123u64));
}

#[test]
fn once_port_takes_one_message_and_is_unbound() {
    let mut mbox = detached();
    let mut returned = ReturnHandle::new();
    let (port, mut receiver) = mbox.open_once_port::<u64>();
    let port_id = port.port_id().clone();
    let port = port.bind(&mut mbox);
    assert!(mbox.is_bound(port_id.index()));

    mbox.serialize_and_send_once(port, 7u64, &mut returned).unwrap();
    assert!(!mbox.is_bound(port_id.index()));
    assert!(returned.is_empty());
    assert_eq!(receiver.recv(&mut mbox).unwrap(), Some(7u64));

    // The port is gone: a second message comes back as unroutable.
    mbox.post(
        MessageEnvelope::new_unknown(port_id.clone(), Serialized::serialize(&8u64).unwrap()),
        &mut returned,
    );
    assert_eq!(returned.len(), 1);
    let back = returned.try_recv().unwrap().into_inner();
    assert!(matches!(back.error(), Some(DeliveryError::Unroutable(reason))
        if reason == "port not bound in mailbox"));
    assert_eq!(back.deserialized::<u64>().unwrap(), 8);
}

#[test]
fn once_port_without_receiver_is_closed() {
    let mut mbox = detached();
    let mut returned = ReturnHandle::new();
    let (port, receiver) = mbox.open_once_port::<u64>();
    receiver.close(&mut mbox);
    let err = port.send(&mut mbox, 1).unwrap_err();
    assert!(matches!(err.kind(), MailboxSenderErrorKind::Closed));
    assert_eq!(err.to_string(), "test[0].test[0]<u64>: port closed");

    // Bound, and then left by its receiver: the port is not in the table.
    let (port, receiver) = mbox.open_once_port::<u64>();
    let port = port.bind(&mut mbox);
    receiver.close(&mut mbox);
    mbox.serialize_and_send_once(port, 1u64, &mut returned).unwrap();
    assert_eq!(
        returned.try_recv().unwrap().into_inner().error().unwrap().to_string(),
        "address not routable: port not bound in mailbox"
    );
}

#[test]
fn binding_is_idempotent_and_bind_to_adds_an_index() {
    let mut mbox = detached();
    let mut returned = ReturnHandle::new();
    let (port, mut receiver) = mbox.open_port::<u64>();
    assert!(matches!(port.location(&mbox), PortLocation::Unbound(_, _)));
    assert_eq!(port.to_string(&mbox), "test[0].test[0]<u64>");
    let first = port.bind(&mut mbox);
    let second = port.clone().bind(&mut mbox);
    assert_eq!(first.port_id(), second.port_id());
    assert_eq!(port.to_string(&mbox), "test[0].test[0][1024]");
    // A handler port below the user ports, for the same queue.
    assert!(!mbox.is_bound(7));
    port.bind_to(&mut mbox, 7);
    assert!(mbox.is_bound(7));
    let handler = PortId(actor("test", 0, "test"), 7);
    mbox.post(
        MessageEnvelope::new_unknown(handler, Serialized::serialize(&1u64).unwrap()),
        &mut returned,
    );
    mbox.serialize_and_send(&first, 2u64, &mut returned).unwrap();
    assert_eq!(receiver.drain(&mut mbox), vec![1, 2]);
    assert!(returned.is_empty());
}

#[test]
fn once_port_closed_without_message() {
    let mut mbox = detached();
    let (port, mut receiver) = mbox.open_once_port::<u64>();
    assert_eq!(receiver.recv(&mut mbox).unwrap(), None);
    port.close(&mut mbox);
    let err = receiver.recv(&mut mbox).unwrap_err();
    assert!(matches!(err.kind(), MailboxErrorKind::Closed));
}

#[test]
fn test_mailbox_receiver_drop() {
    let mut mbox = detached();
    let mut returned = ReturnHandle::new();
    let (port, mut receiver) = mbox.open_port::<u64>();
    // Make sure we go through "remote" path.
    let port = port.bind(&mut mbox);
    mbox.serialize_and_send(&port, 123u64, &mut returned).unwrap();
    assert_eq!(receiver.recv(&mut mbox).unwrap(), Some(123u64));
    receiver.close(&mut mbox);
    mbox.serialize_and_send(&port, 123u64, &mut returned).unwrap();
    // The port left the port table with its receiver: the message comes back.
    assert_eq!(returned.len(), 1);
    let back = returned.try_recv().unwrap().into_inner();
    assert!(matches!(back.error(), Some(DeliveryError::Unroutable(_))));
    assert_eq!(back.dest(), port.port_id());
}

#[test]
fn send_after_receiver_drop_fails() {
    let mut mbox = detached();
    let (port, receiver) = mbox.open_port::<u64>();
    receiver.close(&mut mbox);
    let err = port.send(&mut mbox, 1u64).unwrap_err();
    assert!(matches!(err.kind(), MailboxSenderErrorKind::Other(reason) if reason == "channel closed"));
    assert!(matches!(err.location(), PortLocation::Unbound(_, ty) if ty == "u64"));
    assert_eq!(err.to_string(), "test[0].test[0]<u64>: send error: channel closed");
}

#[test]
fn test_drain() {
    let mut mbox = detached();
    let mut returned = ReturnHandle::new();
    let (port, mut receiver) = mbox.open_port::<u64>();
    let port = port.bind(&mut mbox);

    for i in 0..10u64 {
        mbox.serialize_and_send(&port, i, &mut returned).unwrap();
    }
    for i in 0..10u64 {
        assert_eq!(receiver.recv(&mut mbox).unwrap(), Some(i));
    }
    assert!(receiver.drain(&mut mbox).is_empty());
}

trait AsU64 {
    fn value(&self) -> u64;
}

impl AsU64 for u64 {
    fn value(&self) -> u64 {
        *self
    }
}

impl AsU64 for Max<u64> {
    fn value(&self) -> u64 {
        *self.get()
    }
}

fn values<R: AsU64>(items: Vec<R>) -> Vec<u64> {
    items.iter().map(|item| item.value()).collect()
}

fn verify_receiver<R: RemoteMessage + AsU64 + std::fmt::Debug>(
    create_receiver: fn(&mut Mailbox<PanickingMailboxSender>) -> (PortHandle<u64>, PortReceiver<R>),
    coalesce: bool,
    drop_sender: bool,
) {
    // verify fn drain
    {
        let mut mbox = detached();
        let (sender, mut receiver) = create_receiver(&mut mbox);
        assert!(receiver.drain(&mut mbox).is_empty());
        for i in 0..8u64 {
            sender.send(&mut mbox, i).unwrap();
        }
        if drop_sender {
            sender.close(&mut mbox);
        }
        if !coalesce {
            assert_eq!(values(receiver.drain(&mut mbox)), vec![0, 1, 2, 3, 4, 5, 6, 7]);
        } else {
            assert_eq!(values(receiver.drain(&mut mbox)), vec![7]);
        }
        assert!(receiver.drain(&mut mbox).is_empty());
        assert!(receiver.drain(&mut mbox).is_empty());
    }

    // verify fn try_recv
    {
        let mut mbox = detached();
        let (sender, mut receiver) = create_receiver(&mut mbox);
        assert!(receiver.try_recv(&mut mbox).unwrap().is_none());
        for i in 0..4u64 {
            sender.send(&mut mbox, i).unwrap();
        }
        if drop_sender {
            sender.close(&mut mbox);
        }
        if !coalesce {
            assert_eq!(receiver.try_recv(&mut mbox).unwrap().unwrap().value(), 0);
            assert_eq!(receiver.try_recv(&mut mbox).unwrap().unwrap().value(), 1);
            assert_eq!(receiver.try_recv(&mut mbox).unwrap().unwrap().value(), 2);
        }
        assert_eq!(receiver.try_recv(&mut mbox).unwrap().unwrap().value(), 3);
        if drop_sender {
            assert!(matches!(
                receiver.try_recv(&mut mbox).unwrap_err().kind(),
                MailboxErrorKind::Closed
            ));
            // Still Closed error
            assert!(matches!(
                receiver.try_recv(&mut mbox).unwrap_err().kind(),
                MailboxErrorKind::Closed
            ));
        } else {
            assert!(receiver.try_recv(&mut mbox).unwrap().is_none());
            // Still empty
            assert!(receiver.try_recv(&mut mbox).unwrap().is_none());
        }
    }

    // verify fn recv
    {
        let mut mbox = detached();
        let (sender, mut receiver) = create_receiver(&mut mbox);
        assert!(receiver.recv(&mut mbox).unwrap().is_none());
        for i in 4..8u64 {
            sender.send(&mut mbox, i).unwrap();
        }
        if drop_sender {
            sender.close(&mut mbox);
        }
        if !coalesce {
            assert_eq!(receiver.recv(&mut mbox).unwrap().unwrap().value(), 4);
            assert_eq!(receiver.recv(&mut mbox).unwrap().unwrap().value(), 5);
            assert_eq!(receiver.recv(&mut mbox).unwrap().unwrap().value(), 6);
        }
        assert_eq!(receiver.recv(&mut mbox).unwrap().unwrap().value(), 7);
        if drop_sender {
            assert!(matches!(
                receiver.recv(&mut mbox).unwrap_err().kind(),
                MailboxErrorKind::Closed
            ));
            // Still closed
            assert!(matches!(
                receiver.recv(&mut mbox).unwrap_err().kind(),
                MailboxErrorKind::Closed
            ));
        } else {
            assert!(receiver.recv(&mut mbox).unwrap().is_none());
        }
    }
}

fn plain(mbox: &mut Mailbox<PanickingMailboxSender>) -> (PortHandle<u64>, PortReceiver<u64>) {
    mbox.open_port::<u64>()
}

fn latest(mbox: &mut Mailbox<PanickingMailboxSender>) -> (PortHandle<u64>, PortReceiver<Max<u64>>) {
    mbox.open_accum_port(max_u64())
}

#[test]
fn test_receiver_basic_default() {
    verify_receiver(plain, /*coalesce=*/ false, /*drop_sender=*/ false)
}

#[test]
fn test_receiver_basic_latest() {
    verify_receiver(latest, /*coalesce=*/ true, /*drop_sender=*/ false)
}

#[test]
fn test_receiver_after_sender_drop_default() {
    verify_receiver(plain, /*coalesce=*/ false, /*drop_sender=*/ true)
}

#[test]
fn test_receiver_after_sender_drop_latest() {
    verify_receiver(latest, /*coalesce=*/ true, /*drop_sender=*/ true)
}

struct Counter(Arc<AtomicU64>);

impl EnqueueFn for Counter {
    fn verdict(&self, _headers: HeadersView, _data: SerializedView) -> Option<Text> {
        unreachable!()
    }

    fn enqueue(&self, _headers: &Attrs, data: &Serialized) -> Result<(), String> {
        let n = data.deserialized::<u64>()?;
        if n == 13 {
            return Err("unlucky".to_string());
        }
        self.0.fetch_add(n, Ordering::SeqCst);
        Ok(())
    }
}

#[test]
fn test_enqueue_port() {
    let mut mbox = detached();
    let count = Arc::new(AtomicU64::new(0));
    let port = mbox.open_enqueue_port::<u64>(FuncSink::new(Box::new(Counter(count.clone()))));

    port.send(&mut mbox, 10).unwrap();
    port.send(&mut mbox, 5).unwrap();
    port.send(&mut mbox, 1).unwrap();
    port.send(&mut mbox, 0).unwrap();

    assert_eq!(count.load(Ordering::SeqCst), 16);

    // What the function rejects comes back to the local sender as an error,
    let err = port.send(&mut mbox, 13).unwrap_err();
    assert!(matches!(err.kind(), MailboxSenderErrorKind::Other(reason) if reason == "unlucky"));
    // and to a remote sender as an undeliverable envelope.
    let mut returned = ReturnHandle::new();
    let port = port.bind(&mut mbox);
    mbox.serialize_and_send(&port, 13u64, &mut returned).unwrap();
    let back = returned.try_recv().unwrap().into_inner();
    let expected = format!("{}: send error: unlucky", port.port_id().to_string());
    assert!(matches!(back.error(), Some(DeliveryError::Mailbox(reason)) if *reason == expected));
    assert_eq!(count.load(Ordering::SeqCst), 16);
}

#[test]
fn port_indices_are_fresh_and_ascending() {
    let mut mbox = detached();
    assert_eq!(mbox.next_port(), USER_PORT_OFFSET);
    let (a, _ra) = mbox.open_port::<u64>();
    let (b, _rb) = mbox.open_once_port::<i64>();
    let (c, _rc) = mbox.open_accum_port(sum_u64());
    let d = mbox
        .split(PortId(actor("test", 0, "test"), a.port_index()), None)
        .unwrap();
    assert_eq!(a.port_index(), 1024);
    assert_eq!(b.port_id().index(), 1025);
    assert_eq!(c.port_index(), 1026);
    assert_eq!(d.index(), 1027);
    assert_eq!(mbox.next_port(), 1028);
}

#[test]
fn fifo_per_port() {
    let mut mbox = detached();
    let (port, mut receiver) = mbox.open_port::<i64>();
    let sent = [5i64, -1, 5, i64::MIN, i64::MAX, 0];
    for v in sent {
        port.send(&mut mbox, v).unwrap();
    }
    for v in sent {
        assert_eq!(receiver.try_recv(&mut mbox).unwrap(), Some(v));
    }
    assert_eq!(receiver.try_recv(&mut mbox).unwrap(), None);
}

#[test]
fn undecodable_payload_comes_back_with_mailbox_error() {
    let mut mbox = detached();
    let mut returned = ReturnHandle::new();
    let (port, mut receiver) = mbox.open_port::<u64>();
    let port = port.bind(&mut mbox);
    // Seven bytes do not decode as a u64.
    mbox.post(
        MessageEnvelope::new_unknown(port.port_id().clone(), Serialized::new(vec![1; 7])),
        &mut returned,
    );
    assert_eq!(receiver.try_recv(&mut mbox).unwrap(), None);
    let back = returned.try_recv().unwrap().into_inner();
    assert_eq!(
        back.error().unwrap().to_string(),
        "mailbox error: test[0].test[0][1024]: deserialization error for type u64: \
         unexpected end of payload"
    );
    assert_eq!(back.data().bytes(), &[1u8; 7]);
    // Trailing bytes are ignored.
    mbox.post(
        MessageEnvelope::new_unknown(
            port.port_id().clone(),
            Serialized::new(vec![2, 1, 0, 0, 0, 0, 0, 0, 9, 9]),
        ),
        &mut returned,
    );
    assert_eq!(receiver.try_recv(&mut mbox).unwrap(), Some(258));
    assert!(returned.is_empty());
}

#[test]
fn handles_of_another_mailbox_are_invalid() {
    let mut mbox = detached();
    let mut other = Mailbox::new_detached(actor("test", 0, "other"));
    let (port, mut receiver) = mbox.open_port::<u64>();
    assert!(port.belongs_to(&mbox));
    assert!(!port.belongs_to(&other));
    let err = port.send(&mut other, 1).unwrap_err();
    assert!(matches!(err.kind(), MailboxSenderErrorKind::Invalid));
    let err = receiver.try_recv(&mut other).unwrap_err();
    assert!(matches!(err.kind(), MailboxErrorKind::InvalidPort(_)));
    assert!(receiver.drain(&mut other).is_empty());
}

#[test]
fn wire_format_of_integers() {
    assert_eq!(
        Serialized::serialize(&0x0102030405060708u64).unwrap().bytes(),
        &[8, 7, 6, 5, 4, 3, 2, 1]
    );
    assert_eq!(Serialized::serialize(&-2i64).unwrap().bytes(), &[0xfe, 255, 255, 255, 255, 255, 255, 255]);
    assert_eq!(Serialized::serialize(&7u64).unwrap().typename(), Some("u64"));
    assert_eq!(Serialized::new(vec![]).typename(), None);
    assert!(Serialized::new(vec![0; 7]).deserialized::<u64>().is_err());
    assert_eq!(Serialized::new(vec![0xff; 8]).deserialized::<i64>().unwrap(), -1);
    assert_eq!(<u64 as RemoteMessage>::format(), WireFormat::AtLeast(8));
    assert!(Serialized::new(vec![0; 8]).fits(&WireFormat::AtLeast(8)));
    assert!(!Serialized::new(vec![0; 7]).fits(&WireFormat::AtLeast(8)));
    assert!(Serialized::new(vec![]).fits(&WireFormat::Any));
}

#[test]
fn serialize_round_trip() {
    for v in [0u64, 1, 255, 256, u64::MAX, 0xdead_beef_0bad_f00d] {
        assert_eq!(Serialized::serialize(&v).unwrap().deserialized::<u64>().unwrap(), v);
    }
    for v in [0i64, -1, 1, i64::MIN, i64::MAX, -1234567890123] {
        assert_eq!(Serialized::serialize(&v).unwrap().deserialized::<i64>().unwrap(), v);
    }
    assert_eq!(
        Serialized::serialize(&Max(-5i64)).unwrap().deserialized::<Max<i64>>().unwrap(),
        Max(-5)
    );
}

fn wire(v: u64) -> Vec<u8> {
    v.to_le_bytes().to_vec()
}

#[test]
fn reducers_on_encodings() {
    let max_i = Reducer { fold: Fold::Max, scalar: Scalar::I64 };
    let min_i = Reducer { fold: Fold::Min, scalar: Scalar::I64 };
    let sum_i = Reducer { fold: Fold::Sum, scalar: Scalar::I64 };
    let max_u = Reducer { fold: Fold::Max, scalar: Scalar::U64 };
    let min_u = Reducer { fold: Fold::Min, scalar: Scalar::U64 };
    let sum_u = Reducer { fold: Fold::Sum, scalar: Scalar::U64 };
    let minus_one = wire(u64::MAX);

    // As unsigned numbers all ones is the greatest, as signed ones it is -1.
    assert_eq!(max_u.combine(&wire(5), &minus_one).unwrap(), minus_one);
    assert_eq!(max_i.combine(&wire(5), &minus_one).unwrap(), wire(5));
    assert_eq!(min_u.combine(&wire(5), &minus_one).unwrap(), wire(5));
    assert_eq!(min_i.combine(&wire(5), &minus_one).unwrap(), minus_one);
    assert_eq!(sum_i.combine(&wire(5), &minus_one).unwrap(), wire(4));
    assert!(sum_u.combine(&wire(5), &minus_one).is_err());
    assert!(sum_i.combine(&wire(i64::MAX as u64), &wire(1)).is_err());
    assert!(sum_i.combine(&wire(i64::MIN as u64), &minus_one).is_err());
    assert_eq!(sum_u.combine(&wire(u64::MAX - 1), &wire(1)).unwrap(), minus_one);
    // A state or an update that is too short is no number.
    assert!(max_u.combine(&[0; 7], &wire(1)).is_err());
    assert!(max_u.combine(&wire(1), &[]).is_err());

    assert_eq!(max_u.initial_state(), wire(0));
    assert_eq!(max_i.initial_state(), wire(i64::MIN as u64));
    assert_eq!(min_u.initial_state(), wire(u64::MAX));
    assert_eq!(min_i.initial_state(), wire(i64::MAX as u64));
    assert_eq!(sum_i.initial_state(), wire(0));

    let batch = |values: &[u64]| values.iter().map(|v| Serialized::new(wire(*v))).collect();
    assert_eq!(sum_u.reduce_updates(batch(&[1, 5, 3, 4, 2])).unwrap().bytes(), wire(15));
    assert_eq!(max_u.reduce_updates(batch(&[1, 5, 3])).unwrap().bytes(), wire(5));
    // A single update is itself, whatever its bytes.
    assert_eq!(sum_u.reduce_updates(vec![Serialized::new(vec![7])]).unwrap().bytes(), &[7]);
    let (_, back) = sum_u.reduce_updates(vec![]).unwrap_err();
    assert!(back.is_empty());
    let (_, back) = sum_u.reduce_updates(batch(&[1, u64::MAX, 3])).unwrap_err();
    assert_eq!(back.len(), 3);
    assert_eq!(back[2].bytes(), wire(3));
}

#[test]
fn reducers_by_number() {
    assert_eq!(Reducer { fold: Fold::Max, scalar: Scalar::U64 }.typehash(), 2);
    assert_eq!(Reducer { fold: Fold::Max, scalar: Scalar::I64 }.typehash(), 3);
    assert_eq!(Reducer { fold: Fold::Min, scalar: Scalar::U64 }.typehash(), 4);
    assert_eq!(Reducer { fold: Fold::Sum, scalar: Scalar::I64 }.typehash(), 7);
    assert_eq!(max_u64().reducer().typehash(), 2);
    assert_eq!(max_i64().reducer_spec().unwrap().typehash, 3);
    assert_eq!(sum_u64().reducer_spec().unwrap().typehash, 6);
    for n in 2..8 {
        assert_eq!(Reducer::from_typehash(n).unwrap().typehash(), n);
    }
    for n in [0, 1, 8, u64::MAX] {
        assert_eq!(Reducer::from_typehash(n), None);
        assert_eq!(resolve_reducer(&ReducerSpec { typehash: n, builder_params: None }), None);
    }
    assert!(
        ReducerSpec { typehash: 6, builder_params: None }
            != ReducerSpec { typehash: 6, builder_params: Some(Serialized::new(vec![])) }
    );
    assert_eq!(Serialized::serialize(&Min(3u64)).unwrap().deserialized::<Min<u64>>().unwrap(), Min(3));
    assert_eq!(*Min(3u64).get(), 3);
}

#[test]
fn split_with_unknown_reducer_forwards_verbatim() {
    let mut mbox = detached();
    let mut returned = ReturnHandle::new();
    let (port, mut receiver) = mbox.open_port::<u64>();
    let port = port.bind(&mut mbox);
    let split = mbox
        .split(port.port_id().clone(), Some(ReducerSpec { typehash: 99, builder_params: None }))
        .unwrap();
    for v in [1u64, 2, 3] {
        mbox.post(
            MessageEnvelope::new_unknown(split.clone(), Serialized::serialize(&v).unwrap()),
            &mut returned,
        );
    }
    assert_eq!(receiver.drain(&mut mbox), vec![1, 2, 3]);
    assert!(returned.is_empty());
}
