use hyperactor_mailbox::accum::{sum_u64, Accumulator};
use hyperactor_mailbox::client::{
    monitor_tx_health, Buffer, ChannelAddr, MailboxClient, TxEvent, TxStatus, TxWatch,
};
use hyperactor_mailbox::data::{Serialized, Text};
use hyperactor_mailbox::dial::DialMailboxRouter;
use hyperactor_mailbox::envelope::{DeliveryError, MessageEnvelope, ReturnHandle};
use hyperactor_mailbox::error::{ChannelError, MailboxServerError};
use hyperactor_mailbox::handle::PortReceiver;
use hyperactor_mailbox::mailbox::Mailbox;
use hyperactor_mailbox::muxer::MailboxMuxer;
use hyperactor_mailbox::reference::{ActorId, PortId, ProcId, Reference, WorldId};
use hyperactor_mailbox::router::MailboxRouter;
use hyperactor_mailbox::sender::{
    BoxableMailboxSender, BoxedMailboxSender, IntoBoxedMailboxSender, MailboxSender,
    PanickingMailboxSender, PortSender,
    UndeliverableMailboxSender, UnroutableMailboxSender,
};
use hyperactor_mailbox::server::{MailboxServer, MailboxServerHandle, ServeEvent, Served};

fn world(name: &str) -> WorldId {
    WorldId(name.into())
}

fn proc_id(w: &str, rank: usize) -> ProcId {
    ProcId(world(w), rank)
}

fn actor(w: &str, rank: usize, name: &str) -> ActorId {
    ActorId(proc_id(w, rank), name.into(), 0)
}

fn envelope(dest: &PortId, value: u64) -> MessageEnvelope {
    MessageEnvelope::new_unknown(dest.clone(), Serialized::serialize(&value).unwrap())
}

type Detached = Mailbox<PanickingMailboxSender>;

#[test]
fn test_mailbox_muxer() {
    let mut muxer = MailboxMuxer::new();

    let mbox0 = Mailbox::new_detached(actor("test", 0, "actor1"));
    let mbox1 = Mailbox::new_detached(actor("test", 0, "actor2"));
    let id0 = mbox0.actor_id().clone();

    assert!(muxer.bind(mbox0.actor_id().clone(), mbox0));
    assert!(muxer.bind(mbox1.actor_id().clone(), mbox1));

    let mut mbox0 = muxer.unbind(&id0).unwrap();
    let (port, mut receiver) = mbox0.open_once_port::<u64>();
    port.send(&mut mbox0, 123u64).unwrap();
    assert_eq!(receiver.recv(&mut mbox0).unwrap(), Some(123u64));
}

#[test]
fn muxer_routes_by_actor() {
    let mut muxer: MailboxMuxer<Detached> = MailboxMuxer::new();
    let mut returned = ReturnHandle::new();

    let mut a = Mailbox::new_detached(actor("test", 0, "actor1"));
    let b = Mailbox::new_detached(actor("test", 0, "actor2"));
    let a_id = a.actor_id().clone();
    let (port, mut receiver) = a.open_once_port::<u64>();
    let port = port.bind(&mut a);

    assert!(muxer.bind_mailbox(a));
    assert!(muxer.bind_mailbox(b));
    // A bound actor is not bound again.
    assert!(!muxer.bind_mailbox(Mailbox::new_detached(actor("test", 0, "actor2"))));
    assert_eq!(
        muxer.bound_actors(),
        vec![actor("test", 0, "actor1"), actor("test", 0, "actor2")]
    );

    muxer.serialize_and_send_once(port, 123u64, &mut returned).unwrap();
    assert!(returned.is_empty());
    assert_eq!(receiver.recv(muxer.sender_mut(&a_id).unwrap()).unwrap(), Some(123u64));
    assert!(muxer.sender_mut(&actor("test", 0, "actor3")).is_none());
    // The one-shot port is used up.
    let mut a = muxer.unbind(&a_id).unwrap();
    assert!(receiver.recv(&mut a).is_err());

    // An actor that is not bound: the envelope comes back as unroutable.
    let c = PortId(actor("test", 0, "actor3"), 1024);
    muxer.post(envelope(&c, 5), &mut returned);
    assert_eq!(returned.len(), 1);
    let back = returned.try_recv().unwrap().into_inner();
    assert_eq!(
        back.error().unwrap().to_string(),
        "address not routable: no mailbox for actor test[0].actor3[0] registered in muxer"
    );
    assert_eq!(back.dest(), &c);
    assert_eq!(back.deserialized::<u64>().unwrap(), 5);

    // Once unbound, the muxer has no route to the actor.
    muxer.post(envelope(&PortId(a_id.clone(), 1024), 6), &mut returned);
    assert_eq!(returned.len(), 1);
    assert!(!muxer.is_bound(&a_id));
}

struct Opened {
    id: ActorId,
    port: PortId,
    receiver: PortReceiver<u64>,
}

fn open(mbox: &mut Detached) -> Opened {
    let (handle, receiver) = mbox.open_port::<u64>();
    let port = handle.bind(mbox).port_id().clone();
    Opened { id: mbox.actor_id().clone(), port, receiver }
}

#[test]
fn test_mailbox_router() {
    let mut mbox0 = Mailbox::new_detached(actor("world0", 0, "actor0"));
    let mut mbox1 = Mailbox::new_detached(actor("world1", 0, "actor0"));
    let mut mbox2 = Mailbox::new_detached(actor("world1", 1, "actor0"));
    let mut mbox3 = Mailbox::new_detached(actor("world1", 1, "actor1"));
    let comms = vec![open(&mut mbox0), open(&mut mbox1), open(&mut mbox2), open(&mut mbox3)];

    let mut router = MailboxRouter::new();
    router.bind(world("world0").into(), mbox0);
    router.bind(proc_id("world1", 0).into(), mbox1);
    router.bind(proc_id("world1", 1).into(), mbox2);
    router.bind(actor("world1", 1, "actor1").into(), mbox3);

    let mut returned = ReturnHandle::new();
    for (i, opened) in comms.iter().enumerate() {
        router.post(envelope(&opened.port, i as u64), &mut returned);
    }
    assert!(returned.is_empty());

    // Each mailbox got the message for its own actor, and no other.
    let mut boxes = Vec::new();
    for key in [
        Reference::from(actor("world1", 1, "actor1")),
        proc_id("world1", 1).into(),
        proc_id("world1", 0).into(),
        world("world0").into(),
    ] {
        boxes.push(router.unbind(&key).unwrap());
    }
    boxes.reverse();
    for (i, (mut opened, mut mbox)) in comms.into_iter().zip(boxes).enumerate() {
        assert_eq!(mbox.actor_id(), &opened.id);
        assert_eq!(opened.receiver.recv(&mut mbox).unwrap(), Some(i as u64));
        assert_eq!(opened.receiver.recv(&mut mbox).unwrap(), None);
    }
}

#[test]
fn prefix_router_prefers_the_longest_prefix() {
    let mut m2 = Mailbox::new_detached(actor("world1", 1, "actor0"));
    let mut m3 = Mailbox::new_detached(actor("world1", 1, "actor1"));
    let mut to_m2 = open(&mut m2);
    let mut to_m3 = open(&mut m3);

    let mut router = MailboxRouter::new();
    router.bind(proc_id("world1", 1).into(), m2);
    router.bind(actor("world1", 1, "actor1").into(), m3);

    let mut returned = ReturnHandle::new();
    router.post(envelope(&to_m3.port, 3), &mut returned);
    router.post(envelope(&to_m2.port, 2), &mut returned);
    // No prefix of this actor is bound.
    let nowhere = PortId(actor("world2", 0, "actor0"), 1024);
    router.post(envelope(&nowhere, 9), &mut returned);
    // The proc is a prefix of this actor, but the nearest reference before
    // it is the other actor, which is not: the envelope comes back.
    let beyond = PortId(actor("world1", 1, "actor2"), 1024);
    router.post(envelope(&beyond, 10), &mut returned);

    assert_eq!(returned.len(), 2);
    for dest in [&nowhere, &beyond] {
        let back = returned.try_recv().unwrap().into_inner();
        assert_eq!(back.dest(), dest);
        assert_eq!(
            back.error().unwrap().to_string(),
            "address not routable: no destination found for actor in routing table"
        );
    }

    let mut m3 = router.unbind(&actor("world1", 1, "actor1").into()).unwrap();
    let mut m2 = router.unbind(&proc_id("world1", 1).into()).unwrap();
    assert_eq!(to_m3.receiver.recv(&mut m3).unwrap(), Some(3));
    assert_eq!(to_m2.receiver.recv(&mut m2).unwrap(), Some(2));
}

#[test]
fn weak_router_breaks_once_the_router_is_gone() {
    let mut mbox = Mailbox::new_detached(actor("w", 0, "a"));
    let mut opened = open(&mut mbox);
    let mut router = MailboxRouter::new();
    router.bind(world("w").into(), mbox);
    let mut weak = router.downgrade();

    let mut returned = ReturnHandle::new();
    weak.post(envelope(&opened.port, 1), &mut returned);
    assert!(returned.is_empty());

    let mut router = weak.upgrade().unwrap();
    assert!(router.sender_mut(&world("v").into()).is_none());
    let mbox = router.sender_mut(&world("w").into()).unwrap();
    assert_eq!(opened.receiver.recv(mbox).unwrap(), Some(1));
    let mut mbox = router.unbind(&world("w").into()).unwrap();
    assert_eq!(opened.receiver.recv(&mut mbox).unwrap(), None);
    router.bind(world("w").into(), mbox);

    let mut weak = router.downgrade();
    weak.release();
    weak.post(envelope(&opened.port, 2), &mut returned);
    let back = returned.try_recv().unwrap().into_inner();
    assert_eq!(
        back.error().unwrap().to_string(),
        "broken link: failed to upgrade WeakMailboxRouter"
    );
    assert!(weak.upgrade().is_none());
}

fn unix(name: &str) -> ChannelAddr {
    ChannelAddr::new("unix", name)
}

#[test]
fn test_dial_mailbox_router() {
    let mut router = DialMailboxRouter::new();

    router.bind(proc_id("world0", 0).into(), ChannelAddr::parse("unix!@1").unwrap());
    router.bind(proc_id("world1", 0).into(), ChannelAddr::parse("unix!@2").unwrap());
    router.bind(proc_id("world1", 1).into(), ChannelAddr::parse("unix!@3").unwrap());
    router.bind(actor("world1", 1, "actor1").into(), ChannelAddr::parse("unix!@4").unwrap());

    // We should be able to lookup the ids
    router.lookup_addr(&actor("world0", 0, "actor")).unwrap();
    router.lookup_addr(&actor("world1", 0, "actor")).unwrap();

    // Unbind so we cannot find the ids anymore
    router.unbind(&world("world1").into());
    assert!(router.lookup_addr(&actor("world1", 0, "actor1")).is_none());
    assert!(router.lookup_addr(&actor("world1", 1, "actor1")).is_none());
    assert!(router.lookup_addr(&actor("world1", 2, "actor1")).is_none());
    router.lookup_addr(&actor("world0", 0, "actor")).unwrap();
    router.unbind(&world("world0").into());
    assert!(router.lookup_addr(&actor("world0", 0, "actor")).is_none());
}

/// Dials what the router asks for: every address but those that are down.
fn dial_all(
    router: &mut DialMailboxRouter<UnroutableMailboxSender>,
    down: &[&str],
    returned: &mut ReturnHandle,
) -> Vec<String> {
    let mut dialed = Vec::new();
    while let Some(addr) = router.next_dial() {
        dialed.push(addr.to_string());
        if down.contains(&addr.to_string().as_str()) {
            router.dial_failed(&addr, &ChannelError::Other("connection refused".into()), returned);
        }
    }
    dialed
}

#[test]
fn dial_router_dials_once_until_rebound() {
    let mut router = DialMailboxRouter::new();
    let mut returned = ReturnHandle::new();
    let down = ["unix!@down"];
    router.bind(proc_id("world0", 0).into(), unix("@1"));
    router.bind(proc_id("world0", 1).into(), unix("@down"));
    assert_eq!(router.lookup_addr(&actor("world0", 0, "a")), Some(unix("@1")));

    let a = PortId(actor("world0", 0, "a"), 1024);
    let b = PortId(actor("world0", 0, "b"), 1024);
    router.post(envelope(&a, 1), &mut returned);
    router.post(envelope(&b, 2), &mut returned);
    router.post(envelope(&a, 3), &mut returned);
    // Three posts to one address ask for one dial.
    assert_eq!(dial_all(&mut router, &down, &mut returned), vec!["unix!@1"]);
    assert!(returned.is_empty());
    // The client keeps what was posted, in order, for transmission.
    for expected in [1u64, 2, 3] {
        let next = router.next_for(&unix("@1")).unwrap();
        assert_eq!(next.deserialized::<u64>().unwrap(), expected);
    }
    assert!(router.next_for(&unix("@1")).is_none());

    // The same address again changes nothing; another address evicts.
    router.bind(proc_id("world0", 0).into(), unix("@1"));
    router.post(envelope(&a, 4), &mut returned);
    assert!(dial_all(&mut router, &down, &mut returned).is_empty());
    router.bind(proc_id("world0", 0).into(), unix("@5"));
    router.post(envelope(&a, 5), &mut returned);
    router.bind(proc_id("world0", 0).into(), unix("@1"));
    router.post(envelope(&a, 6), &mut returned);
    assert_eq!(dial_all(&mut router, &down, &mut returned), vec!["unix!@5", "unix!@1"]);
    // What waited in the evicted client is gone with it.
    assert_eq!(router.next_for(&unix("@1")).unwrap().deserialized::<u64>().unwrap(), 6);

    // An unbind evicts too.
    router.unbind(&world("world0").into());
    assert!(router.next_for(&unix("@1")).is_none());
    assert!(router.lookup_addr(&actor("world0", 0, "a")).is_none());

    // What cannot be dialed comes back, in order, and the next envelope
    // asks for a dial again.
    router.bind(proc_id("world0", 1).into(), unix("@down"));
    let c = PortId(actor("world0", 1, "c"), 1024);
    let d = PortId(actor("world0", 1, "d"), 1024);
    router.post(envelope(&c, 7), &mut returned);
    router.post(envelope(&d, 8), &mut returned);
    assert!(returned.is_empty());
    assert_eq!(dial_all(&mut router, &down, &mut returned), vec!["unix!@down"]);
    assert_eq!(returned.len(), 2);
    let back = returned.try_recv().unwrap().into_inner();
    assert_eq!(back.deserialized::<u64>().unwrap(), 7);
    assert_eq!(
        back.error().unwrap().to_string(),
        "address not routable: cannot dial destination: world0[1].c[0]<unknown>: connection refused"
    );
    let back = returned.try_recv().unwrap().into_inner();
    assert_eq!(back.deserialized::<u64>().unwrap(), 8);
    assert_eq!(
        back.error().unwrap().to_string(),
        "address not routable: cannot dial destination: world0[1].d[0]<unknown>: connection refused"
    );
    router.post(envelope(&c, 9), &mut returned);
    assert_eq!(dial_all(&mut router, &down, &mut returned), vec!["unix!@down"]);
    assert_eq!(returned.drain().len(), 1);
    // A failure that is reported for an address without a client changes nothing.
    router.dial_failed(&unix("@nowhere"), &ChannelError::Closed, &mut returned);
    assert!(returned.is_empty());

    // What the book has no address for goes to the default sender.
    let e = PortId(actor("world9", 0, "e"), 1024);
    router.post(envelope(&e, 10), &mut returned);
    assert_eq!(returned.len(), 1);
    let back = returned.try_recv().unwrap().into_inner();
    assert_eq!(
        back.error().unwrap().to_string(),
        "address not routable: destination not found in routing table"
    );
}

fn post(mailbox: &mut Mailbox<MailboxClient>, port_id: &PortId, msg: u64) {
    let mut returned = ReturnHandle::new();
    mailbox.post(envelope(port_id, msg), &mut returned);
    assert!(returned.is_empty());
}

/// Hands what `from` forwarded to `to`.
fn relay(from: &mut Mailbox<MailboxClient>, to: &mut Mailbox<MailboxClient>) {
    let mut returned = ReturnHandle::new();
    while let Some(forwarded) = from.forwarder_mut().next() {
        assert_eq!(forwarded.dest().actor_id(), to.actor_id());
        assert_eq!(forwarded.sender(), from.actor_id());
        to.post(forwarded, &mut returned);
    }
    assert!(returned.is_empty());
}

struct Setup {
    receiver: PortReceiver<u64>,
    actor0: Mailbox<MailboxClient>,
    actor1: Mailbox<MailboxClient>,
    port_id: PortId,
    port_id1: PortId,
    port_id2: PortId,
    port_id2_1: PortId,
}

fn setup_split_port_ids(reducer: bool, limit: usize) -> Setup {
    let mut actor0 = Mailbox::new(actor("test", 0, "actor"), MailboxClient::new(unix("@0")));
    let mut actor1 = Mailbox::new(actor("test", 1, "actor1"), MailboxClient::new(unix("@1")));
    actor1.set_split_limit(limit);

    // Open a port on actor0
    let (port_handle, receiver) = actor0.open_port::<u64>();
    let port_id = port_handle.bind(&mut actor0).port_id().clone();

    let spec = || if reducer { sum_u64().reducer_spec() } else { None };
    // Split it twice on actor1
    let port_id1 = actor1.split(port_id.clone(), spec()).unwrap();
    let port_id2 = actor1.split(port_id.clone(), spec()).unwrap();
    // A split port id can also be split
    let port_id2_1 = actor1.split(port_id2.clone(), spec()).unwrap();

    Setup { receiver, actor0, actor1, port_id, port_id1, port_id2, port_id2_1 }
}

#[test]
fn test_split_port_id_no_reducer() {
    let Setup { mut receiver, mut actor0, mut actor1, port_id, port_id1, port_id2, port_id2_1 } =
        setup_split_port_ids(false, 5);
    // Can send messages to receiver from all port handles
    post(&mut actor0, &port_id, 1);
    assert_eq!(receiver.recv(&mut actor0).unwrap(), Some(1));
    post(&mut actor1, &port_id1, 2);
    relay(&mut actor1, &mut actor0);
    assert_eq!(receiver.recv(&mut actor0).unwrap(), Some(2));
    post(&mut actor1, &port_id2, 3);
    relay(&mut actor1, &mut actor0);
    assert_eq!(receiver.recv(&mut actor0).unwrap(), Some(3));
    post(&mut actor1, &port_id2_1, 4);
    relay(&mut actor1, &mut actor0);
    assert_eq!(receiver.recv(&mut actor0).unwrap(), Some(4));

    // no more messages
    assert_eq!(receiver.try_recv(&mut actor0).unwrap(), None);
}

#[test]
fn test_split_port_id_sum_reducer() {
    let Setup { mut receiver, mut actor0, mut actor1, port_id, port_id1, port_id2, port_id2_1 } =
        setup_split_port_ids(true, 1);
    post(&mut actor0, &port_id, 4);
    post(&mut actor1, &port_id1, 2);
    post(&mut actor1, &port_id2, 3);
    post(&mut actor1, &port_id2_1, 1);
    relay(&mut actor1, &mut actor0);
    let mut messages = receiver.drain(&mut actor0);
    // Message might be received out of their sending out. So we sort the
    // messages here.
    messages.sort();
    assert_eq!(messages, vec![1, 2, 3, 4]);

    // no more messages
    assert_eq!(receiver.try_recv(&mut actor0).unwrap(), None);
}

#[test]
fn test_split_port_id_every_n_messages() {
    let mut actor = Mailbox::new_detached(actor("test", 0, "actor"));
    let (port_handle, mut receiver) = actor.open_port::<u64>();
    let port_id = port_handle.bind(&mut actor).port_id().clone();
    // Split it
    let reducer_spec = sum_u64().reducer_spec();
    let split_port_id = actor.split(port_id, reducer_spec).unwrap();

    // Send 9 messages.
    let mut returned = ReturnHandle::new();
    for msg in [1, 5, 3, 4, 2, 91, 92, 93, 94] {
        actor.post(envelope(&split_port_id, msg), &mut returned);
    }
    assert!(returned.is_empty());
    // The first 5 should be batched and reduced once due
    // to every_n_msgs = 5.
    assert_eq!(receiver.drain(&mut actor), vec![15]);

    // the last message unfortranately will never come because they do not
    // reach batch size.
    assert_eq!(receiver.try_recv(&mut actor).unwrap(), None);
}

#[test]
fn split_reducer_failure_returns_the_last_update() {
    let mut actor = Mailbox::new_detached(actor("test", 0, "actor"));
    actor.set_split_limit(2);
    let (port_handle, mut receiver) = actor.open_port::<u64>();
    let port_id = port_handle.bind(&mut actor).port_id().clone();
    let split = actor.split(port_id, sum_u64().reducer_spec()).unwrap();
    let mut returned = ReturnHandle::new();
    actor.post(envelope(&split, u64::MAX), &mut returned);
    actor.post(envelope(&split, 1), &mut returned);
    let back = returned.try_recv().unwrap().into_inner();
    assert_eq!(back.deserialized::<u64>().unwrap(), 1);
    assert_eq!(
        back.error().unwrap().to_string(),
        "mailbox error: test[0].actor[0][1025]: send error: cannot reduce updates"
    );
    // The batch is gone; the next one is reduced.
    actor.post(envelope(&split, 20), &mut returned);
    actor.post(envelope(&split, 22), &mut returned);
    assert_eq!(receiver.drain(&mut actor), vec![42]);
    assert!(returned.is_empty());
}

#[test]
fn split_cycle_is_returned() {
    let mut actor = Mailbox::new_detached(actor("test", 0, "actor"));
    // The port that the first split port passes on to is the second split
    // port, which passes on to the first.
    let second = PortId(actor.actor_id().clone(), actor.next_port() + 1);
    let first = actor.split(second.clone(), None).unwrap();
    assert_eq!(actor.split(first.clone(), None).unwrap(), second);
    let mut returned = ReturnHandle::new();
    actor.post(envelope(&first, 1), &mut returned);
    let back = returned.try_recv().unwrap().into_inner();
    assert_eq!(back.error().unwrap().to_string(), "mailbox error: split ports form a cycle");
    assert_eq!(back.sender(), actor.actor_id());
}

#[test]
fn test_local_client_server() {
    let mut mbox = Mailbox::new_detached(actor("test", 0, "actor0"));
    let mut serve_handle = MailboxServerHandle::new();
    let mut client = MailboxClient::new(ChannelAddr::new("local", "0"));
    let mut returned = ReturnHandle::new();

    let (port, mut receiver) = mbox.open_once_port::<u64>();
    let port = port.bind(&mut mbox);

    client.serialize_and_send_once(port, 123u64, &mut returned).unwrap();
    assert!(!client.flush());
    // The channel takes the envelope and hands it to the server.
    let sent = client.next().unwrap();
    client.transmitted(None, &mut returned);
    assert!(client.flush());
    assert!(!serve_handle.stopped());
    let step = mbox.serve(&mut serve_handle, ServeEvent::Received(Ok(sent)), &mut returned);
    assert!(matches!(step, Served::Continue));
    assert_eq!(receiver.recv(&mut mbox).unwrap(), Some(123u64));
    serve_handle.stop("fromt test");
    assert!(serve_handle.stopped());
    assert!(returned.is_empty());
}

#[test]
fn server_ends_on_channel_errors() {
    let mut sender = UndeliverableMailboxSender;
    let mut handle = MailboxServerHandle::new();
    let mut returned = ReturnHandle::new();
    let step =
        sender.serve(&mut handle, ServeEvent::Received(Err(ChannelError::Closed)), &mut returned);
    assert!(matches!(step, Served::Done(Ok(()))));
    let step = sender.serve(
        &mut handle,
        ServeEvent::Received(Err(ChannelError::Other("reset".into()))),
        &mut returned,
    );
    match step {
        Served::Done(Err(e)) => {
            assert!(matches!(&e, MailboxServerError::Channel(ChannelError::Other(r)) if r == "reset"));
            assert_eq!(e.to_string(), "reset");
        }
        _ => panic!("the server goes on after a channel error"),
    }
    assert!(handle.listening());
    let step = sender.serve(&mut handle, ServeEvent::StopChanged { gone: true }, &mut returned);
    assert!(matches!(step, Served::Continue));
    assert!(!handle.listening());
    assert!(returned.is_empty());
}

#[test]
fn client_returns_what_it_cannot_enqueue() {
    let mut client = MailboxClient::new(ChannelAddr::new("tcp", "host:1"));
    assert_eq!(client.addr().to_string(), "tcp!host:1");
    let mut returned = ReturnHandle::new();
    let dest = PortId(actor("w", 0, "a"), 1024);
    client.post(envelope(&dest, 1), &mut returned);
    client.close();
    client.post(envelope(&dest, 2), &mut returned);
    assert_eq!(returned.len(), 1);
    let back = returned.try_recv().unwrap().into_inner();
    assert_eq!(back.deserialized::<u64>().unwrap(), 2);
    assert_eq!(
        back.error().unwrap().to_string(),
        "broken link: failed to enqueue in MailboxClient"
    );
    // What the channel refuses comes back the same way; what it reports
    // later as not delivered comes back as it is.
    let first = client.next().unwrap();
    client.transmitted(Some(first), &mut returned);
    assert!(matches!(
        returned.try_recv().unwrap().into_inner().error(),
        Some(DeliveryError::BrokenLink(_))
    ));
    MailboxClient::delivery_failed(envelope(&dest, 3), &mut returned);
    assert!(returned.try_recv().unwrap().into_inner().error().is_none());
}

#[test]
fn buffer_counts_sends_and_processing() {
    let mut buffer: Buffer<u8> = Buffer::new();
    assert!(buffer.flush());
    assert_eq!(buffer.send(1), Ok(()));
    assert_eq!(buffer.send(2), Ok(()));
    assert!(!buffer.flush());
    assert_eq!(buffer.next(), Some(1));
    buffer.processed();
    assert!(!buffer.flush());
    assert_eq!(buffer.next(), Some(2));
    buffer.processed();
    assert!(buffer.flush());
    assert_eq!(buffer.next(), None);
    buffer.close();
    // A send to a closed buffer comes back, and is counted all the same.
    assert_eq!(buffer.send(3), Err(3));
    assert!(!buffer.flush());
}

#[test]
fn channel_addresses() {
    assert_eq!(ChannelAddr::parse("unix!@1"), Some(ChannelAddr::new("unix", "@1")));
    assert_eq!(ChannelAddr::parse("local!0").unwrap().to_string(), "local!0");
    // The first `!` parts the transport from the name.
    assert_eq!(ChannelAddr::parse("sim!unix!@1"), Some(ChannelAddr::new("sim", "unix!@1")));
    assert_eq!(ChannelAddr::parse("!"), Some(ChannelAddr::new("", "")));
    assert_eq!(ChannelAddr::parse("tcp!héllo:1"), Some(ChannelAddr::new("tcp", "héllo:1")));
    assert_eq!(ChannelAddr::parse("é!x"), Some(ChannelAddr::new("é", "x")));
    assert_eq!(ChannelAddr::parse("unix"), None);
    assert_eq!(ChannelAddr::parse(""), None);
}

#[test]
fn tx_health() {
    assert_eq!(monitor_tx_health(TxEvent::Changed(Some(TxStatus::Active))), TxWatch::Continue);
    assert_eq!(monitor_tx_health(TxEvent::Changed(Some(TxStatus::Closed))), TxWatch::Lost);
    assert_eq!(monitor_tx_health(TxEvent::Changed(None)), TxWatch::Lost);
    assert_eq!(monitor_tx_health(TxEvent::Cancelled), TxWatch::Stop);
}

#[test]
fn senders_without_state() {
    let dest = PortId(actor("w", 0, "a"), 7);
    let mut returned = ReturnHandle::new();
    UndeliverableMailboxSender.post(envelope(&dest, 1), &mut returned);
    assert!(returned.is_empty());
    UnroutableMailboxSender.post(envelope(&dest, 2), &mut returned);
    assert_eq!(returned.len(), 1);

    let erased: Box<dyn MailboxSender> = Box::new(UndeliverableMailboxSender);
    let mut other: BoxedMailboxSender = BoxedMailboxSender::from_box(erased);
    other.post(envelope(&dest, 0), &mut returned);
    assert_eq!((other.posts(), returned.len()), (1, 1));
    let mut boxed = UnroutableMailboxSender.into_boxed();
    assert_eq!(boxed.posts(), 0);
    boxed.post(envelope(&dest, 3), &mut returned);
    boxed.post(envelope(&dest, 4), &mut returned);
    assert_eq!(boxed.posts(), 2);
    let back: Vec<u64> = returned
        .drain()
        .into_iter()
        .map(|u| u.into_inner().deserialized::<u64>().unwrap())
        .collect();
    assert_eq!(back, vec![2, 3, 4]);
}

#[test]
fn boxed_copies_count_their_own_posts() {
    let dest = PortId(actor("w", 0, "a"), 7);
    let mut returned = ReturnHandle::new();
    let sender = UnroutableMailboxSender;
    let mut first = sender.boxed();
    let mut second = BoxedMailboxSender::new(sender);
    first.post(envelope(&dest, 5), &mut returned);
    assert_eq!((first.posts(), second.posts()), (1, 0));
    second.post(envelope(&dest, 6), &mut returned);
    second.post(envelope(&dest, 7), &mut returned);
    assert_eq!((first.posts(), second.posts()), (1, 2));
    let back: Vec<u64> = returned
        .drain()
        .into_iter()
        .map(|u| u.into_inner().deserialized::<u64>().unwrap())
        .collect();
    assert_eq!(back, vec![5, 6, 7]);

    // A boxed sender forwards for a mailbox as the sender in it does.
    let mut mbox = Mailbox::new(actor("w", 0, "a"), UnroutableMailboxSender.boxed());
    mbox.post(envelope(&PortId(actor("w", 0, "b"), 1024), 8), &mut returned);
    assert_eq!(mbox.forwarder().posts(), 1);
    let back = returned.try_recv().unwrap().into_inner();
    assert_eq!(
        back.error().unwrap().to_string(),
        "address not routable: destination not found in routing table"
    );
}

#[test]
fn mailbox_forwards_what_is_for_other_actors() {
    let mut mbox = Mailbox::new(actor("w", 0, "a"), UnroutableMailboxSender);
    let mut returned = ReturnHandle::new();
    mbox.post(envelope(&PortId(actor("w", 0, "b"), 1024), 1), &mut returned);
    let back = returned.try_recv().unwrap().into_inner();
    assert_eq!(
        back.error().unwrap().to_string(),
        "address not routable: destination not found in routing table"
    );
    // Its own actor's port that is not bound:
    mbox.post(envelope(&PortId(actor("w", 0, "a"), 1024), 1), &mut returned);
    let back = returned.try_recv().unwrap().into_inner();
    assert_eq!(
        back.error().unwrap().to_string(),
        "address not routable: port not bound in mailbox"
    );
}

#[test]
fn sending_from_a_mailbox_uses_its_return_port() {
    let mut mbox = Mailbox::new(actor("w", 0, "a"), UnroutableMailboxSender);
    let mut monitored = ReturnHandle::new();
    let dest = PortId(actor("w", 0, "b"), 1024);
    let data = || Serialized::serialize(&1u64).unwrap();
    let headers = hyperactor_mailbox::attrs::Attrs::new;
    // Not bound: the envelope comes back to the monitored handle, and the
    // actor is warned the first time.
    assert!(mbox.bound_return_handle().is_none());
    assert!(mbox.send(dest.clone(), headers(), data(), &mut monitored));
    assert!(!mbox.send(dest.clone(), headers(), data(), &mut monitored));
    assert_eq!(monitored.len(), 2);
    assert_eq!(monitored.try_recv().unwrap().into_inner().sender(), mbox.actor_id());
    // Bound: it comes back to the actor's own port.
    mbox.bind_return_handle();
    assert!(!mbox.send(dest.clone(), headers(), data(), &mut monitored));
    assert_eq!(monitored.len(), 1);
    assert_eq!(mbox.bound_return_handle().unwrap().len(), 1);
    let back = mbox.try_recv_undeliverable().unwrap();
    assert_eq!(back.dest(), &dest);
    assert!(mbox.try_recv_undeliverable().is_none());
}

#[allow(dead_code)]
fn spec_types_are_nameable(_: Text) {}
