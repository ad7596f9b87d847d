use hyperactor_mailbox::order::{order_bytes, Order};
use hyperactor_mailbox::reference::{ActorId, GangId, PortId, ProcId, Reference, WorldId};
use hyperactor_mailbox::text::{decimal_string, order_str, same_str};

fn world(name: &str) -> WorldId {
    WorldId(name.into())
}

fn proc_id(w: &str, rank: usize) -> ProcId {
    ProcId(world(w), rank)
}

fn actor(w: &str, rank: usize, name: &str, pid: usize) -> ActorId {
    ActorId(proc_id(w, rank), name.into(), pid)
}

/// References in ascending order.
fn ladder() -> Vec<Reference> {
    vec![
        world("a").into(),
        GangId(world("a"), "x".into()).into(),
        proc_id("a", 0).into(),
        actor("a", 0, "x", 0).into(),
        PortId(actor("a", 0, "x", 0), 0).into(),
        PortId(actor("a", 0, "x", 0), 7).into(),
        actor("a", 0, "x", 1).into(),
        actor("a", 0, "xy", 0).into(),
        actor("a", 0, "y", 0).into(),
        proc_id("a", 1).into(),
        proc_id("a", 10).into(),
        world("ab").into(),
        world("b").into(),
        // Names are ordered by their bytes.
        world("é").into(),
    ]
}

#[test]
fn references_are_totally_ordered() {
    let refs = ladder();
    for (i, a) in refs.iter().enumerate() {
        for (j, b) in refs.iter().enumerate() {
            let expected = if i < j {
                Order::Before
            } else if i > j {
                Order::After
            } else {
                Order::Same
            };
            assert_eq!(a.compare(b), expected, "{} against {}", a.to_string(), b.to_string());
            assert_eq!(a.le(b), i <= j);
            assert_eq!(a == b, i == j);
        }
    }
}

#[test]
fn prefixes() {
    let w: Reference = world("a").into();
    let p: Reference = proc_id("a", 0).into();
    let a: Reference = actor("a", 0, "x", 0).into();
    let port: Reference = PortId(actor("a", 0, "x", 0), 7).into();
    let g: Reference = GangId(world("a"), "x".into()).into();

    for r in [&w, &p, &a, &port, &g] {
        assert!(w.is_prefix_of(r));
        assert!(r.is_prefix_of(r));
    }
    assert!(p.is_prefix_of(&a));
    assert!(p.is_prefix_of(&port));
    assert!(!p.is_prefix_of(&w));
    assert!(!p.is_prefix_of(&g));
    // An actor, a port and a gang are prefixes of themselves alone.
    assert!(!a.is_prefix_of(&port));
    assert!(!a.is_prefix_of(&actor("a", 0, "x", 1).into()));
    assert!(!g.is_prefix_of(&a));
    assert!(!w.is_prefix_of(&world("ab").into()));
    assert!(!p.is_prefix_of(&proc_id("a", 1).into()));
    // Every prefix comes at or before what it is a prefix of.
    let refs = ladder();
    for a in &refs {
        for b in &refs {
            if a.is_prefix_of(b) {
                assert!(a.le(b));
            }
        }
    }
}

#[test]
fn written_forms() {
    assert_eq!(world("myworld").to_string(), "myworld");
    assert_eq!(proc_id("myworld", 2).to_string(), "myworld[2]");
    assert_eq!(actor("myworld", 2, "myactor", 5).to_string(), "myworld[2].myactor[5]");
    assert_eq!(PortId(actor("dest", 1, "actor", 0), 123).to_string(), "dest[1].actor[0][123]");
    assert_eq!(GangId(world("w"), "g".into()).to_string(), "w.g");
    assert_eq!(Reference::from(proc_id("w", 18446744073709551615)).to_string(), "w[18446744073709551615]");
    assert_eq!(ActorId::unknown().to_string(), "unknown[0].unknown[0]");
}

#[test]
fn parts() {
    let a = actor("w", 3, "n", 4);
    assert_eq!(a.world_name(), "w");
    assert_eq!(a.rank(), 3);
    assert_eq!(a.name(), "n");
    assert_eq!(a.pid(), 4);
    assert_eq!(a.proc_id(), &proc_id("w", 3));
    assert_eq!(a.port_id(9), PortId(a.clone(), 9));
    assert_eq!(a.port_id(9).index(), 9);
    assert_eq!(a.port_id(9).actor_id(), &a);
    assert_eq!(proc_id("w", 3).actor_id("n", 4), a);
    assert_eq!(world("w").proc_id(3), proc_id("w", 3));
    assert_eq!(proc_id("w", 3).world_id(), &world("w"));
    assert_eq!(proc_id("w", 3).world_name(), "w");

    let r: Reference = PortId(a.clone(), 9).into();
    assert_eq!(r.world_id(), &world("w"));
    assert_eq!(r.proc_id(), Some(&proc_id("w", 3)));
    assert_eq!(r.rank(), Some(3));
    assert_eq!(r.actor_name(), Some("n"));
    assert_eq!(r.pid(), Some(4));
    assert_eq!(r.port(), Some(9));
    let w: Reference = world("w").into();
    assert_eq!((w.proc_id(), w.rank(), w.actor_name(), w.pid(), w.port()), (None, None, None, None, None));
    let g: Reference = GangId(world("w"), "g".into()).into();
    assert_eq!((g.rank(), g.actor_name(), g.pid()), (None, Some("g"), None));
}

#[test]
fn decimals() {
    assert_eq!(decimal_string(0), "0");
    assert_eq!(decimal_string(9), "9");
    assert_eq!(decimal_string(10), "10");
    assert_eq!(decimal_string(1024), "1024");
    assert_eq!(decimal_string(u64::MAX), "18446744073709551615");
}

#[test]
fn byte_order() {
    assert_eq!(order_bytes(b"", b""), Order::Same);
    assert_eq!(order_bytes(b"", b"a"), Order::Before);
    assert_eq!(order_bytes(b"a", b""), Order::After);
    assert_eq!(order_bytes(b"ab", b"b"), Order::Before);
    assert_eq!(order_bytes(b"abc", b"abd"), Order::Before);
    assert_eq!(order_bytes(b"abd", b"abc"), Order::After);
    assert_eq!(order_bytes(&[255], &[0, 255]), Order::After);
    assert_eq!(order_str("actor0", "actor1"), Order::Before);
    assert_eq!(order_str("z", "é"), Order::Before);
    assert!(same_str("é", "é"));
    assert!(!same_str("e", "é"));
}
