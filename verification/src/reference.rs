//! Hierarchical identifiers: worlds, procs, actors and ports, and the
//! references that name any of them.
//!
//! References are totally ordered so that a reference sorts directly before
//! everything it is a prefix of; routing tables rest on that order.

use vstd::prelude::*;
use vstd::std_specs::cmp::PartialEqSpecImpl;
use vstd::std_specs::convert::FromSpecImpl;
use vstd::string::StringExecFns;
use vstd::utf8::encode_utf8;
use crate::order::{
    bytes_sign, lemma_bytes_sign_chain, lemma_bytes_sign_flip, lemma_bytes_sign_range,
    lemma_bytes_sign_zero, opt_bytes_sign, opt_int_sign, order_u64, then_sign, Order,
};
use crate::text::{decimal, decimal_string, lemma_encode_injective, order_str, same_str};

verus! {

/// The name of a world.
#[derive(Debug)]
pub struct WorldId(pub String);

/// A proc: a world and a rank in it.
#[derive(Debug)]
pub struct ProcId(pub WorldId, pub usize);

/// An actor: a proc, a name and an index among the actors of that name.
#[derive(Debug)]
pub struct ActorId(pub ProcId, pub String, pub usize);

/// A port: an actor and a port index.
#[derive(Debug)]
pub struct PortId(pub ActorId, pub u64);

/// A gang: the actors of one name across a world.
#[derive(Debug)]
pub struct GangId(pub WorldId, pub String);

/// A reference to a world, a proc, an actor, a port or a gang.
#[derive(Debug)]
pub enum Reference {
    World(WorldId),
    Proc(ProcId),
    Actor(ActorId),
    Port(PortId),
    Gang(GangId),
}

/// What a proc id stands for.
pub struct ProcKey {
    pub world: Seq<char>,
    pub rank: usize,
}

/// What an actor id stands for.
pub struct ActorKey {
    pub proc: ProcKey,
    pub name: Seq<char>,
    pub pid: usize,
}

/// What a port id stands for.
pub struct PortKey {
    pub actor: ActorKey,
    pub index: u64,
}

/// What a gang id stands for.
pub struct GangKey {
    pub world: Seq<char>,
    pub name: Seq<char>,
}

/// What a reference stands for.
pub enum ReferenceKey {
    World(Seq<char>),
    Proc(ProcKey),
    Actor(ActorKey),
    Port(PortKey),
    Gang(GangKey),
}

impl View for WorldId {
    type V = Seq<char>;

    open spec fn view(&self) -> Seq<char> {
        self.0@
    }
}

impl View for ProcId {
    type V = ProcKey;

    open spec fn view(&self) -> ProcKey {
        ProcKey { world: self.0@, rank: self.1 }
    }
}

impl View for ActorId {
    type V = ActorKey;

    open spec fn view(&self) -> ActorKey {
        ActorKey { proc: self.0@, name: self.1@, pid: self.2 }
    }
}

impl View for PortId {
    type V = PortKey;

    open spec fn view(&self) -> PortKey {
        PortKey { actor: self.0@, index: self.1 }
    }
}

impl View for GangId {
    type V = GangKey;

    open spec fn view(&self) -> GangKey {
        GangKey { world: self.0@, name: self.1@ }
    }
}

impl View for Reference {
    type V = ReferenceKey;

    open spec fn view(&self) -> ReferenceKey {
        match self {
            Reference::World(w) => ReferenceKey::World(w@),
            Reference::Proc(p) => ReferenceKey::Proc(p@),
            Reference::Actor(a) => ReferenceKey::Actor(a@),
            Reference::Port(p) => ReferenceKey::Port(p@),
            Reference::Gang(g) => ReferenceKey::Gang(g@),
        }
    }
}

impl ProcKey {
    /// `world[rank]`.
    pub open spec fn shown(self) -> Seq<char> {
        self.world + seq!['['] + decimal(self.rank as nat) + seq![']']
    }
}

impl ActorKey {
    /// `world[rank].name[pid]`.
    pub open spec fn shown(self) -> Seq<char> {
        self.proc.shown() + seq!['.'] + self.name + seq!['['] + decimal(self.pid as nat) + seq![
            ']',
        ]
    }
}

impl PortKey {
    /// `world[rank].name[pid][index]`.
    pub open spec fn shown(self) -> Seq<char> {
        self.actor.shown() + seq!['['] + decimal(self.index as nat) + seq![']']
    }
}

impl GangKey {
    /// `world.name`.
    pub open spec fn shown(self) -> Seq<char> {
        self.world + seq!['.'] + self.name
    }
}

impl ReferenceKey {
    /// The world that the reference lies in.
    pub open spec fn world(self) -> Seq<char> {
        match self {
            ReferenceKey::World(w) => w,
            ReferenceKey::Proc(p) => p.world,
            ReferenceKey::Actor(a) => a.proc.world,
            ReferenceKey::Port(p) => p.actor.proc.world,
            ReferenceKey::Gang(g) => g.world,
        }
    }

    /// The rank of the proc that the reference lies in, if it lies in one.
    pub open spec fn rank(self) -> Option<int> {
        match self {
            ReferenceKey::World(_) => None,
            ReferenceKey::Proc(p) => Some(p.rank as int),
            ReferenceKey::Actor(a) => Some(a.proc.rank as int),
            ReferenceKey::Port(p) => Some(p.actor.proc.rank as int),
            ReferenceKey::Gang(_) => None,
        }
    }

    /// The actor name in the reference, if there is one.
    pub open spec fn name(self) -> Option<Seq<char>> {
        match self {
            ReferenceKey::World(_) => None,
            ReferenceKey::Proc(_) => None,
            ReferenceKey::Actor(a) => Some(a.name),
            ReferenceKey::Port(p) => Some(p.actor.name),
            ReferenceKey::Gang(g) => Some(g.name),
        }
    }

    /// The actor's index among the actors of its name, if the reference names an actor.
    pub open spec fn pid(self) -> Option<int> {
        match self {
            ReferenceKey::Actor(a) => Some(a.pid as int),
            ReferenceKey::Port(p) => Some(p.actor.pid as int),
            _ => None,
        }
    }

    /// The port index, if the reference names a port.
    pub open spec fn port(self) -> Option<int> {
        match self {
            ReferenceKey::Port(p) => Some(p.index as int),
            _ => None,
        }
    }

    /// The proc that the reference lies in, if it lies in one.
    pub open spec fn proc(self) -> Option<ProcKey> {
        match self {
            ReferenceKey::World(_) => None,
            ReferenceKey::Proc(p) => Some(p),
            ReferenceKey::Actor(a) => Some(a.proc),
            ReferenceKey::Port(p) => Some(p.actor.proc),
            ReferenceKey::Gang(_) => None,
        }
    }

    /// The name as the bytes by which it is ordered.
    pub open spec fn name_bytes(self) -> Option<Seq<u8>> {
        match self.name() {
            Some(n) => Some(encode_utf8(n)),
            None => None,
        }
    }

    /// Sign of the comparison of two references: by world, then rank, then
    /// actor name, then pid, then port, an absent component before any
    /// present one, and names by their UTF-8 bytes.
    pub open spec fn sign(self, other: ReferenceKey) -> int {
        then_sign(
            bytes_sign(encode_utf8(self.world()), encode_utf8(other.world())),
            then_sign(
                opt_int_sign(self.rank(), other.rank()),
                then_sign(
                    opt_bytes_sign(self.name_bytes(), other.name_bytes()),
                    then_sign(
                        opt_int_sign(self.pid(), other.pid()),
                        opt_int_sign(self.port(), other.port()),
                    ),
                ),
            ),
        )
    }

    /// `self` comes before `other` or is `other`.
    pub open spec fn le(self, other: ReferenceKey) -> bool {
        self.sign(other) <= 0
    }

    /// `self` comes strictly before `other`.
    pub open spec fn lt(self, other: ReferenceKey) -> bool {
        self.sign(other) < 0
    }

    /// Whether everything that `other` names lies within what `self` names:
    /// a world is a prefix of all that is in it, a proc of all that is on it,
    /// and an actor, a port or a gang of itself alone.
    pub open spec fn is_prefix_of(self, other: ReferenceKey) -> bool {
        match self {
            ReferenceKey::World(w) => w == other.world(),
            ReferenceKey::Proc(p) => other.proc() == Some(p),
            _ => self == other,
        }
    }

    /// The reference in its written form.
    pub open spec fn shown(self) -> Seq<char> {
        match self {
            ReferenceKey::World(w) => w,
            ReferenceKey::Proc(p) => p.shown(),
            ReferenceKey::Actor(a) => a.shown(),
            ReferenceKey::Port(p) => p.shown(),
            ReferenceKey::Gang(g) => g.shown(),
        }
    }

    /// How many components the reference fixes.
    pub open spec fn depth(self) -> int {
        match self {
            ReferenceKey::World(_) => 1,
            ReferenceKey::Proc(_) => 2,
            ReferenceKey::Gang(_) => 2,
            ReferenceKey::Actor(_) => 4,
            ReferenceKey::Port(_) => 5,
        }
    }
}

impl Clone for WorldId {
    fn clone(&self) -> (r: Self)
        ensures
            r == *self,
    {
        WorldId(self.0.clone())
    }
}

impl Clone for ProcId {
    fn clone(&self) -> (r: Self)
        ensures
            r == *self,
    {
        ProcId(self.0.clone(), self.1)
    }
}

impl Clone for ActorId {
    fn clone(&self) -> (r: Self)
        ensures
            r == *self,
    {
        ActorId(self.0.clone(), self.1.clone(), self.2)
    }
}

impl Clone for PortId {
    fn clone(&self) -> (r: Self)
        ensures
            r == *self,
    {
        PortId(self.0.clone(), self.1)
    }
}

impl Clone for GangId {
    fn clone(&self) -> (r: Self)
        ensures
            r == *self,
    {
        GangId(self.0.clone(), self.1.clone())
    }
}

impl Clone for Reference {
    fn clone(&self) -> (r: Self)
        ensures
            r == *self,
    {
        match self {
            Reference::World(w) => Reference::World(w.clone()),
            Reference::Proc(p) => Reference::Proc(p.clone()),
            Reference::Actor(a) => Reference::Actor(a.clone()),
            Reference::Port(p) => Reference::Port(p.clone()),
            Reference::Gang(g) => Reference::Gang(g.clone()),
        }
    }
}

impl PartialEq for WorldId {
    fn eq(&self, other: &Self) -> (r: bool) {
        same_str(self.0.as_str(), other.0.as_str())
    }
}

impl PartialEqSpecImpl for WorldId {
    open spec fn obeys_eq_spec() -> bool {
        true
    }

    open spec fn eq_spec(&self, other: &Self) -> bool {
        self@ == other@
    }
}

impl Eq for WorldId {

}

impl PartialEq for ProcId {
    fn eq(&self, other: &Self) -> (r: bool) {
        self.0 == other.0 && self.1 == other.1
    }
}

impl PartialEqSpecImpl for ProcId {
    open spec fn obeys_eq_spec() -> bool {
        true
    }

    open spec fn eq_spec(&self, other: &Self) -> bool {
        self@ == other@
    }
}

impl Eq for ProcId {

}

impl PartialEq for ActorId {
    fn eq(&self, other: &Self) -> (r: bool) {
        self.0 == other.0 && same_str(self.1.as_str(), other.1.as_str()) && self.2 == other.2
    }
}

impl PartialEqSpecImpl for ActorId {
    open spec fn obeys_eq_spec() -> bool {
        true
    }

    open spec fn eq_spec(&self, other: &Self) -> bool {
        self@ == other@
    }
}

impl Eq for ActorId {

}

impl PartialEq for PortId {
    fn eq(&self, other: &Self) -> (r: bool) {
        self.0 == other.0 && self.1 == other.1
    }
}

impl PartialEqSpecImpl for PortId {
    open spec fn obeys_eq_spec() -> bool {
        true
    }

    open spec fn eq_spec(&self, other: &Self) -> bool {
        self@ == other@
    }
}

impl Eq for PortId {

}

impl PartialEq for GangId {
    fn eq(&self, other: &Self) -> (r: bool) {
        self.0 == other.0 && same_str(self.1.as_str(), other.1.as_str())
    }
}

impl PartialEqSpecImpl for GangId {
    open spec fn obeys_eq_spec() -> bool {
        true
    }

    open spec fn eq_spec(&self, other: &Self) -> bool {
        self@ == other@
    }
}

impl Eq for GangId {

}

impl PartialEq for Reference {
    fn eq(&self, other: &Self) -> (r: bool) {
        match (self, other) {
            (Reference::World(a), Reference::World(b)) => a == b,
            (Reference::Proc(a), Reference::Proc(b)) => a == b,
            (Reference::Actor(a), Reference::Actor(b)) => a == b,
            (Reference::Port(a), Reference::Port(b)) => a == b,
            (Reference::Gang(a), Reference::Gang(b)) => a == b,
            _ => false,
        }
    }
}

impl PartialEqSpecImpl for Reference {
    open spec fn obeys_eq_spec() -> bool {
        true
    }

    open spec fn eq_spec(&self, other: &Self) -> bool {
        self@ == other@
    }
}

impl Eq for Reference {

}

impl From<WorldId> for Reference {
    fn from(v: WorldId) -> (r: Reference) {
        Reference::World(v)
    }
}

impl FromSpecImpl<WorldId> for Reference {
    open spec fn obeys_from_spec() -> bool {
        true
    }

    open spec fn from_spec(v: WorldId) -> Reference {
        Reference::World(v)
    }
}

impl From<ProcId> for Reference {
    fn from(v: ProcId) -> (r: Reference) {
        Reference::Proc(v)
    }
}

impl FromSpecImpl<ProcId> for Reference {
    open spec fn obeys_from_spec() -> bool {
        true
    }

    open spec fn from_spec(v: ProcId) -> Reference {
        Reference::Proc(v)
    }
}

impl From<ActorId> for Reference {
    fn from(v: ActorId) -> (r: Reference) {
        Reference::Actor(v)
    }
}

impl FromSpecImpl<ActorId> for Reference {
    open spec fn obeys_from_spec() -> bool {
        true
    }

    open spec fn from_spec(v: ActorId) -> Reference {
        Reference::Actor(v)
    }
}

impl From<PortId> for Reference {
    fn from(v: PortId) -> (r: Reference) {
        Reference::Port(v)
    }
}

impl FromSpecImpl<PortId> for Reference {
    open spec fn obeys_from_spec() -> bool {
        true
    }

    open spec fn from_spec(v: PortId) -> Reference {
        Reference::Port(v)
    }
}

impl From<GangId> for Reference {
    fn from(v: GangId) -> (r: Reference) {
        Reference::Gang(v)
    }
}

impl FromSpecImpl<GangId> for Reference {
    open spec fn obeys_from_spec() -> bool {
        true
    }

    open spec fn from_spec(v: GangId) -> Reference {
        Reference::Gang(v)
    }
}

impl WorldId {
    /// The world's name.
    pub fn name(&self) -> (r: &str)
        ensures
            r@ == self@,
    {
        self.0.as_str()
    }

    /// The proc of the given rank in this world.
    pub fn proc_id(&self, rank: usize) -> (r: ProcId)
        ensures
            r@ == (ProcKey { world: self@, rank }),
    {
        ProcId(self.clone(), rank)
    }

    /// The world's name.
    pub fn to_string(&self) -> (s: String)
        ensures
            s@ == self@,
    {
        self.0.clone()
    }
}

impl ProcId {
    /// The world that the proc is in.
    pub fn world_id(&self) -> (r: &WorldId)
        ensures
            r == self.0,
    {
        &self.0
    }

    /// The name of the world that the proc is in.
    pub fn world_name(&self) -> (r: &str)
        ensures
            r@ == self@.world,
    {
        self.0.name()
    }

    /// The proc's rank in its world.
    pub fn rank(&self) -> (r: usize)
        ensures
            r == self@.rank,
    {
        self.1
    }

    /// The actor of the given name and pid on this proc.
    pub fn actor_id(&self, name: &str, pid: usize) -> (r: ActorId)
        ensures
            r@ == (ActorKey { proc: self@, name: name@, pid }),
    {
        ActorId(self.clone(), String::from_str(name), pid)
    }

    /// `world[rank]`.
    pub fn to_string(&self) -> (s: String)
        ensures
            s@ == self@.shown(),
    {
        let mut s = self.0.to_string();
        bracketed(&mut s, self.1 as u64);
        s
    }
}

impl ActorId {
    /// The proc that the actor is on.
    pub fn proc_id(&self) -> (r: &ProcId)
        ensures
            r == self.0,
    {
        &self.0
    }

    /// The name of the world that the actor is in.
    pub fn world_name(&self) -> (r: &str)
        ensures
            r@ == self@.proc.world,
    {
        self.0.world_name()
    }

    /// The rank of the proc that the actor is on.
    pub fn rank(&self) -> (r: usize)
        ensures
            r == self@.proc.rank,
    {
        self.0.rank()
    }

    /// The actor's name.
    pub fn name(&self) -> (r: &str)
        ensures
            r@ == self@.name,
    {
        self.1.as_str()
    }

    /// The actor's index among the actors of its name.
    pub fn pid(&self) -> (r: usize)
        ensures
            r == self@.pid,
    {
        self.2
    }

    /// The port of the given index on this actor.
    pub fn port_id(&self, port: u64) -> (r: PortId)
        ensures
            r@ == (PortKey { actor: self@, index: port }),
            r.0 == *self,
            r.1 == port,
    {
        PortId(self.clone(), port)
    }

    /// The id that stands for a sender nobody knows: `unknown[0].unknown[0]`.
    pub fn unknown() -> (r: ActorId)
        ensures
            r@ == (ActorKey {
                proc: ProcKey { world: "unknown"@, rank: 0 },
                name: "unknown"@,
                pid: 0,
            }),
    {
        ActorId(ProcId(WorldId(String::from_str("unknown")), 0), String::from_str("unknown"), 0)
    }

    /// `world[rank].name[pid]`.
    pub fn to_string(&self) -> (s: String)
        ensures
            s@ == self@.shown(),
    {
        let mut s = self.0.to_string();
        proof {
            reveal_strlit(".");
        }
        s.append(".");
        s.append(self.1.as_str());
        bracketed(&mut s, self.2 as u64);
        assert(s@ =~= self@.shown());
        s
    }
}

impl PortId {
    /// The actor that owns the port.
    pub fn actor_id(&self) -> (r: &ActorId)
        ensures
            r == self.0,
    {
        &self.0
    }

    /// The port's index on its actor.
    pub fn index(&self) -> (r: u64)
        ensures
            r == self@.index,
    {
        self.1
    }

    /// `world[rank].name[pid][index]`.
    pub fn to_string(&self) -> (s: String)
        ensures
            s@ == self@.shown(),
    {
        let mut s = self.0.to_string();
        bracketed(&mut s, self.1);
        s
    }
}

impl GangId {
    /// `world.name`.
    pub fn to_string(&self) -> (s: String)
        ensures
            s@ == self@.shown(),
    {
        let mut s = self.0.to_string();
        proof {
            reveal_strlit(".");
        }
        s.append(".");
        s.append(self.1.as_str());
        assert(s@ =~= self@.shown());
        s
    }
}

/// An optional index as an optional integer.
pub open spec fn opt_index(v: Option<usize>) -> Option<int> {
    match v {
        Some(x) => Some(x as int),
        None => None,
    }
}

/// An optional port index as an optional integer.
pub open spec fn opt_port(v: Option<u64>) -> Option<int> {
    match v {
        Some(x) => Some(x as int),
        None => None,
    }
}

/// An optional text as its optional view.
pub open spec fn opt_text(v: Option<&str>) -> Option<Seq<char>> {
    match v {
        Some(x) => Some(x@),
        None => None,
    }
}

fn order_opt_index(a: Option<usize>, b: Option<usize>) -> (r: Order)
    ensures
        r.sign() == opt_int_sign(opt_index(a), opt_index(b)),
{
    match (a, b) {
        (None, None) => Order::Same,
        (None, Some(_)) => Order::Before,
        (Some(_), None) => Order::After,
        (Some(x), Some(y)) => order_u64(x as u64, y as u64),
    }
}

fn order_opt_port(a: Option<u64>, b: Option<u64>) -> (r: Order)
    ensures
        r.sign() == opt_int_sign(opt_port(a), opt_port(b)),
{
    match (a, b) {
        (None, None) => Order::Same,
        (None, Some(_)) => Order::Before,
        (Some(_), None) => Order::After,
        (Some(x), Some(y)) => order_u64(x, y),
    }
}

fn order_opt_str(a: Option<&str>, b: Option<&str>) -> (r: Order)
    ensures
        r.sign() == opt_bytes_sign(
            match opt_text(a) {
                Some(n) => Some(encode_utf8(n)),
                None => None,
            },
            match opt_text(b) {
                Some(n) => Some(encode_utf8(n)),
                None => None,
            },
        ),
{
    match (a, b) {
        (None, None) => Order::Same,
        (None, Some(_)) => Order::Before,
        (Some(_), None) => Order::After,
        (Some(x), Some(y)) => order_str(x, y),
    }
}

impl Reference {
    /// The world that the reference lies in.
    pub fn world_id(&self) -> (r: &WorldId)
        ensures
            r@ == self@.world(),
    {
        match self {
            Reference::World(w) => w,
            Reference::Proc(p) => &p.0,
            Reference::Actor(a) => &a.0.0,
            Reference::Port(p) => &p.0.0.0,
            Reference::Gang(g) => &g.0,
        }
    }

    /// The proc that the reference lies in, if it lies in one.
    pub fn proc_id(&self) -> (r: Option<&ProcId>)
        ensures
            match r {
                Some(p) => self@.proc() == Some(p@),
                None => self@.proc() is None,
            },
    {
        match self {
            Reference::World(_) => None,
            Reference::Proc(p) => Some(p),
            Reference::Actor(a) => Some(&a.0),
            Reference::Port(p) => Some(&p.0.0),
            Reference::Gang(_) => None,
        }
    }

    /// The rank of the proc that the reference lies in, if it lies in one.
    pub fn rank(&self) -> (r: Option<usize>)
        ensures
            opt_index(r) == self@.rank(),
    {
        match self {
            Reference::World(_) => None,
            Reference::Proc(p) => Some(p.1),
            Reference::Actor(a) => Some(a.0.1),
            Reference::Port(p) => Some(p.0.0.1),
            Reference::Gang(_) => None,
        }
    }

    /// The actor name in the reference, if there is one.
    pub fn actor_name(&self) -> (r: Option<&str>)
        ensures
            opt_text(r) == self@.name(),
    {
        match self {
            Reference::World(_) => None,
            Reference::Proc(_) => None,
            Reference::Actor(a) => Some(a.1.as_str()),
            Reference::Port(p) => Some(p.0.1.as_str()),
            Reference::Gang(g) => Some(g.1.as_str()),
        }
    }

    /// The actor's pid, if the reference names an actor.
    pub fn pid(&self) -> (r: Option<usize>)
        ensures
            opt_index(r) == self@.pid(),
    {
        match self {
            Reference::Actor(a) => Some(a.2),
            Reference::Port(p) => Some(p.0.2),
            _ => None,
        }
    }

    /// The port index, if the reference names a port.
    pub fn port(&self) -> (r: Option<u64>)
        ensures
            opt_port(r) == self@.port(),
    {
        match self {
            Reference::Port(p) => Some(p.1),
            _ => None,
        }
    }

    /// Compares two references in the total order of references.
    pub fn compare(&self, other: &Reference) -> (r: Order)
        ensures
            r.sign() == self@.sign(other@),
    {
        let by_world = order_str(self.world_id().name(), other.world_id().name());
        if by_world != Order::Same {
            return by_world;
        }
        let by_rank = order_opt_index(self.rank(), other.rank());
        if by_rank != Order::Same {
            return by_rank;
        }
        let by_name = order_opt_str(self.actor_name(), other.actor_name());
        if by_name != Order::Same {
            return by_name;
        }
        let by_pid = order_opt_index(self.pid(), other.pid());
        if by_pid != Order::Same {
            return by_pid;
        }
        order_opt_port(self.port(), other.port())
    }

    /// Whether `self` comes before `other` or is `other`.
    pub fn le(&self, other: &Reference) -> (r: bool)
        ensures
            r == self@.le(other@),
    {
        self.compare(other) != Order::After
    }

    /// Whether everything that `other` names lies within what `self` names.
    pub fn is_prefix_of(&self, other: &Reference) -> (r: bool)
        ensures
            r == self@.is_prefix_of(other@),
    {
        match self {
            Reference::World(w) => w == other.world_id(),
            Reference::Proc(p) => match other.proc_id() {
                Some(q) => p == q,
                None => false,
            },
            _ => self == other,
        }
    }

    /// The reference in its written form.
    pub fn to_string(&self) -> (s: String)
        ensures
            s@ == self@.shown(),
    {
        match self {
            Reference::World(w) => w.to_string(),
            Reference::Proc(p) => p.to_string(),
            Reference::Actor(a) => a.to_string(),
            Reference::Port(p) => p.to_string(),
            Reference::Gang(g) => g.to_string(),
        }
    }
}

/// The order of references is reflexive, and only a reference ties with itself.
pub proof fn lemma_sign_zero(a: ReferenceKey, b: ReferenceKey)
    ensures
        a.sign(b) == 0 <==> a == b,
{
    lemma_bytes_sign_zero(encode_utf8(a.world()), encode_utf8(b.world()));
    lemma_encode_injective(a.world(), b.world());
    if a.name() is Some && b.name() is Some {
        lemma_bytes_sign_zero(encode_utf8(a.name()->0), encode_utf8(b.name()->0));
        lemma_encode_injective(a.name()->0, b.name()->0);
    }
}

/// Comparing the other way round flips the sign.
pub proof fn lemma_sign_flip(a: ReferenceKey, b: ReferenceKey)
    ensures
        b.sign(a) == -a.sign(b),
        -1 <= a.sign(b) <= 1,
{
    lemma_bytes_sign_flip(encode_utf8(a.world()), encode_utf8(b.world()), 0);
    lemma_bytes_sign_range(encode_utf8(a.world()), encode_utf8(b.world()), 0);
    if a.name() is Some && b.name() is Some {
        lemma_bytes_sign_flip(encode_utf8(a.name()->0), encode_utf8(b.name()->0), 0);
        lemma_bytes_sign_range(encode_utf8(a.name()->0), encode_utf8(b.name()->0), 0);
    }
}

/// The order of references is transitive.
pub proof fn lemma_sign_chain(a: ReferenceKey, b: ReferenceKey, c: ReferenceKey)
    requires
        a.le(b),
        b.le(c),
    ensures
        a.le(c),
        a.lt(b) || b.lt(c) ==> a.lt(c),
{
    let (aw, bw, cw) = (encode_utf8(a.world()), encode_utf8(b.world()), encode_utf8(c.world()));
    lemma_bytes_sign_range(aw, bw, 0);
    lemma_bytes_sign_range(bw, cw, 0);
    lemma_bytes_sign_range(aw, cw, 0);
    lemma_bytes_sign_chain(aw, bw, cw, 0);
    lemma_bytes_sign_zero(aw, bw);
    lemma_bytes_sign_zero(bw, cw);
    lemma_bytes_sign_zero(aw, cw);
    if bytes_sign(aw, bw) == 0 && bytes_sign(bw, cw) == 0 {
        if a.name() is Some && b.name() is Some && c.name() is Some {
            let (an, bn, cn) = (
                encode_utf8(a.name()->0),
                encode_utf8(b.name()->0),
                encode_utf8(c.name()->0),
            );
            lemma_bytes_sign_range(an, bn, 0);
            lemma_bytes_sign_range(bn, cn, 0);
            lemma_bytes_sign_range(an, cn, 0);
            lemma_bytes_sign_zero(an, bn);
            lemma_bytes_sign_zero(bn, cn);
            lemma_bytes_sign_zero(an, cn);
            if bytes_sign(an, bn) <= 0 && bytes_sign(bn, cn) <= 0 {
                lemma_bytes_sign_chain(an, bn, cn, 0);
            }
        }
    }
}

/// Every reference comes after each of its prefixes, or is it.
pub proof fn lemma_prefix_le(p: ReferenceKey, d: ReferenceKey)
    requires
        p.is_prefix_of(d),
    ensures
        p.le(d),
{
    lemma_bytes_sign_zero(encode_utf8(p.world()), encode_utf8(d.world()));
    lemma_sign_zero(p, d);
}

/// Whatever lies between a reference and one of its prefixes has that prefix too.
pub proof fn lemma_prefix_convex(p: ReferenceKey, k: ReferenceKey, d: ReferenceKey)
    requires
        p.is_prefix_of(d),
        p.le(k),
        k.le(d),
    ensures
        p.is_prefix_of(k),
{
    let (pw, kw, dw) = (encode_utf8(p.world()), encode_utf8(k.world()), encode_utf8(d.world()));
    lemma_bytes_sign_range(pw, kw, 0);
    lemma_bytes_sign_range(kw, dw, 0);
    lemma_bytes_sign_zero(pw, dw);
    lemma_bytes_sign_zero(pw, kw);
    lemma_bytes_sign_zero(kw, dw);
    lemma_bytes_sign_flip(pw, kw, 0);
    if bytes_sign(pw, kw) < 0 {
        lemma_bytes_sign_chain(pw, kw, dw, 0);
    }
    lemma_encode_injective(p.world(), k.world());
    lemma_encode_injective(k.world(), d.world());
    lemma_sign_zero(p, k);
    lemma_sign_zero(p, d);
    lemma_sign_zero(k, d);
    lemma_sign_chain(p, k, d);
}

/// Of two prefixes of one reference, the later one fixes at least as much,
/// and is itself within the earlier one.
pub proof fn lemma_prefixes_nest(p: ReferenceKey, q: ReferenceKey, d: ReferenceKey)
    requires
        p.is_prefix_of(d),
        q.is_prefix_of(d),
        p.le(q),
    ensures
        p.depth() <= q.depth(),
        p.is_prefix_of(q),
{
    lemma_prefix_le(q, d);
    lemma_prefix_convex(p, q, d);
    lemma_sign_zero(p, q);
    lemma_bytes_sign_zero(encode_utf8(p.world()), encode_utf8(q.world()));
}

/// Appends `[n]`.
fn bracketed(s: &mut String, n: u64)
    ensures
        final(s)@ == old(s)@ + seq!['['] + decimal(n as nat) + seq![']'],
{
    proof {
        reveal_strlit("[");
        reveal_strlit("]");
    }
    s.append("[");
    let digits = decimal_string(n);
    s.append(digits.as_str());
    s.append("]");
    assert(s@ =~= old(s)@ + seq!['['] + decimal(n as nat) + seq![']']);
}

} // verus!
