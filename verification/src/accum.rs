//! Accumulators and reducers: the monoidal operations by which updates to a
//! port are folded into a state, on typed values and on their encodings.

use vstd::prelude::*;
use vstd::bytes::spec_u64_to_le_bytes;
use vstd::string::StringExecFns;
use crate::data::{
    lemma_parse_wire, lemma_signed_unsigned, parse_u64, signed, unsigned, Named, RemoteMessage,
    Serialized, SerializedView, Text, WireFormat,
};

verus! {

/// The integer type that an operation works on.
#[derive(Clone, Copy, Debug, PartialEq, Eq, Structural)]
pub enum Scalar {
    U64,
    I64,
}

/// The operation that folds an update into a state.
#[derive(Clone, Copy, Debug, PartialEq, Eq, Structural)]
pub enum Fold {
    Max,
    Min,
    Sum,
}

/// An operation on encoded integers: the fold and the integer type.
#[derive(Clone, Copy, Debug, PartialEq, Eq, Structural)]
pub struct Reducer {
    pub fold: Fold,
    pub scalar: Scalar,
}

/// The number that a 64-bit pattern stands for under the integer type.
pub open spec fn number(scalar: Scalar, bits: u64) -> int {
    match scalar {
        Scalar::U64 => bits as int,
        Scalar::I64 => signed(bits) as int,
    }
}

/// Whether the number can be written in the integer type.
pub open spec fn in_range(scalar: Scalar, n: int) -> bool {
    match scalar {
        Scalar::U64 => 0 <= n <= u64::MAX,
        Scalar::I64 => i64::MIN <= n <= i64::MAX,
    }
}

/// The 64-bit pattern of a number of the integer type.
pub open spec fn pattern(scalar: Scalar, n: int) -> u64 {
    match scalar {
        Scalar::U64 => n as u64,
        Scalar::I64 => unsigned(n as i64),
    }
}

/// The number that the fold makes of a state and an update.
pub open spec fn folded(fold: Fold, state: int, update: int) -> int {
    match fold {
        Fold::Max => if update > state {
            update
        } else {
            state
        },
        Fold::Min => if update < state {
            update
        } else {
            state
        },
        Fold::Sum => state + update,
    }
}

/// The number that every fold starts from.
pub open spec fn start(fold: Fold, scalar: Scalar) -> int {
    match (fold, scalar) {
        (Fold::Max, Scalar::U64) => 0,
        (Fold::Max, Scalar::I64) => i64::MIN as int,
        (Fold::Min, Scalar::U64) => u64::MAX as int,
        (Fold::Min, Scalar::I64) => i64::MAX as int,
        (Fold::Sum, _) => 0,
    }
}

pub proof fn lemma_pattern_number(scalar: Scalar, n: int)
    requires
        in_range(scalar, n),
    ensures
        number(scalar, pattern(scalar, n)) == n,
{
    if scalar == Scalar::I64 {
        lemma_signed_unsigned(n as i64);
    }
}

impl Reducer {
    /// The encoded state that the fold starts from.
    pub open spec fn initial(self) -> Seq<u8> {
        spec_u64_to_le_bytes(pattern(self.scalar, start(self.fold, self.scalar)))
    }

    /// The encoded state after an encoded update: none where either does not
    /// decode or the sum leaves the integer type.
    pub open spec fn combined(self, state: Seq<u8>, update: Seq<u8>) -> Option<Seq<u8>> {
        match (parse_u64(state), parse_u64(update)) {
            (Some(s), Some(u)) => {
                let n = folded(self.fold, number(self.scalar, s), number(self.scalar, u));
                if in_range(self.scalar, n) {
                    Some(spec_u64_to_le_bytes(pattern(self.scalar, n)))
                } else {
                    None
                }
            },
            _ => None,
        }
    }

    /// A batch of encoded updates reduced to one: a single update is itself,
    /// more are folded from the first on, and an empty batch reduces to none.
    pub open spec fn reduced(self, updates: Seq<Seq<u8>>) -> Option<Seq<u8>>
        decreases updates.len(),
    {
        if updates.len() == 0 {
            None
        } else if updates.len() == 1 {
            Some(updates[0])
        } else {
            match self.reduced(updates.drop_last()) {
                Some(state) => self.combined(state, updates.last()),
                None => None,
            }
        }
    }

    /// The number by which the operation is registered.
    pub open spec fn typehash_spec(self) -> u64 {
        let f: u64 = match self.fold {
            Fold::Max => 1,
            Fold::Min => 2,
            Fold::Sum => 3,
        };
        let s: u64 = match self.scalar {
            Scalar::U64 => 0,
            Scalar::I64 => 1,
        };
        (2 * f + s) as u64
    }

    /// The number by which the operation is registered.
    pub fn typehash(&self) -> (r: u64)
        ensures
            r == self.typehash_spec(),
    {
        let f: u64 = match self.fold {
            Fold::Max => 1,
            Fold::Min => 2,
            Fold::Sum => 3,
        };
        let s: u64 = match self.scalar {
            Scalar::U64 => 0,
            Scalar::I64 => 1,
        };
        2 * f + s
    }

    /// The operation registered under the number, if there is one.
    pub fn from_typehash(typehash: u64) -> (r: Option<Reducer>)
        ensures
            match r {
                Some(reducer) => reducer.typehash_spec() == typehash,
                None => forall|reducer: Reducer| reducer.typehash_spec() != typehash,
            },
    {
        if typehash < 2 || typehash > 7 {
            return None;
        }
        let fold = if typehash / 2 == 1 {
            Fold::Max
        } else if typehash / 2 == 2 {
            Fold::Min
        } else {
            Fold::Sum
        };
        let scalar = if typehash % 2 == 0 {
            Scalar::U64
        } else {
            Scalar::I64
        };
        Some(Reducer { fold, scalar })
    }

    /// The state that the fold starts from.
    pub fn initial_state(&self) -> (r: Vec<u8>)
        ensures
            r@ == self.initial(),
    {
        let bits: u64 = match (self.fold, self.scalar) {
            (Fold::Max, Scalar::U64) => 0,
            (Fold::Max, Scalar::I64) => i64::MIN as u64,
            (Fold::Min, Scalar::U64) => u64::MAX,
            (Fold::Min, Scalar::I64) => i64::MAX as u64,
            (Fold::Sum, _) => 0,
        };
        encoded(bits)
    }

    /// Folds an encoded update into an encoded state; the error says why
    /// there is no new state.
    pub fn combine(&self, state: &[u8], update: &[u8]) -> (r: Result<Vec<u8>, String>)
        ensures
            match r {
                Ok(next) => self.combined(state@, update@) == Some(next@),
                Err(_) => self.combined(state@, update@) is None,
            },
    {
        let s = match u64::decode(state) {
            Ok(s) => s,
            Err(e) => {
                return Err(e);
            },
        };
        let u = match u64::decode(update) {
            Ok(u) => u,
            Err(e) => {
                return Err(e);
            },
        };
        match self.scalar {
            Scalar::U64 => {
                let n = match self.fold {
                    Fold::Max => Some(if u > s {
                        u
                    } else {
                        s
                    }),
                    Fold::Min => Some(if u < s {
                        u
                    } else {
                        s
                    }),
                    Fold::Sum => s.checked_add(u),
                };
                match n {
                    Some(n) => Ok(encoded(n)),
                    None => Err(String::from_str("sum overflows")),
                }
            },
            Scalar::I64 => {
                let (s, u) = (s as i64, u as i64);
                let n = match self.fold {
                    Fold::Max => Some(if u > s {
                        u
                    } else {
                        s
                    }),
                    Fold::Min => Some(if u < s {
                        u
                    } else {
                        s
                    }),
                    Fold::Sum => s.checked_add(u),
                };
                match n {
                    Some(n) => Ok(encoded(n as u64)),
                    None => Err(String::from_str("sum overflows")),
                }
            },
        }
    }

    /// Reduces a batch of updates to one. Where that fails the batch comes
    /// back with the reason.
    pub fn reduce_updates(&self, updates: Vec<Serialized>) -> (r: Result<
        Serialized,
        (String, Vec<Serialized>),
    >)
        ensures
            match r {
                Ok(one) => self.reduced(payloads(updates@)) == Some(one@.bytes) && (updates@.len()
                    == 1 ==> one@ == updates@[0]@) && (updates@.len() != 1 ==> one@.typename
                    is None),
                Err((_, batch)) => self.reduced(payloads(updates@)) is None && batch == updates,
            },
    {
        let ghost all = payloads(updates@);
        if updates.len() == 0 {
            return Err((String::from_str("empty updates"), updates));
        }
        if updates.len() == 1 {
            return Ok(updates[0].clone());
        }
        let mut state: Vec<u8> = updates[0].clone().into_bytes();
        let mut i: usize = 1;
        assert(all.take(1) =~= seq![all[0]]);
        while i < updates.len()
            invariant
                1 <= i <= updates@.len(),
                all == payloads(updates@),
                all.len() == updates@.len(),
                self.reduced(all.take(i as int)) == Some(state@),
            decreases updates@.len() - i,
        {
            proof {
                let next = all.take(i as int + 1);
                assert(next.drop_last() =~= all.take(i as int));
                assert(next.last() == all[i as int]);
            }
            match self.combine(state.as_slice(), updates[i].bytes()) {
                Ok(next) => {
                    state = next;
                },
                Err(e) => {
                    proof {
                        lemma_reduced_none(*self, all, i as int + 1);
                    }
                    return Err((e, updates));
                },
            }
            i += 1;
        }
        assert(all.take(i as int) =~= all);
        Ok(Serialized::new(state))
    }
}

/// The bytes of each serialized message of a list.
pub open spec fn payloads(updates: Seq<Serialized>) -> Seq<Seq<u8>> {
    Seq::new(updates.len(), |i: int| updates[i]@.bytes)
}

/// Once a front part of a batch reduces to none, so does the whole batch.
pub proof fn lemma_reduced_none(reducer: Reducer, updates: Seq<Seq<u8>>, n: int)
    requires
        2 <= n <= updates.len(),
        reducer.reduced(updates.take(n)) is None,
    ensures
        reducer.reduced(updates) is None,
    decreases updates.len() - n,
{
    if n < updates.len() {
        let next = updates.take(n + 1);
        assert(next.drop_last() =~= updates.take(n));
        lemma_reduced_none(reducer, updates, n + 1);
    } else {
        assert(updates.take(n) =~= updates);
    }
}

/// The eight bytes of a 64-bit pattern.
fn encoded(bits: u64) -> (r: Vec<u8>)
    ensures
        r@ == spec_u64_to_le_bytes(bits),
{
    match bits.encode() {
        Ok(bytes) => bytes,
        Err(_) => Vec::new(),
    }
}

/// The name and the parameters of a reducer, by which a remote peer can
/// reduce updates on their way.
#[derive(Debug)]
pub struct ReducerSpec {
    /// The number by which the reducer is registered.
    pub typehash: u64,
    /// The parameters from which the reducer is built, if it takes any.
    pub builder_params: Option<Serialized>,
}

/// What a reducer spec stands for.
pub struct ReducerSpecView {
    pub typehash: u64,
    pub builder_params: Option<SerializedView>,
}

impl View for ReducerSpec {
    type V = ReducerSpecView;

    open spec fn view(&self) -> ReducerSpecView {
        ReducerSpecView {
            typehash: self.typehash,
            builder_params: match self.builder_params {
                Some(p) => Some(p@),
                None => None,
            },
        }
    }
}

impl Clone for ReducerSpec {
    fn clone(&self) -> (r: Self)
        ensures
            r@ == self@,
    {
        ReducerSpec {
            typehash: self.typehash,
            builder_params: match &self.builder_params {
                Some(p) => Some(p.clone()),
                None => None,
            },
        }
    }
}

impl PartialEq for ReducerSpec {
    fn eq(&self, other: &Self) -> (r: bool) {
        self.typehash == other.typehash && match (&self.builder_params, &other.builder_params) {
            (None, None) => true,
            (Some(a), Some(b)) => a.same(b),
            _ => false,
        }
    }
}

impl vstd::std_specs::cmp::PartialEqSpecImpl for ReducerSpec {
    open spec fn obeys_eq_spec() -> bool {
        true
    }

    open spec fn eq_spec(&self, other: &Self) -> bool {
        self@ == other@
    }
}

/// An optional reducer spec as what it stands for.
pub open spec fn opt_spec(spec: Option<ReducerSpec>) -> Option<ReducerSpecView> {
    match spec {
        Some(s) => Some(s@),
        None => None,
    }
}

/// The reducer that a spec names: none where no reducer is registered under
/// its number.
pub fn resolve_reducer(spec: &ReducerSpec) -> (r: Option<Reducer>)
    ensures
        match r {
            Some(reducer) => reducer.typehash_spec() == spec.typehash,
            None => forall|reducer: Reducer| reducer.typehash_spec() != spec.typehash,
        },
{
    Reducer::from_typehash(spec.typehash)
}

/// The greatest value seen.
#[derive(Debug, PartialEq, Eq, Structural)]
pub struct Max<T>(pub T);

impl<T: Copy> Clone for Max<T> {
    fn clone(&self) -> (r: Self)
        ensures
            r == *self,
    {
        Max(self.0)
    }
}

impl<T: Copy> Copy for Max<T> {

}

impl<T> Max<T> {
    /// The greatest value seen.
    pub fn get(&self) -> (r: &T)
        ensures
            *r == self.0,
    {
        &self.0
    }
}

/// The least value seen.
#[derive(Debug, PartialEq, Eq, Structural)]
pub struct Min<T>(pub T);

impl<T: Copy> Clone for Min<T> {
    fn clone(&self) -> (r: Self)
        ensures
            r == *self,
    {
        Min(self.0)
    }
}

impl<T: Copy> Copy for Min<T> {

}

impl<T> Min<T> {
    /// The least value seen.
    pub fn get(&self) -> (r: &T)
        ensures
            *r == self.0,
    {
        &self.0
    }
}

impl<T: Named> Named for Max<T> {
    open spec fn typename_spec() -> Text {
        T::typename_spec()
    }

    fn typename() -> (s: &'static str) {
        T::typename()
    }
}

impl<T: RemoteMessage> RemoteMessage for Max<T> {
    open spec fn format_spec() -> WireFormat {
        T::format_spec()
    }

    open spec fn encoding(&self) -> Option<Seq<u8>> {
        self.0.encoding()
    }

    open spec fn decoding(bytes: Seq<u8>) -> Option<Self> {
        match T::decoding(bytes) {
            Some(v) => Some(Max(v)),
            None => None,
        }
    }

    fn format() -> (f: WireFormat) {
        T::format()
    }

    fn encode(&self) -> (r: Result<Vec<u8>, String>) {
        self.0.encode()
    }

    fn decode(bytes: &[u8]) -> (r: Result<Self, String>) {
        match T::decode(bytes) {
            Ok(v) => Ok(Max(v)),
            Err(e) => Err(e),
        }
    }

    proof fn lemma_round_trip(&self) {
        self.0.lemma_round_trip();
    }

    proof fn lemma_format(bytes: Seq<u8>) {
        T::lemma_format(bytes);
    }
}

impl<T: Named> Named for Min<T> {
    open spec fn typename_spec() -> Text {
        T::typename_spec()
    }

    fn typename() -> (s: &'static str) {
        T::typename()
    }
}

impl<T: RemoteMessage> RemoteMessage for Min<T> {
    open spec fn format_spec() -> WireFormat {
        T::format_spec()
    }

    open spec fn encoding(&self) -> Option<Seq<u8>> {
        self.0.encoding()
    }

    open spec fn decoding(bytes: Seq<u8>) -> Option<Self> {
        match T::decoding(bytes) {
            Some(v) => Some(Min(v)),
            None => None,
        }
    }

    fn format() -> (f: WireFormat) {
        T::format()
    }

    fn encode(&self) -> (r: Result<Vec<u8>, String>) {
        self.0.encode()
    }

    fn decode(bytes: &[u8]) -> (r: Result<Self, String>) {
        match T::decode(bytes) {
            Ok(v) => Ok(Min(v)),
            Err(e) => Err(e),
        }
    }

    proof fn lemma_round_trip(&self) {
        self.0.lemma_round_trip();
    }

    proof fn lemma_format(bytes: Seq<u8>) {
        T::lemma_format(bytes);
    }
}

/// An accumulator: it folds updates into a state, and names the operation
/// on encodings that does the same.
pub trait Accumulator {
    /// The state that updates are folded into.
    type State: RemoteMessage;

    /// The updates.
    type Update: RemoteMessage;

    /// The operation on encodings.
    spec fn reducer_spec_fn(&self) -> Reducer;

    /// The state after an update: none where the operation fails.
    spec fn next(&self, state: Self::State, update: Self::Update) -> Option<Self::State>;

    /// The operation on encodings.
    fn reducer(&self) -> (r: Reducer)
        ensures
            r == self.reducer_spec_fn(),
    ;

    /// Folds an update into the state; on an error the state is unchanged.
    fn accumulate(&self, state: &mut Self::State, update: Self::Update) -> (r: Result<(), String>)
        ensures
            match r {
                Ok(()) => self.next(*old(state), update) == Some(*final(state)),
                Err(_) => self.next(*old(state), update) is None && *final(state) == *old(state),
            },
    ;

    /// The name of the operation, by which remote peers can apply it.
    fn reducer_spec(&self) -> (r: Option<ReducerSpec>)
        ensures
            r matches Some(spec) && spec@ == (ReducerSpecView {
                typehash: self.reducer_spec_fn().typehash_spec(),
                builder_params: None,
            }),
    {
        Some(ReducerSpec { typehash: self.reducer().typehash(), builder_params: None })
    }

    /// The state that the fold starts from decodes from the operation's
    /// initial encoding.
    proof fn lemma_initial(&self)
        ensures
            Self::State::decoding(self.reducer_spec_fn().initial()) is Some,
    ;

    /// The operation on encodings does what the accumulator does on values.
    proof fn lemma_erased(&self, state: Self::State, update: Self::Update)
        requires
            state.encoding() is Some,
            update.encoding() is Some,
        ensures
            match self.next(state, update) {
                Some(n) => n.encoding() is Some && self.reducer_spec_fn().combined(
                    state.encoding()->0,
                    update.encoding()->0,
                ) == n.encoding(),
                None => self.reducer_spec_fn().combined(state.encoding()->0, update.encoding()->0)
                    is None,
            },
    ;
}

/// The accumulator that keeps the greatest `i64` seen.
#[derive(Clone, Copy, Debug)]
pub struct MaxI64;

/// The accumulator that keeps the greatest `u64` seen.
#[derive(Clone, Copy, Debug)]
pub struct MaxU64;

/// The accumulator that keeps the sum of the `u64` updates.
#[derive(Clone, Copy, Debug)]
pub struct SumU64;

/// The accumulator of the maximum over `i64`.
pub fn max_i64() -> MaxI64 {
    MaxI64
}

/// The accumulator of the maximum over `u64`.
pub fn max_u64() -> MaxU64 {
    MaxU64
}

/// The accumulator of the sum over `u64`.
pub fn sum_u64() -> SumU64 {
    SumU64
}

impl Accumulator for MaxI64 {
    type State = Max<i64>;

    type Update = i64;

    open spec fn reducer_spec_fn(&self) -> Reducer {
        Reducer { fold: Fold::Max, scalar: Scalar::I64 }
    }

    open spec fn next(&self, state: Max<i64>, update: i64) -> Option<Max<i64>> {
        Some(Max(if update > state.0 {
            update
        } else {
            state.0
        }))
    }

    fn reducer(&self) -> (r: Reducer) {
        Reducer { fold: Fold::Max, scalar: Scalar::I64 }
    }

    fn accumulate(&self, state: &mut Max<i64>, update: i64) -> (r: Result<(), String>) {
        if update > state.0 {
            *state = Max(update);
        }
        Ok(())
    }

    proof fn lemma_initial(&self) {
        lemma_parse_wire(pattern(Scalar::I64, start(Fold::Max, Scalar::I64)));
    }

    proof fn lemma_erased(&self, state: Max<i64>, update: i64) {
        lemma_parse_wire(unsigned(state.0));
        lemma_parse_wire(unsigned(update));
        lemma_signed_unsigned(state.0);
        lemma_signed_unsigned(update);
    }
}

impl Accumulator for MaxU64 {
    type State = Max<u64>;

    type Update = u64;

    open spec fn reducer_spec_fn(&self) -> Reducer {
        Reducer { fold: Fold::Max, scalar: Scalar::U64 }
    }

    open spec fn next(&self, state: Max<u64>, update: u64) -> Option<Max<u64>> {
        Some(Max(if update > state.0 {
            update
        } else {
            state.0
        }))
    }

    fn reducer(&self) -> (r: Reducer) {
        Reducer { fold: Fold::Max, scalar: Scalar::U64 }
    }

    fn accumulate(&self, state: &mut Max<u64>, update: u64) -> (r: Result<(), String>) {
        if update > state.0 {
            *state = Max(update);
        }
        Ok(())
    }

    proof fn lemma_initial(&self) {
        lemma_parse_wire(pattern(Scalar::U64, start(Fold::Max, Scalar::U64)));
    }

    proof fn lemma_erased(&self, state: Max<u64>, update: u64) {
        lemma_parse_wire(state.0);
        lemma_parse_wire(update);
    }
}

impl Accumulator for SumU64 {
    type State = u64;

    type Update = u64;

    open spec fn reducer_spec_fn(&self) -> Reducer {
        Reducer { fold: Fold::Sum, scalar: Scalar::U64 }
    }

    open spec fn next(&self, state: u64, update: u64) -> Option<u64> {
        if state + update <= u64::MAX {
            Some((state + update) as u64)
        } else {
            None
        }
    }

    fn reducer(&self) -> (r: Reducer) {
        Reducer { fold: Fold::Sum, scalar: Scalar::U64 }
    }

    fn accumulate(&self, state: &mut u64, update: u64) -> (r: Result<(), String>) {
        match state.checked_add(update) {
            Some(n) => {
                *state = n;
                Ok(())
            },
            None => Err(String::from_str("sum overflows")),
        }
    }

    proof fn lemma_initial(&self) {
        lemma_parse_wire(pattern(Scalar::U64, start(Fold::Sum, Scalar::U64)));
    }

    proof fn lemma_erased(&self, state: u64, update: u64) {
        lemma_parse_wire(state);
        lemma_parse_wire(update);
    }
}

} // verus!
