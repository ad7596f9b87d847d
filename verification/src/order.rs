//! Lexicographic order on byte strings and on optional components, from
//! which the total order on references is assembled.

use vstd::prelude::*;

verus! {

/// The outcome of a three-way comparison.
#[derive(Clone, Copy, Debug, PartialEq, Eq, Structural)]
pub enum Order {
    Before,
    Same,
    After,
}

impl Order {
    /// `-1`, `0` or `1`.
    pub open spec fn sign(self) -> int {
        match self {
            Order::Before => -1,
            Order::Same => 0,
            Order::After => 1,
        }
    }
}

/// The first comparison decides unless it is a tie.
pub open spec fn then_sign(first: int, second: int) -> int {
    if first != 0 {
        first
    } else {
        second
    }
}

/// Sign of the comparison of two integers.
pub open spec fn int_sign(a: int, b: int) -> int {
    if a < b {
        -1
    } else if a > b {
        1
    } else {
        0
    }
}

/// Sign of the comparison of two optional integers: an absent one comes first.
pub open spec fn opt_int_sign(a: Option<int>, b: Option<int>) -> int {
    match (a, b) {
        (None, None) => 0,
        (None, Some(_)) => -1,
        (Some(_), None) => 1,
        (Some(x), Some(y)) => int_sign(x, y),
    }
}

/// Sign of the lexicographic comparison of `a` and `b` from index `i` on.
pub open spec fn bytes_sign_from(a: Seq<u8>, b: Seq<u8>, i: int) -> int
    decreases a.len() - i,
{
    if i >= a.len() && i >= b.len() {
        0
    } else if i >= a.len() {
        -1
    } else if i >= b.len() {
        1
    } else if a[i] < b[i] {
        -1
    } else if a[i] > b[i] {
        1
    } else {
        bytes_sign_from(a, b, i + 1)
    }
}

/// Sign of the lexicographic comparison of two byte strings.
pub open spec fn bytes_sign(a: Seq<u8>, b: Seq<u8>) -> int {
    bytes_sign_from(a, b, 0)
}

/// Sign of the comparison of two optional byte strings: an absent one comes first.
pub open spec fn opt_bytes_sign(a: Option<Seq<u8>>, b: Option<Seq<u8>>) -> int {
    match (a, b) {
        (None, None) => 0,
        (None, Some(_)) => -1,
        (Some(_), None) => 1,
        (Some(x), Some(y)) => bytes_sign(x, y),
    }
}

pub proof fn lemma_bytes_sign_range(a: Seq<u8>, b: Seq<u8>, i: int)
    requires
        0 <= i,
    ensures
        -1 <= bytes_sign_from(a, b, i) <= 1,
    decreases a.len() - i,
{
    if i < a.len() && i < b.len() && a[i] == b[i] {
        lemma_bytes_sign_range(a, b, i + 1);
    }
}

pub proof fn lemma_bytes_sign_flip(a: Seq<u8>, b: Seq<u8>, i: int)
    requires
        0 <= i,
    ensures
        bytes_sign_from(b, a, i) == -bytes_sign_from(a, b, i),
    decreases a.len() - i,
{
    if i < a.len() && i < b.len() && a[i] == b[i] {
        lemma_bytes_sign_flip(a, b, i + 1);
    }
}

/// A tie from `i` on means that the two strings agree from `i` on.
pub proof fn lemma_bytes_sign_tie(a: Seq<u8>, b: Seq<u8>, i: int)
    requires
        0 <= i,
        bytes_sign_from(a, b, i) == 0,
    ensures
        a.len() == b.len() || (i >= a.len() && i >= b.len()),
        forall|j: int| i <= j < a.len() ==> a[j] == b[j],
    decreases a.len() - i,
{
    if i < a.len() && i < b.len() && a[i] == b[i] {
        lemma_bytes_sign_tie(a, b, i + 1);
    }
}

pub proof fn lemma_bytes_sign_same(a: Seq<u8>, i: int)
    requires
        0 <= i,
    ensures
        bytes_sign_from(a, a, i) == 0,
    decreases a.len() - i,
{
    if i < a.len() {
        lemma_bytes_sign_same(a, i + 1);
    }
}

/// The comparison is a tie exactly on equal strings.
pub proof fn lemma_bytes_sign_zero(a: Seq<u8>, b: Seq<u8>)
    ensures
        bytes_sign(a, b) == 0 <==> a == b,
{
    if bytes_sign(a, b) == 0 {
        lemma_bytes_sign_tie(a, b, 0);
        assert(a =~= b);
    }
    if a == b {
        lemma_bytes_sign_same(a, 0);
    }
}

pub proof fn lemma_bytes_sign_chain(a: Seq<u8>, b: Seq<u8>, c: Seq<u8>, i: int)
    requires
        0 <= i,
        bytes_sign_from(a, b, i) <= 0,
        bytes_sign_from(b, c, i) <= 0,
    ensures
        bytes_sign_from(a, c, i) <= 0,
        bytes_sign_from(a, b, i) < 0 || bytes_sign_from(b, c, i) < 0 ==> bytes_sign_from(a, c, i)
            < 0,
    decreases a.len() - i,
{
    if i < a.len() && i < b.len() && i < c.len() && a[i] == b[i] && b[i] == c[i] {
        lemma_bytes_sign_chain(a, b, c, i + 1);
    }
}

/// Compares two byte slices lexicographically.
pub fn order_bytes(a: &[u8], b: &[u8]) -> (r: Order)
    ensures
        r.sign() == bytes_sign(a@, b@),
{
    let mut i: usize = 0;
    while i < a.len() && i < b.len()
        invariant
            i <= a.len(),
            i <= b.len(),
            bytes_sign(a@, b@) == bytes_sign_from(a@, b@, i as int),
        decreases a.len() - i,
    {
        if a[i] < b[i] {
            return Order::Before;
        }
        if a[i] > b[i] {
            return Order::After;
        }
        i += 1;
    }
    if i < b.len() {
        Order::Before
    } else if i < a.len() {
        Order::After
    } else {
        Order::Same
    }
}

/// Compares two integers.
pub fn order_u64(a: u64, b: u64) -> (r: Order)
    ensures
        r.sign() == int_sign(a as int, b as int),
{
    if a < b {
        Order::Before
    } else if a > b {
        Order::After
    } else {
        Order::Same
    }
}

} // verus!
