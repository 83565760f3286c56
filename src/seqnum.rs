//! Sequence numbers are points on a circle of 2^32 positions; only the
//! forward distance between two of them is meaningful.
use vstd::prelude::*;

verus! {

/// Number of distinct sequence numbers.
pub open spec fn seq_modulus() -> int {
    0x1_0000_0000
}

/// The forward distance from `from` to `to` on the sequence circle, in
/// `[0, 2^32)`.
pub open spec fn seq_dist(from: u32, to: u32) -> int {
    if to >= from {
        to - from
    } else {
        to - from + seq_modulus()
    }
}

/// `x` lies strictly inside the open arc that runs forward from `start` to
/// `end`.
pub open spec fn seq_between(start: u32, x: u32, end: u32) -> bool {
    0 < seq_dist(start, x) && seq_dist(start, x) < seq_dist(start, end)
}

/// The same arc, stated by rotations: some forward step `d`, shorter than
/// the arc, carries `start` onto `x`.
pub open spec fn reached_by_rotation(start: u32, x: u32, end: u32) -> bool {
    exists|d: int|
        #![trigger (start + d) % seq_modulus()]
        0 < d && d < (end - start) % seq_modulus() && (start + d) % seq_modulus() == x
}

/// `start + n`, wrapped onto the sequence circle.
pub open spec fn seq_add(start: u32, n: int) -> u32 {
    ((start + n) % seq_modulus()) as u32
}

proof fn lemma_dist_is_mod(a: u32, b: u32)
    ensures
        seq_dist(a, b) == (b - a) % seq_modulus(),
        0 <= seq_dist(a, b) < seq_modulus(),
{
    if b >= a {
        assert((b - a) % seq_modulus() == b - a);
    } else {
        assert((b - a) % seq_modulus() == b - a + seq_modulus());
    }
}

/// The comparator's arc agrees with the rotation definition, across
/// wraparound too, and no value lies strictly between itself and anything.
pub proof fn lemma_between_is_rotation(start: u32, x: u32, end: u32)
    ensures
        seq_between(start, x, end) == reached_by_rotation(start, x, end),
        !seq_between(start, start, end),
{
    lemma_dist_is_mod(start, x);
    lemma_dist_is_mod(start, end);
    let m = seq_modulus();
    if seq_between(start, x, end) {
        let d = seq_dist(start, x);
        assert((start + d) % m == x);
    }
    if reached_by_rotation(start, x, end) {
        let d = choose|d: int|
            #![trigger (start + d) % seq_modulus()]
            0 < d && d < (end - start) % seq_modulus() && (start + d) % seq_modulus() == x;
        assert(0 < d < m);
        if start + d < m {
            assert((start + d) % m == start + d);
            assert(seq_dist(start, x) == d);
        } else {
            assert((start + d) % m == start + d - m);
            assert(seq_dist(start, x) == d);
        }
    }
}

/// Whether `x` lies strictly between `start` and `end` when walking the
/// sequence circle forward from `start`.
pub fn is_between_wrapped(start: u32, x: u32, end: u32) -> (r: bool)
    ensures
        r == seq_between(start, x, end),
{
    if start == x {
        false
    } else if start < x {
        // not between exactly when `end` lies on the closed arc [start, x]
        !(end >= start && end <= x)
    } else {
        // `x` is behind `start`: only an `end` that wrapped past `x` covers it
        end < start && end > x
    }
}

/// Two advances on the sequence circle add up.
pub proof fn lemma_seq_add_add(start: u32, a: int, b: int)
    ensures
        seq_add(seq_add(start, a), b) == seq_add(start, a + b),
{
    let m = seq_modulus();
    vstd::arithmetic::div_mod::lemma_add_mod_noop_right(b, start + a, m);
    assert((b + (start + a)) % m == (start + a + b) % m);
    assert(0 <= (start + a) % m < m);
}

/// `start + n` on the sequence circle.
pub fn seq_advance(start: u32, n: u32) -> (r: u32)
    ensures
        r == seq_add(start, n as int),
{
    start.wrapping_add(n)
}

/// `start - n` on the sequence circle.
pub fn seq_retreat(start: u32, n: u32) -> (r: u32)
    ensures
        r == seq_add(start, -n),
{
    start.wrapping_sub(n)
}

} // verus!
