//! The little-endian byte encoding that every integer of the protocol uses.

use vstd::prelude::*;

verus! {

/// `256^n`: the number of distinct values that `n` bytes can hold.
pub open spec fn byte_range(n: nat) -> int
    decreases n,
{
    if n == 0 {
        1
    } else {
        256 * byte_range((n - 1) as nat)
    }
}

/// The `n` low-order bytes of `v`, least significant first. For a negative `v`
/// these are the bytes of its two's complement representation.
pub open spec fn le_encode(v: int, n: nat) -> Seq<u8>
    decreases n,
{
    if n == 0 {
        Seq::empty()
    } else {
        seq![(v % 256) as u8] + le_encode(v / 256, (n - 1) as nat)
    }
}

/// The unsigned integer whose little-endian bytes are `s`.
pub open spec fn le_decode(s: Seq<u8>) -> nat
    decreases s.len(),
{
    if s.len() == 0 {
        0
    } else {
        (s[0] + 256 * le_decode(s.drop_first())) as nat
    }
}

/// Reads an `n`-byte unsigned value `d` as a two's complement signed value.
pub open spec fn from_twos(d: int, n: nat) -> int {
    if d < byte_range(n) / 2 {
        d
    } else {
        d - byte_range(n)
    }
}

pub proof fn lemma_byte_range_pos(n: nat)
    ensures
        byte_range(n) >= 1,
    decreases n,
{
    if n > 0 {
        lemma_byte_range_pos((n - 1) as nat);
    }
}

pub proof fn lemma_byte_range_values()
    ensures
        byte_range(1) == 256,
        byte_range(2) == 65536,
        byte_range(4) == 0x1_0000_0000,
        byte_range(8) == 0x1_0000_0000_0000_0000,
{
    reveal_with_fuel(byte_range, 9);
}

pub proof fn lemma_encode_len(v: int, n: nat)
    ensures
        le_encode(v, n).len() == n,
    decreases n,
{
    if n > 0 {
        lemma_encode_len(v / 256, (n - 1) as nat);
    }
}

/// Decoding the `n` encoded bytes of a nonnegative `v` gives `v` modulo `256^n`.
pub proof fn lemma_decode_encode(v: int, n: nat)
    requires
        0 <= v,
    ensures
        le_decode(le_encode(v, n)) == v % byte_range(n),
    decreases n,
{
    lemma_encode_len(v, n);
    if n > 0 {
        let rest = le_encode(v / 256, (n - 1) as nat);
        assert(le_encode(v, n).drop_first() =~= rest);
        lemma_decode_encode(v / 256, (n - 1) as nat);
        lemma_byte_range_pos((n - 1) as nat);
        vstd::arithmetic::div_mod::lemma_mod_breakdown(v, 256, byte_range((n - 1) as nat));
    } else {
        assert(v % 1 == 0);
    }
}

/// Encoding the decoded value of `s` gives back `s`.
pub proof fn lemma_encode_decode(s: Seq<u8>)
    ensures
        le_encode(le_decode(s) as int, s.len()) =~= s,
    decreases s.len(),
{
    if s.len() > 0 {
        let d = le_decode(s) as int;
        let r = le_decode(s.drop_first()) as int;
        assert(d == r * 256 + s[0]);
        vstd::arithmetic::div_mod::lemma_fundamental_div_mod_converse(d, 256, r, s[0] as int);
        lemma_encode_decode(s.drop_first());
        assert(le_encode(d, s.len()) =~= seq![s[0]] + le_encode(r, s.drop_first().len()));
    }
}

/// Adding a multiple of `256^n` does not change the `n` low-order bytes.
pub proof fn lemma_encode_shift(v: int, k: int, n: nat)
    ensures
        le_encode(v + k * byte_range(n), n) == le_encode(v, n),
    decreases n,
{
    if n > 0 {
        let m = byte_range((n - 1) as nat);
        let w = v + k * byte_range(n);
        assert(w == v + (k * m) * 256) by (nonlinear_arith)
            requires
                w == v + k * byte_range(n),
                byte_range(n) == 256 * m,
        ;
        vstd::arithmetic::div_mod::lemma_fundamental_div_mod(v, 256);
        let q = v / 256;
        let r = v % 256;
        assert(w == (q + k * m) * 256 + r) by (nonlinear_arith)
            requires
                w == v + (k * m) * 256,
                v == 256 * q + r,
        ;
        vstd::arithmetic::div_mod::lemma_fundamental_div_mod_converse(w, 256, q + k * m, r);
        lemma_encode_shift(q, k, (n - 1) as nat);
    }
}

} // verus!

verus! {

/// The value of a concatenation: the first part gives the low-order digits.
pub proof fn lemma_decode_append(a: Seq<u8>, b: Seq<u8>)
    ensures
        le_decode(a + b) == le_decode(a) + byte_range(a.len()) * le_decode(b),
    decreases a.len(),
{
    if a.len() == 0 {
        assert(a + b =~= b);
    } else {
        assert((a + b).drop_first() =~= a.drop_first() + b);
        lemma_decode_append(a.drop_first(), b);
        let x = le_decode(a.drop_first()) as int;
        let y = le_decode(b) as int;
        let m = byte_range(a.drop_first().len());
        assert(256 * (x + m * y) == 256 * x + (256 * m) * y) by (nonlinear_arith);
    }
}

/// The value of `n` bytes is below `256^n`.
pub proof fn lemma_decode_bound(s: Seq<u8>)
    ensures
        le_decode(s) < byte_range(s.len()),
    decreases s.len(),
{
    if s.len() > 0 {
        lemma_decode_bound(s.drop_first());
        let x = le_decode(s.drop_first()) as int;
        let m = byte_range(s.drop_first().len());
        assert(s[0] + 256 * x < 256 * m) by (nonlinear_arith)
            requires
                x < m,
                s[0] < 256,
        ;
    }
}

} // verus!
