//! Little-endian fixed-width integers, as the ledger writes them.

use vstd::prelude::*;

verus! {

/// The number whose digits in base 256, least significant first, are `s`.
pub open spec fn le_value(s: Seq<u8>) -> nat
    decreases s.len(),
{
    if s.len() == 0 {
        0
    } else {
        (s[0] as nat) + 256 * le_value(s.drop_first())
    }
}

/// 256 to the power `k`.
pub open spec fn pow256(k: nat) -> nat
    decreases k,
{
    if k == 0 {
        1
    } else {
        256 * pow256((k - 1) as nat)
    }
}

/// The `len` lowest digits of `n` in base 256, least significant first.
pub open spec fn le_digits(n: nat, len: nat) -> Seq<u8> {
    Seq::new(len, |i: int| ((n / pow256(i as nat)) % 256) as u8)
}

/// The signed number that the 128 bits `v` stand for in two's complement.
pub open spec fn signed128(v: nat) -> int {
    if v < 0x8000_0000_0000_0000_0000_0000_0000_0000 {
        v as int
    } else {
        v - 0x1_0000_0000_0000_0000_0000_0000_0000_0000
    }
}

/// A sequence of `k` digits stands for a number below `256^k`.
pub proof fn lemma_le_value_bound(s: Seq<u8>)
    ensures
        le_value(s) < pow256(s.len()),
    decreases s.len(),
{
    if s.len() > 0 {
        lemma_le_value_bound(s.drop_first());
    }
}

/// `pow256` grows with its argument.
pub proof fn lemma_pow256_monotonic(a: nat, b: nat)
    requires
        a <= b,
    ensures
        0 < pow256(a) <= pow256(b),
    decreases b,
{
    if b == 0 {
    } else if a == b {
        lemma_pow256_monotonic((a - 1) as nat, (b - 1) as nat);
    } else {
        lemma_pow256_monotonic(a, (b - 1) as nat);
    }
}

/// The values of `pow256` at the widths that the ledger uses.
pub proof fn lemma_pow256_values()
    ensures
        pow256(1) == 0x100,
        pow256(4) == 0x1_0000_0000,
        pow256(8) == 0x1_0000_0000_0000_0000,
        pow256(16) == 0x1_0000_0000_0000_0000_0000_0000_0000_0000,
{
    reveal_with_fuel(pow256, 17);
}

/// Reads up to sixteen bytes as one unsigned little-endian number.
pub fn read_le(bytes: &[u8]) -> (r: u128)
    requires
        bytes@.len() <= 16,
    ensures
        r == le_value(bytes@),
{
    let n = bytes.len();
    let mut acc: u128 = 0;
    let mut i: usize = n;
    proof {
        assert(bytes@.subrange(n as int, n as int) =~= Seq::<u8>::empty());
    }
    while i > 0
        invariant
            0 <= i <= n,
            n == bytes@.len(),
            n <= 16,
            acc == le_value(bytes@.subrange(i as int, n as int)),
        decreases i,
    {
        let ghost tail = bytes@.subrange(i as int, n as int);
        let ghost next = bytes@.subrange(i - 1, n as int);
        proof {
            lemma_le_value_bound(tail);
            lemma_pow256_monotonic(tail.len(), 15);
            reveal_with_fuel(pow256, 16);
            assert(pow256(15) == 0x1_0000_0000_0000_0000_0000_0000_0000_00);
            assert(next.drop_first() =~= tail);
            assert(next[0] == bytes@[i - 1]);
        }
        i = i - 1;
        acc = acc * 256 + (bytes[i] as u128);
    }
    proof {
        assert(bytes@.subrange(0, n as int) =~= bytes@);
    }
    acc
}

/// Reads four bytes as an unsigned little-endian number.
pub fn read_u32_le(bytes: &[u8]) -> (r: u32)
    requires
        bytes@.len() == 4,
    ensures
        r == le_value(bytes@),
{
    proof {
        lemma_le_value_bound(bytes@);
        lemma_pow256_values();
    }
    read_le(bytes) as u32
}

/// Reads eight bytes as an unsigned little-endian number.
pub fn read_u64_le(bytes: &[u8]) -> (r: u64)
    requires
        bytes@.len() == 8,
    ensures
        r == le_value(bytes@),
{
    proof {
        lemma_le_value_bound(bytes@);
        lemma_pow256_values();
    }
    read_le(bytes) as u64
}

/// Reads sixteen bytes as a signed little-endian number in two's complement.
pub fn read_i128_le(bytes: &[u8]) -> (r: i128)
    requires
        bytes@.len() == 16,
    ensures
        r == signed128(le_value(bytes@)),
{
    let v = read_le(bytes);
    if v < 0x8000_0000_0000_0000_0000_0000_0000_0000 {
        v as i128
    } else {
        let low: u128 = v - 0x8000_0000_0000_0000_0000_0000_0000_0000;
        (low as i128) + i128::MIN
    }
}

/// The eight bytes of `n`, least significant first.
pub fn u64_to_le_bytes(n: u64) -> (r: [u8; 8])
    ensures
        r@ == le_digits(n as nat, 8),
{
    let mut out: [u8; 8] = [0u8; 8];
    let mut rest: u64 = n;
    let mut i: usize = 0;
    assert(pow256(0) == 1);
    while i < 8
        invariant
            0 <= i <= 8,
            rest == (n as nat) / pow256(i as nat),
            forall|j: int| 0 <= j < i ==> out@[j] == le_digits(n as nat, 8)[j],
        decreases 8 - i,
    {
        proof {
            lemma_pow256_monotonic(0, i as nat);
            vstd::arithmetic::div_mod::lemma_div_denominator(
                n as int,
                pow256(i as nat) as int,
                256,
            );
            assert(pow256((i + 1) as nat) == 256 * pow256(i as nat));
            assert(pow256(i as nat) * 256 == 256 * pow256(i as nat)) by (nonlinear_arith);
        }
        out[i] = (rest % 256) as u8;
        rest = rest / 256;
        i = i + 1;
    }
    assert(out@ =~= le_digits(n as nat, 8));
    out
}

} // verus!
