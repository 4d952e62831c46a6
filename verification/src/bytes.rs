//! Big-endian numbers in byte strings: the digits that identifiers, instants and lengths are
//! written with in stored records.

use vstd::prelude::*;

verus! {

/// 256 to the power `n`.
pub open spec fn pow256(n: nat) -> nat
    decreases n,
{
    if n == 0 {
        1
    } else {
        256 * pow256((n - 1) as nat)
    }
}

/// The number that `bytes` spells, read as base-256 digits with the most significant first.
pub open spec fn be_value(bytes: Seq<u8>) -> nat
    decreases bytes.len(),
{
    if bytes.len() == 0 {
        0
    } else {
        be_value(bytes.drop_last()) * 256 + bytes.last() as nat
    }
}

/// The `n` lowest base-256 digits of `v`, the most significant first.
pub open spec fn be_bytes(v: nat, n: nat) -> Seq<u8>
    decreases n,
{
    if n == 0 {
        Seq::empty()
    } else {
        be_bytes(v / 256, (n - 1) as nat).push((v % 256) as u8)
    }
}

/// `be_bytes(v, n)` has exactly `n` digits.
pub proof fn lemma_be_bytes_len(v: nat, n: nat)
    ensures
        be_bytes(v, n).len() == n,
    decreases n,
{
    if n > 0 {
        lemma_be_bytes_len(v / 256, (n - 1) as nat);
    }
}

/// A number below `256^n` is read back from its `n` digits.
pub proof fn lemma_be_value_of_bytes(v: nat, n: nat)
    requires
        v < pow256(n),
    ensures
        be_value(be_bytes(v, n)) == v,
    decreases n,
{
    if n > 0 {
        let rest = be_bytes(v / 256, (n - 1) as nat);
        let digits = be_bytes(v, n);
        assert(v / 256 < pow256((n - 1) as nat)) by (nonlinear_arith)
            requires
                v < 256 * pow256((n - 1) as nat),
        ;
        lemma_be_value_of_bytes(v / 256, (n - 1) as nat);
        assert(digits.drop_last() =~= rest);
        assert(digits.last() == (v % 256) as u8);
        assert(((v % 256) as u8) as nat == v % 256);
        assert((v / 256) * 256 + v % 256 == v) by (nonlinear_arith);
    }
}

/// Every byte string is the digits of the number it spells, and that number is below
/// `256^len`.
pub proof fn lemma_be_bytes_of_value(bytes: Seq<u8>)
    ensures
        be_bytes(be_value(bytes), bytes.len()) == bytes,
        be_value(bytes) < pow256(bytes.len()),
    decreases bytes.len(),
{
    if bytes.len() > 0 {
        let head = bytes.drop_last();
        let low = bytes.last() as nat;
        let v = be_value(bytes);
        lemma_be_bytes_of_value(head);
        assert(v == be_value(head) * 256 + low);
        assert(v / 256 == be_value(head) && v % 256 == low) by (nonlinear_arith)
            requires
                v == be_value(head) * 256 + low,
                low < 256,
        ;
        assert(v < 256 * pow256(head.len())) by (nonlinear_arith)
            requires
                v == be_value(head) * 256 + low,
                low < 256,
                be_value(head) < pow256(head.len()),
        ;
        assert((low as u8) == bytes.last());
        assert(be_bytes(v, bytes.len()) =~= head.push(bytes.last()));
        assert(head.push(bytes.last()) =~= bytes);
    } else {
        assert(be_bytes(be_value(bytes), 0) =~= bytes);
    }
}

/// `256^16` is `2^128`, one more than the largest `u128`; `256^8` is one more than the
/// largest `u64`.
pub proof fn lemma_pow256_limits()
    ensures
        pow256(8) == 0x1_0000_0000_0000_0000,
        pow256(16) == 0x1_0000_0000_0000_0000_0000_0000_0000_0000,
{
    reveal_with_fuel(pow256, 9);
    assert(pow256(8) == 0x1_0000_0000_0000_0000);
    assert(pow256(16) == pow256(8) * pow256(8)) by {
        lemma_pow256_add(8, 8);
    }
    assert(0x1_0000_0000_0000_0000nat * 0x1_0000_0000_0000_0000nat
        == 0x1_0000_0000_0000_0000_0000_0000_0000_0000nat) by (nonlinear_arith);
}

/// Powers of 256 multiply as their exponents add.
pub proof fn lemma_pow256_add(a: nat, b: nat)
    ensures
        pow256(a + b) == pow256(a) * pow256(b),
    decreases a,
{
    if a > 0 {
        lemma_pow256_add((a - 1) as nat, b);
        assert(256 * (pow256((a - 1) as nat) * pow256(b)) == (256 * pow256((a - 1) as nat))
            * pow256(b)) by (nonlinear_arith);
        assert((a + b - 1) as nat == (a - 1) as nat + b);
    } else {
        assert(pow256(0) == 1);
        assert(1 * pow256(b) == pow256(b));
    }
}

/// Powers of 256 grow with the exponent.
pub proof fn lemma_pow256_monotonic(a: nat, b: nat)
    requires
        a <= b,
    ensures
        pow256(a) <= pow256(b),
        pow256(a) >= 1,
    decreases b,
{
    if a < b {
        lemma_pow256_monotonic(a, (b - 1) as nat);
    } else if a > 0 {
        lemma_pow256_monotonic((a - 1) as nat, (b - 1) as nat);
    }
}

/// Appends to `out` the `n` lowest base-256 digits of `v`, the most significant first.
pub(crate) fn push_be(out: &mut Vec<u8>, v: u128, n: usize)
    ensures
        final(out)@ == old(out)@ + be_bytes(v as nat, n as nat),
    decreases n,
{
    if n > 0 {
        push_be(out, v / 256, n - 1);
        out.push((v % 256) as u8);
        assert(final(out)@ =~= old(out)@ + be_bytes(v as nat, n as nat));
    } else {
        assert(out@ =~= old(out)@ + be_bytes(v as nat, 0));
    }
}

/// Reads the `n` bytes of `bytes` from `start` on as one big-endian number.
pub(crate) fn read_be(bytes: &Vec<u8>, start: usize, n: usize) -> (r: u128)
    requires
        n <= 16,
        start + n <= bytes.len(),
    ensures
        r as nat == be_value(bytes@.subrange(start as int, start + n)),
{
    let mut acc: u128 = 0;
    let mut i: usize = 0;
    while i < n
        invariant
            i <= n <= 16,
            start + n <= bytes.len(),
            acc as nat == be_value(bytes@.subrange(start as int, start + i)),
        decreases n - i,
    {
        let ghost prefix = bytes@.subrange(start as int, start + i);
        let ghost longer = bytes@.subrange(start as int, start + i + 1);
        proof {
            lemma_be_bytes_of_value(prefix);
            lemma_be_bytes_of_value(longer);
            lemma_pow256_monotonic((i + 1) as nat, 16);
            lemma_pow256_limits();
            assert(longer.drop_last() =~= prefix);
            assert(longer.last() == bytes@[start + i]);
        }
        acc = acc * 256 + bytes[start + i] as u128;
        i = i + 1;
    }
    acc
}

} // verus!
