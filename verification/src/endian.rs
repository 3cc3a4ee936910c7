//! Big-endian integers as byte sequences.
//!
//! The model is arithmetic: a byte string denotes a natural number in
//! base 256, most significant digit first.

use vstd::prelude::*;

verus! {

/// `256^n`.
pub open spec fn pow256(n: nat) -> nat
    decreases n,
{
    if n == 0 {
        1
    } else {
        256 * pow256((n - 1) as nat)
    }
}

/// The `n` low-order base-256 digits of `x`, most significant first.
pub open spec fn be_bytes(x: nat, n: nat) -> Seq<u8>
    decreases n,
{
    if n == 0 {
        Seq::empty()
    } else {
        be_bytes(x / 256, (n - 1) as nat).push((x % 256) as u8)
    }
}

/// The number that `s` denotes when read as base-256 digits, most
/// significant first.
pub open spec fn be_value(s: Seq<u8>) -> nat
    decreases s.len(),
{
    if s.len() == 0 {
        0
    } else {
        be_value(s.drop_last()) * 256 + s.last() as nat
    }
}

pub proof fn lemma_pow256_values()
    ensures
        pow256(0) == 1,
        pow256(1) == 0x100,
        pow256(2) == 0x1_0000,
        pow256(4) == 0x1_0000_0000,
        pow256(8) == 0x1_0000_0000_0000_0000,
        pow256(16) == 0x1_0000_0000_0000_0000_0000_0000_0000_0000,
{
    reveal_with_fuel(pow256, 17);
}

pub proof fn lemma_be_bytes_len(x: nat, n: nat)
    ensures
        be_bytes(x, n).len() == n,
    decreases n,
{
    if n > 0 {
        lemma_be_bytes_len(x / 256, (n - 1) as nat);
    }
}

pub proof fn lemma_be_value_bound(s: Seq<u8>)
    ensures
        be_value(s) < pow256(s.len()),
    decreases s.len(),
{
    if s.len() > 0 {
        lemma_be_value_bound(s.drop_last());
    }
}

/// Reading back what was written gives the number, provided it fits.
pub proof fn lemma_be_value_of_bytes(x: nat, n: nat)
    requires
        x < pow256(n),
    ensures
        be_value(be_bytes(x, n)) == x,
    decreases n,
{
    if n > 0 {
        let rest = be_bytes(x / 256, (n - 1) as nat);
        let s = be_bytes(x, n);
        lemma_be_value_of_bytes(x / 256, (n - 1) as nat);
        assert(s.drop_last() =~= rest);
    }
}

/// Writing the number that a byte string denotes, in as many digits,
/// gives the byte string back.
pub proof fn lemma_be_bytes_of_value(s: Seq<u8>)
    ensures
        be_bytes(be_value(s), s.len()) == s,
    decreases s.len(),
{
    if s.len() > 0 {
        lemma_be_bytes_of_value(s.drop_last());
    }
}

/// Appends the `n` low-order bytes of `x` to `out`, most significant first.
pub fn push_be(out: &mut Vec<u8>, x: u128, n: usize)
    ensures
        final(out)@ == old(out)@ + be_bytes(x as nat, n as nat),
    decreases n,
{
    if n > 0 {
        push_be(out, x / 256, n - 1);
        out.push((x % 256) as u8);
    }
}

/// Reads the `n` bytes of `data` from `start` on as one big-endian number.
pub fn read_be(data: &[u8], start: usize, n: usize) -> (v: u128)
    requires
        n <= 16,
        start + n <= data@.len(),
    ensures
        v == be_value(data@.subrange(start as int, start + n)),
{
    let total: usize = data.len();
    let mut acc: u128 = 0;
    let mut i: usize = 0;
    while i < n
        invariant
            i <= n <= 16,
            start + n <= total,
            total == data@.len(),
            acc == be_value(data@.subrange(start as int, start + i)),
        decreases n - i,
    {
        let b: u8 = data[start + i];
        proof {
            let prev = data@.subrange(start as int, start + i);
            let next = data@.subrange(start as int, start + i + 1);
            assert(next.drop_last() =~= prev);
            lemma_be_value_bound(next);
            lemma_pow256_monotone(next.len(), 16);
            lemma_pow256_values();
        }
        acc = acc * 256 + b as u128;
        i = i + 1;
    }
    acc
}

pub proof fn lemma_pow256_monotone(a: nat, b: nat)
    requires
        a <= b,
    ensures
        pow256(a) <= pow256(b),
    decreases b,
{
    if a < b {
        lemma_pow256_monotone(a, (b - 1) as nat);
    }
}

} // verus!
