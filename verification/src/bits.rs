//! Bit sequences and their numeric values.
//!
//! A protocol packet is an ordered sequence of bits, most-significant bit
//! first. `bits_of_int` renders the low `n` bits of an integer in that
//! order; `int_of_bits` reads a bit sequence back as an unsigned integer.

use vstd::arithmetic::div_mod::lemma_mod_breakdown;
use vstd::arithmetic::power2::{lemma_pow2_pos, lemma_pow2_unfold, pow2};
use vstd::prelude::*;

verus! {

/// The low `n` bits of `v`, most-significant bit first.
pub open spec fn bits_of_int(v: int, n: nat) -> Seq<bool>
    decreases n,
{
    if n == 0 {
        Seq::empty()
    } else {
        bits_of_int(v / 2, (n - 1) as nat).push(v % 2 == 1)
    }
}

/// The unsigned value of a bit sequence read most-significant bit first.
pub open spec fn int_of_bits(s: Seq<bool>) -> int
    decreases s.len(),
{
    if s.len() == 0 {
        0
    } else {
        int_of_bits(s.drop_last()) * 2 + if s.last() {
            1int
        } else {
            0int
        }
    }
}

/// A rendered bit sequence has exactly the requested length.
pub proof fn lemma_bits_of_int_len(v: int, n: nat)
    ensures
        bits_of_int(v, n).len() == n,
    decreases n,
{
    if n > 0 {
        lemma_bits_of_int_len(v / 2, (n - 1) as nat);
    }
}

/// Reading back a rendered bit sequence recovers the value modulo `2^n`.
pub proof fn lemma_int_of_bits_of_int(v: int, n: nat)
    requires
        v >= 0,
    ensures
        int_of_bits(bits_of_int(v, n)) == v % pow2(n) as int,
    decreases n,
{
    if n == 0 {
        assert(pow2(0) == 1) by {
            vstd::arithmetic::power2::lemma2_to64();
        }
    } else {
        lemma_int_of_bits_of_int(v / 2, (n - 1) as nat);
        lemma_pow2_pos((n - 1) as nat);
        lemma_pow2_unfold(n);
        lemma_mod_breakdown(v, 2, pow2((n - 1) as nat) as int);
        let s = bits_of_int(v, n);
        lemma_bits_of_int_len(v / 2, (n - 1) as nat);
        assert(s.drop_last() =~= bits_of_int(v / 2, (n - 1) as nat));
        assert(s.last() == (v % 2 == 1));
    }
}

/// A rendered bit sequence depends only on the value modulo `2^n`.
pub proof fn lemma_bits_of_int_mod(v: int, n: nat)
    requires
        v >= 0,
    ensures
        bits_of_int(v, n) =~= bits_of_int(v % pow2(n) as int, n),
    decreases n,
{
    if n > 0 {
        lemma_pow2_pos((n - 1) as nat);
        lemma_pow2_unfold(n);
        lemma_mod_breakdown(v, 2, pow2((n - 1) as nat) as int);
        let m = v % pow2(n) as int;
        assert(m / 2 == (v / 2) % pow2((n - 1) as nat) as int && m % 2 == v % 2) by {
            vstd::arithmetic::div_mod::lemma_fundamental_div_mod(m, 2);
            assert(m == 2 * ((v / 2) % pow2((n - 1) as nat) as int) + v % 2);
        }
        lemma_bits_of_int_mod(v / 2, (n - 1) as nat);
    }
}

/// Splitting a rendered bit sequence: the top `m` bits render `v / 2^n`
/// and the bottom `n` bits render `v` itself.
pub proof fn lemma_bits_of_int_split(v: int, m: nat, n: nat)
    requires
        v >= 0,
    ensures
        bits_of_int(v, m + n) =~= bits_of_int(v / pow2(n) as int, m) + bits_of_int(v, n),
    decreases n,
{
    lemma_pow2_pos(n);
    if n == 0 {
        assert(pow2(0) == 1) by {
            vstd::arithmetic::power2::lemma2_to64();
        }
        assert(bits_of_int(v, m) =~= bits_of_int(v / 1, m) + bits_of_int(v, 0));
    } else {
        lemma_pow2_pos((n - 1) as nat);
        lemma_pow2_unfold(n);
        lemma_bits_of_int_split(v / 2, m, (n - 1) as nat);
        assert((v / 2) / pow2((n - 1) as nat) as int == v / pow2(n) as int) by {
            vstd::arithmetic::div_mod::lemma_div_denominator(
                v,
                2,
                pow2((n - 1) as nat) as int,
            );
        }
    }
}

/// The value of a concatenation: the left part is shifted up by the length
/// of the right part.
pub proof fn lemma_int_of_bits_append(a: Seq<bool>, b: Seq<bool>)
    ensures
        int_of_bits(a + b) == int_of_bits(a) * pow2(b.len()) as int + int_of_bits(b),
    decreases b.len(),
{
    if b.len() == 0 {
        assert(pow2(0) == 1) by {
            vstd::arithmetic::power2::lemma2_to64();
        }
        assert(a + b =~= a);
    } else {
        lemma_int_of_bits_append(a, b.drop_last());
        lemma_pow2_unfold(b.len());
        assert((a + b).drop_last() =~= a + b.drop_last());
        assert((a + b).last() == b.last());
        assert(int_of_bits(a) * pow2((b.len() - 1) as nat) as int * 2 == int_of_bits(a) * pow2(
            b.len(),
        ) as int) by {
            vstd::arithmetic::mul::lemma_mul_is_associative(
                int_of_bits(a),
                pow2((b.len() - 1) as nat) as int,
                2,
            );
        }
    }
}

/// Appends the low `n` bits of `v`, most-significant bit first, to `bits`.
pub fn push_bits(bits: &mut Vec<bool>, v: u64, n: u8)
    requires
        old(bits)@.len() + n <= usize::MAX,
    ensures
        final(bits)@ =~= old(bits)@ + bits_of_int(v as int, n as nat),
        final(bits)@.len() == old(bits)@.len() + n,
    decreases n,
{
    if n > 0 {
        push_bits(bits, v / 2, n - 1);
        bits.push(v % 2 == 1);
    }
    proof {
        lemma_bits_of_int_len(v as int, n as nat);
    }
}

} // verus!
