//! Integers as decimal text.
use vstd::prelude::*;

verus! {

/// The decimal digits of `n` in ASCII, most significant first, without
/// leading zeros; `0` is the single digit `0`.
pub open spec fn digits(n: nat) -> Seq<u8>
    decreases n,
{
    if n < 10 {
        seq![(48 + n) as u8]
    } else {
        digits(n / 10).push((48 + n % 10) as u8)
    }
}

/// The decimal text of an integer: a minus sign before the digits of a
/// negative one.
pub open spec fn signed_digits(n: int) -> Seq<u8> {
    if n < 0 {
        seq![45u8] + digits((-n) as nat)
    } else {
        digits(n as nat)
    }
}

/// The number that a sequence of ASCII digits spells, read most significant
/// first; the empty sequence spells 0.
pub open spec fn spelled(text: Seq<u8>) -> nat
    decreases text.len(),
{
    if text.len() == 0 {
        0
    } else {
        (10 * spelled(text.drop_last()) + (text.last() - 48)) as nat
    }
}

/// Whether every byte is an ASCII digit.
pub open spec fn all_digits(text: Seq<u8>) -> bool {
    forall|i: int| 0 <= i < text.len() ==> 48 <= #[trigger] text[i] <= 57
}

/// The digits of a number are ASCII digits, at least one of them, begin with
/// `0` only for zero itself, and spell the number.
pub proof fn lemma_digits_spell_the_number(n: nat)
    ensures
        digits(n).len() >= 1,
        all_digits(digits(n)),
        digits(n)[0] == 48 <==> n == 0,
        spelled(digits(n)) == n,
    decreases n,
{
    if n >= 10 {
        lemma_digits_spell_the_number(n / 10);
        let higher = digits(n / 10);
        let all = digits(n);
        assert(all.drop_last() =~= higher);
        assert(all[0] == higher[0]);
        assert(all.last() == 48 + n % 10);
        assert(spelled(all) == 10 * spelled(higher) + n % 10);
    } else {
        let all = digits(n);
        assert(all.drop_last() =~= Seq::<u8>::empty());
        assert(spelled(all.drop_last()) == 0);
        assert(all.last() == 48 + n);
    }
}

/// Appends the decimal digits of `n`.
pub fn push_unsigned(out: &mut Vec<u8>, n: u64)
    ensures
        final(out)@ == old(out)@ + digits(n as nat),
    decreases n,
{
    if n >= 10 {
        push_unsigned(out, n / 10);
    }
    let digit: u8 = (n % 10) as u8;
    out.push(48 + digit);
    proof {
        assert(final(out)@ =~= old(out)@ + digits(n as nat));
    }
}

/// Appends the decimal text of `n`, with a minus sign where it is negative.
pub fn push_signed(out: &mut Vec<u8>, n: i64)
    ensures
        final(out)@ == old(out)@ + signed_digits(n as int),
{
    if n < 0 {
        out.push(45);
        let wide: i128 = -(n as i128);
        push_unsigned(out, wide as u64);
        proof {
            assert(final(out)@ =~= old(out)@ + signed_digits(n as int));
        }
    } else {
        push_unsigned(out, n as u64);
    }
}

} // verus!
