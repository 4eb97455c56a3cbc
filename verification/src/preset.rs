//! Choosing a preset scene from a command-line argument.
//!
//! The argument is read as a decimal integer: an optional `+` or `-`, then
//! one or more ASCII digits and nothing else, with a value that fits in 32
//! bits. The numbers 1 to 4 name the four presets. A missing argument, one
//! that is no such integer, and any other number fall back to the first.
use vstd::prelude::*;
use vstd::string::StrSliceExecFns;

verus! {

/// One of the four preset scenes.
#[derive(Clone, Copy, Debug, PartialEq, Eq, Structural)]
pub enum Preset {
    One,
    Two,
    Three,
    Four,
}

/// The value of an ASCII digit; none for any other character.
pub open spec fn digit(c: char) -> Option<nat> {
    if 48 <= c as u32 <= 57 {
        Some((c as u32 - 48) as nat)
    } else {
        None
    }
}

/// The number that a run of digits spells, most significant first; none as
/// soon as one character is no digit. The empty run spells 0.
pub open spec fn magnitude(run: Seq<char>) -> Option<nat>
    decreases run.len(),
{
    if run.len() == 0 {
        Some(0)
    } else {
        match (magnitude(run.drop_last()), digit(run.last())) {
            (Some(high), Some(low)) => Some(10 * high + low),
            _ => None,
        }
    }
}

/// The characters after an optional leading sign.
pub open spec fn unsigned_part(text: Seq<char>) -> Seq<char> {
    if text.len() > 0 && (text[0] == '-' || text[0] == '+') {
        text.subrange(1, text.len() as int)
    } else {
        text
    }
}

/// The integer that a text spells: an optional sign and at least one digit.
pub open spec fn integer(text: Seq<char>) -> Option<int> {
    let run = unsigned_part(text);
    if run.len() == 0 {
        None
    } else {
        match magnitude(run) {
            Some(m) => Some(
                if text[0] == '-' {
                    -(m as int)
                } else {
                    m as int
                },
            ),
            None => None,
        }
    }
}

/// The integer that a text spells, where it fits in 32 bits.
pub open spec fn spec_parse(text: Seq<char>) -> Option<i32> {
    match integer(text) {
        Some(v) => if i32::MIN <= v <= i32::MAX {
            Some(v as i32)
        } else {
            None
        },
        None => None,
    }
}

/// The preset that a number names: 2, 3 and 4 their own, every other number
/// the first.
pub open spec fn spec_preset(number: i32) -> Preset {
    if number == 2 {
        Preset::Two
    } else if number == 3 {
        Preset::Three
    } else if number == 4 {
        Preset::Four
    } else {
        Preset::One
    }
}

/// The preset that an argument selects.
pub open spec fn spec_select(arg: Option<Seq<char>>) -> Preset {
    match arg {
        None => Preset::One,
        Some(text) => match spec_parse(text) {
            Some(number) => spec_preset(number),
            None => Preset::One,
        },
    }
}

/// A run spells a number only if each of its prefixes does, and then no
/// prefix spells a greater one.
pub proof fn lemma_prefix_spells_no_more(run: Seq<char>, k: int)
    requires
        0 <= k <= run.len(),
    ensures
        magnitude(run.take(k)) is None ==> magnitude(run) is None,
        magnitude(run) matches Some(m) ==> magnitude(run.take(k)).unwrap() <= m,
    decreases run.len() - k,
{
    if k == run.len() {
        assert(run.take(k) =~= run);
    } else {
        lemma_prefix_spells_no_more(run, k + 1);
        assert(run.take(k + 1).drop_last() =~= run.take(k));
    }
}

/// Reads a decimal integer of 32 bits: an optional sign, then digits only.
/// Nothing is read from the empty text, from a sign alone, from a text with
/// any other character, or from a number that does not fit.
#[verifier::when_used_as_spec(spec_parse_text)]
pub fn parse(text: &str) -> (r: Option<i32>)
    ensures
        r == spec_parse(text@),
{
    let n = text.unicode_len();
    if n == 0 {
        return None;
    }
    let first = text.get_char(0);
    let negative = first == '-';
    let start: usize = if first == '-' || first == '+' {
        1
    } else {
        0
    };
    if start == n {
        return None;
    }
    let ghost run = unsigned_part(text@);
    let mut total: i64 = 0;
    let mut i: usize = start;
    proof {
        assert(run.take(0) =~= Seq::<char>::empty());
    }
    while i < n
        invariant
            start <= i <= n,
            n == text@.len(),
            run == unsigned_part(text@),
            run.len() == n - start,
            forall|j: int| 0 <= j < run.len() ==> run[j] == text@[j + start],
            magnitude(run.take(i - start)) == Some(total as nat),
            0 <= total <= 0x8000_0000,
        decreases n - i,
    {
        let c = text.get_char(i);
        let code: u32 = c as u32;
        proof {
            let upto = run.take(i - start + 1);
            assert(upto.drop_last() =~= run.take(i - start));
            assert(upto.last() == c);
            lemma_prefix_spells_no_more(run, i - start + 1);
        }
        if code < 48 || code > 57 {
            return None;
        }
        total = total * 10 + (code - 48) as i64;
        if total > 0x8000_0000 {
            return None;
        }
        i = i + 1;
    }
    proof {
        assert(run.take(i - start) =~= run);
    }
    if negative {
        Some((-total) as i32)
    } else if total > 0x7FFF_FFFF {
        None
    } else {
        Some(total as i32)
    }
}

/// The preset that a number names.
#[verifier::when_used_as_spec(spec_preset)]
pub fn preset(number: i32) -> (p: Preset)
    ensures
        p == spec_preset(number),
{
    if number == 2 {
        Preset::Two
    } else if number == 3 {
        Preset::Three
    } else if number == 4 {
        Preset::Four
    } else {
        Preset::One
    }
}

/// What [`parse`] reads from a text.
pub open spec fn spec_parse_text(text: &str) -> Option<i32> {
    spec_parse(text@)
}

/// The view of an optional argument.
pub open spec fn argument(arg: Option<&str>) -> Option<Seq<char>> {
    match arg {
        Some(text) => Some(text@),
        None => None,
    }
}

/// The preset that the command line selects. Without an argument, or with
/// one that is no integer of 32 bits, it is the first.
pub fn select(arg: Option<&str>) -> (p: Preset)
    ensures
        p == spec_select(argument(arg)),
{
    match arg {
        None => Preset::One,
        Some(text) => match parse(text) {
            Some(number) => preset(number),
            None => Preset::One,
        },
    }
}

} // verus!
