//! Parsing the sector-size launch argument: a decimal numeral, optionally
//! preceded by a plus sign, whose value must fit the machine word.

use vstd::prelude::*;
use vstd::arithmetic::div_mod::{lemma_fundamental_div_mod, lemma_mod_bound};

verus! {

/// Whether a character is a decimal digit.
pub open spec fn char_is_digit(c: char) -> bool {
    48 <= c as u32 <= 57
}

/// The numeric value of a decimal digit.
pub open spec fn digit_val(c: char) -> int {
    c as u32 - 48
}

/// Whether every character of a sequence is a decimal digit.
pub open spec fn all_digits(s: Seq<char>) -> bool {
    forall|i: int| 0 <= i < s.len() ==> char_is_digit(#[trigger] s[i])
}

/// The value of a digit sequence read as a base-ten numeral.
pub open spec fn dec_val(s: Seq<char>) -> int
    decreases s.len(),
{
    if s.len() == 0 {
        0
    } else {
        dec_val(s.drop_last()) * 10 + digit_val(s.last())
    }
}

/// The digits of a numeral: the whole text, or what follows one leading
/// plus sign.
pub open spec fn numeral_body(s: Seq<char>) -> Seq<char> {
    if s.len() > 0 && s[0] == '+' {
        s.skip(1)
    } else {
        s
    }
}

/// Whether a text parses as an unsigned machine-word integer: a non-empty
/// digit sequence after an optional leading plus sign, with a value of at
/// most `usize::MAX`.
pub open spec fn parses_as_usize(s: Seq<char>) -> bool {
    &&& numeral_body(s).len() > 0
    &&& all_digits(numeral_body(s))
    &&& dec_val(numeral_body(s)) <= usize::MAX as int
}

/// The value of a text that parses as an unsigned integer.
pub open spec fn numeral_value(s: Seq<char>) -> int {
    dec_val(numeral_body(s))
}

/// The value of an all-digit sequence is never negative.
proof fn lemma_dec_val_nonneg(s: Seq<char>)
    requires
        all_digits(s),
    ensures
        dec_val(s) >= 0,
    decreases s.len(),
{
    if s.len() > 0 {
        assert(all_digits(s.drop_last()));
        lemma_dec_val_nonneg(s.drop_last());
    }
}

/// Reading further digits never lowers the value: the value of a prefix of
/// an all-digit sequence is at most the value of any longer prefix.
proof fn lemma_dec_val_prefix_le(s: Seq<char>, i: int, j: int)
    requires
        all_digits(s),
        0 <= i <= j <= s.len(),
    ensures
        dec_val(s.subrange(0, i)) <= dec_val(s.subrange(0, j)),
    decreases j - i,
{
    if i < j {
        lemma_dec_val_prefix_le(s, i, j - 1);
        let p = s.subrange(0, j);
        assert(p.drop_last() =~= s.subrange(0, j - 1));
        assert(all_digits(s.subrange(0, j - 1)));
        lemma_dec_val_nonneg(s.subrange(0, j - 1));
        assert(char_is_digit(s[j - 1]));
    }
}

/// Parse an unsigned machine-word integer from its decimal text, exactly as
/// the sector-size launch argument is read: digits after an optional plus
/// sign, rejecting anything else and any value over `usize::MAX`.
pub fn parse_usize(s: &str) -> (r: Option<usize>)
    ensures
        r matches Some(v) ==> parses_as_usize(s@) && v as int == numeral_value(s@),
        r is None ==> !parses_as_usize(s@),
{
    let len = s.unicode_len();
    let start: usize = if len > 0 && s.get_char(0) == '+' {
        1
    } else {
        0
    };
    proof {
        if start == 1 {
            assert(numeral_body(s@) =~= s@.subrange(1, len as int));
        } else {
            assert(numeral_body(s@) =~= s@.subrange(0, len as int));
        }
    }
    if start >= len {
        return None;
    }
    let ghost body = s@.subrange(start as int, len as int);
    let mut i: usize = start;
    let mut acc: usize = 0;
    while i < len
        invariant
            start <= i <= len,
            len == s@.len(),
            body == s@.subrange(start as int, len as int),
            numeral_body(s@) == body,
            forall|j: int| start <= j < i ==> char_is_digit(#[trigger] s@[j]),
            acc as int == dec_val(s@.subrange(start as int, i as int)),
        decreases len - i,
    {
        let c = s.get_char(i);
        let cv = c as u32;
        if cv < 48 || cv > 57 {
            proof {
                assert(body[i - start] == s@[i as int]);
                assert(!all_digits(body));
            }
            return None;
        }
        let d = (cv - 48) as usize;
        let m = usize::MAX;
        if acc > (m - d) / 10 {
            proof {
                let mi = m as int;
                let di = d as int;
                let ai = acc as int;
                lemma_fundamental_div_mod(mi - di, 10);
                lemma_mod_bound(mi - di, 10);
                assert(ai * 10 >= ((mi - di) / 10) * 10 + 10) by (nonlinear_arith)
                    requires
                        ai > (mi - di) / 10,
                ;
                assert(ai * 10 + di > mi);
                let pre = s@.subrange(start as int, i + 1);
                assert(pre.drop_last() =~= s@.subrange(start as int, i as int));
                assert(pre.last() == s@[i as int]);
                assert(dec_val(pre) == ai * 10 + di);
                if all_digits(body) {
                    assert(pre =~= body.subrange(0, i + 1 - start));
                    assert(body.subrange(0, body.len() as int) =~= body);
                    lemma_dec_val_prefix_le(body, i + 1 - start, body.len() as int);
                    assert(dec_val(body) > mi);
                }
            }
            return None;
        }
        proof {
            let mi = m as int;
            let di = d as int;
            let ai = acc as int;
            lemma_fundamental_div_mod(mi - di, 10);
            lemma_mod_bound(mi - di, 10);
            assert(ai * 10 <= ((mi - di) / 10) * 10) by (nonlinear_arith)
                requires
                    ai <= (mi - di) / 10,
            ;
            assert(ai * 10 + di <= mi);
            let pre = s@.subrange(start as int, i + 1);
            assert(pre.drop_last() =~= s@.subrange(start as int, i as int));
            assert(pre.last() == s@[i as int]);
        }
        acc = acc * 10 + d;
        i = i + 1;
    }
    proof {
        assert(s@.subrange(start as int, i as int) == body);
    }
    Some(acc)
}

} // verus!
