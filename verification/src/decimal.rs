//! Decimal digit strings: the grammar of unsigned decimal numerals, their
//! value, and verified conversion between `u32`/`u64` values and their
//! canonical digit text. The weight codec builds on these.

use vstd::prelude::*;

verus! {

/// `c` is one of the ten ASCII decimal digits.
pub open spec fn is_dec_digit(c: char) -> bool {
    48 <= c as u32 && c as u32 <= 57
}

/// Numeric value of a decimal digit character.
pub open spec fn digit_val(c: char) -> int {
    c as u32 - 48
}

/// The digit character for a value in `0..10`.
pub open spec fn digit_char(d: int) -> char {
    if d == 0 {
        '0'
    } else if d == 1 {
        '1'
    } else if d == 2 {
        '2'
    } else if d == 3 {
        '3'
    } else if d == 4 {
        '4'
    } else if d == 5 {
        '5'
    } else if d == 6 {
        '6'
    } else if d == 7 {
        '7'
    } else if d == 8 {
        '8'
    } else {
        '9'
    }
}

/// Every character of `s` is a decimal digit.
pub open spec fn all_digits(s: Seq<char>) -> bool {
    forall|i: int| 0 <= i < s.len() ==> is_dec_digit(#[trigger] s[i])
}

/// Value of a digit string read in base ten, most significant digit first.
pub open spec fn dec_val(s: Seq<char>) -> int
    decreases s.len(),
{
    if s.len() == 0 {
        0
    } else {
        dec_val(s.drop_last()) * 10 + digit_val(s.last())
    }
}

/// Ten to the power `k`.
pub open spec fn pow10(k: nat) -> int
    decreases k,
{
    if k == 0 {
        1
    } else {
        10 * pow10((k - 1) as nat)
    }
}

/// The canonical digit text of a non-negative number: no sign, no leading
/// zero except for the number zero itself.
pub open spec fn dec_digits(n: int) -> Seq<char>
    decreases n,
{
    if n < 10 {
        seq![digit_char(n)]
    } else {
        dec_digits(n / 10).push(digit_char(n % 10))
    }
}

pub proof fn lemma_pow10_pos(k: nat)
    ensures
        pow10(k) >= 1,
    decreases k,
{
    if k > 0 {
        lemma_pow10_pos((k - 1) as nat);
    }
}

pub proof fn lemma_pow10_mono(a: nat, b: nat)
    requires
        a <= b,
    ensures
        pow10(a) <= pow10(b),
    decreases b,
{
    if a < b {
        lemma_pow10_mono(a, (b - 1) as nat);
        lemma_pow10_pos((b - 1) as nat);
    }
}

/// The value of a digit string is bounded by ten to its length.
pub proof fn lemma_dec_val_bound(s: Seq<char>)
    requires
        all_digits(s),
    ensures
        0 <= dec_val(s) < pow10(s.len()),
    decreases s.len(),
{
    if s.len() == 0 {
    } else {
        assert(forall|i: int|
            0 <= i < s.drop_last().len() ==> is_dec_digit(#[trigger] s.drop_last()[i]));
        lemma_dec_val_bound(s.drop_last());
        assert(is_dec_digit(s.last()));
        assert(0 <= digit_val(s.last()) <= 9);
        assert(dec_val(s.drop_last()) * 10 <= (pow10((s.len() - 1) as nat) - 1) * 10)
            by (nonlinear_arith)
            requires dec_val(s.drop_last()) <= pow10((s.len() - 1) as nat) - 1;
    }
}

pub proof fn lemma_digit_char_val(d: int)
    requires
        0 <= d < 10,
    ensures
        is_dec_digit(digit_char(d)),
        digit_val(digit_char(d)) == d,
{
}

/// The canonical digit text is made of digits, is non-empty, and reads back
/// to the number it was made from.
pub proof fn lemma_dec_digits_all(n: int)
    requires
        n >= 0,
    ensures
        all_digits(dec_digits(n)),
        dec_digits(n).len() >= 1,
        dec_val(dec_digits(n)) == n,
    decreases n,
{
    if n < 10 {
        lemma_digit_char_val(n);
        let s = dec_digits(n);
        assert(s.last() == digit_char(n));
        assert(dec_val(s) == n) by {
            reveal_with_fuel(dec_val, 2);
            assert(s.drop_last().len() == 0);
        }
    } else {
        lemma_dec_digits_all(n / 10);
        lemma_digit_char_val(n % 10);
        let s = dec_digits(n);
        assert(s.drop_last() =~= dec_digits(n / 10));
        assert(s.last() == digit_char(n % 10));
    }
}

/// A number below ten to the `k` has at most `k` canonical digits.
pub proof fn lemma_dec_digits_len(n: int, k: nat)
    requires
        0 <= n < pow10(k),
        k >= 1,
    ensures
        dec_digits(n).len() <= k,
    decreases k,
{
    if n < 10 {
    } else {
        if k == 1 {
            assert(pow10(1) == 10) by {
                reveal_with_fuel(pow10, 2);
            }
            assert(false);
        }
        assert(pow10(k) == 10 * pow10((k - 1) as nat));
        lemma_dec_digits_len(n / 10, (k - 1) as nat);
    }
}

/// The grammar of a `u32` field in a document: one to ten digits whose
/// value fits in 32 bits.
pub open spec fn parse_u32_text(s: Seq<char>) -> Option<u32> {
    if all_digits(s) && 1 <= s.len() <= 10 && dec_val(s) <= u32::MAX {
        Some(dec_val(s) as u32)
    } else {
        None
    }
}

/// Reads the digits of `text` in the index range `from..to` as a base-ten
/// value; fails exactly when a character in the range is not a digit.
pub fn read_digits(text: &Vec<char>, from: usize, to: usize) -> (r: Option<u64>)
    requires
        from <= to <= text@.len(),
        to - from <= 16,
    ensures
        r matches Some(v) ==> all_digits(text@.subrange(from as int, to as int)) && v
            == dec_val(text@.subrange(from as int, to as int)) && v < pow10((to - from) as nat),
        r is None ==> !all_digits(text@.subrange(from as int, to as int)),
{
    let ghost whole = text@.subrange(from as int, to as int);
    let mut acc: u64 = 0;
    let mut i: usize = from;
    while i < to
        invariant
            from <= i <= to <= text@.len(),
            to - from <= 16,
            whole == text@.subrange(from as int, to as int),
            all_digits(whole.take(i - from)),
            acc == dec_val(whole.take(i - from)),
            0 <= acc < pow10((i - from) as nat),
        decreases to - i,
    {
        let c = text[i];
        let cv = c as u32;
        if cv < 48 || cv > 57 {
            proof {
                assert(whole[i - from] == text@[i as int]);
                assert(!is_dec_digit(whole[i - from]));
            }
            return None;
        }
        proof {
            lemma_pow10_mono(((i - from) as nat), 15);
            assert(pow10(15) == 1000000000000000) by {
                reveal_with_fuel(pow10, 16);
            }
            assert(acc * 10 <= (pow10((i - from) as nat) - 1) * 10) by (nonlinear_arith)
                requires acc <= pow10((i - from) as nat) - 1;
        }
        acc = acc * 10 + ((cv - 48) as u64);
        i = i + 1;
        proof {
            let pre = whole.take(i - from - 1);
            let cur = whole.take(i - from);
            assert(cur.drop_last() =~= pre);
            assert(cur.last() == text@[i - 1]);
            assert(pow10((i - from) as nat) == 10 * pow10((i - from - 1) as nat));
        }
    }
    proof {
        assert(whole.take(to - from) =~= whole);
    }
    Some(acc)
}

/// Parses an unsigned decimal numeral, exactly as `parse_u32_text` reads it.
pub fn parse_u32(text: &Vec<char>) -> (r: Option<u32>)
    ensures
        r == parse_u32_text(text@),
{
    let n = text.len();
    if n == 0 || n > 10 {
        return None;
    }
    proof {
        assert(text@.subrange(0, n as int) =~= text@);
    }
    match read_digits(text, 0, n) {
        None => None,
        Some(v) => {
            if v <= 0xFFFF_FFFF {
                Some(v as u32)
            } else {
                None
            }
        },
    }
}

fn digit_to_char(d: u64) -> (c: char)
    requires
        d < 10,
    ensures
        c == digit_char(d as int),
{
    if d == 0 {
        '0'
    } else if d == 1 {
        '1'
    } else if d == 2 {
        '2'
    } else if d == 3 {
        '3'
    } else if d == 4 {
        '4'
    } else if d == 5 {
        '5'
    } else if d == 6 {
        '6'
    } else if d == 7 {
        '7'
    } else if d == 8 {
        '8'
    } else {
        '9'
    }
}

/// Appends the canonical digits of `n` to `out`.
pub fn push_digits(n: u64, out: &mut Vec<char>)
    ensures
        final(out)@ == old(out)@ + dec_digits(n as int),
    decreases n,
{
    if n < 10 {
        out.push(digit_to_char(n));
        proof {
            assert(out@ =~= old(out)@ + dec_digits(n as int));
        }
    } else {
        push_digits(n / 10, out);
        out.push(digit_to_char(n % 10));
        proof {
            assert(out@ =~= old(out)@ + dec_digits(n as int));
        }
    }
}

/// The canonical digit text of a `u32`, as characters.
pub fn u32_to_text(v: u32) -> (r: Vec<char>)
    ensures
        r@ == dec_digits(v as int),
{
    let mut out: Vec<char> = Vec::new();
    push_digits(v as u64, &mut out);
    proof {
        assert(out@ =~= dec_digits(v as int));
    }
    out
}

/// Formatting a `u32` canonically and reading the text back yields the
/// same number.
pub proof fn lemma_u32_round_trip(v: u32)
    ensures
        parse_u32_text(dec_digits(v as int)) == Some(v),
{
    lemma_dec_digits_all(v as int);
    assert(pow10(10) == 10000000000) by {
        reveal_with_fuel(pow10, 11);
    }
    lemma_dec_digits_len(v as int, 10);
    lemma_dec_val_bound(dec_digits(v as int));
}

} // verus!
