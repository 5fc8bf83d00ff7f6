//! Fixed-precision decimal weights. A `Weight` is a quantity of kilograms
//! held as a whole number of hundredths, so two weights are equal exactly
//! when their canonical decimal texts are equal, and no binary
//! floating-point rounding is ever involved. The same representation is
//! used for the one decimal-valued display field of the lifting cursor.

use vstd::prelude::*;

use crate::decimal::{
    all_digits, dec_digits, dec_val, digit_char, digit_val, is_dec_digit, lemma_dec_digits_all,
    lemma_dec_digits_len, lemma_digit_char_val, lemma_pow10_mono, pow10, read_digits,
};

verus! {

/// Largest magnitude a `Weight` may hold, in hundredths of a kilogram:
/// sixteen integer digits and two fractional digits.
pub const MAX_HUNDREDTHS: i64 = 999_999_999_999_999_999;

/// A fixed-precision decimal quantity of kilograms, held as hundredths.
#[derive(Clone, Copy, Debug, PartialEq, Eq, Structural)]
pub struct Weight {
    pub hundredths: i64,
}

impl View for Weight {
    type V = int;

    open spec fn view(&self) -> int {
        self.hundredths as int
    }
}

impl DeepView for Weight {
    type V = int;

    open spec fn deep_view(&self) -> int {
        self.hundredths as int
    }
}

/// The magnitude bound every well-formed weight obeys.
pub open spec fn weight_wf(v: int) -> bool {
    -(MAX_HUNDREDTHS as int) <= v <= MAX_HUNDREDTHS as int
}

/// Index of the first dot in `s`, if any.
pub open spec fn find_dot(s: Seq<char>) -> Option<int>
    decreases s.len(),
{
    if s.len() == 0 {
        None
    } else if s[0] == '.' {
        Some(0)
    } else {
        match find_dot(s.skip(1)) {
            Some(i) => Some(i + 1),
            None => None,
        }
    }
}

/// The grammar of an unsigned decimal-kilogram literal: one to sixteen
/// integer digits, optionally followed by a dot and one or two fractional
/// digits. The value is in hundredths.
pub open spec fn parse_unsigned_text(s: Seq<char>) -> Option<int> {
    match find_dot(s) {
        None => if all_digits(s) && 1 <= s.len() <= 16 {
            Some(dec_val(s) * 100)
        } else {
            None
        },
        Some(i) => {
            let ip = s.take(i);
            let fp = s.skip(i + 1);
            if all_digits(ip) && all_digits(fp) && 1 <= ip.len() <= 16 && 1 <= fp.len() <= 2 {
                Some(
                    dec_val(ip) * 100 + if fp.len() == 1 {
                        dec_val(fp) * 10
                    } else {
                        dec_val(fp)
                    },
                )
            } else {
                None
            }
        },
    }
}

/// The grammar of a decimal-kilogram literal: an optional leading minus
/// sign, then an unsigned literal.
pub open spec fn parse_weight_text(s: Seq<char>) -> Option<int> {
    if s.len() > 0 && s[0] == '-' {
        match parse_unsigned_text(s.skip(1)) {
            Some(v) => Some(-v),
            None => None,
        }
    } else {
        parse_unsigned_text(s)
    }
}

/// Canonical text of a non-negative value in hundredths: integer digits,
/// then a fractional part only if it is non-zero, with no trailing zero.
pub open spec fn canon_abs_text(v: int) -> Seq<char> {
    let ip = v / 100;
    let f = v % 100;
    if f == 0 {
        dec_digits(ip)
    } else if f % 10 == 0 {
        dec_digits(ip).push('.').push(digit_char(f / 10))
    } else {
        dec_digits(ip).push('.').push(digit_char(f / 10)).push(digit_char(f % 10))
    }
}

/// Canonical text of a weight value in hundredths.
pub open spec fn canon_text(v: int) -> Seq<char> {
    if v < 0 {
        seq!['-'] + canon_abs_text(-v)
    } else {
        canon_abs_text(v)
    }
}

proof fn lemma_find_dot_none(s: Seq<char>)
    requires
        forall|k: int| 0 <= k < s.len() ==> s[k] != '.',
    ensures
        find_dot(s) is None,
    decreases s.len(),
{
    if s.len() > 0 {
        assert forall|k: int| 0 <= k < s.skip(1).len() implies s.skip(1)[k] != '.' by {
            assert(s.skip(1)[k] == s[k + 1]);
        }
        lemma_find_dot_none(s.skip(1));
    }
}

proof fn lemma_find_dot_at(s: Seq<char>, j: int)
    requires
        0 <= j < s.len(),
        s[j] == '.',
        forall|k: int| 0 <= k < j ==> s[k] != '.',
    ensures
        find_dot(s) == Some(j),
    decreases j,
{
    if j > 0 {
        assert forall|k: int| 0 <= k < j - 1 implies s.skip(1)[k] != '.' by {
            assert(s.skip(1)[k] == s[k + 1]);
        }
        assert(s.skip(1)[j - 1] == s[j]);
        lemma_find_dot_at(s.skip(1), j - 1);
    }
}

/// Parses a decimal-kilogram literal, exactly as `parse_weight_text`
/// reads it.
pub fn parse_weight(text: &Vec<char>) -> (r: Option<Weight>)
    ensures
        r matches Some(w) ==> parse_weight_text(text@) == Some(w@) && weight_wf(w@),
        r is None ==> parse_weight_text(text@) is None,
{
    let n = text.len();
    let off: usize = if n > 0 && text[0] == '-' {
        1
    } else {
        0
    };
    let neg = off == 1;
    let ghost u: Seq<char> = text@.subrange(off as int, text@.len() as int);
    proof {
        if neg {
            assert(u =~= text@.skip(1));
        } else {
            assert(u =~= text@);
        }
    }
    match parse_unsigned(text, off, Ghost(u)) {
        None => None,
        Some(v) => {
            let h: i64 = if neg {
                -(v as i64)
            } else {
                v as i64
            };
            Some(Weight { hundredths: h })
        },
    }
}

/// Parses the unsigned literal in `text[off..]`; `u` is that suffix.
fn parse_unsigned(text: &Vec<char>, off: usize, Ghost(u): Ghost<Seq<char>>) -> (r: Option<u64>)
    requires
        off <= text@.len(),
        u == text@.subrange(off as int, text@.len() as int),
    ensures
        r matches Some(v) ==> parse_unsigned_text(u) == Some(v as int) && v
            <= MAX_HUNDREDTHS as u64,
        r is None ==> parse_unsigned_text(u) is None,
{
    let n = text.len();
    // find the first dot at or after `off`
    let mut dot: usize = off;
    while dot < n && text[dot] != '.'
        invariant
            off <= dot <= n,
            n == text@.len(),
            u == text@.subrange(off as int, n as int),
            forall|k: int| 0 <= k < dot - off ==> u[k] != '.',
        decreases n - dot,
    {
        proof {
            assert(u[dot - off] == text@[dot as int]);
        }
        dot = dot + 1;
    }
    proof {
        assert(pow10(16) == 10000000000000000) by {
            reveal_with_fuel(pow10, 17);
        }
    }
    if dot == n {
        // no fractional part
        proof {
            lemma_find_dot_none(u);
        }
        if n - off < 1 || n - off > 16 {
            return None;
        }
        match read_digits(text, off, n) {
            None => None,
            Some(v) => {
                proof {
                    lemma_pow10_mono(((n - off) as nat), 16);
                }
                Some(v * 100)
            },
        }
    } else {
        proof {
            assert(u[dot - off] == text@[dot as int]);
            lemma_find_dot_at(u, dot - off);
        }
        let iplen = dot - off;
        let fplen = n - dot - 1;
        if iplen < 1 || iplen > 16 || fplen < 1 || fplen > 2 {
            return None;
        }
        let ghost ip = u.take(dot - off);
        let ghost fp = u.skip(dot - off + 1);
        proof {
            assert(ip =~= text@.subrange(off as int, dot as int));
            assert(fp =~= text@.subrange(dot + 1, n as int));
        }
        let ri = read_digits(text, off, dot);
        let rf = read_digits(text, dot + 1, n);
        match (ri, rf) {
            (Some(iv), Some(fv)) => {
                proof {
                    lemma_pow10_mono(((dot - off) as nat), 16);
                    assert(pow10(2) == 100) by {
                        reveal_with_fuel(pow10, 3);
                    }
                    assert(pow10(1) == 10) by {
                        reveal_with_fuel(pow10, 2);
                    }
                }
                let fval: u64 = if fplen == 1 {
                    fv * 10
                } else {
                    fv
                };
                Some(iv * 100 + fval)
            },
            _ => None,
        }
    }
}

/// Canonical text of a well-formed weight.
pub fn weight_to_text(w: Weight) -> (r: Vec<char>)
    requires
        weight_wf(w@),
    ensures
        r@ == canon_text(w@),
{
    let neg = w.hundredths < 0;
    let abs: u64 = if neg {
        (-w.hundredths) as u64
    } else {
        w.hundredths as u64
    };
    let mut out: Vec<char> = Vec::new();
    if neg {
        out.push('-');
    }
    let ip = abs / 100;
    let f = abs % 100;
    crate::decimal::push_digits(ip, &mut out);
    if f != 0 {
        out.push('.');
        out.push(digit_to_char_local(f / 10));
        if f % 10 != 0 {
            out.push(digit_to_char_local(f % 10));
        }
    }
    proof {
        assert(out@ =~= canon_text(w@));
    }
    out
}

fn digit_to_char_local(d: u64) -> (c: char)
    requires
        d < 10,
    ensures
        c == digit_char(d as int),
{
    if d == 0 {
        '0'
    } else if d == 1 {
        '1'
    } else if d == 2 {
        '2'
    } else if d == 3 {
        '3'
    } else if d == 4 {
        '4'
    } else if d == 5 {
        '5'
    } else if d == 6 {
        '6'
    } else if d == 7 {
        '7'
    } else if d == 8 {
        '8'
    } else {
        '9'
    }
}

proof fn lemma_unsigned_round_trip(v: int)
    requires
        0 <= v <= MAX_HUNDREDTHS as int,
    ensures
        parse_unsigned_text(canon_abs_text(v)) == Some(v),
{
    let ip = v / 100;
    let f = v % 100;
    assert(pow10(16) == 10000000000000000) by {
        reveal_with_fuel(pow10, 17);
    }
    lemma_dec_digits_all(ip);
    lemma_dec_digits_len(ip, 16);
    let d = dec_digits(ip);
    assert forall|k: int| 0 <= k < d.len() implies d[k] != '.' by {
        assert(is_dec_digit(d[k]));
    }
    if f == 0 {
        lemma_find_dot_none(d);
    } else if f % 10 == 0 {
        lemma_digit_char_val(f / 10);
        let s = d.push('.').push(digit_char(f / 10));
        assert(s[d.len() as int] == '.');
        assert forall|k: int| 0 <= k < d.len() implies s[k] != '.' by {
            assert(s[k] == d[k]);
        }
        lemma_find_dot_at(s, d.len() as int);
        assert(s.take(d.len() as int) =~= d);
        let fp = s.skip(d.len() as int + 1);
        assert(fp =~= seq![digit_char(f / 10)]);
        assert(dec_val(fp) == digit_val(digit_char(f / 10))) by {
            reveal_with_fuel(dec_val, 3);
            assert(fp.drop_last().len() == 0);
        }
    } else {
        lemma_digit_char_val(f / 10);
        lemma_digit_char_val(f % 10);
        let s = d.push('.').push(digit_char(f / 10)).push(digit_char(f % 10));
        assert(s[d.len() as int] == '.');
        assert forall|k: int| 0 <= k < d.len() implies s[k] != '.' by {
            assert(s[k] == d[k]);
        }
        lemma_find_dot_at(s, d.len() as int);
        assert(s.take(d.len() as int) =~= d);
        let fp = s.skip(d.len() as int + 1);
        assert(fp =~= seq![digit_char(f / 10), digit_char(f % 10)]);
        assert(dec_val(fp) == digit_val(digit_char(f / 10)) * 10 + digit_val(digit_char(f % 10)))
            by {
            reveal_with_fuel(dec_val, 4);
            assert(fp.drop_last() =~= seq![digit_char(f / 10)]);
            assert(fp.drop_last().drop_last().len() == 0);
        }
    }
}

/// Round trip: formatting a well-formed weight canonically and parsing the
/// text back yields the same value.
pub proof fn lemma_weight_round_trip(v: int)
    requires
        weight_wf(v),
    ensures
        parse_weight_text(canon_text(v)) == Some(v),
{
    if v >= 0 {
        lemma_unsigned_round_trip(v);
        let s = canon_abs_text(v);
        lemma_dec_digits_all(v / 100);
        assert(s[0] == dec_digits(v / 100)[0]);
        assert(is_dec_digit(s[0]));
        assert(s[0] != '-');
        assert(s.len() > 0);
    } else {
        lemma_unsigned_round_trip(-v);
        let s = seq!['-'] + canon_abs_text(-v);
        assert(s[0] == '-');
        assert(s.skip(1) =~= canon_abs_text(-v));
    }
}

} // verus!
