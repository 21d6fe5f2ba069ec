use vstd::prelude::*;
use crate::scan::{find, find_exec, piece_before, piece_before_exec, slice_of};

verus! {

/// The largest whole number a field of a clock reading may hold; larger
/// readings are not taken, which keeps every reading in milliseconds far
/// from the limits of `u64`.
pub const MAX_WHOLE: u64 = 999_999;

pub open spec fn is_digit(c: char) -> bool {
    48 <= (c as u32) && (c as u32) <= 57
}

pub open spec fn digit_value(c: char) -> nat {
    ((c as u32) - 48) as nat
}

pub open spec fn all_digits(s: Seq<char>) -> bool {
    forall|i: int| 0 <= i < s.len() ==> is_digit(#[trigger] s[i])
}

/// The number a string of decimal digits stands for.
pub open spec fn digits_value(s: Seq<char>) -> nat
    decreases s.len(),
{
    if s.len() == 0 {
        0
    } else {
        digits_value(s.drop_last()) * 10 + digit_value(s.last())
    }
}

/// Thousandths given by the digits after a decimal point; later digits are
/// dropped.
pub open spec fn fraction_millis(f: Seq<char>) -> nat {
    (if f.len() > 0 { digit_value(f[0]) * 100 } else { 0 }) + (if f.len() > 1 {
        digit_value(f[1]) * 10
    } else {
        0
    }) + (if f.len() > 2 { digit_value(f[2]) } else { 0 })
}

pub open spec fn dot() -> Seq<char> {
    seq!['.']
}

pub open spec fn colon() -> Seq<char> {
    seq![':']
}

/// The digits after the first decimal point of `s`, if it has one.
pub open spec fn fraction_part(s: Seq<char>) -> Seq<char> {
    match find(s, dot()) {
        Some(i) => s.subrange(i + 1, s.len() as int),
        None => Seq::empty(),
    }
}

/// A decimal number such as `12`, `07.5` or `.25`, in thousandths.
pub open spec fn decimal_millis(s: Seq<char>) -> Option<nat> {
    let whole = piece_before(s, dot());
    let frac = fraction_part(s);
    if all_digits(whole) && all_digits(frac) && (whole.len() > 0 || frac.len() > 0)
        && digits_value(whole) <= MAX_WHOLE {
        Some(digits_value(whole) * 1000 + fraction_millis(frac))
    } else {
        None
    }
}

/// A decimal number with an optional leading sign, in thousandths.
pub open spec fn signed_millis(s: Seq<char>) -> Option<int> {
    if s.len() > 0 && (s[0] == '-' || s[0] == '+') {
        match decimal_millis(s.drop_first()) {
            Some(v) => Some(if s[0] == '-' { -v } else { v as int }),
            None => None,
        }
    } else {
        match decimal_millis(s) {
            Some(v) => Some(v as int),
            None => None,
        }
    }
}

/// The first three colon-separated fields of `tok`, if it has at least three.
pub open spec fn clock_fields(tok: Seq<char>) -> Option<(Seq<char>, Seq<char>, Seq<char>)> {
    match find(tok, colon()) {
        Some(a) => {
            let r1 = tok.subrange(a + 1, tok.len() as int);
            match find(r1, colon()) {
                Some(b) => {
                    let r2 = r1.subrange(b + 1, r1.len() as int);
                    Some((tok.subrange(0, a), r1.subrange(0, b), piece_before(r2, colon())))
                },
                None => None,
            }
        },
        None => None,
    }
}

/// A clock reading `HH:MM:SS[.fff]` in milliseconds. Each field may carry a
/// sign; a reading that comes out below zero counts as zero.
pub open spec fn clock_millis(tok: Seq<char>) -> Option<nat> {
    match clock_fields(tok) {
        Some((h, m, s)) => match (signed_millis(h), signed_millis(m), signed_millis(s)) {
            (Some(hv), Some(mv), Some(sv)) => {
                let t = hv * 3600 + mv * 60 + sv;
                Some(if t < 0 { 0 } else { t as nat })
            },
            _ => None,
        },
        None => None,
    }
}

/// The largest reading `clock_millis` gives.
pub open spec fn max_clock() -> nat {
    (3661 * (MAX_WHOLE * 1000 + 999)) as nat
}

proof fn lemma_digits_prefix(s: Seq<char>, k: int)
    requires
        0 <= k <= s.len(),
        all_digits(s),
    ensures
        digits_value(s.subrange(0, k)) <= digits_value(s),
    decreases s.len(),
{
    if k < s.len() {
        let d = s.drop_last();
        assert(all_digits(d));
        lemma_digits_prefix(d, k);
        assert(d.subrange(0, k) =~= s.subrange(0, k));
    } else {
        assert(s.subrange(0, k) =~= s);
    }
}

fn is_digit_exec(c: char) -> (r: bool)
    ensures
        r == is_digit(c),
{
    let u = c as u32;
    48 <= u && u <= 57
}

/// The value of a string of digits, if it is one and at most `MAX_WHOLE`.
fn whole_value(s: &Vec<char>) -> (r: Option<u64>)
    ensures
        match r {
            Some(v) => all_digits(s@) && digits_value(s@) <= MAX_WHOLE && v == digits_value(s@),
            None => !(all_digits(s@) && digits_value(s@) <= MAX_WHOLE),
        },
{
    let n = s.len();
    let mut acc: u64 = 0;
    let mut i: usize = 0;
    assert(s@.subrange(0, 0) =~= Seq::<char>::empty());
    while i < n
        invariant
            n == s@.len(),
            i <= n,
            all_digits(s@.subrange(0, i as int)),
            acc == digits_value(s@.subrange(0, i as int)),
            acc <= MAX_WHOLE,
        decreases n - i,
    {
        let c = s[i];
        if !is_digit_exec(c) {
            assert(!is_digit(s@[i as int]));
            return None;
        }
        let next = acc * 10 + (c as u32 - 48) as u64;
        proof {
            let p = s@.subrange(0, i as int + 1);
            assert(p.drop_last() =~= s@.subrange(0, i as int));
            assert(all_digits(p));
            if all_digits(s@) {
                lemma_digits_prefix(s@, i as int + 1);
            }
        }
        if next > MAX_WHOLE {
            return None;
        }
        acc = next;
        i = i + 1;
    }
    assert(s@.subrange(0, n as int) =~= s@);
    Some(acc)
}

fn all_digits_exec(s: &Vec<char>) -> (r: bool)
    ensures
        r == all_digits(s@),
{
    let mut i: usize = 0;
    while i < s.len()
        invariant
            forall|k: int| 0 <= k < i ==> is_digit(#[trigger] s@[k]),
        decreases s@.len() - i,
    {
        if !is_digit_exec(s[i]) {
            return false;
        }
        i = i + 1;
    }
    true
}

fn digit_at(f: &Vec<char>, i: usize) -> (r: u64)
    requires
        all_digits(f@),
    ensures
        r == if i < f@.len() { digit_value(f@[i as int]) } else { 0 },
        r <= 9,
{
    if i < f.len() {
        (f[i] as u32 - 48) as u64
    } else {
        0
    }
}

/// A decimal number in thousandths, as `decimal_millis` reads it.
pub fn parse_decimal_millis(s: &Vec<char>) -> (r: Option<u64>)
    ensures
        match r {
            Some(v) => decimal_millis(s@) == Some(v as nat) && v <= MAX_WHOLE * 1000 + 999,
            None => decimal_millis(s@) is None,
        },
{
    let d: Vec<char> = vec!['.'];
    assert(d@ =~= dot());
    let n = s.len();
    let whole = piece_before_exec(s, &d);
    let frac = match find_exec(s, &d) {
        Some(i) => slice_of(s, i + 1, n),
        None => Vec::new(),
    };
    assert(frac@ =~= fraction_part(s@));
    if whole.len() == 0 && frac.len() == 0 {
        return None;
    }
    let w = match whole_value(&whole) {
        Some(w) => w,
        None => return None,
    };
    if !all_digits_exec(&frac) {
        return None;
    }
    let f = digit_at(&frac, 0) * 100 + digit_at(&frac, 1) * 10 + digit_at(&frac, 2);
    Some(w * 1000 + f)
}

/// A signed decimal number in thousandths, as `signed_millis` reads it.
pub fn parse_signed_millis(s: &Vec<char>) -> (r: Option<i64>)
    ensures
        match r {
            Some(v) => signed_millis(s@) == Some(v as int) && -(MAX_WHOLE * 1000 + 999) <= v
                <= MAX_WHOLE * 1000 + 999,
            None => signed_millis(s@) is None,
        },
{
    let n = s.len();
    if n > 0 && (s[0] == '-' || s[0] == '+') {
        let rest = slice_of(s, 1, n);
        assert(rest@ =~= s@.drop_first());
        match parse_decimal_millis(&rest) {
            Some(v) => if s[0] == '-' {
                Some(-(v as i64))
            } else {
                Some(v as i64)
            },
            None => None,
        }
    } else {
        match parse_decimal_millis(s) {
            Some(v) => Some(v as i64),
            None => None,
        }
    }
}

/// A clock reading `HH:MM:SS[.fff]` in milliseconds, as `clock_millis`
/// reads it.
pub fn parse_clock_millis(tok: &Vec<char>) -> (r: Option<u64>)
    ensures
        match r {
            Some(v) => clock_millis(tok@) == Some(v as nat) && v <= max_clock(),
            None => clock_millis(tok@) is None,
        },
{
    let n = tok.len();
    let c: Vec<char> = vec![':'];
    assert(c@ =~= colon());
    let a = match find_exec(tok, &c) {
        Some(a) => a,
        None => return None,
    };
    let r1 = slice_of(tok, a + 1, n);
    let b = match find_exec(&r1, &c) {
        Some(b) => b,
        None => return None,
    };
    let r2 = slice_of(&r1, b + 1, r1.len());
    let hours = slice_of(tok, 0, a);
    let minutes = slice_of(&r1, 0, b);
    let seconds = piece_before_exec(&r2, &c);
    let h = match parse_signed_millis(&hours) {
        Some(h) => h,
        None => return None,
    };
    let m = match parse_signed_millis(&minutes) {
        Some(m) => m,
        None => return None,
    };
    let s = match parse_signed_millis(&seconds) {
        Some(s) => s,
        None => return None,
    };
    let t = h * 3600 + m * 60 + s;
    if t < 0 {
        Some(0)
    } else {
        Some(t as u64)
    }
}

} // verus!
