//! Formatting that cannot print a value that is not the value.
//!
//! `Formatter::pad` truncates to `precision` characters, which turns
//! `{:.2}` on `1190.00` into `11` — a different amount. Nothing here
//! truncates:
//!
//! * [`padded`] — width, fill and alignment, and precision **ignored**. For
//!   values where precision has no meaning: a date, a code, a path.
//! * [`number`] — the same, with precision read as a **minimum** number of
//!   fraction digits. Padding is lossless and truncation is not, so only one of
//!   them happens.

use vstd::prelude::*;

use crate::text::{chars_of, push_str, string_of};

verus! {

/// Where a value sits inside a wider field.
#[derive(Debug, Clone, Copy, PartialEq, Eq, Structural)]
pub enum Alignment {
    /// `<`
    Left,
    /// `>`
    Right,
    /// `^`
    Center,
}

/// The width, fill, alignment and precision a `{…}` placeholder asks for.
#[derive(Debug, Clone, Copy, PartialEq, Eq, Structural)]
pub struct FormatSpec {
    /// The fill character, `' '` unless stated.
    pub fill: char,
    /// The alignment, when stated.
    pub align: Option<Alignment>,
    /// The minimum width in characters, when stated.
    pub width: Option<usize>,
    /// The precision, when stated.
    pub precision: Option<usize>,
}

impl FormatSpec {
    /// `{}` — no width, no precision.
    pub fn plain() -> (s: FormatSpec)
        ensures
            s.fill == ' ',
            s.align is None,
            s.width is None,
            s.precision is None,
    {
        FormatSpec { fill: ' ', align: None, width: None, precision: None }
    }
}

/// `n` copies of `c`.
pub open spec fn repeat(c: char, n: int) -> Seq<char> {
    Seq::new(n as nat, |i: int| c)
}

/// `s` in a field of the requested width; precision is ignored.
pub open spec fn padded_text(spec: FormatSpec, s: Seq<char>) -> Seq<char> {
    match spec.width {
        None => s,
        Some(w) => if s.len() >= w {
            s
        } else {
            let pad = w - s.len();
            let before = match spec.align {
                Some(Alignment::Right) => pad,
                Some(Alignment::Center) => pad / 2,
                _ => 0,
            };
            repeat(spec.fill, before) + s + repeat(spec.fill, pad - before)
        },
    }
}

/// How many characters follow the first `.` of `v`; zero without one.
pub open spec fn fraction_len(v: Seq<char>) -> int {
    if exists|i: int| 0 <= i < v.len() && v[i] == '.' {
        v.len() - 1 - choose|i: int|
            0 <= i < v.len() && v[i] == '.' && forall|j: int| 0 <= j < i ==> v[j] != '.'
    } else {
        0
    }
}

/// `v` with zeros appended to reach the requested fraction digits, padded.
pub open spec fn number_text(spec: FormatSpec, v: Seq<char>) -> Seq<char> {
    match spec.precision {
        None => padded_text(spec, v),
        Some(want) => {
            let have = fraction_len(v);
            if have >= want {
                padded_text(spec, v)
            } else {
                padded_text(
                    spec,
                    v + (if have == 0 {
                        seq!['.']
                    } else {
                        Seq::empty()
                    }) + repeat('0', want - have),
                )
            }
        },
    }
}

/// Append `n` copies of `c`.
fn push_repeat(out: &mut Vec<char>, c: char, n: usize)
    ensures
        final(out)@ == old(out)@ + repeat(c, n as int),
{
    let ghost start = out@;
    let mut i: usize = 0;
    while i < n
        invariant
            i <= n,
            out@ == start + repeat(c, i as int),
        decreases n - i,
    {
        out.push(c);
        assert(repeat(c, i + 1) =~= repeat(c, i as int).push(c));
        i = i + 1;
    }
}

/// `s` honouring width, fill and alignment — and **never** precision.
///
/// Left alignment unless asked otherwise, as `Formatter::pad` does.
pub fn padded(spec: &FormatSpec, s: &str) -> (r: String)
    ensures
        r@ == padded_text(*spec, s@),
{
    let v = chars_of(s);
    match spec.width {
        None => string_of(&v),
        Some(w) => {
            if v.len() >= w {
                return string_of(&v);
            }
            let pad = w - v.len();
            let before: usize = match spec.align {
                Some(Alignment::Right) => pad,
                Some(Alignment::Center) => pad / 2,
                _ => 0,
            };
            let mut out: Vec<char> = Vec::new();
            push_repeat(&mut out, spec.fill, before);
            push_str(&mut out, s);
            push_repeat(&mut out, spec.fill, pad - before);
            string_of(&out)
        },
    }
}

/// As [`padded`], reading precision as a **minimum** number of fraction
/// digits: zeros are appended to reach it and nothing is ever removed.
///
/// `value` is a canonical rendering — `"1190.00"`, `"19"`, `"0.28901"` — so
/// it is plain ASCII.
pub fn number(spec: &FormatSpec, value: &str) -> (r: String)
    requires
        forall|i: int| 0 <= i < value@.len() ==> (#[trigger] value@[i] as u32) < 128,
    ensures
        r@ == number_text(*spec, value@),
{
    let want = match spec.precision {
        None => {
            return padded(spec, value);
        },
        Some(p) => p,
    };
    let v = chars_of(value);
    let mut i: usize = 0;
    while i < v.len() && v[i] != '.'
        invariant
            i <= v@.len(),
            v@ == value@,
            forall|j: int| 0 <= j < i ==> v@[j] != '.',
        decreases v.len() - i,
    {
        i = i + 1;
    }
    let have: usize = if i < v.len() {
        v.len() - 1 - i
    } else {
        0
    };
    proof {
        if i < v@.len() {
            let k = choose|k: int|
                0 <= k < v@.len() && v@[k] == '.' && forall|j: int| 0 <= j < k ==> v@[j] != '.';
            assert(v@[i as int] == '.');
            if k < i {
                assert(v@[k] != '.');
            }
            if i < k {
                assert(v@[i as int] != '.');
            }
            assert(have == fraction_len(value@));
        } else {
            assert(!exists|k: int| 0 <= k < v@.len() && v@[k] == '.');
            assert(have == fraction_len(value@));
        }
    }
    if have >= want {
        return padded(spec, value);
    }
    let mut out: Vec<char> = Vec::new();
    push_str(&mut out, value);
    if have == 0 {
        out.push('.');
    }
    push_repeat(&mut out, '0', want - have);
    let widened = string_of(&out);
    assert(widened@ =~= value@ + (if have == 0 {
        seq!['.']
    } else {
        Seq::empty()
    }) + repeat('0', want - have));
    padded(spec, widened.as_str())
}

} // verus!
