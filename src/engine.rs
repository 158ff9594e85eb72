use vstd::prelude::*;

verus! {

/// Which build of the engine to fetch.
#[derive(Clone, Copy, Debug, PartialEq, Eq, Structural)]
pub enum EngineVariant {
    /// The OpenCL build.
    Gpu,
    /// The Eigen build, for the CPU.
    Cpu,
}

/// The characters that `char::is_whitespace` accepts: Unicode's White_Space.
pub open spec fn is_white_space(c: char) -> bool {
    ||| ('\u{9}' <= c && c <= '\u{d}')
    ||| c == ' '
    ||| c == '\u{85}'
    ||| c == '\u{a0}'
    ||| c == '\u{1680}'
    ||| ('\u{2000}' <= c && c <= '\u{200a}')
    ||| c == '\u{2028}'
    ||| c == '\u{2029}'
    ||| c == '\u{202f}'
    ||| c == '\u{205f}'
    ||| c == '\u{3000}'
}

pub open spec fn trim_start(s: Seq<char>) -> Seq<char>
    decreases s.len(),
{
    if s.len() > 0 && is_white_space(s[0]) {
        trim_start(s.drop_first())
    } else {
        s
    }
}

pub open spec fn trim_end(s: Seq<char>) -> Seq<char>
    decreases s.len(),
{
    if s.len() > 0 && is_white_space(s.last()) {
        trim_end(s.drop_last())
    } else {
        s
    }
}

/// `s` without its leading and trailing white space.
pub open spec fn trimmed(s: Seq<char>) -> Seq<char> {
    trim_end(trim_start(s))
}

pub open spec fn is_digit(c: char) -> bool {
    '0' <= c && c <= '9'
}

/// The number that a run of decimal digits denotes.
pub open spec fn digits_value(s: Seq<char>) -> nat
    decreases s.len(),
{
    if s.len() == 0 {
        0
    } else {
        digits_value(s.drop_last()) * 10 + (s.last() as nat - '0' as nat) as nat
    }
}

/// The digits of an unsigned decimal numeral, after its optional plus sign.
pub open spec fn numeral_digits(s: Seq<char>) -> Seq<char> {
    if s.len() > 0 && s[0] == '+' {
        s.drop_first()
    } else {
        s
    }
}

/// What parsing `s` as a `u32` gives: an optional plus sign and at least one
/// decimal digit, nothing else, with a value that fits.
pub open spec fn decimal_u32(s: Seq<char>) -> Option<u32> {
    let d = numeral_digits(s);
    if d.len() > 0 && (forall|i: int| 0 <= i < d.len() ==> is_digit(#[trigger] d[i]))
        && digits_value(d) <= u32::MAX {
        Some(digits_value(d) as u32)
    } else {
        None
    }
}

/// The variant that a number picks from the menu, if any.
pub open spec fn variant_of(n: Option<u32>) -> Option<EngineVariant> {
    match n {
        Some(1) => Some(EngineVariant::Gpu),
        Some(2) => Some(EngineVariant::Cpu),
        _ => None,
    }
}

/// Relies on `str::trim`: leading and trailing white space removed.
#[verifier::external_body]
fn trim_text(s: &str) -> (r: &str)
    ensures
        r@ == trimmed(s@),
{
    s.trim()
}

/// Relies on `str::parse::<u32>`: an optional `+` and decimal digits whose
/// value fits, and nothing else, parse to that value.
#[verifier::external_body]
fn parse_u32(s: &str) -> (r: Option<u32>)
    ensures
        r == decimal_u32(s@),
{
    s.parse::<u32>().ok()
}

/// Reads the answer to the menu: `1` picks the GPU build, `2` the CPU build,
/// with white space around the number allowed; anything else is no choice.
pub fn parse_choice(input: &str) -> (r: Option<EngineVariant>)
    ensures
        r == variant_of(decimal_u32(trimmed(input@))),
{
    let n = parse_u32(trim_text(input));
    match n {
        Some(1) => Some(EngineVariant::Gpu),
        Some(2) => Some(EngineVariant::Cpu),
        _ => None,
    }
}

} // verus!
