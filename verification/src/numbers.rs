//! Decimal text: parsing the non-negative integer fields of a probe, and
//! rendering integers back to the decimal form the wire uses.

use vstd::prelude::*;
use vstd::string::StrSliceExecFns;
use vstd::string::StringExecFns;

verus! {

/// Why a decimal field failed to parse.
#[derive(Debug, Clone, Copy, PartialEq, Eq, Structural)]
pub enum NumError {
    /// The field was the empty string.
    Empty,
    /// A character that is not a decimal digit was found.
    InvalidDigit,
    /// The digits name a value above the field's maximum.
    Overflow,
}

/// The message of a parse failure, as the standard decimal parser words
/// it.
pub open spec fn num_msg(e: NumError) -> Seq<char> {
    match e {
        NumError::Empty => "cannot parse integer from empty string"@,
        NumError::InvalidDigit => "invalid digit found in string"@,
        NumError::Overflow => "number too large to fit in target type"@,
    }
}

impl NumError {
    /// The one-line message of this parse failure.
    pub fn message(&self) -> (r: String)
        ensures
            r@ == num_msg(*self),
    {
        match self {
            NumError::Empty => String::from_str("cannot parse integer from empty string"),
            NumError::InvalidDigit => String::from_str("invalid digit found in string"),
            NumError::Overflow => String::from_str("number too large to fit in target type"),
        }
    }
}

/// Whether `c` is a decimal digit.
pub open spec fn is_digit_char(c: char) -> bool {
    48 <= c as u32 && c as u32 <= 57
}

/// The value of the decimal digit `c`.
pub open spec fn digit_val(c: char) -> int {
    c as u32 - 48
}

/// Scans `t` left to right from position `i` with accumulator `acc`, as the
/// standard decimal parser does: a non-digit stops the scan before the value
/// is extended, and a value that would pass `max` stops it at that digit.
pub open spec fn spec_scan(t: Seq<char>, i: int, acc: int, max: int) -> Result<int, NumError>
    decreases t.len() - i,
{
    if i < 0 || i >= t.len() {
        Ok(acc)
    } else if !is_digit_char(t[i]) {
        Err(NumError::InvalidDigit)
    } else if acc * 10 + digit_val(t[i]) > max {
        Err(NumError::Overflow)
    } else {
        spec_scan(t, i + 1, acc * 10 + digit_val(t[i]), max)
    }
}

/// The outcome of parsing `s` as a non-negative decimal integer bounded by
/// `max`: an optional leading `+`, then at least one digit, every character
/// a digit, and the named value at most `max`.
pub open spec fn spec_parse(s: Seq<char>, max: int) -> Result<int, NumError> {
    if s.len() == 0 {
        Err(NumError::Empty)
    } else {
        let t = if s[0] == '+' {
            s.skip(1)
        } else {
            s
        };
        if t.len() == 0 {
            Err(NumError::InvalidDigit)
        } else {
            spec_scan(t, 0, 0, max)
        }
    }
}

/// Parses `s` as a non-negative decimal integer that fits in `usize`,
/// accepting an optional leading `+`, exactly as [`spec_parse`] says.
pub fn parse_usize(s: &str) -> (r: Result<usize, NumError>)
    ensures
        match r {
            Ok(v) => spec_parse(s@, usize::MAX as int) == Ok::<int, NumError>(v as int),
            Err(e) => spec_parse(s@, usize::MAX as int) == Err::<int, NumError>(e),
        },
{
    let n = s.unicode_len();
    if n == 0 {
        return Err(NumError::Empty);
    }
    let first = s.get_char(0);
    let start: usize = if first == '+' {
        1
    } else {
        0
    };
    let ghost t: Seq<char> = if first == '+' {
        s@.skip(1)
    } else {
        s@
    };
    if n == start {
        return Err(NumError::InvalidDigit);
    }
    let mut acc: usize = 0;
    let mut i: usize = start;
    while i < n
        invariant
            start <= i <= n,
            n == s@.len(),
            start == 0 || start == 1,
            start == 1 ==> s@[0] == '+' && t == s@.skip(1),
            start == 0 ==> s@[0] != '+' && t == s@,
            t.len() == n - start,
            forall|j: int| 0 <= j < t.len() ==> t[j] == s@[j + start],
            0 <= acc <= usize::MAX,
            spec_scan(t, 0, 0, usize::MAX as int) == spec_scan(
                t,
                i - start,
                acc as int,
                usize::MAX as int,
            ),
        decreases n - i,
    {
        let c = s.get_char(i);
        assert(c == t[i - start]);
        let cu: u32 = c as u32;
        if !(48 <= cu && cu <= 57) {
            return Err(NumError::InvalidDigit);
        }
        let d: usize = (cu - 48) as usize;
        if acc > (usize::MAX - d) / 10 {
            assert(acc as int * 10 + d as int > usize::MAX as int) by (nonlinear_arith)
                requires
                    acc as int > (usize::MAX as int - d as int) / 10,
                    0 <= d <= 9,
                    0 <= acc,
            ;
            return Err(NumError::Overflow);
        }
        assert(acc as int * 10 + d as int <= usize::MAX as int) by (nonlinear_arith)
            requires
                acc as int <= (usize::MAX as int - d as int) / 10,
                0 <= d <= 9,
                0 <= acc,
        ;
        acc = acc * 10 + d;
        i = i + 1;
    }
    Ok(acc)
}

/// Parses `s` as a decimal integer that fits in `u8`, accepting an optional
/// leading `+`, exactly as [`spec_parse`] says.
pub fn parse_u8(s: &str) -> (r: Result<u8, NumError>)
    ensures
        match r {
            Ok(v) => spec_parse(s@, 255) == Ok::<int, NumError>(v as int),
            Err(e) => spec_parse(s@, 255) == Err::<int, NumError>(e),
        },
{
    let n = s.unicode_len();
    if n == 0 {
        return Err(NumError::Empty);
    }
    let first = s.get_char(0);
    let start: usize = if first == '+' {
        1
    } else {
        0
    };
    let ghost t: Seq<char> = if first == '+' {
        s@.skip(1)
    } else {
        s@
    };
    if n == start {
        return Err(NumError::InvalidDigit);
    }
    let mut acc: u8 = 0;
    let mut i: usize = start;
    while i < n
        invariant
            start <= i <= n,
            n == s@.len(),
            start == 0 || start == 1,
            start == 1 ==> s@[0] == '+' && t == s@.skip(1),
            start == 0 ==> s@[0] != '+' && t == s@,
            t.len() == n - start,
            forall|j: int| 0 <= j < t.len() ==> t[j] == s@[j + start],
            0 <= acc <= 255,
            spec_scan(t, 0, 0, 255) == spec_scan(t, i - start, acc as int, 255),
        decreases n - i,
    {
        let c = s.get_char(i);
        assert(c == t[i - start]);
        let cu: u32 = c as u32;
        if !(48 <= cu && cu <= 57) {
            return Err(NumError::InvalidDigit);
        }
        let d: u32 = cu - 48;
        let wide: u32 = (acc as u32) * 10 + d;
        if wide > 255 {
            return Err(NumError::Overflow);
        }
        acc = wide as u8;
        i = i + 1;
    }
    Ok(acc)
}

/// The canonical decimal digits of the non-negative integer `n`: no sign,
/// no leading zeros.
pub open spec fn dec_digits(n: int) -> Seq<char>
    decreases n,
{
    if n < 0 {
        Seq::empty()
    } else if n < 10 {
        seq![((48 + n) as u32) as char]
    } else {
        dec_digits(n / 10) + seq![((48 + n % 10) as u32) as char]
    }
}

/// Scanning one more digit appended to a sequence the scan accepts
/// extends the accepted value by that digit, or overflows.
proof fn lemma_scan_push(s: Seq<char>, d: char, i: int, acc: int, max: int)
    requires
        0 <= i <= s.len(),
        is_digit_char(d),
        spec_scan(s, i, acc, max) is Ok,
    ensures
        ({
            let v = spec_scan(s, i, acc, max)->Ok_0;
            spec_scan(s.push(d), i, acc, max) == if v * 10 + digit_val(d) <= max {
                Ok::<int, NumError>(v * 10 + digit_val(d))
            } else {
                Err::<int, NumError>(NumError::Overflow)
            }
        }),
    decreases s.len() - i,
{
    reveal_with_fuel(spec_scan, 3);
    assert(s.push(d).len() == s.len() + 1);
    assert(s.push(d)[s.len() as int] == d);
    if i < s.len() {
        assert(s.push(d)[i] == s[i]);
        lemma_scan_push(s, d, i + 1, acc * 10 + digit_val(s[i]), max);
    }
}

/// The canonical decimal digits of `n` are non-empty, start with a digit,
/// and scan back to exactly `n` under any bound that admits `n`.
proof fn lemma_scan_dec_digits(n: int, max: int)
    requires
        0 <= n <= max,
    ensures
        dec_digits(n).len() > 0,
        is_digit_char(dec_digits(n)[0]),
        spec_scan(dec_digits(n), 0, 0, max) == Ok::<int, NumError>(n),
    decreases n,
{
    reveal_with_fuel(spec_scan, 3);
    if n < 10 {
        assert(dec_digits(n) == seq![((48 + n) as u32) as char]);
        assert(dec_digits(n)[0] as u32 == 48 + n);
    } else {
        let head = dec_digits(n / 10);
        let d = ((48 + n % 10) as u32) as char;
        lemma_scan_dec_digits(n / 10, max);
        assert(dec_digits(n) =~= head.push(d));
        assert(d as u32 == 48 + n % 10);
        lemma_scan_push(head, d, 0, 0, max);
        assert((n / 10) * 10 + n % 10 == n);
        assert(dec_digits(n)[0] == head[0]);
    }
}

/// The canonical decimal digits of `n` parse back to exactly `n`: the
/// rendering of [`dec_digits`] and the parsing of [`spec_parse`] are
/// inverse on every value a bounded field admits.
pub proof fn lemma_parse_dec_digits(n: int, max: int)
    requires
        0 <= n <= max,
    ensures
        spec_parse(dec_digits(n), max) == Ok::<int, NumError>(n),
{
    lemma_scan_dec_digits(n, max);
    assert(dec_digits(n)[0] != '+');
}

/// One decimal digit as text.
fn digit_str(d: usize) -> (r: &'static str)
    requires
        d < 10,
    ensures
        r@ == dec_digits(d as int),
{
    proof {
        reveal_strlit("0");
        reveal_strlit("1");
        reveal_strlit("2");
        reveal_strlit("3");
        reveal_strlit("4");
        reveal_strlit("5");
        reveal_strlit("6");
        reveal_strlit("7");
        reveal_strlit("8");
        reveal_strlit("9");
    }
    let r = if d == 0 {
        "0"
    } else if d == 1 {
        "1"
    } else if d == 2 {
        "2"
    } else if d == 3 {
        "3"
    } else if d == 4 {
        "4"
    } else if d == 5 {
        "5"
    } else if d == 6 {
        "6"
    } else if d == 7 {
        "7"
    } else if d == 8 {
        "8"
    } else {
        "9"
    };
    proof {
        assert(r@ =~= dec_digits(d as int));
    }
    r
}

/// Renders `n` as canonical decimal text.
pub fn usize_to_string(n: usize) -> (r: String)
    ensures
        r@ == dec_digits(n as int),
    decreases n,
{
    if n < 10 {
        String::from_str(digit_str(n))
    } else {
        let prefix = usize_to_string(n / 10);
        let r = prefix.concat(digit_str(n % 10));
        proof {
            assert(r@ =~= dec_digits(n as int));
        }
        r
    }
}

/// Renders the byte `b` as canonical decimal text.
pub fn u8_to_string(b: u8) -> (r: String)
    ensures
        r@ == dec_digits(b as int),
{
    usize_to_string(b as usize)
}

} // verus!
