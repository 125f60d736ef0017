//! Decimal rendering and parsing for the values the daemonization
//! procedure writes and reports: the pid placed in the pid file and the OS
//! error codes quoted in error messages. Rendering and parsing are exact
//! inverses, so the pid read back from a pid file is the pid that was
//! written.

use vstd::prelude::*;

verus! {

/// The digit character for a value below ten.
pub open spec fn digit_char(d: int) -> char {
    if d == 0 {
        '0'
    } else if d == 1 {
        '1'
    } else if d == 2 {
        '2'
    } else if d == 3 {
        '3'
    } else if d == 4 {
        '4'
    } else if d == 5 {
        '5'
    } else if d == 6 {
        '6'
    } else if d == 7 {
        '7'
    } else if d == 8 {
        '8'
    } else {
        '9'
    }
}

/// The numeric value of a digit character; meaningful on '0' through '9'.
pub open spec fn digit_val(c: char) -> int {
    c as int - '0' as int
}

/// Whether a character is a decimal digit.
pub open spec fn is_digit(c: char) -> bool {
    '0' as int <= c as int <= '9' as int
}

/// The decimal rendering of a nonnegative value: most significant digit
/// first, no sign, no leading zeros except for the single digit of zero
/// itself.
pub open spec fn spec_decimal(n: nat) -> Seq<char>
    decreases n,
{
    if n < 10 {
        seq![digit_char(n as int)]
    } else {
        spec_decimal(n / 10).push(digit_char((n % 10) as int))
    }
}

/// The decimal rendering of a signed value: a leading minus sign for
/// negative values, then the rendering of the magnitude.
pub open spec fn spec_signed_decimal(n: int) -> Seq<char> {
    if n < 0 {
        seq!['-'] + spec_decimal((-n) as nat)
    } else {
        spec_decimal(n as nat)
    }
}

/// The value of a digit string, most significant digit first; meaningful
/// when every character is a digit.
pub open spec fn spec_parse_decimal(s: Seq<char>) -> int
    decreases s.len(),
{
    if s.len() == 0 {
        0
    } else {
        spec_parse_decimal(s.drop_last()) * 10 + digit_val(s.last())
    }
}

/// A single digit renders as a string of length one holding its digit
/// character.
fn digit_str(d: u64) -> (r: &'static str)
    requires
        d < 10,
    ensures
        r@ =~= seq![digit_char(d as int)],
{
    proof {
        reveal_strlit("0");
        reveal_strlit("1");
        reveal_strlit("2");
        reveal_strlit("3");
        reveal_strlit("4");
        reveal_strlit("5");
        reveal_strlit("6");
        reveal_strlit("7");
        reveal_strlit("8");
        reveal_strlit("9");
    }
    if d == 0 {
        "0"
    } else if d == 1 {
        "1"
    } else if d == 2 {
        "2"
    } else if d == 3 {
        "3"
    } else if d == 4 {
        "4"
    } else if d == 5 {
        "5"
    } else if d == 6 {
        "6"
    } else if d == 7 {
        "7"
    } else if d == 8 {
        "8"
    } else {
        "9"
    }
}

/// Renders a nonnegative value in decimal.
pub fn format_u64(n: u64) -> (s: String)
    ensures
        s@ == spec_decimal(n as nat),
    decreases n,
{
    if n < 10 {
        String::from_str(digit_str(n))
    } else {
        let mut s = format_u64(n / 10);
        s.append(digit_str(n % 10));
        proof {
            assert(s@ =~= spec_decimal(n as nat));
        }
        s
    }
}

/// Renders a signed value in decimal, with a leading minus sign when it is
/// negative.
pub fn format_i64(n: i64) -> (s: String)
    ensures
        s@ == spec_signed_decimal(n as int),
{
    if n >= 0 {
        format_u64(n as u64)
    } else {
        let magnitude: u64 = (-(n as i128)) as u64;
        let mut s = String::from_str("-");
        s.append(format_u64(magnitude).as_str());
        proof {
            reveal_strlit("-");
            assert(s@ =~= spec_signed_decimal(n as int));
        }
        s
    }
}

/// Parses a decimal digit string. Returns the value exactly when the
/// input is nonempty, consists of digits only, and its value fits in the
/// result type; returns nothing otherwise.
pub fn parse_decimal(s: &str) -> (r: Option<u64>)
    ensures
        match r {
            Some(v) => s@.len() > 0 && (forall|i: int| 0 <= i < s@.len() ==> is_digit(s@[i]))
                && v as int == spec_parse_decimal(s@),
            None => s@.len() == 0 || (exists|i: int| 0 <= i < s@.len() && !is_digit(s@[i]))
                || spec_parse_decimal(s@) > u64::MAX,
        },
{
    let len = s.unicode_len();
    if len == 0 {
        return None;
    }
    let mut acc: u64 = 0;
    let mut i: usize = 0;
    while i < len
        invariant
            0 <= i <= len,
            len == s@.len(),
            forall|j: int| 0 <= j < i ==> is_digit(s@[j]),
            acc as int == spec_parse_decimal(s@.take(i as int)),
        decreases len - i,
    {
        let c = s.get_char(i);
        let cu = c as u32;
        if cu < '0' as u32 || cu > '9' as u32 {
            assert(!is_digit(s@[i as int]));
            return None;
        }
        let d = (cu - '0' as u32) as u64;
        if acc > (u64::MAX - d) / 10 {
            proof {
                lemma_parse_step(s@, i as int);
                assert((acc as int) * 10 + d as int > u64::MAX) by (nonlinear_arith)
                    requires
                        (acc as int) > ((u64::MAX as int) - (d as int)) / 10,
                        0 <= (d as int) && (d as int) < 10;
                if forall|j: int| 0 <= j < s@.len() ==> is_digit(s@[j]) {
                    assert(forall|j: int| 0 <= j < s@.len() ==> digit_val(s@[j]) >= 0);
                    lemma_parse_prefix_le(s@, i as int + 1);
                }
            }
            return None;
        }
        proof {
            lemma_parse_step(s@, i as int);
            assert((acc as int) * 10 + d as int <= u64::MAX) by (nonlinear_arith)
                requires
                    (acc as int) <= ((u64::MAX as int) - (d as int)) / 10,
                    0 <= (d as int) && (d as int) < 10;
        }
        acc = acc * 10 + d;
        i = i + 1;
    }
    proof {
        assert(s@.take(len as int) =~= s@);
    }
    Some(acc)
}

/// Taking one more character multiplies the parsed prefix by ten and adds
/// the digit.
proof fn lemma_parse_step(s: Seq<char>, i: int)
    requires
        0 <= i < s.len(),
    ensures
        spec_parse_decimal(s.take(i + 1)) == spec_parse_decimal(s.take(i)) * 10 + digit_val(
            s[i],
        ),
{
    assert(s.take(i + 1).drop_last() =~= s.take(i));
    assert(s.take(i + 1).last() == s[i]);
}

/// On an all-digit string, the value of the whole is at least the value of
/// any prefix.
proof fn lemma_parse_prefix_le(s: Seq<char>, i: int)
    requires
        0 <= i <= s.len(),
        forall|j: int| 0 <= j < s.len() ==> is_digit(s[j]),
        forall|j: int| 0 <= j < s.len() ==> digit_val(s[j]) >= 0,
    ensures
        spec_parse_decimal(s.take(i)) <= spec_parse_decimal(s),
        spec_parse_decimal(s) >= 0,
    decreases s.len() - i,
{
    if i == s.len() {
        assert(s.take(i) =~= s);
        lemma_parse_nonneg(s);
    } else {
        lemma_parse_prefix_le(s, i + 1);
        lemma_parse_step(s, i);
        lemma_parse_nonneg(s.take(i));
        assert(spec_parse_decimal(s.take(i)) <= spec_parse_decimal(s.take(i)) * 10) by (nonlinear_arith)
            requires
                spec_parse_decimal(s.take(i)) >= 0;
    }
}

/// The value of an all-digit string is nonnegative.
proof fn lemma_parse_nonneg(s: Seq<char>)
    requires
        forall|j: int| 0 <= j < s.len() ==> is_digit(s[j]),
    ensures
        spec_parse_decimal(s) >= 0,
    decreases s.len(),
{
    if s.len() > 0 {
        lemma_parse_nonneg(s.drop_last());
        assert(spec_parse_decimal(s.drop_last()) * 10 >= 0) by (nonlinear_arith)
            requires
                spec_parse_decimal(s.drop_last()) >= 0;
    }
}

/// A digit character carries the value of its digit.
proof fn lemma_digit_char_val(d: int)
    requires
        0 <= d < 10,
    ensures
        digit_val(digit_char(d)) == d,
{
}

/// Rendering in decimal and parsing the rendering round-trips: the parsed
/// value is the value that was rendered.
pub proof fn lemma_decimal_round_trip(n: nat)
    ensures
        spec_parse_decimal(spec_decimal(n)) == n,
    decreases n,
{
    if n < 10 {
        let s0 = spec_decimal(n);
        assert(s0 == seq![digit_char(n as int)]);
        assert(s0.len() == 1);
        assert(s0.drop_last() =~= Seq::<char>::empty());
        assert(spec_parse_decimal(s0.drop_last()) == 0);
        assert(s0.last() == digit_char(n as int));
        lemma_digit_char_val(n as int);
        assert(spec_parse_decimal(s0) == digit_val(digit_char(n as int)));
    } else {
        let s0 = spec_decimal(n);
        let c = digit_char((n % 10) as int);
        assert(s0 == spec_decimal(n / 10).push(c));
        lemma_digit_char_val((n % 10) as int);
        lemma_decimal_round_trip(n / 10);
        assert(s0.len() == spec_decimal(n / 10).len() + 1);
        assert(s0.drop_last() =~= spec_decimal(n / 10));
        assert(s0.last() == c);
        assert(spec_parse_decimal(s0) == spec_parse_decimal(spec_decimal(n / 10)) * 10
            + digit_val(c));
        assert(spec_parse_decimal(s0) == (n / 10) * 10 + (n % 10));
        vstd::arithmetic::div_mod::lemma_fundamental_div_mod(n as int, 10);
    }
}

/// Every character of a decimal rendering is a digit; in particular the
/// rendering is never empty.
pub proof fn lemma_decimal_digits(n: nat)
    ensures
        spec_decimal(n).len() > 0,
        forall|i: int| 0 <= i < spec_decimal(n).len() ==> is_digit(spec_decimal(n)[i]),
    decreases n,
{
    if n >= 10 {
        lemma_decimal_digits(n / 10);
    }
}

} // verus!
