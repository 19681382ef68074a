//! Decimal text of unsigned integers, both ways: writing numbers into
//! response bodies, and reading the listening-port setting.
use vstd::prelude::*;
use vstd::string::*;

verus! {

/// The character of a decimal digit.
pub open spec fn digit_char(d: nat) -> char {
    if d == 0 {
        '0'
    } else if d == 1 {
        '1'
    } else if d == 2 {
        '2'
    } else if d == 3 {
        '3'
    } else if d == 4 {
        '4'
    } else if d == 5 {
        '5'
    } else if d == 6 {
        '6'
    } else if d == 7 {
        '7'
    } else if d == 8 {
        '8'
    } else {
        '9'
    }
}

/// The decimal text of `n`, most significant digit first, without leading zeros.
pub open spec fn decimal(n: nat) -> Seq<char>
    decreases n,
{
    if n < 10 {
        seq![digit_char(n)]
    } else {
        decimal(n / 10).push(digit_char(n % 10))
    }
}

/// Whether `c` is one of `0` to `9`.
pub open spec fn is_digit(c: char) -> bool {
    '0' <= c && c <= '9'
}

/// The value of a decimal digit character.
pub open spec fn digit_value(c: char) -> nat {
    (c as int - '0' as int) as nat
}

/// The value of a run of decimal digits, read left to right.
pub open spec fn digits_value(s: Seq<char>) -> nat
    decreases s.len(),
{
    if s.len() == 0 {
        0
    } else {
        digits_value(s.drop_last()) * 10 + digit_value(s.last())
    }
}

/// Whether `s` is one or more decimal digits.
pub open spec fn all_digits(s: Seq<char>) -> bool {
    s.len() > 0 && forall|i: int| 0 <= i < s.len() ==> is_digit(#[trigger] s[i])
}

/// The digits of an unsigned number's text: an optional leading `+` is dropped.
pub open spec fn unsigned_digits(s: Seq<char>) -> Seq<char> {
    if s.len() > 0 && s[0] == '+' {
        s.subrange(1, s.len() as int)
    } else {
        s
    }
}

/// Whether `s` is the text of a number in `0..=max`, as Rust reads an
/// unsigned integer: an optional `+`, then one or more decimal digits.
pub open spec fn is_unsigned_text(s: Seq<char>, max: u64) -> bool {
    all_digits(unsigned_digits(s)) && digits_value(unsigned_digits(s)) <= max
}

/// The number `s` writes, when it is the text of one in `0..=max`.
pub open spec fn unsigned_value(s: Seq<char>, max: u64) -> Option<u64> {
    if is_unsigned_text(s, max) {
        Some(digits_value(unsigned_digits(s)) as u64)
    } else {
        None
    }
}

/// Port used when the setting is absent or unreadable.
pub const DEFAULT_PORT: u16 = 8080;

/// The listening port for a port setting.
pub open spec fn port_for(setting: Option<Seq<char>>) -> u16 {
    match setting {
        Some(s) => match unsigned_value(s, u16::MAX as u64) {
            Some(v) => v as u16,
            None => DEFAULT_PORT,
        },
        None => DEFAULT_PORT,
    }
}

/// Text of one decimal digit.
fn digit_text(d: u64) -> (r: &'static str)
    requires
        d < 10,
    ensures
        r@ == seq![digit_char(d as nat)],
{
    proof {
        reveal_strlit("0");
        reveal_strlit("1");
        reveal_strlit("2");
        reveal_strlit("3");
        reveal_strlit("4");
        reveal_strlit("5");
        reveal_strlit("6");
        reveal_strlit("7");
        reveal_strlit("8");
        reveal_strlit("9");
    }
    if d == 0 {
        "0"
    } else if d == 1 {
        "1"
    } else if d == 2 {
        "2"
    } else if d == 3 {
        "3"
    } else if d == 4 {
        "4"
    } else if d == 5 {
        "5"
    } else if d == 6 {
        "6"
    } else if d == 7 {
        "7"
    } else if d == 8 {
        "8"
    } else {
        "9"
    }
}

/// Writes the decimal text of `n`.
pub fn decimal_text(n: u64) -> (r: String)
    ensures
        r@ == decimal(n as nat),
    decreases n,
{
    if n < 10 {
        String::from_str(digit_text(n))
    } else {
        let mut s = decimal_text(n / 10);
        s.append(digit_text(n % 10));
        s
    }
}

/// Reading the decimal text of `n` gives `n` back, and that text is all digits.
pub proof fn lemma_decimal_reads_back(n: nat)
    ensures
        all_digits(decimal(n)),
        digits_value(decimal(n)) == n,
    decreases n,
{
    lemma_digit_char_value(n % 10);
    if n < 10 {
        assert(decimal(n).drop_last() =~= Seq::<char>::empty());
        assert(digits_value(Seq::<char>::empty()) == 0);
        assert(decimal(n).last() == digit_char(n));
    } else {
        lemma_decimal_reads_back(n / 10);
        lemma_digits_value_push(decimal(n / 10), digit_char(n % 10));
        assert(n == (n / 10) * 10 + n % 10) by (nonlinear_arith);
        assert forall|i: int| 0 <= i < decimal(n).len() implies is_digit(#[trigger] decimal(n)[i]) by {
            if i < decimal(n / 10).len() {
                assert(decimal(n)[i] == decimal(n / 10)[i]);
            }
        }
    }
}

proof fn lemma_digit_char_value(d: nat)
    requires
        d < 10,
    ensures
        is_digit(digit_char(d)),
        digit_value(digit_char(d)) == d,
{
}

proof fn lemma_digits_value_push(s: Seq<char>, c: char)
    ensures
        digits_value(s.push(c)) == digits_value(s) * 10 + digit_value(c),
{
    assert(s.push(c).drop_last() =~= s);
}

/// Reads an unsigned number no greater than `max` from `s`.
pub fn parse_unsigned(s: &str, max: u64) -> (r: Option<u64>)
    ensures
        r == unsigned_value(s@, max),
{
    let len = s.unicode_len();
    let mut start: usize = 0;
    if len > 0 && s.get_char(0) == '+' {
        start = 1;
    }
    let ghost body = unsigned_digits(s@);
    assert(body =~= s@.subrange(start as int, len as int));
    if start >= len {
        assert(!is_unsigned_text(s@, max));
        return None;
    }
    let mut value: u64 = 0;
    assert(body.subrange(0, 0) =~= Seq::<char>::empty());
    let mut i: usize = start;
    while i < len
        invariant
            start <= i <= len,
            len == s@.len(),
            body =~= s@.subrange(start as int, len as int),
            body == unsigned_digits(s@),
            value <= max,
            value == digits_value(body.subrange(0, i - start)),
            forall|j: int| 0 <= j < i - start ==> is_digit(#[trigger] body[j]),
        decreases len - i,
    {
        let c = s.get_char(i);
        assert(body[i - start] == c);
        if !('0' <= c && c <= '9') {
            assert(!is_digit(body[i - start]));
            assert(!is_unsigned_text(s@, max));
            return None;
        }
        let d = (c as u32 - '0' as u32) as u64;
        proof {
            assert(body.subrange(0, i + 1 - start) =~= body.subrange(0, i - start).push(c));
            lemma_digits_value_push(body.subrange(0, i - start), c);
        }
        if d > max || value > (max - d) / 10 {
            proof {
                if d <= max {
                    lemma_past_bound(value as int, d as int, max as int);
                }
                lemma_digits_value_grows(body, i + 1 - start);
                assert(!is_unsigned_text(s@, max));
            }
            return None;
        }
        proof {
            lemma_within_bound(value as int, d as int, max as int);
        }
        value = value * 10 + d;
        i = i + 1;
    }
    assert(body.subrange(0, len - start) =~= body);
    assert(is_unsigned_text(s@, max));
    Some(value)
}

proof fn lemma_past_bound(v: int, d: int, max: int)
    requires
        0 <= d <= max,
        v > (max - d) / 10,
    ensures
        v * 10 + d > max,
{
    vstd::arithmetic::div_mod::lemma_fundamental_div_mod(max - d, 10);
    assert(v * 10 + d > max) by (nonlinear_arith)
        requires
            v >= (max - d) / 10 + 1,
            max - d == 10 * ((max - d) / 10) + (max - d) % 10,
            (max - d) % 10 < 10,
    ;
}

proof fn lemma_within_bound(v: int, d: int, max: int)
    requires
        0 <= d <= max,
        0 <= v <= (max - d) / 10,
    ensures
        v * 10 + d <= max,
{
    vstd::arithmetic::div_mod::lemma_fundamental_div_mod(max - d, 10);
    assert(v * 10 + d <= max) by (nonlinear_arith)
        requires
            v <= (max - d) / 10,
            max - d == 10 * ((max - d) / 10) + (max - d) % 10,
            (max - d) % 10 >= 0,
    ;
}

/// Reads a port setting: the number it writes when that is a valid `u16`,
/// else the default port.
pub fn port_from_setting(setting: Option<&str>) -> (r: u16)
    ensures
        r == port_for(
            match setting {
                Some(s) => Some(s@),
                None => None,
            },
        ),
{
    match setting {
        Some(s) => match parse_unsigned(s, u16::MAX as u64) {
            Some(v) => v as u16,
            None => DEFAULT_PORT,
        },
        None => DEFAULT_PORT,
    }
}

/// The value of a prefix of digits never exceeds that of a longer prefix.
proof fn lemma_digits_value_grows(s: Seq<char>, k: int)
    requires
        0 <= k <= s.len(),
    ensures
        digits_value(s.subrange(0, k)) <= digits_value(s),
    decreases s.len() - k,
{
    if k < s.len() {
        lemma_digits_value_grows(s, k + 1);
        assert(s.subrange(0, k + 1).drop_last() =~= s.subrange(0, k));
    } else {
        assert(s.subrange(0, k) =~= s);
    }
}

} // verus!
