use vstd::prelude::*;
use vstd::string::StringExecFns;

verus! {

/// Whether two texts hold the same characters.
pub fn same_text(a: &str, b: &str) -> (same: bool)
    ensures
        same == (a@ == b@),
{
    let left = a.to_owned();
    let right = b.to_owned();
    left == right
}

/// The text `a` followed by the text `b`.
pub fn joined_text(a: &str, b: &str) -> (joined: String)
    ensures
        joined@ == a@ + b@,
{
    let mut joined = a.to_owned();
    joined.append(b);
    joined
}

/// The characters of `s`, one element each.
///
/// Trusted: wraps `str::chars`, which yields the characters of the string
/// in order.
#[verifier::external_body]
pub(crate) fn chars_of(s: &str) -> (chars: Vec<char>)
    ensures
        chars@ == s@,
{
    s.chars().collect()
}

/// The string made of `chars`, in order.
///
/// Trusted: wraps `String::from_iter` over the characters, which builds the
/// string that holds exactly them.
#[verifier::external_body]
pub(crate) fn text_of(chars: &Vec<char>) -> (text: String)
    ensures
        text@ == chars@,
{
    String::from_iter(chars.iter())
}

/// The decimal digit for a value below ten.
pub open spec fn digit_char(d: nat) -> char {
    if d == 0 {
        '0'
    } else if d == 1 {
        '1'
    } else if d == 2 {
        '2'
    } else if d == 3 {
        '3'
    } else if d == 4 {
        '4'
    } else if d == 5 {
        '5'
    } else if d == 6 {
        '6'
    } else if d == 7 {
        '7'
    } else if d == 8 {
        '8'
    } else {
        '9'
    }
}

/// Whether `c` is one of the ten decimal digits.
pub open spec fn is_digit(c: char) -> bool {
    '0' <= c <= '9'
}

/// The value of a decimal digit; zero for any other character.
pub open spec fn digit_value(c: char) -> nat {
    if is_digit(c) {
        (c as nat - '0' as nat) as nat
    } else {
        0
    }
}

/// The decimal numeral of `n`: no sign, no leading zero but for zero itself.
pub open spec fn decimal_digits(n: nat) -> Seq<char>
    decreases n,
{
    if n < 10 {
        seq![digit_char(n)]
    } else {
        decimal_digits(n / 10).push(digit_char(n % 10))
    }
}

/// The decimal numeral of `n`, with a minus sign in front where it is negative.
pub open spec fn decimal_text(n: int) -> Seq<char> {
    if n < 0 {
        seq!['-'] + decimal_digits((-n) as nat)
    } else {
        decimal_digits(n as nat)
    }
}

/// Whether `s` is made of decimal digits only.
pub open spec fn is_digits(s: Seq<char>) -> bool {
    forall|i: int| 0 <= i < s.len() ==> is_digit(#[trigger] s[i])
}

/// The number that the digits of `s` write in base ten; zero for no digits.
pub open spec fn digits_value(s: Seq<char>) -> nat
    decreases s.len(),
{
    if s.len() == 0 {
        0
    } else {
        digits_value(s.drop_last()) * 10 + digit_value(s.last())
    }
}

/// The digits that come before the last one of `n`: none where `n` is zero.
spec fn leading_digits(n: nat) -> Seq<char> {
    if n == 0 {
        Seq::empty()
    } else {
        decimal_digits(n)
    }
}

proof fn lemma_split_last_digit(n: nat)
    ensures
        decimal_digits(n) =~= leading_digits(n / 10).push(digit_char(n % 10)),
{
    if n < 10 {
        assert(n / 10 == 0);
        assert(n % 10 == n);
    }
}

fn digit_of(d: u64) -> (c: char)
    requires
        d < 10,
    ensures
        c == digit_char(d as nat),
        is_digit(c),
        digit_value(c) == d,
{
    if d == 0 {
        '0'
    } else if d == 1 {
        '1'
    } else if d == 2 {
        '2'
    } else if d == 3 {
        '3'
    } else if d == 4 {
        '4'
    } else if d == 5 {
        '5'
    } else if d == 6 {
        '6'
    } else if d == 7 {
        '7'
    } else if d == 8 {
        '8'
    } else {
        '9'
    }
}

/// The decimal digits of `n` as characters.
fn digits_of(n: u64) -> (digits: Vec<char>)
    ensures
        digits@ == decimal_digits(n as nat),
{
    let mut digits: Vec<char> = Vec::new();
    digits.push(digit_of(n % 10));
    let mut rest: u64 = n / 10;
    proof {
        lemma_split_last_digit(n as nat);
    }
    while rest > 0
        invariant
            decimal_digits(n as nat) =~= leading_digits(rest as nat) + digits@,
        decreases rest,
    {
        proof {
            lemma_split_last_digit(rest as nat);
        }
        digits.insert(0, digit_of(rest % 10));
        rest = rest / 10;
    }
    digits
}

/// Writes `n` in base ten.
pub fn u64_text(n: u64) -> (text: String)
    ensures
        text@ == decimal_text(n as int),
{
    let digits = digits_of(n);
    text_of(&digits)
}

/// Writes `n` in base ten, with a minus sign where it is negative.
pub fn i64_text(n: i64) -> (text: String)
    ensures
        text@ == decimal_text(n as int),
{
    if n >= 0 {
        let digits = digits_of(n as u64);
        text_of(&digits)
    } else {
        let magnitude: u64 = if n == i64::MIN {
            9223372036854775808u64
        } else {
            (-n) as u64
        };
        let mut digits = digits_of(magnitude);
        digits.insert(0, '-');
        assert(digits@ =~= seq!['-'] + decimal_digits((-n) as nat));
        text_of(&digits)
    }
}

/// The value of a prefix of a numeral never exceeds that of the whole.
proof fn lemma_prefix_value(s: Seq<char>, k: int)
    requires
        0 <= k <= s.len(),
    ensures
        digits_value(s.subrange(0, k)) <= digits_value(s),
    decreases s.len() - k,
{
    if k == s.len() {
        assert(s.subrange(0, k) =~= s);
    } else {
        lemma_prefix_value(s, k + 1);
        let longer = s.subrange(0, k + 1);
        assert(longer.drop_last() =~= s.subrange(0, k));
    }
}

/// Reads an unsigned decimal numeral.
///
/// The text must be one or more decimal digits and nothing else, and the
/// number must fit in 64 bits; otherwise there is no result.
pub fn parse_u64(s: &str) -> (parsed: Option<u64>)
    ensures
        parsed is Some <==> s@.len() > 0 && is_digits(s@) && digits_value(s@) <= u64::MAX,
        parsed is Some ==> parsed->0 == digits_value(s@),
{
    let chars = chars_of(s);
    if chars.len() == 0 {
        return None;
    }
    let mut value: u64 = 0;
    let mut i: usize = 0;
    while i < chars.len()
        invariant
            chars@ == s@,
            0 <= i <= chars.len(),
            is_digits(s@.subrange(0, i as int)),
            value == digits_value(s@.subrange(0, i as int)),
        decreases chars.len() - i,
    {
        let c = chars[i];
        let ghost prefix = s@.subrange(0, i as int);
        let ghost longer = s@.subrange(0, i + 1);
        proof {
            assert(longer.drop_last() =~= prefix);
            assert(longer.last() == c);
            lemma_prefix_value(s@, i + 1);
        }
        if !('0' <= c && c <= '9') {
            assert(!is_digit(s@[i as int]));
            return None;
        }
        let d: u64 = (c as u64) - ('0' as u64);
        if value > (u64::MAX - d) / 10 {
            assert(digits_value(longer) > u64::MAX);
            return None;
        }
        value = value * 10 + d;
        assert forall|j: int| 0 <= j < longer.len() implies is_digit(#[trigger] longer[j]) by {
            if j < i {
                assert(longer[j] == prefix[j]);
            }
        }
        i = i + 1;
    }
    assert(s@.subrange(0, i as int) =~= s@);
    Some(value)
}

/// Reads a decimal numeral that fits a signed 64-bit integer.
///
/// The text must be one or more decimal digits and nothing else.
pub fn parse_i64(s: &str) -> (parsed: Option<i64>)
    ensures
        parsed is Some <==> s@.len() > 0 && is_digits(s@) && digits_value(s@) <= i64::MAX,
        parsed is Some ==> parsed->0 == digits_value(s@),
{
    match parse_u64(s) {
        Some(v) => {
            if v <= 9223372036854775807u64 {
                Some(v as i64)
            } else {
                None
            }
        },
        None => None,
    }
}

/// Reading undoes writing: the numeral of a number is made of digits and
/// stands for that number.
pub proof fn lemma_digits_round_trip(n: nat)
    ensures
        decimal_digits(n).len() > 0,
        is_digits(decimal_digits(n)),
        digits_value(decimal_digits(n)) == n,
    decreases n,
{
    if n < 10 {
        assert(decimal_digits(n).drop_last() =~= Seq::<char>::empty());
        assert(digits_value(decimal_digits(n).drop_last()) == 0);
    } else {
        lemma_digits_round_trip(n / 10);
        assert(decimal_digits(n).drop_last() =~= decimal_digits(n / 10));
    }
}

} // verus!
