//! Text as the gateway exchanges it: vocabulary words, decimal numbers and
//! the identifiers that make up an item's address.

use vstd::prelude::*;
use vstd::string::*;

verus! {

/// `String::push` appends one character to the end of the string and leaves
/// the characters before it as they were.
pub assume_specification[ String::push ](s: &mut String, c: char)
    ensures
        final(s)@ == old(s)@.push(c),
;

/// Whether `c` is one of the letters `a` to `z`.
pub open spec fn is_lower(c: char) -> bool {
    'a' <= c && c <= 'z'
}

/// Whether `c` is one of the letters `A` to `Z`.
pub open spec fn is_upper(c: char) -> bool {
    'A' <= c && c <= 'Z'
}

/// The upper-case form of a letter `a` to `z`; every other character is
/// itself.
pub open spec fn upper(c: char) -> char {
    if is_lower(c) {
        ((c as u32) - 32) as char
    } else {
        c
    }
}

/// A text with each of its letters `a` to `z` in upper case.
pub open spec fn upper_text(s: Seq<char>) -> Seq<char> {
    Seq::new(s.len(), |i: int| upper(s[i]))
}

/// A text without any of the letters `a` to `z`.
pub open spec fn is_upper_case(s: Seq<char>) -> bool {
    forall|i: int| 0 <= i < s.len() ==> !is_lower(#[trigger] s[i])
}

/// A text made of words that single spaces separate, each word beginning
/// with a capital letter and each capital letter followed by a small one.
pub open spec fn is_title_case(s: Seq<char>) -> bool {
    &&& s.len() > 0
    &&& forall|i: int|
        0 <= i < s.len() ==> {
            let c = #[trigger] s[i];
            &&& is_upper(c) || is_lower(c) || c == ' '
            &&& (i == 0 || s[i - 1] == ' ') ==> is_upper(c)
            &&& (is_upper(c) || c == ' ') ==> i + 1 < s.len() && (if c == ' ' {
                is_upper(s[i + 1])
            } else {
                is_lower(s[i + 1])
            })
        }
}

/// Whether `s`, with its letters put in upper case, is `word`.
pub fn is_word(s: &str, word: &str) -> (r: bool)
    ensures
        r == (upper_text(s@) == word@),
{
    let n: usize = s.unicode_len();
    if n != word.unicode_len() {
        return false;
    }
    let mut i: usize = 0;
    while i < n
        invariant
            i <= n,
            n == s@.len(),
            n == word@.len(),
            forall|j: int| 0 <= j < i ==> upper(s@[j]) == word@[j],
        decreases n - i,
    {
        let c: char = s.get_char(i);
        let w: char = word.get_char(i);
        let same: bool = if 'a' <= c && c <= 'z' {
            (c as u32) - 32 == (w as u32)
        } else {
            c == w
        };
        if !same {
            assert(upper_text(s@)[i as int] != word@[i as int]);
            return false;
        }
        i = i + 1;
    }
    assert(upper_text(s@) =~= word@);
    true
}

/// An upper-case text is its own upper-case form.
pub proof fn lemma_upper_text_of_upper_case(s: Seq<char>)
    requires
        is_upper_case(s),
    ensures
        upper_text(s) == s,
{
    assert(upper_text(s) =~= s);
}

/// The character that stands in an item's address for `c`: an underscore
/// for a colon or a hyphen, and `c` itself otherwise.
pub open spec fn plain(c: char) -> char {
    if c == ':' || c == '-' {
        '_'
    } else {
        c
    }
}

/// An identifier with every colon and every hyphen replaced by an underscore.
pub open spec fn sanitized(s: Seq<char>) -> Seq<char> {
    Seq::new(s.len(), |i: int| plain(s[i]))
}

/// Replaces every colon and every hyphen of `s` by an underscore.
pub fn sanitize(s: &str) -> (r: String)
    ensures
        r@ == sanitized(s@),
{
    let n: usize = s.unicode_len();
    let mut r: String = String::new();
    let mut i: usize = 0;
    while i < n
        invariant
            i <= n,
            n == s@.len(),
            r@.len() == i,
            forall|j: int| 0 <= j < i ==> r@[j] == plain(s@[j]),
        decreases n - i,
    {
        let c: char = s.get_char(i);
        if c == ':' || c == '-' {
            r.push('_');
        } else {
            r.push(c);
        }
        i = i + 1;
    }
    assert(r@ =~= sanitized(s@));
    r
}

/// A sanitized identifier is as long as the identifier it was made from,
/// holds no colon and no hyphen, keeps every other character in its place,
/// and is not changed by being sanitized again.
pub proof fn law_sanitized(s: Seq<char>)
    ensures
        sanitized(s).len() == s.len(),
        forall|i: int|
            0 <= i < s.len() ==> (#[trigger] sanitized(s)[i]) != ':' && sanitized(s)[i] != '-',
        forall|i: int|
            0 <= i < s.len() && s[i] != ':' && s[i] != '-' ==> (#[trigger] sanitized(s)[i])
                == s[i],
        forall|i: int|
            0 <= i < s.len() && (s[i] == ':' || s[i] == '-') ==> (#[trigger] sanitized(s)[i])
                == '_',
        sanitized(sanitized(s)) == sanitized(s),
{
    assert(sanitized(sanitized(s)) =~= sanitized(s));
}

/// The character of the decimal digit `d`.
pub open spec fn digit(d: nat) -> char {
    ('0' as nat + d) as char
}

/// The decimal numeral of `n`, without a sign and without leading zeros.
pub open spec fn decimal(n: nat) -> Seq<char>
    decreases n,
{
    if n < 10 {
        seq![digit(n)]
    } else {
        decimal(n / 10).push(digit(n % 10))
    }
}

/// The decimal numeral of `i`, with a minus sign before it when `i` is
/// negative.
pub open spec fn signed_decimal(i: int) -> Seq<char> {
    if i < 0 {
        seq!['-'] + decimal((-i) as nat)
    } else {
        decimal(i as nat)
    }
}

fn digit_char(d: u8) -> (c: char)
    requires
        d < 10,
    ensures
        c == digit(d as nat),
{
    (48u8 + d) as char
}

/// Writes `n` as a decimal numeral.
pub fn decimal_string(n: u64) -> (r: String)
    ensures
        r@ == decimal(n as nat),
    decreases n,
{
    if n < 10 {
        let mut r: String = String::new();
        r.push(digit_char(n as u8));
        assert(r@ =~= seq![digit(n as nat)]);
        r
    } else {
        let mut r: String = decimal_string(n / 10);
        r.push(digit_char((n % 10) as u8));
        r
    }
}

/// Writes `i` as a decimal numeral, with a minus sign when it is negative.
pub fn signed_decimal_string(i: isize) -> (r: String)
    ensures
        r@ == signed_decimal(i as int),
{
    if i < 0 {
        let magnitude: u64 = (-(i + 1)) as u64 + 1;
        let digits: String = decimal_string(magnitude);
        let mut r: String = String::new();
        r.push('-');
        r.append(digits.as_str());
        assert(r@ =~= seq!['-'] + decimal((-i) as nat));
        r
    } else {
        decimal_string(i as u64)
    }
}

/// Whether `c` is one of the digits `0` to `9`.
pub open spec fn is_digit(c: char) -> bool {
    '0' <= c && c <= '9'
}

/// The number that the digit `c` stands for.
pub open spec fn digit_value(c: char) -> nat {
    (c as nat - '0' as nat) as nat
}

/// Whether every character of `s` is a digit.
pub open spec fn all_digits(s: Seq<char>) -> bool {
    forall|i: int| 0 <= i < s.len() ==> is_digit(#[trigger] s[i])
}

/// The number that a run of digits writes in base ten; 0 for the empty run.
pub open spec fn value_of(s: Seq<char>) -> nat
    decreases s.len(),
{
    if s.len() == 0 {
        0
    } else {
        value_of(s.drop_last()) * 10 + digit_value(s.last())
    }
}

/// What is left of a numeral once one leading plus sign is taken off.
pub open spec fn unsigned_part(s: Seq<char>) -> Seq<char> {
    if s.len() > 0 && s[0] == '+' {
        s.drop_first()
    } else {
        s
    }
}

/// Why a text is not a number within the limit asked for.
#[derive(Debug, Clone, Copy, PartialEq, Eq, Structural)]
pub enum NumberError {
    /// The text is empty.
    Empty,
    /// The text holds something other than digits after an optional plus
    /// sign, or no digit at all.
    InvalidDigit,
    /// The text is a number above the limit.
    TooLarge,
}

/// The number that `s` writes, where it is an optional plus sign followed by
/// one or more digits that write a number up to `limit`; the reason why it is
/// none otherwise. The shape of the text is judged before its size.
pub open spec fn number(s: Seq<char>, limit: nat) -> Result<nat, NumberError> {
    let digits = unsigned_part(s);
    if s.len() == 0 {
        Err(NumberError::Empty)
    } else if digits.len() == 0 || !all_digits(digits) {
        Err(NumberError::InvalidDigit)
    } else if value_of(digits) > limit {
        Err(NumberError::TooLarge)
    } else {
        Ok(value_of(digits))
    }
}

/// One more digit taken from a run multiplies the number read so far by ten
/// and adds the digit.
proof fn lemma_value_of_take(s: Seq<char>, i: int)
    requires
        0 <= i < s.len(),
    ensures
        value_of(s.take(i + 1)) == value_of(s.take(i)) * 10 + digit_value(s[i]),
{
    assert(s.take(i + 1).drop_last() =~= s.take(i));
    assert(s.take(i + 1).last() == s[i]);
}

/// Reads `s` as a number up to `limit`.
pub fn parse_number(s: &str, limit: u8) -> (r: Result<u8, NumberError>)
    ensures
        match number(s@, limit as nat) {
            Ok(n) => r == Ok::<u8, NumberError>(n as u8),
            Err(e) => r == Err::<u8, NumberError>(e),
        },
{
    let n: usize = s.unicode_len();
    if n == 0 {
        return Err(NumberError::Empty);
    }
    let start: usize = if s.get_char(0) == '+' {
        1
    } else {
        0
    };
    if start == n {
        return Err(NumberError::InvalidDigit);
    }
    let ghost digits = unsigned_part(s@);
    assert(digits =~= s@.subrange(start as int, n as int));
    let mut value: u32 = 0;
    let mut large: bool = false;
    let mut i: usize = start;
    while i < n
        invariant
            start <= i <= n,
            n == s@.len(),
            start < n,
            digits == unsigned_part(s@),
            digits == s@.subrange(start as int, n as int),
            all_digits(digits.take(i - start)),
            large <==> value_of(digits.take(i - start)) > limit,
            !large ==> value == value_of(digits.take(i - start)),
            value <= limit,
        decreases n - i,
    {
        let c: char = s.get_char(i);
        if !('0' <= c && c <= '9') {
            assert(!is_digit(digits[i - start]));
            return Err(NumberError::InvalidDigit);
        }
        proof {
            lemma_value_of_take(digits, i - start);
            assert forall|j: int| 0 <= j < i - start + 1 implies is_digit(
                #[trigger] digits.take(i - start + 1)[j],
            ) by {
                if j < i - start {
                    assert(digits.take(i - start)[j] == digits[j]);
                }
            }
        }
        if !large {
            let next: u32 = value * 10 + ((c as u32) - 48);
            if next > limit as u32 {
                large = true;
            } else {
                value = next;
            }
        }
        i = i + 1;
    }
    assert(digits.take(n - start) =~= digits);
    if large {
        Err(NumberError::TooLarge)
    } else {
        Ok(value as u8)
    }
}

/// The digits of a decimal numeral are digits, and they write the number
/// that the numeral was made from.
pub proof fn lemma_decimal_reads_back(n: nat)
    ensures
        decimal(n).len() > 0,
        all_digits(decimal(n)),
        decimal(n)[0] != '+',
        value_of(decimal(n)) == n,
    decreases n,
{
    if n < 10 {
        assert(decimal(n).drop_last() =~= Seq::<char>::empty());
        assert(value_of(decimal(n).drop_last()) == 0);
    } else {
        lemma_decimal_reads_back(n / 10);
        assert(decimal(n).drop_last() =~= decimal(n / 10));
        assert(decimal(n).last() == digit(n % 10));
    }
}

/// Reading the decimal numeral of a number within the limit gives the number.
pub proof fn law_number_of_decimal(n: nat, limit: nat)
    requires
        n <= limit,
    ensures
        number(decimal(n), limit) == Ok::<nat, NumberError>(n),
{
    lemma_decimal_reads_back(n);
}

} // verus!
