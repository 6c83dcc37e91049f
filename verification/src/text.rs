//! Text as the binding reads and writes it: switch words and decimal numbers.

use vstd::arithmetic::power::{lemma_pow0, lemma_pow_positive, pow};
use vstd::prelude::*;
use vstd::string::*;

verus! {

/// The ASCII lower case of one character; every other character is itself.
pub open spec fn ascii_lower(c: char) -> char {
    if 'A' <= c <= 'Z' {
        ((c as u32) + 32) as char
    } else {
        c
    }
}

/// The ASCII lower case of a text.
pub open spec fn ascii_lowercase(s: Seq<char>) -> Seq<char> {
    s.map_values(|c: char| ascii_lower(c))
}

/// Whether `c` lower-cases to `w`.
fn char_lowers_to(c: char, w: char) -> (r: bool)
    ensures
        r == (ascii_lower(c) == w),
{
    if 'A' <= c && c <= 'Z' {
        (c as u32) + 32 == w as u32
    } else {
        c == w
    }
}

/// The characters of a text, in order.
pub(crate) fn chars_of(s: &str) -> (r: Vec<char>)
    ensures
        r@ == s@,
{
    let mut out: Vec<char> = Vec::new();
    for c in it: s.chars()
        invariant
            out@ == it.seq().take(it.index()),
            it.seq() == s@,
    {
        out.push(c);
    }
    out
}

/// Whether `s`, in ASCII lower case, is exactly `word`.
pub(crate) fn lowers_to(s: &str, word: &str) -> (r: bool)
    ensures
        r == (ascii_lowercase(s@) == word@),
{
    let given = chars_of(s);
    let wanted = chars_of(word);
    if given.len() != wanted.len() {
        assert(ascii_lowercase(s@).len() != word@.len());
        return false;
    }
    let mut i: usize = 0;
    while i < given.len()
        invariant
            given@ == s@,
            wanted@ == word@,
            given.len() == wanted.len(),
            i <= given.len(),
            forall|k: int| 0 <= k < i ==> ascii_lowercase(s@)[k] == word@[k],
        decreases given.len() - i,
    {
        if !char_lowers_to(given[i], wanted[i]) {
            assert(ascii_lowercase(s@)[i as int] != word@[i as int]);
            return false;
        }
        i += 1;
    }
    assert(ascii_lowercase(s@) =~= word@);
    true
}

/// Whether a character is one of `0` to `9`.
pub open spec fn is_digit(c: char) -> bool {
    '0' <= c <= '9'
}

/// Whether every character of a text is one of `0` to `9`.
pub open spec fn all_digits(s: Seq<char>) -> bool {
    forall|i: int| 0 <= i < s.len() ==> is_digit(#[trigger] s[i])
}

/// The number that a row of digits writes in base ten.
pub open spec fn digits_value(s: Seq<char>) -> nat
    decreases s.len(),
{
    if s.len() == 0 {
        0
    } else {
        digits_value(s.drop_last()) * 10 + (s.last() as u32 - '0' as u32) as nat
    }
}

/// A text without its leading `+`, where it has one.
pub open spec fn without_plus(s: Seq<char>) -> Seq<char> {
    if s.len() > 0 && s[0] == '+' {
        s.skip(1)
    } else {
        s
    }
}

/// The unsigned number of 64 bits that a text writes: an optional `+`, then one
/// or more decimal digits and nothing else, with a value that fits.
pub open spec fn u64_written_in(s: Seq<char>) -> Option<u64> {
    let digits = without_plus(s);
    if digits.len() > 0 && all_digits(digits) && digits_value(digits) <= u64::MAX {
        Some(digits_value(digits) as u64)
    } else {
        None
    }
}

/// A row of digits is worth at least what its first `i` digits are worth.
proof fn lemma_digits_value_grows(s: Seq<char>, i: int)
    requires
        all_digits(s),
        0 <= i <= s.len(),
    ensures
        digits_value(s.take(i)) <= digits_value(s),
    decreases s.len() - i,
{
    if i == s.len() {
        assert(s.take(i) =~= s);
    } else {
        lemma_digits_value_grows(s, i + 1);
        assert(s.take(i + 1).drop_last() =~= s.take(i));
        assert(is_digit(s[i]));
    }
}

/// Reads an unsigned number of 64 bits; `None` where the text writes none.
pub fn parse_u64(s: &str) -> (r: Option<u64>)
    ensures
        r == u64_written_in(s@),
{
    let given = chars_of(s);
    let start: usize = if given.len() > 0 && given[0] == '+' {
        1
    } else {
        0
    };
    let ghost digits = without_plus(s@);
    assert(digits =~= given@.skip(start as int));
    if start == given.len() {
        return None;
    }
    let mut value: u64 = 0;
    let mut i: usize = start;
    assert(digits.take(0) =~= Seq::<char>::empty());
    while i < given.len()
        invariant
            start <= i <= given.len(),
            start < given.len(),
            digits == given@.skip(start as int),
            digits == without_plus(s@),
            forall|k: int| 0 <= k < i - start ==> is_digit(#[trigger] digits[k]),
            value == digits_value(digits.take(i - start)),
        decreases given.len() - i,
    {
        let c = given[i];
        assert(digits[i - start] == c);
        if c < '0' || c > '9' {
            assert(!is_digit(digits[i - start]));
            return None;
        }
        let digit: u64 = (c as u32 - '0' as u32) as u64;
        assert(digits.take(i - start + 1).drop_last() =~= digits.take(i - start));
        proof {
            if all_digits(digits) {
                lemma_digits_value_grows(digits, i - start + 1);
            }
        }
        if value > u64::MAX / 10 {
            return None;
        }
        let tens: u64 = value * 10;
        if digit > u64::MAX - tens {
            return None;
        }
        value = tens + digit;
        i += 1;
    }
    assert(digits.take(given.len() - start) =~= digits);
    Some(value)
}

/// The character that writes one decimal digit.
pub open spec fn digit_char(d: nat) -> char {
    ('0' as u32 + d) as char
}

/// A number in base ten, without leading zeros.
pub open spec fn decimal(n: nat) -> Seq<char>
    decreases n,
{
    if n < 10 {
        seq![digit_char(n)]
    } else {
        decimal(n / 10).push(digit_char(n % 10))
    }
}

/// A number in base ten, with a `-` before a negative one.
pub open spec fn signed_decimal(n: int) -> Seq<char> {
    if n < 0 {
        seq!['-'] + decimal((-n) as nat)
    } else {
        decimal(n as nat)
    }
}

fn digit_text(d: u32) -> (r: &'static str)
    requires
        d < 10,
    ensures
        r@ == seq![digit_char(d as nat)],
{
    proof {
        reveal_strlit("0");
        reveal_strlit("1");
        reveal_strlit("2");
        reveal_strlit("3");
        reveal_strlit("4");
        reveal_strlit("5");
        reveal_strlit("6");
        reveal_strlit("7");
        reveal_strlit("8");
        reveal_strlit("9");
    }
    if d == 0 {
        "0"
    } else if d == 1 {
        "1"
    } else if d == 2 {
        "2"
    } else if d == 3 {
        "3"
    } else if d == 4 {
        "4"
    } else if d == 5 {
        "5"
    } else if d == 6 {
        "6"
    } else if d == 7 {
        "7"
    } else if d == 8 {
        "8"
    } else {
        "9"
    }
}

/// Writes a number in base ten behind a text.
fn append_decimal(text: &mut String, n: u32)
    ensures
        final(text)@ == old(text)@ + decimal(n as nat),
    decreases n,
{
    if n < 10 {
        text.append(digit_text(n));
    } else {
        append_decimal(text, n / 10);
        text.append(digit_text(n % 10));
    }
}

/// Writes a signed number in base ten behind a text.
pub(crate) fn append_signed_decimal(text: &mut String, n: i32)
    ensures
        final(text)@ == old(text)@ + signed_decimal(n as int),
{
    if n < 0 {
        proof {
            reveal_strlit("-");
        }
        text.append("-");
        append_decimal(text, (-(n as i64)) as u32);
    } else {
        append_decimal(text, n as u32);
    }
}

/// A number in base ten is a row of digits with that value.
proof fn lemma_decimal_value(n: nat)
    ensures
        decimal(n).len() > 0,
        all_digits(decimal(n)),
        digits_value(decimal(n)) == n,
    decreases n,
{
    reveal_with_fuel(digits_value, 2);
    if n >= 10 {
        lemma_decimal_value(n / 10);
        assert(decimal(n).drop_last() =~= decimal(n / 10));
    }
}

/// A number of 64 bits that is written in base ten is read back, with a `+` before it
/// or without.
pub proof fn law_decimal_is_read_back(n: u64)
    ensures
        u64_written_in(decimal(n as nat)) == Some(n),
        u64_written_in(seq!['+'] + decimal(n as nat)) == Some(n),
{
    let digits = decimal(n as nat);
    lemma_decimal_value(n as nat);
    assert(is_digit(digits[0]));
    assert((seq!['+'] + digits).skip(1) =~= digits);
}

/// Lower case keeps the length of a text, moves each letter from `A` to `Z` 32 places up
/// to its small form, and leaves every other character alone.
pub proof fn law_lower_case_is_letter_by_letter(s: Seq<char>, i: int)
    requires
        0 <= i < s.len(),
    ensures
        ascii_lowercase(s).len() == s.len(),
        'A' <= s[i] <= 'Z' ==> ascii_lowercase(s)[i] as u32 == s[i] as u32 + 32,
        'A' <= s[i] <= 'Z' ==> 'a' <= ascii_lowercase(s)[i] <= 'z',
        !('A' <= s[i] <= 'Z') ==> ascii_lowercase(s)[i] == s[i],
{
}

/// Digits count as what they are, in base ten: a single digit is worth its place in
/// `0123456789`, and a row of digits is worth its front part times the power of ten that
/// the rest takes, plus the rest.
pub proof fn law_digits_are_base_ten(a: Seq<char>, b: Seq<char>, d: int)
    requires
        0 <= d < 10,
    ensures
        digits_value(Seq::empty()) == 0,
        digits_value(seq!["0123456789"@[d]]) == d,
        digits_value(a + b) == digits_value(a) * pow(10, b.len()) + digits_value(b),
    decreases b.len(),
{
    reveal_strlit("0123456789");
    reveal_with_fuel(digits_value, 2);
    let one = seq!["0123456789"@[d]];
    assert(one.drop_last() =~= Seq::<char>::empty());
    assert("0123456789"@[d] as u32 == '0' as u32 + d);
    if b.len() == 0 {
        assert(a + b =~= a);
        lemma_pow0(10);
    } else {
        let front = b.drop_last();
        law_digits_are_base_ten(a, front, d);
        assert((a + b).drop_last() =~= a + front);
        assert((a + b).last() == b.last());
        lemma_pow_positive(10, front.len());
        reveal(pow);
        let (x, p, y) = (digits_value(a) as int, pow(10, front.len()), digits_value(front) as int);
        assert(pow(10, b.len()) == 10 * p);
        assert((x * p + y) * 10 == x * (10 * p) + y * 10) by (nonlinear_arith);
    }
}

/// A text is read as a number exactly where it is one or more digits, with one `+` before
/// them or none, and their value fits; the number is then that value.
pub proof fn law_only_digits_are_read(s: Seq<char>)
    requires
        s.len() > 0,
        s[0] != '+',
    ensures
        u64_written_in(s) is Some <==> (forall|i: int|
            0 <= i < s.len() ==> '0' <= #[trigger] s[i] <= '9') && digits_value(s) <= u64::MAX,
        u64_written_in(s) matches Some(n) ==> n == digits_value(s),
        u64_written_in(seq!['+'] + s) == u64_written_in(s),
        u64_written_in(seq!['+'] + (seq!['+'] + s)) is None,
        u64_written_in(Seq::empty()) is None,
        u64_written_in(seq!['+']) is None,
{
    let plus = seq!['+'] + s;
    assert(plus.skip(1) =~= s);
    let twice = seq!['+'] + plus;
    assert(twice.skip(1) =~= plus);
    assert(plus[0] == '+');
    assert(!is_digit(plus[0]));
    assert(!all_digits(plus));
    assert(seq!['+'].skip(1) =~= Seq::<char>::empty());
    assert(all_digits(s) <==> forall|i: int| 0 <= i < s.len() ==> '0' <= #[trigger] s[i] <= '9')
        by {
        if forall|i: int| 0 <= i < s.len() ==> '0' <= #[trigger] s[i] <= '9' {
            assert forall|i: int| 0 <= i < s.len() implies is_digit(#[trigger] s[i]) by {}
        }
        if all_digits(s) {
            assert forall|i: int| 0 <= i < s.len() implies '0' <= #[trigger] s[i] <= '9' by {
                assert(is_digit(s[i]));
            }
        }
    }
}

/// A number is written digit by digit in base ten: a number below ten is its character in
/// `0123456789`, and one more digit behind a number that is not zero is one more
/// character behind its text. So no text has a leading zero but `0` itself.
pub proof fn law_decimal_is_digit_by_digit(n: nat, d: nat)
    requires
        d < 10,
    ensures
        decimal(d) == seq!["0123456789"@[d as int]],
        n > 0 ==> decimal(n * 10 + d) == decimal(n).push("0123456789"@[d as int]),
        n > 0 ==> decimal(n)[0] != '0',
    decreases n,
{
    reveal_strlit("0123456789");
    assert("0123456789"@[d as int] == digit_char(d));
    if n > 0 {
        assert((n * 10 + d) / 10 == n && (n * 10 + d) % 10 == d);
        if n >= 10 {
            law_decimal_is_digit_by_digit(n / 10, d);
            lemma_decimal_value(n / 10);
        }
    }
}

/// A negative number is a `-` and the number without its sign; any other has no sign.
pub proof fn law_sign_comes_first(n: nat)
    ensures
        signed_decimal(n as int) == decimal(n),
        n > 0 ==> signed_decimal(-n) == "-"@ + decimal(n),
{
    reveal_strlit("-");
    assert("-"@ =~= seq!['-']);
}

/// One `+` is allowed and no more: a text that already starts with one is not read as a
/// number with another before it.
pub proof fn law_second_plus_is_refused(s: Seq<char>)
    requires
        s.len() > 0,
        s[0] == '+',
    ensures
        u64_written_in(seq!['+'] + s) is None,
{
    assert((seq!['+'] + s).skip(1) =~= s);
    assert(!is_digit(s[0]));
}

} // verus!
