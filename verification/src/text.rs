//! Strings as sequences of characters: building messages, reading numbers and flags.

use vstd::prelude::*;
use vstd::utf8::{decode_utf8, encode_utf8, valid_utf8};

verus! {

/// `String::push` of std: the character is appended and nothing else changes.
pub assume_specification[ String::push ](text: &mut String, c: char)
    ensures
        final(text)@ == old(text)@.push(c),
;

/// The error of `String::from_utf8` of std, carried without looking inside.
#[verifier::external_type_specification]
#[verifier::external_body]
pub struct ExFromUtf8Error(std::string::FromUtf8Error);

/// `String::from_utf8` of std: it succeeds on valid UTF-8 and on nothing else, and the string
/// then holds the characters that the bytes encode.
pub assume_specification[ String::from_utf8 ](vec: Vec<u8>) -> (r: Result<
    String,
    std::string::FromUtf8Error,
>)
    ensures
        r is Ok <==> valid_utf8(vec@),
        r matches Ok(s) ==> s@ == decode_utf8(vec@),
;

/// The bytes of a string.
pub(crate) fn utf8_bytes(text: &String) -> (bytes: Vec<u8>)
    ensures
        bytes@ == encode_utf8(text@),
{
    text.as_str().as_bytes_vec()
}

/// The characters of a string, in order.
pub(crate) fn to_chars(text: &str) -> (chars: Vec<char>)
    ensures
        chars@ == text@,
{
    let mut chars: Vec<char> = Vec::new();
    for c in iter: text.chars()
        invariant
            iter.seq() == text@,
            chars@ == text@.take(iter.index()),
    {
        chars.push(c);
    }
    assert(text@.take(text@.len() as int) =~= text@);
    chars
}

/// The character of a digit below ten.
pub open spec fn digit_char(digit: nat) -> char {
    (digit + '0' as nat) as char
}

/// `n` written in base ten, without leading zeros.
pub open spec fn decimal(n: nat) -> Seq<char>
    decreases n,
{
    if n < 10 {
        seq![digit_char(n)]
    } else {
        decimal(n / 10).push(digit_char(n % 10))
    }
}

/// Appends `n` in base ten.
pub(crate) fn push_decimal(text: &mut String, n: usize)
    ensures
        final(text)@ == old(text)@ + decimal(n as nat),
    decreases n,
{
    let digit: u8 = (n % 10) as u8;
    if n >= 10 {
        push_decimal(text, n / 10);
    }
    text.push((digit + 48) as char);
}

/// Whether a character has the White_Space property of Unicode.
pub open spec fn whitespace(c: char) -> bool {
    let code = c as u32;
    ||| 0x09 <= code <= 0x0d
    ||| code == 0x20
    ||| code == 0x85
    ||| code == 0xa0
    ||| code == 0x1680
    ||| 0x2000 <= code <= 0x200a
    ||| code == 0x2028
    ||| code == 0x2029
    ||| code == 0x202f
    ||| code == 0x205f
    ||| code == 0x3000
}

/// Whether a character has the White_Space property of Unicode.
pub fn is_whitespace(c: char) -> (r: bool)
    ensures
        r == whitespace(c),
{
    let code: u32 = c as u32;
    (0x09 <= code && code <= 0x0d) || code == 0x20 || code == 0x85 || code == 0xa0 || code == 0x1680
        || (0x2000 <= code && code <= 0x200a) || code == 0x2028 || code == 0x2029 || code == 0x202f
        || code == 0x205f || code == 0x3000
}

/// Whether a text holds nothing but whitespace.
pub open spec fn blank(text: Seq<char>) -> bool {
    forall|i: int| 0 <= i < text.len() ==> whitespace(#[trigger] text[i])
}

/// Whether nothing is left of a text once it is trimmed.
pub fn is_blank(text: &str) -> (r: bool)
    ensures
        r == blank(text@),
{
    let chars: Vec<char> = to_chars(text);
    for i in 0..chars.len()
        invariant
            chars@ == text@,
            forall|j: int| 0 <= j < i ==> whitespace(#[trigger] text@[j]),
    {
        if !is_whitespace(chars[i]) {
            assert(!whitespace(text@[i as int]));
            return false;
        }
    }
    true
}

/// An ASCII capital as its small letter, any other character as it is.
pub open spec fn ascii_lower(c: char) -> char {
    if 'A' <= c <= 'Z' {
        (c as u32 + 32) as char
    } else {
        c
    }
}

/// A text with its ASCII capitals turned into small letters.
pub open spec fn lowercase(text: Seq<char>) -> Seq<char> {
    text.map_values(|c: char| ascii_lower(c))
}

/// Whether a setting is switched on: it reads `true` or `yes`, in any mix of cases.
pub open spec fn affirmative(text: Seq<char>) -> bool {
    lowercase(text) == "true"@ || lowercase(text) == "yes"@
}

fn lower(c: char) -> (r: char)
    ensures
        r == ascii_lower(c),
{
    if 'A' <= c && c <= 'Z' {
        ((c as u8) + 32) as char
    } else {
        c
    }
}

/// Whether `chars` spells `word`, a word of small letters, in any mix of cases.
fn spells(chars: &Vec<char>, word: &str) -> (r: bool)
    ensures
        r == (lowercase(chars@) == word@),
{
    let letters: Vec<char> = to_chars(word);
    if chars.len() != letters.len() {
        return false;
    }
    for i in 0..chars.len()
        invariant
            letters@ == word@,
            chars@.len() == letters@.len(),
            forall|j: int| 0 <= j < i ==> lowercase(chars@)[j] == #[trigger] word@[j],
    {
        if lower(chars[i]) != letters[i] {
            assert(lowercase(chars@)[i as int] != word@[i as int]);
            return false;
        }
    }
    assert(lowercase(chars@) =~= word@);
    true
}

/// Whether a setting is switched on: it reads `true` or `yes`, in any mix of cases.
///
/// No character outside ASCII has a small form made of the letters of these two words, so it
/// makes no difference that only ASCII capitals are folded.
pub fn is_affirmative(text: &str) -> (r: bool)
    ensures
        r == affirmative(text@),
{
    let chars: Vec<char> = to_chars(text);
    spells(&chars, "true") || spells(&chars, "yes")
}

/// Whether every character is a decimal digit.
pub open spec fn all_digits(text: Seq<char>) -> bool {
    forall|i: int| 0 <= i < text.len() ==> '0' <= #[trigger] text[i] <= '9'
}

/// The number that a run of decimal digits writes.
pub open spec fn digits_value(text: Seq<char>) -> nat
    decreases text.len(),
{
    if text.len() == 0 {
        0
    } else {
        digits_value(text.drop_last()) * 10 + (text.last() as nat - '0' as nat) as nat
    }
}

/// What is left of a number once an optional plus sign is taken off.
pub open spec fn unsigned_digits(text: Seq<char>) -> Seq<char> {
    if text.len() > 0 && text[0] == '+' {
        text.drop_first()
    } else {
        text
    }
}

/// The number that a text writes: an optional plus sign and at least one digit, no more than
/// `max`.
pub open spec fn unsigned(text: Seq<char>, max: nat) -> Option<nat> {
    let digits = unsigned_digits(text);
    if digits.len() > 0 && all_digits(digits) && digits_value(digits) <= max {
        Some(digits_value(digits))
    } else {
        None
    }
}

/// More digits never make a smaller number.
proof fn lemma_digits_value_grows(digits: Seq<char>, n: int)
    requires
        all_digits(digits),
        0 <= n <= digits.len(),
    ensures
        digits_value(digits.take(n)) <= digits_value(digits),
    decreases digits.len(),
{
    if n == digits.len() {
        assert(digits.take(n) =~= digits);
    } else {
        let shorter = digits.drop_last();
        assert forall|i: int| 0 <= i < shorter.len() implies '0' <= #[trigger] shorter[i] <= '9' by {
            assert(shorter[i] == digits[i]);
        }
        lemma_digits_value_grows(shorter, n);
        assert(shorter.take(n) =~= digits.take(n));
        assert(digits.last() == digits[digits.len() - 1]);
    }
}

/// Reads a number: an optional plus sign and at least one decimal digit, no more than `max`.
pub fn parse_unsigned(text: &str, max: u64) -> (r: Option<u64>)
    ensures
        r is Some <==> unsigned(text@, max as nat) is Some,
        r matches Some(n) ==> n == unsigned(text@, max as nat)->0,
{
    let chars: Vec<char> = to_chars(text);
    let start: usize = if chars.len() > 0 && chars[0] == '+' { 1 } else { 0 };
    let ghost digits = unsigned_digits(text@);
    assert(digits =~= text@.skip(start as int));
    if start == chars.len() {
        return None;
    }
    let mut value: u64 = 0;
    for i in start..chars.len()
        invariant
            chars@ == text@,
            start <= chars@.len(),
            digits == unsigned_digits(text@),
            digits =~= text@.skip(start as int),
            forall|j: int| 0 <= j < i - start ==> '0' <= #[trigger] digits[j] <= '9',
            value == digits_value(digits.take(i - start)),
            value <= max,
    {
        let c: char = chars[i];
        let ghost n = i - start;
        assert(digits[n] == c);
        if c < '0' || '9' < c {
            return None;
        }
        let digit: u64 = (c as u64) - ('0' as u64);
        let ghost longer = digits.take(n + 1);
        assert(longer.drop_last() =~= digits.take(n));
        assert(longer.last() == c);
        assert(digits_value(longer) == value * 10 + digit);
        if digit > max || value > (max - digit) / 10 {
            proof {
                if all_digits(digits) {
                    lemma_digits_value_grows(digits, n + 1);
                }
            }
            return None;
        }
        value = value * 10 + digit;
    }
    assert(digits.take(digits.len() as int) =~= digits);
    Some(value)
}

/// A number that is written in base ten reads back as that number, as long as it is no more than
/// the largest that is read.
pub proof fn law_written_number_reads_back(n: nat, max: nat)
    ensures
        unsigned(decimal(n), max) == (if n <= max {
            Some(n)
        } else {
            None
        }),
{
    lemma_decimal_digits(n);
}

/// The digits of a number in base ten have its value.
pub(crate) proof fn lemma_decimal_digits(n: nat)
    ensures
        decimal(n).len() > 0,
        all_digits(decimal(n)),
        digits_value(decimal(n)) == n,
    decreases n,
{
    let digit = digit_char(n % 10);
    assert('0' <= digit <= '9');
    if n < 10 {
        assert(decimal(n).drop_last() =~= Seq::<char>::empty());
        assert(digits_value(Seq::<char>::empty()) == 0);
        assert(decimal(n).last() == digit);
    } else {
        lemma_decimal_digits(n / 10);
        assert(decimal(n).drop_last() =~= decimal(n / 10));
        assert(decimal(n).last() == digit);
    }
}

/// White space is the tab and the four characters after it, the space, the next line, the space
/// that does not break, and the spaces and separators further up.
pub proof fn law_whitespace_characters(c: char)
    ensures
        whitespace(c) <==> {
            ||| c == '\t' || c == '\n' || c == '\u{b}' || c == '\u{c}' || c == '\r' || c == ' '
            ||| c == '\u{85}' || c == '\u{a0}' || c == '\u{1680}' || c == '\u{2000}'
            ||| c == '\u{2001}' || c == '\u{2002}' || c == '\u{2003}' || c == '\u{2004}'
            ||| c == '\u{2005}' || c == '\u{2006}' || c == '\u{2007}' || c == '\u{2008}'
            ||| c == '\u{2009}' || c == '\u{200a}' || c == '\u{2028}' || c == '\u{2029}'
            ||| c == '\u{202f}' || c == '\u{205f}' || c == '\u{3000}'
        },
{
}

/// A text is blank unless some character is not white space: the empty one is, and two texts in a
/// row are if each of them is.
pub proof fn law_blank_text_is_white_space(c: char, left: Seq<char>, right: Seq<char>)
    ensures
        blank(Seq::empty()),
        blank(seq![c]) <==> whitespace(c),
        blank(left + right) <==> blank(left) && blank(right),
{
    if blank(seq![c]) {
        assert(whitespace(seq![c][0]));
    }
    let whole = left + right;
    if blank(whole) {
        assert forall|i: int| 0 <= i < left.len() implies whitespace(#[trigger] left[i]) by {
            assert(whole[i] == left[i]);
        }
        assert forall|i: int| 0 <= i < right.len() implies whitespace(#[trigger] right[i]) by {
            assert(whole[left.len() + i] == right[i]);
        }
    }
}

/// A setting is switched on by the letters of `true` or of `yes`, each of them small or capital,
/// and by nothing else.
pub proof fn law_affirmative_words(text: Seq<char>)
    ensures
        affirmative(text) <==> {
            ||| {
                &&& text.len() == 4
                &&& text[0] == 't' || text[0] == 'T'
                &&& text[1] == 'r' || text[1] == 'R'
                &&& text[2] == 'u' || text[2] == 'U'
                &&& text[3] == 'e' || text[3] == 'E'
            }
            ||| {
                &&& text.len() == 3
                &&& text[0] == 'y' || text[0] == 'Y'
                &&& text[1] == 'e' || text[1] == 'E'
                &&& text[2] == 's' || text[2] == 'S'
            }
        },
{
    reveal_strlit("true");
    reveal_strlit("yes");
    let low = lowercase(text);
    assert(low.len() == text.len());
    assert forall|i: int| 0 <= i < text.len() implies #[trigger] low[i] == ascii_lower(text[i]) by {}
    if text.len() == 4 {
        let word = "true"@;
        assert(low[0] == ascii_lower(text[0]) && low[1] == ascii_lower(text[1]));
        assert(low[2] == ascii_lower(text[2]) && low[3] == ascii_lower(text[3]));
        assert(word[0] == 't' && word[1] == 'r' && word[2] == 'u' && word[3] == 'e');
        if low[0] == 't' && low[1] == 'r' && low[2] == 'u' && low[3] == 'e' {
            assert(low =~= word);
        }
    }
    if text.len() == 3 {
        let word = "yes"@;
        assert(low[0] == ascii_lower(text[0]) && low[1] == ascii_lower(text[1]));
        assert(low[2] == ascii_lower(text[2]));
        assert(word[0] == 'y' && word[1] == 'e' && word[2] == 's');
        if low[0] == 'y' && low[1] == 'e' && low[2] == 's' {
            assert(low =~= word);
        }
    }
}

/// A number below ten is written as one digit, and a digit behind a number adds the digit to ten
/// times the number.
pub proof fn law_numbers_are_written_in_base_ten(n: nat, digit: nat)
    requires
        digit < 10,
    ensures
        decimal(digit) == seq!["0123456789"@[digit as int]],
        n > 0 ==> decimal(10 * n + digit) == decimal(n) + decimal(digit),
{
    reveal_strlit("0123456789");
    let digits = "0123456789"@;
    assert(digits[0] == '0' && digits[1] == '1' && digits[2] == '2' && digits[3] == '3');
    assert(digits[4] == '4' && digits[5] == '5' && digits[6] == '6' && digits[7] == '7');
    assert(digits[8] == '8' && digits[9] == '9');
    assert(digit_char(digit) == digits[digit as int]);
    if n > 0 {
        assert((10 * n + digit) / 10 == n && (10 * n + digit) % 10 == digit);
        assert(decimal(10 * n + digit) =~= decimal(n) + decimal(digit));
    }
}

/// A number is read digit by digit: one digit is itself, and a digit behind a number adds the digit
/// to ten times the number, unless that is more than the largest that is read.
pub proof fn law_numbers_are_read_in_base_ten(text: Seq<char>, digit: nat, max: nat)
    requires
        digit < 10,
    ensures
        unsigned(decimal(digit), max) == (if digit <= max {
            Some(digit)
        } else {
            None
        }),
        text.len() > 0 && text != seq!['+'] ==> unsigned(text + decimal(digit), max) == (match unsigned(
            text,
            max,
        ) {
            Some(n) => if 10 * n + digit <= max {
                Some(10 * n + digit)
            } else {
                None
            },
            None => None,
        }),
{
    law_written_number_reads_back(digit, max);
    if text.len() > 0 && text != seq!['+'] {
        let c = digit_char(digit);
        assert('0' <= c <= '9');
        assert(text + decimal(digit) =~= text.push(c));
        let short = unsigned_digits(text);
        let long = unsigned_digits(text.push(c));
        assert(long =~= short.push(c));
        assert(long.drop_last() =~= short);
        assert(digits_value(long) == 10 * digits_value(short) + digit);
        if short.len() == 0 {
            assert(text =~= seq!['+']);
        }
        if all_digits(short) {
            assert(all_digits(long));
        }
        if all_digits(long) {
            assert forall|i: int| 0 <= i < short.len() implies '0' <= #[trigger] short[i] <= '9' by {
                assert(long[i] == short[i]);
            }
        }
    }
}

/// A plus sign ahead of a number changes nothing, unless there is one already. A text that holds
/// anything but digits behind it is no number, nor is one without digits.
pub proof fn law_only_digits_are_numbers(text: Seq<char>, i: int, max: nat)
    ensures
        unsigned(Seq::empty(), max) is None,
        text.len() > 0 && text[0] != '+' ==> unsigned(seq!['+'] + text, max) == unsigned(text, max),
        0 <= i < text.len() && !("0123456789"@.contains(text[i])) && !(i == 0 && text[i] == '+')
            ==> unsigned(text, max) is None,
        unsigned(seq!['+'], max) is None,
{
    reveal_strlit("0123456789");
    assert(unsigned_digits(seq!['+']) =~= Seq::<char>::empty());
    if text.len() > 0 && text[0] != '+' {
        assert(unsigned_digits(seq!['+'] + text) =~= text);
    }
    if 0 <= i < text.len() && !("0123456789"@.contains(text[i])) && !(i == 0 && text[i] == '+') {
        let digits = "0123456789"@;
        let c = text[i];
        assert(digits[0] == '0' && digits[1] == '1' && digits[2] == '2' && digits[3] == '3');
        assert(digits[4] == '4' && digits[5] == '5' && digits[6] == '6' && digits[7] == '7');
        assert(digits[8] == '8' && digits[9] == '9');
        assert(!('0' <= c <= '9')) by {
            if '0' <= c <= '9' {
                assert(digits[c as int - '0' as int] == c);
            }
        }
        let rest = unsigned_digits(text);
        if text[0] == '+' {
            assert(rest[i - 1] == c);
        } else {
            assert(rest[i] == c);
        }
    }
}

} // verus!
