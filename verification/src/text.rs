//! Text as sequences of characters: comparison, prefixes, decimal and
//! hexadecimal rendering, and the number and whitespace rules of `/proc`.

use vstd::prelude::*;

verus! {

/// `String::push` of the standard library appends one character at the end.
pub assume_specification[ String::push ](text: &mut String, character: char)
    ensures
        final(text)@ == old(text)@.push(character),
;

/// The quoted and escaped form in which `Debug` shows a text.
pub uninterp spec fn debug_text(text: Seq<char>) -> Seq<char>;

/// `format!` with `{:?}` shows a text in its `Debug` form, which depends on the
/// text alone.
#[verifier::external_body]
pub(crate) fn quote(text: &str) -> (quoted: String)
    ensures
        quoted@ == debug_text(text@),
{
    format!("{:?}", text)
}

/// The characters of a text, in order.
pub fn chars_of(text: &str) -> (characters: Vec<char>)
    ensures
        characters@ == text@,
{
    let mut characters: Vec<char> = Vec::new();
    for character in iter: text.chars()
        invariant
            iter.seq() == text@,
            characters@ == text@.take(iter.index() as int),
    {
        characters.push(character);
        proof {
            assert(text@.take(iter.index() as int).push(character) =~= text@.take(iter.index() + 1));
        }
    }
    assert(text@.take(text@.len() as int) =~= text@);
    characters
}

/// The text that holds the given characters, in order.
pub fn string_of(characters: &[char]) -> (text: String)
    ensures
        text@ == characters@,
{
    let mut text = String::new();
    let mut next: usize = 0;
    while next < characters.len()
        invariant
            next <= characters@.len(),
            text@ == characters@.take(next as int),
        decreases characters@.len() - next,
    {
        text.push(characters[next]);
        proof {
            assert(characters@.take(next as int).push(characters@[next as int])
                =~= characters@.take(next + 1));
        }
        next = next + 1;
    }
    assert(characters@.take(characters@.len() as int) =~= characters@);
    text
}

/// Whether two texts hold the same characters.
pub fn text_eq(left: &str, right: &str) -> (equal: bool)
    ensures
        equal == (left@ == right@),
{
    let a = chars_of(left);
    let b = chars_of(right);
    chars_eq(&a, &b)
}

/// Whether two character sequences are the same.
pub fn chars_eq(left: &[char], right: &[char]) -> (equal: bool)
    ensures
        equal == (left@ == right@),
{
    if left.len() != right.len() {
        return false;
    }
    let mut next: usize = 0;
    while next < left.len()
        invariant
            next <= left@.len(),
            left@.len() == right@.len(),
            forall|i: int| 0 <= i < next ==> left@[i] == right@[i],
        decreases left@.len() - next,
    {
        if left[next] != right[next] {
            return false;
        }
        next = next + 1;
    }
    assert(left@ =~= right@);
    true
}


/// Whether a text starts with a prefix.
pub fn has_prefix(text: &[char], prefix: &[char]) -> (found: bool)
    ensures
        found == prefix@.is_prefix_of(text@),
{
    if prefix.len() > text.len() {
        return false;
    }
    let mut next: usize = 0;
    while next < prefix.len()
        invariant
            next <= prefix@.len() <= text@.len(),
            forall|i: int| 0 <= i < next ==> prefix@[i] == text@[i],
        decreases prefix@.len() - next,
    {
        if text[next] != prefix[next] {
            assert(text@.subrange(0, prefix@.len() as int)[next as int] == text@[next as int]);
            return false;
        }
        next = next + 1;
    }
    assert(prefix@ =~= text@.subrange(0, prefix@.len() as int));
    true
}

/// What follows a prefix, where the text starts with it.
pub open spec fn after_prefix(text: Seq<char>, prefix: Seq<char>) -> Option<Seq<char>> {
    if prefix.is_prefix_of(text) {
        Some(text.skip(prefix.len() as int))
    } else {
        None
    }
}

/// What follows a prefix, where the text starts with it.
pub fn strip_prefix(text: &str, prefix: &str) -> (rest: Option<Vec<char>>)
    ensures
        rest is Some <==> after_prefix(text@, prefix@) is Some,
        rest matches Some(r) ==> Some(r@) == after_prefix(text@, prefix@),
{
    let characters = chars_of(text);
    let head = chars_of(prefix);
    if has_prefix(&characters, &head) {
        Some(copy_range(&characters, head.len(), characters.len()))
    } else {
        None
    }
}

/// The characters from one index up to another.
pub fn copy_range(characters: &[char], from: usize, to: usize) -> (part: Vec<char>)
    requires
        from <= to <= characters@.len(),
    ensures
        part@ == characters@.subrange(from as int, to as int),
{
    let mut part: Vec<char> = Vec::new();
    let mut next: usize = from;
    while next < to
        invariant
            from <= next <= to <= characters@.len(),
            part@ == characters@.subrange(from as int, next as int),
        decreases to - next,
    {
        part.push(characters[next]);
        proof {
            assert(characters@.subrange(from as int, next as int).push(characters@[next as int])
                =~= characters@.subrange(from as int, next + 1));
        }
        next = next + 1;
    }
    part
}

/// Lowercase hexadecimal digits.
pub open spec fn is_lower_hex(character: char) -> bool {
    '0' <= character <= '9' || 'a' <= character <= 'f'
}

/// A text made of lowercase hexadecimal digits alone.
pub open spec fn all_lower_hex(text: Seq<char>) -> bool {
    forall|i: int| 0 <= i < text.len() ==> is_lower_hex(#[trigger] text[i])
}

/// Whether every character is a lowercase hexadecimal digit.
pub fn lower_hex(text: &[char]) -> (holds: bool)
    ensures
        holds == all_lower_hex(text@),
{
    let mut next: usize = 0;
    while next < text.len()
        invariant
            next <= text@.len(),
            forall|i: int| 0 <= i < next ==> is_lower_hex(#[trigger] text@[i]),
        decreases text@.len() - next,
    {
        let character = text[next];
        if !(('0' <= character && character <= '9') || ('a' <= character && character <= 'f')) {
            return false;
        }
        next = next + 1;
    }
    true
}

/// Whether a text has the given length and holds lowercase hexadecimal digits alone.
pub fn lower_hex_of_length(text: &[char], length: usize) -> (holds: bool)
    ensures
        holds == (text@.len() == length && all_lower_hex(text@)),
{
    text.len() == length && lower_hex(text)
}

/// The lowercase hexadecimal digit of a value below sixteen.
pub open spec fn hex_digit(value: int) -> char {
    if value < 10 {
        ('0' as int + value) as char
    } else {
        ('a' as int + (value - 10)) as char
    }
}

/// Two lowercase hexadecimal digits for each byte, high digit first.
pub open spec fn hex_text(bytes: Seq<u8>) -> Seq<char> {
    Seq::new(
        2 * bytes.len(),
        |i: int|
            if i % 2 == 0 {
                hex_digit(bytes[i / 2] as int / 16)
            } else {
                hex_digit(bytes[i / 2] as int % 16)
            },
    )
}

/// The value of a lowercase hexadecimal digit.
pub open spec fn hex_value(character: char) -> int {
    if '0' <= character <= '9' {
        character as int - '0' as int
    } else {
        character as int - 'a' as int + 10
    }
}

/// The bytes that pairs of hexadecimal digits stand for.
pub open spec fn hex_bytes(text: Seq<char>) -> Seq<u8> {
    Seq::new(
        text.len() / 2,
        |i: int| (hex_value(text[2 * i]) * 16 + hex_value(text[2 * i + 1])) as u8,
    )
}

fn digit_char(value: u8) -> (character: char)
    requires
        value < 16,
    ensures
        character == hex_digit(value as int),
{
    if value < 10 {
        (48u8 + value) as char
    } else {
        (97u8 + (value - 10)) as char
    }
}

fn digit_value(character: char) -> (value: u8)
    requires
        is_lower_hex(character),
    ensures
        value == hex_value(character),
        value < 16,
{
    let code: u32 = character as u32;
    if code <= 57 {
        (code - 48) as u8
    } else {
        (code - 97 + 10) as u8
    }
}

/// Renders bytes as lowercase hexadecimal.
pub fn encode_hex(bytes: &[u8]) -> (text: String)
    ensures
        text@ == hex_text(bytes@),
{
    let mut text = String::new();
    let mut next: usize = 0;
    while next < bytes.len()
        invariant
            next <= bytes@.len(),
            text@ == hex_text(bytes@.take(next as int)),
        decreases bytes@.len() - next,
    {
        let byte: u8 = bytes[next];
        text.push(digit_char(byte / 16));
        text.push(digit_char(byte % 16));
        proof {
            let before = bytes@.take(next as int);
            let after = bytes@.take(next + 1);
            let grown = hex_text(before).push(hex_digit(byte as int / 16)).push(
                hex_digit(byte as int % 16),
            );
            assert forall|i: int| 0 <= i < hex_text(after).len() implies hex_text(after)[i]
                == grown[i] by {
                if i < 2 * next {
                    assert(before[i / 2] == after[i / 2]);
                } else {
                    assert(i / 2 == next);
                }
            }
            assert(hex_text(after) =~= grown);
        }
        next = next + 1;
    }
    assert(bytes@.take(bytes@.len() as int) =~= bytes@);
    text
}

/// Reads lowercase hexadecimal digits, two for each byte.
pub fn decode_hex(text: &[char]) -> (bytes: Vec<u8>)
    requires
        all_lower_hex(text@),
        text@.len() % 2 == 0,
    ensures
        bytes@ == hex_bytes(text@),
{
    let mut bytes: Vec<u8> = Vec::new();
    let count: usize = text.len() / 2;
    let mut next: usize = 0;
    while next < count
        invariant
            all_lower_hex(text@),
            count == text@.len() / 2,
            text@.len() <= usize::MAX,
            next <= count,
            bytes@ == hex_bytes(text@).take(next as int),
        decreases count - next,
    {
        assert(is_lower_hex(text@[2 * next as int]) && is_lower_hex(text@[2 * next + 1]));
        let high: u8 = digit_value(text[2 * next]);
        let low: u8 = digit_value(text[2 * next + 1]);
        let byte: u8 = high * 16 + low;
        bytes.push(byte);
        proof {
            assert(hex_bytes(text@)[next as int] == byte);
            assert(hex_bytes(text@).take(next as int).push(byte) =~= hex_bytes(text@).take(
                next + 1,
            ));
        }
        next = next + 1;
    }
    assert(hex_bytes(text@).take(count as int) =~= hex_bytes(text@));
    bytes
}

/// Hexadecimal rendering has two lowercase digits for each byte.
pub proof fn hex_text_is_lower_hex(bytes: Seq<u8>)
    ensures
        hex_text(bytes).len() == 2 * bytes.len(),
        all_lower_hex(hex_text(bytes)),
{
    assert forall|i: int| 0 <= i < hex_text(bytes).len() implies is_lower_hex(
        #[trigger] hex_text(bytes)[i],
    ) by {
        let byte = bytes[i / 2] as int;
        assert(0 <= byte / 16 < 16 && 0 <= byte % 16 < 16);
    }
}

/// Reading what was rendered gives back the same bytes.
pub proof fn hex_round_trip(bytes: Seq<u8>)
    ensures
        hex_bytes(hex_text(bytes)) == bytes,
{
    let text = hex_text(bytes);
    assert forall|i: int| 0 <= i < bytes.len() implies hex_bytes(text)[i] == bytes[i] by {
        let byte = bytes[i] as int;
        assert((2 * i) % 2 == 0 && (2 * i) / 2 == i);
        assert((2 * i + 1) % 2 == 1 && (2 * i + 1) / 2 == i);
        assert(text[2 * i] == hex_digit(byte / 16));
        assert(text[2 * i + 1] == hex_digit(byte % 16));
        assert(hex_value(text[2 * i]) == byte / 16);
        assert(hex_value(text[2 * i + 1]) == byte % 16);
        assert(byte / 16 * 16 + byte % 16 == byte);
    }
    assert(hex_bytes(text) =~= bytes);
}

/// Rendering what was read gives back the same digits.
pub proof fn hex_text_round_trip(text: Seq<char>)
    requires
        all_lower_hex(text),
        text.len() % 2 == 0,
    ensures
        hex_text(hex_bytes(text)) == text,
{
    let bytes = hex_bytes(text);
    assert forall|i: int| 0 <= i < text.len() implies hex_text(bytes)[i] == text[i] by {
        let pair = i / 2;
        assert(is_lower_hex(text[2 * pair]) && is_lower_hex(text[2 * pair + 1]));
        let high = hex_value(text[2 * pair]);
        let low = hex_value(text[2 * pair + 1]);
        assert(0 <= high < 16 && 0 <= low < 16);
        assert(bytes[pair] as int == high * 16 + low);
        assert((high * 16 + low) / 16 == high && (high * 16 + low) % 16 == low);
        if i % 2 == 0 {
            assert(i == 2 * pair);
        } else {
            assert(i == 2 * pair + 1);
        }
    }
    assert(hex_text(bytes) =~= text);
}

/// Decimal digits of a number, most significant first, without leading zeros.
pub open spec fn decimal(value: nat) -> Seq<char>
    decreases value,
{
    if value < 10 {
        seq![hex_digit(value as int)]
    } else {
        decimal(value / 10).push(hex_digit((value % 10) as int))
    }
}

fn decimal_chars(value: u64) -> (digits: Vec<char>)
    ensures
        digits@ == decimal(value as nat),
    decreases value,
{
    if value < 10 {
        let mut digits: Vec<char> = Vec::new();
        digits.push(digit_char(value as u8));
        assert(digits@ =~= decimal(value as nat));
        digits
    } else {
        let mut digits = decimal_chars(value / 10);
        digits.push(digit_char((value % 10) as u8));
        digits
    }
}

/// Appends text to text.
pub fn append(text: &mut String, tail: &str)
    ensures
        final(text)@ == old(text)@ + tail@,
{
    text.append(tail);
}

/// Appends a number in decimal.
pub fn append_decimal(text: &mut String, value: u64)
    ensures
        final(text)@ == old(text)@ + decimal(value as nat),
{
    let digits = string_of(&decimal_chars(value));
    text.append(&digits);
}

fn wide_decimal_chars(value: u128) -> (digits: Vec<char>)
    ensures
        digits@ == decimal(value as nat),
    decreases value,
{
    if value < 10 {
        let mut digits: Vec<char> = Vec::new();
        digits.push(digit_char(value as u8));
        assert(digits@ =~= decimal(value as nat));
        digits
    } else {
        let mut digits = wide_decimal_chars(value / 10);
        digits.push(digit_char((value % 10) as u8));
        digits
    }
}

/// Appends a wide number in decimal.
pub fn append_wide_decimal(text: &mut String, value: u128)
    ensures
        final(text)@ == old(text)@ + decimal(value as nat),
{
    let digits = string_of(&wide_decimal_chars(value));
    text.append(&digits);
}

/// Decimal digits padded with zeros on the left up to a width.
pub open spec fn padded_decimal(value: nat, width: nat) -> Seq<char> {
    let digits = decimal(value);
    if digits.len() >= width {
        digits
    } else {
        Seq::new((width - digits.len()) as nat, |i: int| '0') + digits
    }
}

/// Appends a number in decimal, padded with zeros on the left up to a width.
pub fn append_padded_decimal(text: &mut String, value: u64, width: usize)
    ensures
        final(text)@ == old(text)@ + padded_decimal(value as nat, width as nat),
{
    let digits = decimal_chars(value);
    let mut padding: String = String::new();
    let mut length: usize = digits.len();
    while length < width
        invariant
            digits@ == decimal(value as nat),
            digits@.len() <= length,
            length <= width || length == digits@.len(),
            padding@ == Seq::new((length - digits@.len()) as nat, |i: int| '0'),
        decreases width - length,
    {
        padding.push('0');
        assert(Seq::new((length - digits@.len()) as nat, |i: int| '0').push('0') =~= Seq::new(
            (length + 1 - digits@.len()) as nat,
            |i: int| '0',
        ));
        length = length + 1;
    }
    let tail = string_of(&digits);
    text.append(&padding);
    text.append(&tail);
    proof {
        let zeros = Seq::new((length - digits@.len()) as nat, |i: int| '0');
        assert(old(text)@ + zeros + decimal(value as nat) =~= old(text)@ + padded_decimal(
            value as nat,
            width as nat,
        ));
    }
}

/// A decimal digit.
pub open spec fn is_digit(character: char) -> bool {
    '0' <= character <= '9'
}

/// A text made of decimal digits alone.
pub open spec fn all_digits(text: Seq<char>) -> bool {
    forall|i: int| 0 <= i < text.len() ==> is_digit(#[trigger] text[i])
}

/// The number that decimal digits stand for.
pub open spec fn digits_value(text: Seq<char>) -> nat
    decreases text.len(),
{
    if text.len() == 0 {
        0
    } else {
        digits_value(text.drop_last()) * 10 + (text.last() as int - '0' as int) as nat
    }
}

/// The unsigned number a text stands for: an optional plus sign, then at least
/// one decimal digit and nothing else, not above the given bound.
pub open spec fn parsed_unsigned(text: Seq<char>, bound: nat) -> Option<nat> {
    let digits = if text.len() > 0 && text[0] == '+' {
        text.skip(1)
    } else {
        text
    };
    if digits.len() > 0 && all_digits(digits) && digits_value(digits) <= bound {
        Some(digits_value(digits))
    } else {
        None
    }
}

proof fn digits_value_grows(text: Seq<char>, upto: int)
    requires
        0 <= upto <= text.len(),
        all_digits(text),
    ensures
        digits_value(text.take(upto)) <= digits_value(text),
    decreases text.len() - upto,
{
    if upto == text.len() {
        assert(text.take(upto) =~= text);
    } else {
        digits_value_grows(text, upto + 1);
        let longer = text.take(upto + 1);
        assert(longer.drop_last() =~= text.take(upto));
        assert(is_digit(text[upto]));
    }
}

/// Reads an unsigned number not above the given bound.
pub fn parse_unsigned(text: &[char], bound: u64) -> (value: Option<u64>)
    ensures
        value is Some <==> parsed_unsigned(text@, bound as nat) is Some,
        value matches Some(v) ==> parsed_unsigned(text@, bound as nat) == Some(v as nat),
{
    let start: usize = if text.len() > 0 && text[0] == '+' {
        1
    } else {
        0
    };
    let ghost digits = text@.skip(start as int);
    assert(text@.skip(0) =~= text@);
    if text.len() == start {
        return None;
    }
    let mut value: u64 = 0;
    let mut next: usize = start;
    while next < text.len()
        invariant
            start <= next <= text@.len(),
            digits == text@.skip(start as int),
            digits == if text@.len() > 0 && text@[0] == '+' {
                text@.skip(1)
            } else {
                text@
            },
            forall|i: int| 0 <= i < next - start ==> is_digit(#[trigger] digits[i]),
            value == digits_value(digits.take(next - start)),
            value <= bound,
        decreases text@.len() - next,
    {
        let character = text[next];
        proof {
            assert(digits[next - start] == character);
        }
        if !('0' <= character && character <= '9') {
            assert(!is_digit(digits[next - start]));
            return None;
        }
        let digit: u64 = (character as u32 - 48) as u64;
        proof {
            let longer = digits.take(next + 1 - start);
            assert(longer.drop_last() =~= digits.take(next - start));
            assert(longer.last() == character);
            assert(digits_value(longer) == value * 10 + digit);
        }
        if value > (bound - digit_or_bound(digit, bound)) / 10 || digit > bound {
            proof {
                if all_digits(digits) {
                    digits_value_grows(digits, next + 1 - start);
                }
            }
            return None;
        }
        value = value * 10 + digit;
        next = next + 1;
    }
    assert(digits.take(next - start) =~= digits);
    Some(value)
}

fn digit_or_bound(digit: u64, bound: u64) -> (least: u64)
    ensures
        least == if digit <= bound {
            digit
        } else {
            bound
        },
{
    if digit <= bound {
        digit
    } else {
        bound
    }
}

/// The white space of the Unicode standard.
pub open spec fn is_white_space(character: char) -> bool {
    let code = character as int;
    9 <= code <= 13 || code == 32 || code == 0x85 || code == 0xa0 || code == 0x1680 || 0x2000
        <= code <= 0x200a || code == 0x2028 || code == 0x2029 || code == 0x202f || code == 0x205f
        || code == 0x3000
}

fn white_space(character: char) -> (holds: bool)
    ensures
        holds == is_white_space(character),
{
    let code: u32 = character as u32;
    (9 <= code && code <= 13) || code == 32 || code == 0x85 || code == 0xa0 || code == 0x1680 || (
    0x2000 <= code && code <= 0x200a) || code == 0x2028 || code == 0x2029 || code == 0x202f || code
        == 0x205f || code == 0x3000
}

/// The white space that is a single ASCII character, without the vertical tab.
pub open spec fn is_ascii_white_space(character: char) -> bool {
    let code = character as int;
    code == 9 || code == 10 || code == 12 || code == 13 || code == 32
}

fn ascii_white_space(character: char) -> (holds: bool)
    ensures
        holds == is_ascii_white_space(character),
{
    let code: u32 = character as u32;
    code == 9 || code == 10 || code == 12 || code == 13 || code == 32
}

/// What separates the fields of a text: any white space, or the ASCII one alone.
pub open spec fn separates(character: char, ascii: bool) -> bool {
    if ascii {
        is_ascii_white_space(character)
    } else {
        is_white_space(character)
    }
}

/// The longest stretches of characters that do not separate fields, in order.
pub open spec fn fields(text: Seq<char>, ascii: bool) -> Seq<Seq<char>>
    decreases text.len(),
{
    if text.len() == 0 {
        Seq::empty()
    } else if separates(text.last(), ascii) {
        fields(text.drop_last(), ascii)
    } else if text.len() == 1 || separates(text[text.len() - 2], ascii) {
        fields(text.drop_last(), ascii).push(seq![text.last()])
    } else {
        let shorter = fields(text.drop_last(), ascii);
        shorter.drop_last().push(shorter.last().push(text.last()))
    }
}

/// The views of a list of texts.
pub open spec fn views(parts: Seq<Vec<char>>) -> Seq<Seq<char>> {
    Seq::new(parts.len(), |i: int| parts[i]@)
}

/// Splits a text into its fields.
pub fn split_fields(text: &[char], ascii: bool) -> (parts: Vec<Vec<char>>)
    ensures
        views(parts@) == fields(text@, ascii),
{
    let mut parts: Vec<Vec<char>> = Vec::new();
    let mut current: Vec<char> = Vec::new();
    let mut next: usize = 0;
    assert(views(parts@) =~= fields(text@.take(0), ascii));
    while next < text.len()
        invariant
            next <= text@.len(),
            current@.len() > 0 <==> next > 0 && !separates(text@[next - 1], ascii),
            current@.len() == 0 ==> views(parts@) == fields(text@.take(next as int), ascii),
            current@.len() > 0 ==> views(parts@).push(current@) == fields(text@.take(next as int), ascii),
        decreases text@.len() - next,
    {
        let character = text[next];
        let ghost longer = text@.take(next + 1);
        proof {
            assert(longer.drop_last() =~= text@.take(next as int));
            assert(longer.last() == character);
            if next > 0 {
                assert(longer[longer.len() - 2] == text@[next - 1]);
            }
        }
        let separator = if ascii {
            ascii_white_space(character)
        } else {
            white_space(character)
        };
        if separator {
            if current.len() > 0 {
                let ghost before = views(parts@).push(current@);
                parts.push(current);
                assert(views(parts@) =~= before);
                current = Vec::new();
            }
        } else {
            let ghost before = current@;
            current.push(character);
            proof {
                if before.len() > 0 {
                    let shorter = fields(longer.drop_last(), ascii);
                    assert(shorter.drop_last() =~= views(parts@));
                    assert(shorter.last() == before);
                } else {
                    assert(current@ =~= seq![character]);
                }
            }
        }
        next = next + 1;
    }
    assert(text@.take(text@.len() as int) =~= text@);
    if current.len() > 0 {
        let ghost before = views(parts@).push(current@);
        parts.push(current);
        assert(views(parts@) =~= before);
    }
    parts
}

/// The index of the first occurrence of a character.
pub fn find_char(text: &[char], character: char) -> (found: Option<usize>)
    ensures
        found is Some <==> text@.contains(character),
        found matches Some(index) ==> text@.index_of_first(character) == Some(index as int),
        found is None ==> text@.index_of_first(character) is None,
        found matches Some(index) ==> index < text@.len() && text@[index as int] == character && (
        forall|i: int| 0 <= i < index ==> text@[i] != character),
{
    let mut next: usize = 0;
    while next < text.len()
        invariant
            next <= text@.len(),
            forall|i: int| 0 <= i < next ==> text@[i] != character,
        decreases text@.len() - next,
    {
        if text[next] == character {
            proof {
                text@.index_of_first_ensures(character);
            }
            return Some(next);
        }
        next = next + 1;
    }
    proof {
        text@.index_of_first_ensures(character);
    }
    None
}

/// The index of the last occurrence of a character.
pub fn rfind_char(text: &[char], character: char) -> (found: Option<usize>)
    ensures
        found is Some <==> text@.contains(character),
        found matches Some(index) ==> text@.index_of_last(character) == Some(index as int),
        found is None ==> text@.index_of_last(character) is None,
        found matches Some(index) ==> index < text@.len() && text@[index as int] == character && (
        forall|i: int| index < i < text@.len() ==> text@[i] != character),
{
    let mut next: usize = text.len();
    while next > 0
        invariant
            next <= text@.len(),
            forall|i: int| next <= i < text@.len() ==> text@[i] != character,
        decreases next,
    {
        next = next - 1;
        if text[next] == character {
            proof {
                text@.index_of_last_ensures(character);
            }
            return Some(next);
        }
    }
    proof {
        text@.index_of_last_ensures(character);
    }
    None
}

/// Dictionary order of texts by code point: the first text is a proper prefix
/// of the second, or is smaller at the first place where they differ.
pub open spec fn text_less(left: Seq<char>, right: Seq<char>) -> bool
    decreases left.len(),
{
    if right.len() == 0 {
        false
    } else if left.len() == 0 {
        true
    } else if left[0] == right[0] {
        text_less(left.skip(1), right.skip(1))
    } else {
        left[0] < right[0]
    }
}

/// Whether one text comes before another in dictionary order.
pub fn less(left: &str, right: &str) -> (holds: bool)
    ensures
        holds == text_less(left@, right@),
{
    let a = chars_of(left);
    let b = chars_of(right);
    let mut next: usize = 0;
    assert(left@.skip(0) =~= left@);
    assert(right@.skip(0) =~= right@);
    while next < a.len() && next < b.len()
        invariant
            a@ == left@,
            b@ == right@,
            next <= a@.len(),
            next <= b@.len(),
            text_less(left@, right@) == text_less(left@.skip(next as int), right@.skip(next as int)),
        decreases a@.len() - next,
    {
        assert(left@.skip(next as int)[0] == a@[next as int]);
        assert(right@.skip(next as int)[0] == b@[next as int]);
        if a[next] != b[next] {
            return a[next] < b[next];
        }
        proof {
            assert(left@.skip(next as int).skip(1) =~= left@.skip(next + 1));
            assert(right@.skip(next as int).skip(1) =~= right@.skip(next + 1));
        }
        next = next + 1;
    }
    next == a.len() && next < b.len()
}

/// No text comes before itself.
pub proof fn text_less_irreflexive(text: Seq<char>)
    ensures
        !text_less(text, text),
    decreases text.len(),
{
    if text.len() > 0 {
        text_less_irreflexive(text.skip(1));
    }
}

/// Dictionary order is transitive.
pub proof fn text_less_transitive(a: Seq<char>, b: Seq<char>, c: Seq<char>)
    requires
        text_less(a, b),
        text_less(b, c),
    ensures
        text_less(a, c),
    decreases a.len(),
{
    if a.len() > 0 && b.len() > 0 && c.len() > 0 && a[0] == b[0] && b[0] == c[0] {
        text_less_transitive(a.skip(1), b.skip(1), c.skip(1));
    }
}

/// Of two different texts one comes before the other.
pub proof fn text_less_total(a: Seq<char>, b: Seq<char>)
    ensures
        text_less(a, b) || text_less(b, a) || a == b,
    decreases a.len(),
{
    if a.len() == 0 {
        assert(b.len() == 0 ==> a =~= b);
    } else if b.len() > 0 && a[0] == b[0] {
        text_less_total(a.skip(1), b.skip(1));
        if a.skip(1) == b.skip(1) {
            assert forall|i: int| 0 <= i < a.len() implies a[i] == b[i] by {
                if i > 0 {
                    assert(a.skip(1)[i - 1] == b.skip(1)[i - 1]);
                }
            }
            assert(a.skip(1).len() == b.skip(1).len());
            assert(a =~= b);
        }
    }
}

/// The pieces of a text between the occurrences of a separator.
pub open spec fn pieces(text: Seq<char>, separator: char) -> Seq<Seq<char>>
    decreases text.len(),
{
    if text.len() == 0 {
        seq![Seq::empty()]
    } else {
        let shorter = pieces(text.drop_last(), separator);
        if text.last() == separator {
            shorter.push(Seq::empty())
        } else {
            shorter.drop_last().push(shorter.last().push(text.last()))
        }
    }
}

/// Splits a text at every occurrence of a separator.
pub fn split(text: &[char], separator: char) -> (parts: Vec<Vec<char>>)
    ensures
        views(parts@) == pieces(text@, separator),
        parts@.len() > 0,
{
    let mut parts: Vec<Vec<char>> = Vec::new();
    let mut current: Vec<char> = Vec::new();
    let mut next: usize = 0;
    assert(views(parts@).push(current@) =~= pieces(text@.take(0), separator));
    while next < text.len()
        invariant
            next <= text@.len(),
            views(parts@).push(current@) == pieces(text@.take(next as int), separator),
        decreases text@.len() - next,
    {
        let character = text[next];
        let ghost longer = text@.take(next + 1);
        let ghost shorter = views(parts@).push(current@);
        proof {
            assert(longer.drop_last() =~= text@.take(next as int));
            assert(longer.last() == character);
            assert(shorter.drop_last() =~= views(parts@));
        }
        if character == separator {
            parts.push(current);
            current = Vec::new();
            assert(views(parts@) =~= shorter);
            assert(current@ =~= Seq::<char>::empty());
        } else {
            current.push(character);
        }
        next = next + 1;
    }
    assert(text@.take(text@.len() as int) =~= text@);
    let ghost all = views(parts@).push(current@);
    parts.push(current);
    assert(views(parts@) =~= all);
    parts
}

/// The number of bytes of a text in UTF-8.
pub open spec fn byte_length(text: Seq<char>) -> nat {
    vstd::utf8::encode_utf8(text).len()
}

/// Counts the bytes of a text in UTF-8.
pub fn byte_count(text: &str) -> (count: usize)
    ensures
        count == byte_length(text@),
{
    text.as_bytes().len()
}

/// The views of a list of strings.
pub open spec fn string_views(texts: Seq<String>) -> Seq<Seq<char>> {
    Seq::new(texts.len(), |i: int| texts[i]@)
}

/// Whether two lists of character sequences are the same.
pub fn lists_eq(left: &Vec<Vec<char>>, right: &Vec<Vec<char>>) -> (equal: bool)
    ensures
        equal == (views(left@) == views(right@)),
{
    assert(views(left@).len() == left@.len() && views(right@).len() == right@.len());
    left.len() == right.len() && list_has_prefix(left, right)
}

/// Whether one list of character sequences starts with another.
pub fn list_has_prefix(list: &Vec<Vec<char>>, prefix: &Vec<Vec<char>>) -> (holds: bool)
    ensures
        holds == views(prefix@).is_prefix_of(views(list@)),
        list@.len() == prefix@.len() ==> holds == (views(list@) == views(prefix@)),
{
    if prefix.len() > list.len() {
        return false;
    }
    let mut next: usize = 0;
    while next < prefix.len()
        invariant
            next <= prefix@.len() <= list@.len(),
            forall|i: int| 0 <= i < next ==> prefix@[i]@ == list@[i]@,
        decreases prefix@.len() - next,
    {
        if !chars_eq(&list[next], &prefix[next]) {
            assert(views(list@)[next as int] != views(prefix@)[next as int]);
            assert(views(list@).subrange(0, prefix@.len() as int)[next as int] == views(
                list@,
            )[next as int]);
            return false;
        }
        next = next + 1;
    }
    assert(views(prefix@) =~= views(list@).subrange(0, prefix@.len() as int));
    assert(list@.len() == prefix@.len() ==> views(list@).subrange(0, prefix@.len() as int) =~= views(list@));
    true
}

/// What an optional text holds.
pub open spec fn optional_view(text: Option<String>) -> Option<Seq<char>> {
    match text {
        Some(present) => Some(present@),
        None => None,
    }
}

/// Whether two optional texts are the same.
pub fn optional_eq(left: &Option<String>, right: &Option<String>) -> (equal: bool)
    ensures
        equal == (optional_view(*left) == optional_view(*right)),
{
    match (left, right) {
        (Some(a), Some(b)) => text_eq(a, b),
        (None, None) => true,
        _ => false,
    }
}

/// No text comes before one that stands ahead of it.
pub open spec fn sorted_texts(texts: Seq<Seq<char>>) -> bool {
    forall|i: int, j: int|
        0 <= i < j < texts.len() ==> !text_less(#[trigger] texts[j], #[trigger] texts[i])
}

/// Puts texts into dictionary order.
pub fn sort_texts(texts: Vec<String>) -> (sorted: Vec<String>)
    ensures
        string_views(sorted@).to_multiset() == string_views(texts@).to_multiset(),
        sorted_texts(string_views(sorted@)),
{
    let mut sorted: Vec<String> = Vec::new();
    let mut next: usize = 0;
    let ghost all = string_views(texts@);
    assert(string_views(sorted@) =~= all.take(0));
    while next < texts.len()
        invariant
            next <= texts@.len(),
            all == string_views(texts@),
            string_views(sorted@).to_multiset() == all.take(next as int).to_multiset(),
            sorted_texts(string_views(sorted@)),
        decreases texts@.len() - next,
    {
        insert_text(&mut sorted, &texts[next]);
        proof {
            assert(all.take(next + 1) =~= all.take(next as int).push(all[next as int]));
            vstd::seq_lib::to_multiset_build(all.take(next as int), all[next as int]);
        }
        next = next + 1;
    }
    assert(all.take(texts@.len() as int) =~= all);
    sorted
}

fn insert_text(sorted: &mut Vec<String>, text: &String)
    requires
        sorted_texts(string_views(old(sorted)@)),
    ensures
        sorted_texts(string_views(final(sorted)@)),
        string_views(final(sorted)@).to_multiset() == string_views(
            old(sorted)@,
        ).to_multiset().insert(text@),
{
    let ghost before = string_views(sorted@);
    let mut place: usize = sorted.len();
    while place > 0 && less(text, &sorted[place - 1])
        invariant
            place <= sorted@.len(),
            before == string_views(sorted@),
            forall|i: int| place <= i < before.len() ==> text_less(text@, #[trigger] before[i]),
        decreases place,
    {
        assert(before[place - 1] == sorted@[place - 1]@);
        place = place - 1;
    }
    proof {
        if place > 0 {
            assert(before[place - 1] == sorted@[place - 1]@);
            assert(!text_less(text@, before[place - 1]));
        }
    }
    sorted.insert(place, text.clone());
    proof {
        let after = string_views(sorted@);
        assert(after =~= before.insert(place as int, text@));
        vstd::seq_lib::to_multiset_insert(before, place as int, text@);
        assert forall|i: int, j: int| 0 <= i < j < after.len() implies !text_less(
            #[trigger] after[j],
            #[trigger] after[i],
        ) by {
            if i < place && j == place {
                if text_less(text@, before[i]) {
                    if i < place - 1 {
                        text_less_total(before[i], before[place - 1]);
                        if text_less(before[i], before[place - 1]) {
                            text_less_transitive(text@, before[i], before[place - 1]);
                        }
                    }
                }
            } else if i == place {
                assert(after[j] == before[j - 1]);
                if text_less(before[j - 1], text@) {
                    text_less_transitive(text@, before[j - 1], text@);
                    text_less_irreflexive(text@);
                }
            } else if i < place && j > place {
                assert(after[j] == before[j - 1] && after[i] == before[i]);
            } else if i > place {
                assert(after[j] == before[j - 1] && after[i] == before[i - 1]);
            }
        }
    }
}

/// Whether two lists of texts are the same.
pub fn texts_eq(left: &Vec<String>, right: &Vec<String>) -> (equal: bool)
    ensures
        equal == (string_views(left@) == string_views(right@)),
{
    assert(string_views(left@).len() == left@.len() && string_views(right@).len() == right@.len());
    if left.len() != right.len() {
        return false;
    }
    let mut next: usize = 0;
    while next < left.len()
        invariant
            next <= left@.len(),
            left@.len() == right@.len(),
            forall|i: int| 0 <= i < next ==> left@[i]@ == right@[i]@,
        decreases left@.len() - next,
    {
        if !text_eq(&left[next], &right[next]) {
            assert(string_views(left@)[next as int] != string_views(right@)[next as int]);
            return false;
        }
        next = next + 1;
    }
    assert(string_views(left@) =~= string_views(right@));
    true
}

/// Whether a text ends with a suffix.
pub open spec fn ends_with(text: Seq<char>, suffix: Seq<char>) -> bool {
    suffix.len() <= text.len() && text.skip(text.len() - suffix.len()) == suffix
}

/// What comes before a suffix, where the text ends with it.
pub open spec fn before_suffix(text: Seq<char>, suffix: Seq<char>) -> Option<Seq<char>> {
    if ends_with(text, suffix) {
        Some(text.take(text.len() - suffix.len()))
    } else {
        None
    }
}

/// What comes before a suffix, where the text ends with it.
pub fn strip_suffix(text: &str, suffix: &str) -> (rest: Option<Vec<char>>)
    ensures
        rest is Some <==> before_suffix(text@, suffix@) is Some,
        rest matches Some(r) ==> Some(r@) == before_suffix(text@, suffix@),
{
    let characters = chars_of(text);
    let tail = chars_of(suffix);
    if tail.len() > characters.len() {
        return None;
    }
    let cut: usize = characters.len() - tail.len();
    let end = copy_range(&characters, cut, characters.len());
    assert(end@ =~= text@.skip(cut as int));
    if chars_eq(&end, &tail) {
        let rest = copy_range(&characters, 0, cut);
        assert(rest@ =~= text@.take(cut as int));
        Some(rest)
    } else {
        None
    }
}

/// Whether a text starts with a prefix.
pub fn starts_with_text(text: &str, prefix: &str) -> (holds: bool)
    ensures
        holds == prefix@.is_prefix_of(text@),
{
    let characters = chars_of(text);
    let head = chars_of(prefix);
    has_prefix(&characters, &head)
}

/// A text without the white space it starts with.
pub open spec fn trimmed_start(text: Seq<char>) -> Seq<char>
    decreases text.len(),
{
    if text.len() > 0 && is_white_space(text[0]) {
        trimmed_start(text.skip(1))
    } else {
        text
    }
}

/// A text without the white space it ends with.
pub open spec fn trimmed_end(text: Seq<char>) -> Seq<char>
    decreases text.len(),
{
    if text.len() > 0 && is_white_space(text.last()) {
        trimmed_end(text.drop_last())
    } else {
        text
    }
}

/// A text without the white space around it.
pub open spec fn trimmed(text: Seq<char>) -> Seq<char> {
    trimmed_end(trimmed_start(text))
}

/// Takes away the white space around a text.
pub fn trim(text: &[char]) -> (inner: Vec<char>)
    ensures
        inner@ == trimmed(text@),
{
    let mut from: usize = 0;
    assert(text@.skip(0) =~= text@);
    while from < text.len() && white_space(text[from])
        invariant
            from <= text@.len(),
            trimmed_start(text@) == trimmed_start(text@.skip(from as int)),
        decreases text@.len() - from,
    {
        assert(text@.skip(from as int).skip(1) =~= text@.skip(from + 1));
        from = from + 1;
    }
    let ghost rest = text@.skip(from as int);
    assert(trimmed_start(text@) == rest);
    let mut to: usize = text.len();
    assert(text@.subrange(from as int, to as int) =~= rest);
    while to > from && white_space(text[to - 1])
        invariant
            from <= to <= text@.len(),
            trimmed_end(rest) == trimmed_end(text@.subrange(from as int, to as int)),
        decreases to,
    {
        assert(text@.subrange(from as int, to as int).drop_last() =~= text@.subrange(
            from as int,
            to - 1,
        ));
        to = to - 1;
    }
    copy_range(text, from, to)
}

/// What the standard library says of bytes that are not UTF-8.
pub uninterp spec fn utf8_error_text(bytes: Seq<u8>) -> Seq<char>;

/// `std::str::from_utf8` gives the text that bytes encode, or describes where
/// they stop being UTF-8. The description depends on the bytes alone.
#[verifier::external_body]
pub(crate) fn decode_text(bytes: &[u8]) -> (result: Result<String, String>)
    ensures
        result is Ok <==> vstd::utf8::valid_utf8(bytes@),
        result matches Ok(text) ==> vstd::utf8::encode_utf8(text@) == bytes@,
        result matches Err(cause) ==> cause@ == utf8_error_text(bytes@),
{
    match std::str::from_utf8(bytes) {
        Ok(text) => Ok(text.to_owned()),
        Err(cause) => Err(cause.to_string()),
    }
}

/// What the standard library says of a text that is no `u32`.
pub uninterp spec fn u32_error_text(text: Seq<char>) -> Seq<char>;

/// `<u32 as FromStr>::from_str` reads decimal digits with an optional plus sign,
/// or describes what is wrong with the text. The description depends on the
/// text alone.
#[verifier::external_body]
pub(crate) fn parse_u32(text: &str) -> (result: Result<u32, String>)
    ensures
        match result {
            Ok(value) => parsed_unsigned(text@, u32::MAX as nat) == Some(value as nat),
            Err(cause) => parsed_unsigned(text@, u32::MAX as nat) is None && cause@
                == u32_error_text(text@),
        },
{
    text.parse::<u32>().map_err(|cause| cause.to_string())
}

/// What the standard library says of a text that is no `u64`.
pub uninterp spec fn u64_error_text(text: Seq<char>) -> Seq<char>;

/// `<u64 as FromStr>::from_str` reads decimal digits with an optional plus sign,
/// or describes what is wrong with the text. The description depends on the
/// text alone.
#[verifier::external_body]
pub(crate) fn parse_u64(text: &str) -> (result: Result<u64, String>)
    ensures
        match result {
            Ok(value) => parsed_unsigned(text@, u64::MAX as nat) == Some(value as nat),
            Err(cause) => parsed_unsigned(text@, u64::MAX as nat) is None && cause@
                == u64_error_text(text@),
        },
{
    text.parse::<u64>().map_err(|cause| cause.to_string())
}

/// Whether two characters follow each other at a place.
pub open spec fn pair_at(text: Seq<char>, first: char, second: char, place: int) -> bool {
    &&& 0 <= place
    &&& place + 1 < text.len()
    &&& text[place] == first
    &&& text[place + 1] == second
}

/// Where two characters follow each other for the first time.
#[verifier::opaque]
pub open spec fn first_pair(text: Seq<char>, first: char, second: char) -> Option<int> {
    if exists|place: int| #[trigger] pair_at(text, first, second, place) {
        Some(
            choose|place: int| #[trigger]
                pair_at(text, first, second, place) && (forall|other: int|
                    0 <= other < place ==> !#[trigger] pair_at(text, first, second, other)),
        )
    } else {
        None
    }
}

/// Where two characters follow each other for the last time.
#[verifier::opaque]
pub open spec fn last_pair(text: Seq<char>, first: char, second: char) -> Option<int> {
    if exists|place: int| #[trigger] pair_at(text, first, second, place) {
        Some(
            choose|place: int| #[trigger]
                pair_at(text, first, second, place) && (forall|other: int|
                    place < other ==> !#[trigger] pair_at(text, first, second, other)),
        )
    } else {
        None
    }
}

/// Finds where two characters follow each other for the first time.
pub fn find_pair(text: &[char], first: char, second: char) -> (found: Option<usize>)
    ensures
        match found {
            Some(place) => first_pair(text@, first, second) == Some(place as int) && pair_at(
                text@,
                first,
                second,
                place as int,
            ),
            None => first_pair(text@, first, second) is None,
        },
{
    proof {
        reveal(first_pair);
    }
    let mut next: usize = 0;
    while next < text.len() && next + 1 < text.len()
        invariant
            next <= text@.len(),
            forall|other: int|
                0 <= other < next ==> !#[trigger] pair_at(text@, first, second, other),
        decreases text@.len() - next,
    {
        if text[next] == first && text[next + 1] == second {
            proof {
                reveal(first_pair);
                reveal(last_pair);
                assert(pair_at(text@, first, second, next as int));
                let chosen = choose|place: int| #[trigger]
                    pair_at(text@, first, second, place) && (forall|other: int|
                        0 <= other < place ==> !#[trigger] pair_at(text@, first, second, other));
                assert(pair_at(text@, first, second, chosen));
                assert(chosen == next);
            }
            return Some(next);
        }
        next = next + 1;
    }
    None
}

/// Finds where two characters follow each other for the last time.
pub fn rfind_pair(text: &[char], first: char, second: char) -> (found: Option<usize>)
    ensures
        match found {
            Some(place) => last_pair(text@, first, second) == Some(place as int) && pair_at(
                text@,
                first,
                second,
                place as int,
            ),
            None => last_pair(text@, first, second) is None,
        },
{
    proof {
        reveal(last_pair);
    }
    let mut next: usize = text.len();
    while next > 0
        invariant
            next <= text@.len(),
            forall|other: int| next <= other ==> !#[trigger] pair_at(text@, first, second, other),
        decreases next,
    {
        next = next - 1;
        if text[next] == first && next + 1 < text.len() && text[next + 1] == second {
            proof {
                reveal(first_pair);
                reveal(last_pair);
                assert(pair_at(text@, first, second, next as int));
                let chosen = choose|place: int| #[trigger]
                    pair_at(text@, first, second, place) && (forall|other: int|
                        place < other ==> !#[trigger] pair_at(text@, first, second, other));
                assert(pair_at(text@, first, second, chosen));
                assert(chosen == next);
            }
            return Some(next);
        }
    }
    None
}

/// Whether a text occurs in another at a place.
pub open spec fn stands_at(text: Seq<char>, needle: Seq<char>, place: int) -> bool {
    0 <= place && place + needle.len() <= text.len() && text.subrange(
        place,
        place + needle.len(),
    ) == needle
}

/// Whether a text occurs in another.
pub open spec fn contains(text: Seq<char>, needle: Seq<char>) -> bool {
    exists|place: int| #[trigger] stands_at(text, needle, place)
}

fn is_at(text: &Vec<char>, needle: &Vec<char>, place: usize) -> (holds: bool)
    requires
        place + needle@.len() <= text@.len(),
    ensures
        holds == stands_at(text@, needle@, place as int),
{
    let size = text.len();
    let mut next: usize = 0;
    while next < needle.len()
        invariant
            next <= needle@.len(),
            size == text@.len(),
            place + needle@.len() <= text@.len(),
            forall|i: int| 0 <= i < next ==> text@[place + i] == needle@[i],
        decreases needle@.len() - next,
    {
        if text[place + next] != needle[next] {
            proof {
                let window = text@.subrange(place as int, place + needle@.len());
                assert(window[next as int] != needle@[next as int]);
            }
            return false;
        }
        next = next + 1;
    }
    assert(text@.subrange(place as int, place + needle@.len()) =~= needle@);
    true
}

/// Whether a text occurs in another.
pub fn contains_text(text: &str, needle: &str) -> (holds: bool)
    ensures
        holds == contains(text@, needle@),
{
    let characters = chars_of(text);
    let wanted = chars_of(needle);
    if wanted.len() > characters.len() {
        return false;
    }
    let last = characters.len() - wanted.len();
    let mut place: usize = 0;
    loop
        invariant
            place <= last,
            last == characters@.len() - wanted@.len(),
            characters@ == text@,
            wanted@ == needle@,
            forall|i: int| 0 <= i < place ==> !#[trigger] stands_at(characters@, wanted@, i),
        decreases last - place,
    {
        if is_at(&characters, &wanted, place) {
            return true;
        }
        if place == last {
            return false;
        }
        place = place + 1;
    }
}

/// Decimal digits stand for the number they are of: reading back gives the number.
pub proof fn decimal_round_trip(value: nat)
    ensures
        decimal(value).len() > 0,
        all_digits(decimal(value)),
        digits_value(decimal(value)) == value,
        decimal(value)[0] == '0' ==> value == 0,
        decimal(value)[0] != '+',
    decreases value,
{
    if value < 10 {
        let digits = decimal(value);
        assert(digits.drop_last().len() == 0);
        assert(digits.last() as int == '0' as int + value);
        assert(digits_value(digits.drop_last()) == 0);
    } else {
        decimal_round_trip(value / 10);
        let digits = decimal(value);
        let shorter = decimal(value / 10);
        assert(digits.drop_last() =~= shorter);
        assert(digits.last() as int == '0' as int + value % 10);
        assert(digits[0] == shorter[0]);
        assert forall|i: int| 0 <= i < digits.len() implies is_digit(#[trigger] digits[i]) by {
            if i < shorter.len() {
                assert(is_digit(shorter[i]));
            }
        }
    }
}

/// Two numbers with the same digits are one.
pub proof fn decimals_are_told_apart(first: nat, second: nat)
    requires
        decimal(first) == decimal(second),
    ensures
        first == second,
{
    decimal_round_trip(first);
    decimal_round_trip(second);
}

/// A number is read out of its own digits wherever it is within the bound, and nowhere
/// else.
pub proof fn printed_numbers_are_read_back(value: nat, bound: nat)
    ensures
        value <= bound ==> parsed_unsigned(decimal(value), bound) == Some(value),
        value > bound ==> parsed_unsigned(decimal(value), bound) is None,
{
    decimal_round_trip(value);
}

/// A text that is read as a number has at least one digit, nothing but digits behind an
/// optional plus sign, and stands for a number within the bound.
pub proof fn read_numbers_are_digits(text: Seq<char>, bound: nat)
    ensures
        parsed_unsigned(text, bound) matches Some(value) ==> value <= bound && text.len() > 0 && (
        forall|i: int| 1 <= i < text.len() ==> '0' <= #[trigger] text[i] <= '9') && (text[0] == '+'
            && text.len() > 1 || '0' <= text[0] <= '9'),
{
    if parsed_unsigned(text, bound) is Some {
        let digits = if text[0] == '+' {
            text.skip(1)
        } else {
            text
        };
        assert forall|i: int| 1 <= i < text.len() implies '0' <= #[trigger] text[i] <= '9' by {
            if text[0] == '+' {
                assert(is_digit(digits[i - 1]));
            } else {
                assert(is_digit(digits[i]));
            }
        }
        if text[0] != '+' {
            assert(is_digit(digits[0]));
        }
    }
}

/// Padding keeps the number, and gives at least the width.
pub proof fn padding_keeps_the_number(value: nat, width: nat)
    ensures
        padded_decimal(value, width).len() >= width,
        decimal(value).is_suffix_of(padded_decimal(value, width)),
        forall|i: int|
            0 <= i < padded_decimal(value, width).len() - decimal(value).len() ==> #[trigger]
                padded_decimal(value, width)[i] == '0',
{
    let digits = decimal(value);
    if digits.len() < width {
        let padded = padded_decimal(value, width);
        assert(padded.skip(padded.len() - digits.len()) =~= digits);
        assert(padded.subrange(padded.len() - digits.len(), padded.len() as int) =~= digits);
    } else {
        assert(digits.subrange(0, digits.len() as int) =~= digits);
    }
}

/// The pieces of a text hold no separator, are one more than its separators, and are
/// those of what comes before with the rest behind them.
pub proof fn pieces_hold_no_separator(text: Seq<char>, separator: char)
    ensures
        pieces(text, separator).len() >= 1,
        forall|i: int|
            0 <= i < pieces(text, separator).len() ==> !(#[trigger] pieces(
                text,
                separator,
            )[i]).contains(separator),
        !text.contains(separator) ==> pieces(text, separator) == seq![text],
    decreases text.len(),
{
    if text.len() == 0 {
        assert(text =~= Seq::<char>::empty());
    } else {
        let shorter = pieces(text.drop_last(), separator);
        let all = pieces(text, separator);
        pieces_hold_no_separator(text.drop_last(), separator);
        assert forall|i: int| 0 <= i < all.len() implies !(#[trigger] all[i]).contains(
            separator,
        ) by {
            if text.last() == separator {
                if i < shorter.len() {
                    assert(all[i] == shorter[i]);
                }
            } else if i < shorter.len() - 1 {
                assert(all[i] == shorter[i]);
            } else {
                let last = shorter[shorter.len() - 1];
                assert(all[i] =~= last.push(text.last()));
                assert(!last.contains(separator));
                if all[i].contains(separator) {
                    let k = choose|k: int| 0 <= k < all[i].len() && all[i][k] == separator;
                    assert(last[k] == separator);
                    assert(last.contains(separator));
                }
            }
        }
        if !text.contains(separator) {
            assert(text[text.len() - 1] != separator) by {
                if text[text.len() - 1] == separator {
                    assert(text.contains(separator));
                }
            }
            assert(!text.drop_last().contains(separator)) by {
                if text.drop_last().contains(separator) {
                    let k = choose|k: int|
                        0 <= k < text.drop_last().len() && text.drop_last()[k] == separator;
                    assert(text[k] == separator);
                }
            }
            assert(shorter == seq![text.drop_last()]);
            assert(all =~= seq![text.drop_last().push(text.last())]);
            assert(text.drop_last().push(text.last()) =~= text);
        }
    }
}

/// A trimmed text is a part of the text with white space alone around it, and neither
/// starts nor ends with any.
pub proof fn trimmed_texts_have_no_white_space_around(text: Seq<char>)
    ensures
        trimmed(text).len() > 0 ==> !is_white_space(trimmed(text)[0]) && !is_white_space(
            trimmed(text)[trimmed(text).len() - 1],
        ),
        exists|from: int, to: int|
            0 <= from <= to <= text.len() && #[trigger] text.subrange(from, to) == trimmed(text)
                && (forall|i: int| 0 <= i < from ==> is_white_space(#[trigger] text[i])) && (
            forall|i: int| to <= i < text.len() ==> is_white_space(#[trigger] text[i])),
{
    let start = trimmed_start(text);
    let from = text.len() - start.len();
    trimmed_starts_are_tails(text);
    trimmed_ends_are_heads(start);
    let end = trimmed_end(start);
    let to = from + end.len();
    assert(text.subrange(from as int, to as int) =~= end) by {
        assert(start =~= text.skip(from as int));
        assert(end =~= start.take(end.len() as int));
    }
    assert forall|i: int| to <= i < text.len() implies is_white_space(#[trigger] text[i]) by {
        assert(text[i] == start[i - from]);
    }
    if end.len() > 0 {
        assert(end[0] == start[0]);
    }
    assert(text.subrange(from as int, to as int) == trimmed(text));
}

proof fn trimmed_starts_are_tails(text: Seq<char>)
    ensures
        trimmed_start(text).len() <= text.len(),
        trimmed_start(text) == text.skip(text.len() - trimmed_start(text).len()),
        forall|i: int|
            0 <= i < text.len() - trimmed_start(text).len() ==> is_white_space(#[trigger] text[i]),
        trimmed_start(text).len() > 0 ==> !is_white_space(trimmed_start(text)[0]),
    decreases text.len(),
{
    if text.len() > 0 && is_white_space(text[0]) {
        let rest = text.skip(1);
        trimmed_starts_are_tails(rest);
        let kept = trimmed_start(rest);
        assert(text.skip(text.len() - kept.len()) =~= rest.skip(rest.len() - kept.len()));
        assert forall|i: int| 0 <= i < text.len() - kept.len() implies is_white_space(
            #[trigger] text[i],
        ) by {
            if i > 0 {
                assert(text[i] == rest[i - 1]);
            }
        }
    } else {
        assert(text.skip(0) =~= text);
    }
}

proof fn trimmed_ends_are_heads(text: Seq<char>)
    ensures
        trimmed_end(text).len() <= text.len(),
        trimmed_end(text) == text.take(trimmed_end(text).len() as int),
        forall|i: int|
            trimmed_end(text).len() <= i < text.len() ==> is_white_space(#[trigger] text[i]),
        trimmed_end(text).len() > 0 ==> !is_white_space(trimmed_end(text).last()),
    decreases text.len(),
{
    if text.len() > 0 && is_white_space(text.last()) {
        let rest = text.drop_last();
        trimmed_ends_are_heads(rest);
        let kept = trimmed_end(rest);
        assert(text.take(kept.len() as int) =~= rest.take(kept.len() as int));
        assert forall|i: int| kept.len() <= i < text.len() implies is_white_space(
            #[trigger] text[i],
        ) by {
            if i < rest.len() {
                assert(text[i] == rest[i]);
            }
        }
    } else {
        assert(text.take(text.len() as int) =~= text);
    }
}

/// A field of a text is not empty and has nothing in it that separates fields.
pub proof fn fields_are_unbroken(text: Seq<char>, ascii: bool)
    ensures
        forall|i: int, j: int|
            #![trigger fields(text, ascii)[i][j]]
            0 <= i < fields(text, ascii).len() && 0 <= j < fields(text, ascii)[i].len()
                ==> !separates(fields(text, ascii)[i][j], ascii),
        forall|i: int|
            0 <= i < fields(text, ascii).len() ==> (#[trigger] fields(text, ascii)[i]).len() > 0,
        text.len() > 0 && !separates(text.last(), ascii) ==> fields(text, ascii).len() > 0
            && fields(text, ascii).last().last() == text.last(),
    decreases text.len(),
{
    if text.len() > 0 {
        let shorter = fields(text.drop_last(), ascii);
        let all = fields(text, ascii);
        fields_are_unbroken(text.drop_last(), ascii);
        if !separates(text.last(), ascii) && text.len() > 1 && !separates(
            text[text.len() - 2],
            ascii,
        ) {
            assert(text.drop_last().last() == text[text.len() - 2]);
            let last = shorter.len() - 1;
            assert(all[last] == shorter[last].push(text.last()));
            assert(all.len() == shorter.len());
            assert forall|i: int, j: int|
                #![trigger all[i][j]]
                0 <= i < all.len() && 0 <= j < all[i].len() implies !separates(
                all[i][j],
                ascii,
            ) by {
                if i < last {
                    assert(all[i] == shorter[i]);
                    assert(!separates(shorter[i][j], ascii));
                } else if j < shorter[last].len() {
                    assert(all[i][j] == shorter[last][j]);
                }
            }
            assert forall|i: int| 0 <= i < all.len() implies (#[trigger] all[i]).len() > 0 by {
                if i < last {
                    assert(all[i] == shorter[i]);
                }
            }
        } else if !separates(text.last(), ascii) {
            assert(all == shorter.push(seq![text.last()]));
            assert forall|i: int, j: int|
                #![trigger all[i][j]]
                0 <= i < all.len() && 0 <= j < all[i].len() implies !separates(
                all[i][j],
                ascii,
            ) by {
                if i < shorter.len() {
                    assert(all[i] == shorter[i]);
                    assert(!separates(shorter[i][j], ascii));
                }
            }
            assert forall|i: int| 0 <= i < all.len() implies (#[trigger] all[i]).len() > 0 by {
                if i < shorter.len() {
                    assert(all[i] == shorter[i]);
                }
            }
        }
    }
}

/// What comes before a suffix and the suffix make up the text, as do a prefix and what
/// follows it.
pub proof fn texts_are_their_ends(text: Seq<char>, part: Seq<char>)
    ensures
        before_suffix(text, part) matches Some(start) ==> text == start + part,
        after_prefix(text, part) matches Some(rest) ==> text == part + rest,
        before_suffix(text + part, part) == Some(text),
        after_prefix(part + text, part) == Some(text),
{
    if before_suffix(text, part) is Some {
        let start = before_suffix(text, part)->0;
        assert(text =~= start + text.skip(text.len() - part.len()));
    }
    if after_prefix(text, part) is Some {
        assert(text =~= part + text.skip(part.len() as int)) by {
            assert(text.take(part.len() as int) =~= part);
        }
    }
    let behind = text + part;
    assert(behind.skip(behind.len() - part.len()) =~= part);
    assert(behind.take(behind.len() - part.len()) =~= text);
    let ahead = part + text;
    assert(part.is_prefix_of(ahead));
    assert(ahead.skip(part.len() as int) =~= text);
}

/// Where two characters first follow each other they do, and nowhere before; and likewise
/// for the last place and behind it. There is no place only where they never do.
pub proof fn pairs_are_found(text: Seq<char>, first: char, second: char, place: int)
    ensures
        first_pair(text, first, second) matches Some(found) ==> 0 <= found && found + 1
            < text.len() && text[found] == first && text[found + 1] == second && (0 <= place
            < found ==> !(text[place] == first && text[place + 1] == second)),
        last_pair(text, first, second) matches Some(found) ==> 0 <= found && found + 1
            < text.len() && text[found] == first && text[found + 1] == second && (found < place
            && place + 1 < text.len() ==> !(text[place] == first && text[place + 1] == second)),
        first_pair(text, first, second) is None || last_pair(text, first, second) is None ==> !(0
            <= place && place + 1 < text.len() && text[place] == first && text[place + 1]
            == second),
{
    reveal(first_pair);
    reveal(last_pair);
    if exists|at: int| #[trigger] pair_at(text, first, second, at) {
        let some = choose|at: int| #[trigger] pair_at(text, first, second, at);
        lowest_pair(text, first, second, some);
        highest_pair(text, first, second, some);
        let found = first_pair(text, first, second)->0;
        let last = last_pair(text, first, second)->0;
        assert(pair_at(text, first, second, found));
        assert(pair_at(text, first, second, last));
        if 0 <= place < found {
            assert(!pair_at(text, first, second, place));
        }
        if last < place {
            assert(!pair_at(text, first, second, place));
        }
    } else {
        assert(!pair_at(text, first, second, place));
    }
}

proof fn lowest_pair(text: Seq<char>, first: char, second: char, from: int) -> (low: int)
    requires
        pair_at(text, first, second, from),
    ensures
        pair_at(text, first, second, low),
        forall|other: int| 0 <= other < low ==> !#[trigger] pair_at(text, first, second, other),
    decreases from,
{
    if exists|other: int| 0 <= other < from && #[trigger] pair_at(text, first, second, other) {
        let other = choose|other: int|
            0 <= other < from && #[trigger] pair_at(text, first, second, other);
        lowest_pair(text, first, second, other)
    } else {
        from
    }
}

proof fn highest_pair(text: Seq<char>, first: char, second: char, from: int) -> (high: int)
    requires
        pair_at(text, first, second, from),
    ensures
        pair_at(text, first, second, high),
        forall|other: int| high < other ==> !#[trigger] pair_at(text, first, second, other),
    decreases text.len() - from,
{
    if exists|other: int| from < other && #[trigger] pair_at(text, first, second, other) {
        let other = choose|other: int|
            from < other && #[trigger] pair_at(text, first, second, other);
        highest_pair(text, first, second, other)
    } else {
        from
    }
}

/// An optional text holds what it holds.
pub proof fn optional_texts_are_kept(text: Option<String>)
    ensures
        optional_view(text) is Some <==> text is Some,
        text matches Some(present) ==> optional_view(text) == Some(present@),
{
}

/// Fields are separated by blanks, tabs and line ends everywhere; a vertical tab or a wide
/// space separates them only where all white space does, and no visible ASCII character
/// separates any.
pub proof fn separators_are_white_space(character: char, ascii: bool)
    ensures
        character == ' ' || character == '\t' || character == '\n' || character == '\r'
            ==> separates(character, ascii),
        separates(character, true) ==> separates(character, false),
        0x21 <= character as int <= 0x7e ==> !separates(character, ascii),
        character as int == 0x0b || character as int == 0x3000 ==> separates(character, false)
            && !separates(character, true),
        separates(character, true) ==> (character as int) <= 32,
{
}

/// Each digit below sixteen is printed as a character of its own, which stands for it.
pub proof fn hexadecimal_digits_stand_for_themselves(value: int)
    requires
        0 <= value < 16,
    ensures
        hex_value(hex_digit(value)) == value,
        is_lower_hex(hex_digit(value)),
        value < 10 ==> is_digit(hex_digit(value)),
{
}

/// In a sorted list no text comes behind a greater one, and texts that differ rise.
pub proof fn sorted_texts_rise(texts: Seq<Seq<char>>, low: int, high: int)
    requires
        sorted_texts(texts),
        0 <= low < high < texts.len(),
    ensures
        text_less(texts[low], texts[high]) || texts[low] == texts[high],
{
    text_less_total(texts[low], texts[high]);
    assert(!text_less(texts[high], texts[low]));
}

/// A text is less than another where it is a proper start of it, and where it is smaller
/// at the first place at which they differ.
pub proof fn lesser_texts_are_smaller(
    start: Seq<char>,
    first: Seq<char>,
    second: Seq<char>,
    low: char,
    high: char,
)
    requires
        low < high,
    ensures
        text_less(start + first.insert(0, low), start + second.insert(0, high)),
        first.len() > 0 ==> text_less(start, start + first),
    decreases start.len(),
{
    let left = start + first.insert(0, low);
    let right = start + second.insert(0, high);
    if start.len() > 0 {
        let rest = start.skip(1);
        lesser_texts_are_smaller(rest, first, second, low, high);
        assert(left.skip(1) =~= rest + first.insert(0, low));
        assert(right.skip(1) =~= rest + second.insert(0, high));
        assert((start + first).skip(1) =~= rest + first);
        assert(left[0] == right[0]);
        assert((start + first)[0] == start[0]);
    } else {
        assert(left =~= first.insert(0, low));
        assert(right =~= second.insert(0, high));
        assert(start + first =~= first);
    }
}

} // verus!
