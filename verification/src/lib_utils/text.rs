//! Small text operations with exact contracts: ASCII case folding, comparison
//! without regard to ASCII case, and decimal numerals.
use vstd::prelude::*;

verus! {

/// The lower-case form of an ASCII capital letter; any other character is kept.
pub open spec fn ascii_lower(c: char) -> char {
    if 'A' <= c && c <= 'Z' {
        ((c as u8) + 32) as char
    } else {
        c
    }
}

/// A text with every ASCII capital letter replaced by its lower-case form.
pub open spec fn ascii_lowercase(s: Seq<char>) -> Seq<char> {
    s.map_values(|c: char| ascii_lower(c))
}

/// Two texts are equal when differences of ASCII case are disregarded.
pub open spec fn eq_ignore_ascii_case(a: Seq<char>, b: Seq<char>) -> bool {
    ascii_lowercase(a) == ascii_lowercase(b)
}

/// Folds one character to lower case.
pub fn char_to_ascii_lower(c: char) -> (r: char)
    ensures
        r == ascii_lower(c),
{
    if 'A' <= c && c <= 'Z' {
        ((c as u8) + 32u8) as char
    } else {
        c
    }
}

/// Whether `s`, folded to lower case, is exactly `lowered`.
pub fn lowercase_is(s: &str, lowered: &str) -> (r: bool)
    ensures
        r == (ascii_lowercase(s@) == lowered@),
{
    let left = chars_of(s);
    let right = chars_of(lowered);
    if left.len() != right.len() {
        return false;
    }
    let mut i: usize = 0;
    while i < left.len()
        invariant
            i <= left.len(),
            left@ == s@,
            right@ == lowered@,
            left.len() == right.len(),
            forall|j: int| 0 <= j < i ==> ascii_lower(s@[j]) == lowered@[j],
        decreases left.len() - i,
    {
        if char_to_ascii_lower(left[i]) != right[i] {
            return false;
        }
        i += 1;
    }
    assert(ascii_lowercase(s@) =~= lowered@);
    true
}

/// Whether two texts are equal when differences of ASCII case are disregarded.
pub fn str_eq_ignore_ascii_case(a: &str, b: &str) -> (r: bool)
    ensures
        r == eq_ignore_ascii_case(a@, b@),
{
    let left = chars_of(a);
    let right = chars_of(b);
    if left.len() != right.len() {
        assert(ascii_lowercase(a@).len() != ascii_lowercase(b@).len());
        return false;
    }
    let mut i: usize = 0;
    while i < left.len()
        invariant
            i <= left.len(),
            left@ == a@,
            right@ == b@,
            left.len() == right.len(),
            forall|j: int| 0 <= j < i ==> ascii_lower(a@[j]) == ascii_lower(b@[j]),
        decreases left.len() - i,
    {
        if char_to_ascii_lower(left[i]) != char_to_ascii_lower(right[i]) {
            assert(ascii_lowercase(a@)[i as int] != ascii_lowercase(b@)[i as int]);
            return false;
        }
        i += 1;
    }
    assert(ascii_lowercase(a@) =~= ascii_lowercase(b@));
    true
}

/// The character of a decimal digit.
pub open spec fn digit_char(d: nat) -> char
    recommends
        d < 10,
{
    (('0' as u8) + d) as char
}

/// A number written in decimal digits, without sign or leading zeros.
pub open spec fn decimal(n: nat) -> Seq<char>
    decreases n,
{
    if n < 10 {
        seq![digit_char(n)]
    } else {
        decimal(n / 10).push(digit_char(n % 10))
    }
}

/// Writes a number in decimal digits.
pub fn usize_to_decimal(n: usize) -> (text: String)
    ensures
        text@ == decimal(n as nat),
{
    let mut digits: Vec<char> = Vec::new();
    let mut rest: usize = n;
    while rest >= 10
        invariant
            decimal(n as nat) == decimal(rest as nat) + digits@.reverse(),
        decreases rest,
    {
        let d: u8 = (rest % 10) as u8;
        digits.push((('0' as u8) + d) as char);
        rest = rest / 10;
    }
    let mut text = String::new();
    let first: char = (('0' as u8) + (rest as u8)) as char;
    text = push_char(text, first);
    let mut i: usize = digits.len();
    while i > 0
        invariant
            i <= digits.len(),
            text@ == seq![first] + digits@.reverse().take(digits.len() - i),
        decreases i,
    {
        text = push_char(text, digits[i - 1]);
        i -= 1;
    }
    text
}

/// Whether a character is white space as Unicode lists it: the characters
/// with the property `White_Space`, which `char::is_whitespace` and `str::trim`
/// go by. They are the controls from tab to carriage return, the space, the
/// next line control, the no-break space, the Ogham space mark, the spaces from
/// en quad to hair space, the line and the paragraph separator, the narrow
/// no-break space, the medium mathematical space and the ideographic space.
pub open spec fn is_white_space(c: char) -> bool {
    let n = c as u32;
    ||| 0x09 <= n <= 0x0D
    ||| n == 0x20
    ||| n == 0x85
    ||| n == 0xA0
    ||| n == 0x1680
    ||| 0x2000 <= n <= 0x200A
    ||| n == 0x2028
    ||| n == 0x2029
    ||| n == 0x202F
    ||| n == 0x205F
    ||| n == 0x3000
}

/// Whether a character is white space as Unicode lists it.
pub fn char_is_whitespace(c: char) -> (white: bool)
    ensures
        white == is_white_space(c),
{
    let n: u32 = c as u32;
    (0x09 <= n && n <= 0x0D) || n == 0x20 || n == 0x85 || n == 0xA0 || n == 0x1680 || (0x2000 <= n
        && n <= 0x200A) || n == 0x2028 || n == 0x2029 || n == 0x202F || n == 0x205F || n
        == 0x3000
}

/// How many characters at the start of a text are white space.
pub open spec fn leading_white_space(s: Seq<char>) -> nat
    decreases s.len(),
{
    if s.len() > 0 && is_white_space(s.first()) {
        1 + leading_white_space(s.drop_first())
    } else {
        0
    }
}

/// How many characters at the end of a text are white space.
pub open spec fn trailing_white_space(s: Seq<char>) -> nat
    decreases s.len(),
{
    if s.len() > 0 && is_white_space(s.last()) {
        1 + trailing_white_space(s.drop_last())
    } else {
        0
    }
}

/// A text without the white space at its start and at its end.
pub open spec fn trimmed(s: Seq<char>) -> Seq<char> {
    let rest = s.skip(leading_white_space(s) as int);
    rest.take(rest.len() - trailing_white_space(rest))
}

/// The pieces of a text between its line feeds, in order: one more than there
/// are line feeds. A piece may be empty.
pub open spec fn split_lines(s: Seq<char>) -> Seq<Seq<char>>
    decreases s.len(),
{
    if s.len() == 0 {
        seq![Seq::empty()]
    } else {
        let before = split_lines(s.drop_last());
        if s.last() == '\n' {
            before.push(Seq::empty())
        } else {
            before.drop_last().push(before.last().push(s.last()))
        }
    }
}

/// The characters of a text.
pub fn chars_of(s: &str) -> (chars: Vec<char>)
    ensures
        chars@ == s@,
{
    let mut chars: Vec<char> = Vec::new();
    for c in it: s.chars()
        invariant
            it.seq() == s@,
            chars@ == it.seq().take(it.index() as int),
    {
        chars.push(c);
    }
    chars
}

/// The text made of some of a sequence's characters: those from `from` up to,
/// not including, `to`.
pub fn string_of(chars: &Vec<char>, from: usize, to: usize) -> (text: String)
    requires
        from <= to <= chars.len(),
    ensures
        text@ == chars@.subrange(from as int, to as int),
{
    let mut text = String::new();
    let mut i: usize = from;
    while i < to
        invariant
            from <= i <= to,
            to <= chars.len(),
            text@ == chars@.subrange(from as int, i as int),
        decreases to - i,
    {
        text = push_char(text, chars[i]);
        i += 1;
    }
    text
}

/// A text without the white space at its start and at its end.
pub fn trim(s: &str) -> (text: String)
    ensures
        text@ == trimmed(s@),
{
    let chars = chars_of(s);
    let mut start: usize = 0;
    assert(chars@.skip(0) =~= chars@);
    while start < chars.len() && char_is_whitespace(chars[start])
        invariant
            start <= chars.len(),
            leading_white_space(chars@) == start + leading_white_space(
                chars@.skip(start as int),
            ),
        decreases chars.len() - start,
    {
        assert(chars@.skip(start as int).drop_first() =~= chars@.skip(start + 1));
        start += 1;
    }
    let ghost rest = chars@.skip(start as int);
    let mut end: usize = chars.len();
    assert(rest.take(end - start) =~= rest);
    while end > start && char_is_whitespace(chars[end - 1])
        invariant
            start <= end <= chars.len(),
            rest == chars@.skip(start as int),
            trailing_white_space(rest) == (chars.len() - end) + trailing_white_space(
                rest.take(end - start),
            ),
        decreases end,
    {
        assert(rest.take(end - start).drop_last() =~= rest.take(end - 1 - start));
        end -= 1;
    }
    string_of(&chars, start, end)
}

/// The pieces of a text between its line feeds, in order.
pub fn lines_of(s: &str) -> (lines: Vec<String>)
    ensures
        lines@.map_values(|line: String| line@) == split_lines(s@),
        lines@.len() >= 1,
{
    let chars = chars_of(s);
    let mut lines: Vec<String> = Vec::new();
    let mut start: usize = 0;
    let mut i: usize = 0;
    let ghost view = |line: String| line@;
    assert(chars@.take(0) =~= Seq::<char>::empty());
    while i < chars.len()
        invariant
            start <= i <= chars.len(),
            view == |line: String| line@,
            lines@.map_values(view).push(chars@.subrange(start as int, i as int)) == split_lines(
                chars@.take(i as int),
            ),
        decreases chars.len() - i,
    {
        let ghost piece = chars@.subrange(start as int, i as int);
        proof {
            assert(chars@.take(i + 1).drop_last() =~= chars@.take(i as int));
        }
        if chars[i] == '\n' {
            let line = string_of(&chars, start, i);
            lines.push(line);
            start = i + 1;
            proof {
                assert(chars@.subrange(start as int, i + 1) =~= Seq::<char>::empty());
            }
        } else {
            proof {
                assert(chars@.subrange(start as int, i + 1) =~= piece.push(chars@[i as int]));
            }
        }
        i += 1;
    }
    let last = string_of(&chars, start, i);
    lines.push(last);
    proof {
        assert(chars@.take(i as int) =~= chars@);
    }
    lines
}

/// Calls `String::push`: the text with one character added at its end.
#[verifier::external_body]
fn push_char(text: String, c: char) -> (out: String)
    ensures
        out@ == text@.push(c),
{
    let mut out = text;
    out.push(c);
    out
}

} // verus!
