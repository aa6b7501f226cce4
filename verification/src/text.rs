//! Text as the forms and the screen need it: characters and their byte
//! positions, order, letter case, white space, numbers and cut-outs.

use vstd::prelude::*;

verus! {

/// The number of bytes that the first `k` characters of `s` take in UTF-8.
pub open spec fn byte_offset(s: Seq<char>, k: int) -> int {
    vstd::utf8::encode_utf8(s.take(k)).len() as int
}

/// `String::insert`: the character `ch` goes in at the byte position `idx`,
/// which has to be the start of a character or the end of the text. The number
/// of bytes of a `String`, and so that of its characters, is a `usize`.
pub assume_specification[ String::insert ](string: &mut String, idx: usize, ch: char)
    requires
        exists|k: int|
            0 <= k <= old(string)@.len() && idx == #[trigger] byte_offset(old(string)@, k),
    ensures
        forall|k: int|
            0 <= k <= old(string)@.len() && idx == #[trigger] byte_offset(old(string)@, k)
                ==> final(string)@ == old(string)@.insert(k, ch),
        final(string)@.len() <= usize::MAX,
;

/// `String::drain`, with the drained characters dropped: the bytes from `start`
/// up to `end` leave the text. Both have to be starts of characters or the end
/// of the text, `start` not behind `end`.
#[verifier::external_body]
pub(crate) fn remove_range(text: &mut String, start: usize, end: usize)
    requires
        exists|i: int, j: int|
            0 <= i <= j <= old(text)@.len() && start == #[trigger] byte_offset(old(text)@, i)
                && end == #[trigger] byte_offset(old(text)@, j),
    ensures
        forall|i: int, j: int|
            0 <= i <= j <= old(text)@.len() && start == #[trigger] byte_offset(old(text)@, i)
                && end == #[trigger] byte_offset(old(text)@, j) ==> final(text)@ == old(
                text,
            )@.take(i) + old(text)@.skip(j),
{
    text.drain(start..end);
}

/// `String::with_capacity`: an empty text. How much memory it reserves shows in
/// no value. It cannot reserve more than `isize::MAX` bytes.
pub assume_specification[ String::with_capacity ](capacity: usize) -> (empty: String)
    requires
        capacity <= isize::MAX,
    ensures
        empty@ == Seq::<char>::empty(),
;

/// What `str::to_lowercase` makes of a text.
pub uninterp spec fn lowercase_of(s: Seq<char>) -> Seq<char>;

/// `str::to_lowercase`: the lowercase equivalent of the text, which depends on
/// the text alone.
pub assume_specification[ str::to_lowercase ](s: &str) -> (lower: String)
    ensures
        lower@ == lowercase_of(s@),
;

/// The characters with the Unicode property White_Space.
pub open spec fn white_space(c: char) -> bool {
    ||| 0x09 <= c as int <= 0x0d
    ||| c as int == 0x20
    ||| c as int == 0x85
    ||| c as int == 0xa0
    ||| c as int == 0x1680
    ||| 0x2000 <= c as int <= 0x200a
    ||| c as int == 0x2028
    ||| c as int == 0x2029
    ||| c as int == 0x202f
    ||| c as int == 0x205f
    ||| c as int == 0x3000
}

/// `char::is_whitespace`: whether the character has the Unicode property
/// White_Space.
pub assume_specification[ char::is_whitespace ](c: char) -> (white: bool)
    ensures
        white == white_space(c),
;

/// The control codes of Unicode: U+0000 to U+001F and U+007F to U+009F.
pub open spec fn is_control(c: char) -> bool {
    c as int <= 0x1f || 0x7f <= c as int <= 0x9f
}

/// `char::is_control`: whether the character is one of the control codes.
pub assume_specification[ char::is_control ](c: char) -> (control: bool)
    ensures
        control == is_control(c),
;

/// Whether `a` stands before `b`, or equals it, in the order of strings: the
/// first character in which they differ decides, by its code point, and a text
/// stands before its own continuations.
pub open spec fn lex_le(a: Seq<char>, b: Seq<char>) -> bool
    decreases a.len(),
{
    ||| a.len() == 0
    ||| b.len() > 0 && a[0] < b[0]
    ||| b.len() > 0 && a[0] == b[0] && lex_le(a.drop_first(), b.drop_first())
}

/// Whether `a` stands before `b` or equals it.
pub fn text_le(a: &str, b: &str) -> (le: bool)
    ensures
        le == lex_le(a@, b@),
{
    let mut left = a.chars();
    let mut right = b.chars();
    loop
        invariant
            vstd::std_specs::iter::IteratorSpec::decrease(&left) is Some,
            lex_le(a@, b@) == lex_le(vstd::std_specs::iter::IteratorSpec::remaining(&left), vstd::std_specs::iter::IteratorSpec::remaining(&right)),
        decreases vstd::std_specs::iter::IteratorSpec::decrease(&left)->0,
    {
        match left.next() {
            None => {
                return true;
            },
            Some(c) => match right.next() {
                None => {
                    return false;
                },
                Some(d) => {
                    if c < d {
                        return true;
                    }
                    if d < c {
                        return false;
                    }
                },
            },
        }
    }
}

/// `s` without the white space at its start.
pub open spec fn trim_start(s: Seq<char>) -> Seq<char>
    decreases s.len(),
{
    if s.len() > 0 && white_space(s[0]) {
        trim_start(s.drop_first())
    } else {
        s
    }
}

/// `s` without the white space at its end.
pub open spec fn trim_end(s: Seq<char>) -> Seq<char>
    decreases s.len(),
{
    if s.len() > 0 && white_space(s.last()) {
        trim_end(s.drop_last())
    } else {
        s
    }
}

/// `s` without the white space around it.
pub open spec fn trimmed(s: Seq<char>) -> Seq<char> {
    trim_end(trim_start(s))
}

/// The text without the white space around it.
pub fn trim(text: &str) -> (inner: &str)
    ensures
        inner@ == trimmed(text@),
{
    let len = text.unicode_len();
    let mut from: usize = 0;
    assert(text@.subrange(0, len as int) =~= text@);
    while from < len && text.get_char(from).is_whitespace()
        invariant
            from <= len,
            len == text@.len(),
            trim_start(text@) == trim_start(text@.subrange(from as int, len as int)),
        decreases len - from,
    {
        from = from + 1;
        assert(text@.subrange(from - 1, len as int).drop_first() =~= text@.subrange(
            from as int,
            len as int,
        ));
    }
    let mut to: usize = len;
    while from < to && text.get_char(to - 1).is_whitespace()
        invariant
            from <= to <= len,
            len == text@.len(),
            trimmed(text@) == trim_end(text@.subrange(from as int, to as int)),
        decreases to - from,
    {
        to = to - 1;
        assert(text@.subrange(from as int, to + 1).drop_last() =~= text@.subrange(
            from as int,
            to as int,
        ));
    }
    text.substring_char(from, to)
}

/// The digit of a number below ten.
pub open spec fn digit_of(d: nat) -> Seq<char> {
    if d == 0 {
        "0"@
    } else if d == 1 {
        "1"@
    } else if d == 2 {
        "2"@
    } else if d == 3 {
        "3"@
    } else if d == 4 {
        "4"@
    } else if d == 5 {
        "5"@
    } else if d == 6 {
        "6"@
    } else if d == 7 {
        "7"@
    } else if d == 8 {
        "8"@
    } else {
        "9"@
    }
}

/// The decimal digits of a number, without leading zeros.
pub open spec fn decimal_of(n: nat) -> Seq<char>
    decreases n,
{
    if n < 10 {
        digit_of(n)
    } else {
        decimal_of(n / 10) + digit_of(n % 10)
    }
}

fn digit(d: usize) -> (text: &'static str)
    requires
        d < 10,
    ensures
        text@ == digit_of(d as nat),
{
    match d {
        0 => "0",
        1 => "1",
        2 => "2",
        3 => "3",
        4 => "4",
        5 => "5",
        6 => "6",
        7 => "7",
        8 => "8",
        _ => "9",
    }
}

/// The number in decimal digits.
pub fn decimal(n: usize) -> (text: String)
    ensures
        text@ == decimal_of(n as nat),
    decreases n,
{
    if n < 10 {
        digit(n).to_string()
    } else {
        decimal(n / 10).concat(digit(n % 10))
    }
}

/// The part of `s` that a window of `width` characters shows which leaves the
/// first `start` characters out on its left.
pub open spec fn window_of(s: Seq<char>, start: int, width: int) -> Seq<char> {
    s.subrange(vstd::math::min(start, s.len() as int), vstd::math::min(start + width, s.len() as int))
}

/// The part of the text that a window of `width` characters shows which leaves
/// the first `start` characters out on its left.
pub fn window(text: &str, start: usize, width: usize) -> (shown: String)
    ensures
        shown@ == window_of(text@, start as int, width as int),
{
    let len = text.unicode_len();
    let from = if start < len {
        start
    } else {
        len
    };
    let to = if width < len - from {
        from + width
    } else {
        len
    };
    text.substring_char(from, to).to_string()
}

/// A row of `n` bullets.
pub open spec fn mask_of(n: nat) -> Seq<char> {
    Seq::new(n, |i: int| '\u{2022}')
}

/// A row of `n` bullets.
pub fn mask(n: usize) -> (bullets: String)
    ensures
        bullets@ == mask_of(n as nat),
{
    let mut bullets = String::new();
    let mut i: usize = 0;
    proof {
        reveal_strlit("\u{2022}");
    }
    while i < n
        invariant
            i <= n,
            bullets@ == mask_of(i as nat),
            "\u{2022}"@ == seq!['\u{2022}'],
        decreases n - i,
    {
        bullets.append("\u{2022}");
        i = i + 1;
    }
    bullets
}

} // verus!
