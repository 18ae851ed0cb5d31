//! Working on text: characters, prefixes, trimming, removing a pattern,
//! decimal numbers, lowercase hexadecimal, joining.

use vstd::prelude::*;
use vstd::string::*;

verus! {

/// `String::push` of the standard library: the character is appended at the
/// end of the string and the rest of it is unchanged.
pub assume_specification[ String::push ](s: &mut String, c: char)
    ensures
        final(s)@ == old(s)@.push(c),
;

/// Whether a character is white space: one of the code points that Unicode
/// gives the property White_Space.
pub open spec fn is_white_space(c: char) -> bool {
    let n = c as u32;
    ||| 0x09 <= n <= 0x0d
    ||| n == 0x20
    ||| n == 0x85
    ||| n == 0xa0
    ||| n == 0x1680
    ||| 0x2000 <= n <= 0x200a
    ||| n == 0x2028
    ||| n == 0x2029
    ||| n == 0x202f
    ||| n == 0x205f
    ||| n == 0x3000
}

/// `char::is_whitespace` of the standard library: whether the character has
/// the Unicode property White_Space.
pub assume_specification[ char::is_whitespace ](c: char) -> (white: bool)
    ensures
        white == is_white_space(c),
;

/// A text in lower case, as `str::to_lowercase` writes it.
pub uninterp spec fn lowercased(text: Seq<char>) -> Seq<char>;

/// `str::to_lowercase` of the standard library. The result depends on the
/// text alone.
#[verifier::external_body]
pub(crate) fn lowercase(text: &str) -> (out: String)
    ensures
        out@ == lowercased(text@),
{
    text.to_lowercase()
}

/// The digit that stands for `d` in base 16 (and, below ten, in base 10),
/// letters in lower case.
pub open spec fn digit_char(d: nat) -> char {
    if d == 0 {
        '0'
    } else if d == 1 {
        '1'
    } else if d == 2 {
        '2'
    } else if d == 3 {
        '3'
    } else if d == 4 {
        '4'
    } else if d == 5 {
        '5'
    } else if d == 6 {
        '6'
    } else if d == 7 {
        '7'
    } else if d == 8 {
        '8'
    } else if d == 9 {
        '9'
    } else if d == 10 {
        'a'
    } else if d == 11 {
        'b'
    } else if d == 12 {
        'c'
    } else if d == 13 {
        'd'
    } else if d == 14 {
        'e'
    } else {
        'f'
    }
}

/// A character is a lowercase hexadecimal digit.
pub open spec fn is_lower_hex(c: char) -> bool {
    exists|d: nat| d < 16 && c == #[trigger] digit_char(d)
}

/// The decimal notation of `n`, without sign or leading zeros.
pub open spec fn decimal_digits(n: nat) -> Seq<char>
    decreases n,
{
    if n < 10 {
        seq![digit_char(n)]
    } else {
        decimal_digits(n / 10).push(digit_char(n % 10))
    }
}

/// Two lowercase hexadecimal digits for each byte, in order.
pub open spec fn hex_text(bytes: Seq<u8>) -> Seq<char>
    decreases bytes.len(),
{
    if bytes.len() == 0 {
        Seq::empty()
    } else {
        hex_text(bytes.drop_last()).push(digit_char((bytes.last() / 16) as nat)).push(
            digit_char((bytes.last() % 16) as nat),
        )
    }
}

/// The parts in order, with `sep` between each two neighbours.
pub open spec fn joined(parts: Seq<Seq<char>>, sep: Seq<char>) -> Seq<char>
    decreases parts.len(),
{
    if parts.len() == 0 {
        Seq::empty()
    } else if parts.len() == 1 {
        parts[0]
    } else {
        joined(parts.drop_last(), sep) + sep + parts.last()
    }
}

/// The views of the strings of a vector, in order.
pub open spec fn views(v: Seq<String>) -> Seq<Seq<char>> {
    Seq::new(v.len(), |i: int| v[i]@)
}

/// The text of a string that may be absent.
pub open spec fn text_of(s: Option<String>) -> Option<Seq<char>> {
    match s {
        Some(t) => Some(t@),
        None => None,
    }
}

/// The digit for a value below sixteen.
pub fn digit(d: u8) -> (c: char)
    requires
        d < 16,
    ensures
        c == digit_char(d as nat),
        is_lower_hex(c),
{
    let c = match d {
        0 => '0',
        1 => '1',
        2 => '2',
        3 => '3',
        4 => '4',
        5 => '5',
        6 => '6',
        7 => '7',
        8 => '8',
        9 => '9',
        10 => 'a',
        11 => 'b',
        12 => 'c',
        13 => 'd',
        14 => 'e',
        _ => 'f',
    };
    assert(c == digit_char(d as nat));
    c
}

/// Writes a number in decimal.
pub fn decimal_string(n: u128) -> (s: String)
    ensures
        s@ == decimal_digits(n as nat),
    decreases n,
{
    if n < 10 {
        let mut s = String::new();
        s.push(digit(n as u8));
        assert(s@ =~= seq![digit_char(n as nat)]);
        s
    } else {
        let mut s = decimal_string(n / 10);
        s.push(digit((n % 10) as u8));
        s
    }
}

/// Writes bytes as lowercase hexadecimal, two digits a byte.
pub fn hex_string(bytes: &[u8]) -> (s: String)
    ensures
        s@ == hex_text(bytes@),
        s@.len() == 2 * bytes@.len(),
        forall|i: int| 0 <= i < s@.len() ==> is_lower_hex(#[trigger] s@[i]),
{
    let mut s = String::new();
    let mut i: usize = 0;
    while i < bytes.len()
        invariant
            i <= bytes@.len(),
            s@ == hex_text(bytes@.subrange(0, i as int)),
            s@.len() == 2 * i,
            forall|k: int| 0 <= k < s@.len() ==> is_lower_hex(#[trigger] s@[k]),
        decreases bytes@.len() - i,
    {
        let b: u8 = bytes[i];
        let hi = digit(b / 16);
        let lo = digit(b % 16);
        s.push(hi);
        s.push(lo);
        proof {
            let next = bytes@.subrange(0, i + 1);
            assert(next.drop_last() =~= bytes@.subrange(0, i as int));
            assert(next.last() == b);
        }
        i += 1;
    }
    assert(bytes@.subrange(0, i as int) =~= bytes@);
    s
}

/// Whether two texts are the same.
pub fn same_text(a: &str, b: &str) -> (same: bool)
    ensures
        same == (a@ == b@),
{
    String::from_str(a) == String::from_str(b)
}

/// The characters of a text.
pub fn to_chars(text: &str) -> (chars: Vec<char>)
    ensures
        chars@ == text@,
{
    let n = text.unicode_len();
    let mut chars: Vec<char> = Vec::new();
    let mut i: usize = 0;
    while i < n
        invariant
            i <= n,
            n == text@.len(),
            chars@ == text@.subrange(0, i as int),
        decreases n - i,
    {
        chars.push(text.get_char(i));
        assert(chars@ =~= text@.subrange(0, i + 1));
        i += 1;
    }
    assert(text@.subrange(0, n as int) =~= text@);
    chars
}

/// The text that characters make.
pub fn from_chars(chars: &Vec<char>) -> (text: String)
    ensures
        text@ == chars@,
{
    let mut text = String::new();
    let mut i: usize = 0;
    while i < chars.len()
        invariant
            i <= chars@.len(),
            text@ == chars@.subrange(0, i as int),
        decreases chars@.len() - i,
    {
        text.push(chars[i]);
        assert(text@ =~= chars@.subrange(0, i + 1));
        i += 1;
    }
    assert(chars@.subrange(0, i as int) =~= chars@);
    text
}

/// Whether a pattern stands in a text at a position.
pub fn pattern_at(text: &Vec<char>, at: usize, pattern: &Vec<char>) -> (found: bool)
    requires
        at <= text@.len(),
    ensures
        found == pattern@.is_prefix_of(text@.skip(at as int)),
{
    let n = text.len();
    let m = pattern.len();
    if n - at < m {
        return false;
    }
    let mut k: usize = 0;
    while k < m
        invariant
            k <= m,
            m == pattern@.len(),
            n == text@.len(),
            at + m <= n,
            forall|j: int| 0 <= j < k ==> text@[at + j] == pattern@[j],
        decreases m - k,
    {
        if text[at + k] != pattern[k] {
            assert(text@.skip(at as int).subrange(0, m as int)[k as int] != pattern@[k as int]);
            return false;
        }
        k += 1;
    }
    assert(pattern@ =~= text@.skip(at as int).subrange(0, m as int));
    true
}

/// Whether a text begins with a prefix.
pub fn starts_with(text: &Vec<char>, prefix: &Vec<char>) -> (found: bool)
    ensures
        found == prefix@.is_prefix_of(text@),
{
    assert(text@.skip(0) =~= text@);
    pattern_at(text, 0, prefix)
}

/// A text without the matches of a pattern, found from left to right, each
/// search going on where the last match ended.
pub open spec fn without(text: Seq<char>, pattern: Seq<char>) -> Seq<char>
    decreases text.len(),
{
    if pattern.len() == 0 || text.len() == 0 {
        text
    } else if pattern.is_prefix_of(text) {
        without(text.skip(pattern.len() as int), pattern)
    } else {
        seq![text[0]] + without(text.drop_first(), pattern)
    }
}

/// Removes every match of a pattern from a text.
pub fn remove_all(text: &Vec<char>, pattern: &Vec<char>) -> (out: Vec<char>)
    ensures
        out@ == without(text@, pattern@),
{
    let n = text.len();
    let m = pattern.len();
    let mut out: Vec<char> = Vec::new();
    let mut i: usize = 0;
    assert(text@.skip(0) =~= text@);
    assert(out@ + without(text@, pattern@) =~= without(text@, pattern@));
    while i < n
        invariant
            i <= n,
            n == text@.len(),
            m == pattern@.len(),
            without(text@, pattern@) == out@ + without(text@.skip(i as int), pattern@),
        decreases n - i,
    {
        let ghost rest = text@.skip(i as int);
        if m > 0 && pattern_at(text, i, pattern) {
            assert(rest.skip(m as int) =~= text@.skip(i + m));
            i += m;
        } else {
            let c = text[i];
            assert(rest[0] == c);
            assert(rest.drop_first() =~= text@.skip(i + 1));
            assert(out@.push(c) + without(text@.skip(i + 1), pattern@) =~= out@ + (seq![c]
                + without(text@.skip(i + 1), pattern@)));
            out.push(c);
            i += 1;
        }
    }
    assert(out@ + Seq::<char>::empty() =~= out@);
    out
}

/// A text without the white space at its beginning.
pub open spec fn trim_start(text: Seq<char>) -> Seq<char>
    decreases text.len(),
{
    if text.len() > 0 && is_white_space(text[0]) {
        trim_start(text.drop_first())
    } else {
        text
    }
}

/// A text without the white space at its end.
pub open spec fn trim_end(text: Seq<char>) -> Seq<char>
    decreases text.len(),
{
    if text.len() > 0 && is_white_space(text.last()) {
        trim_end(text.drop_last())
    } else {
        text
    }
}

/// A text without the white space at its two ends.
pub open spec fn trimmed(text: Seq<char>) -> Seq<char> {
    trim_end(trim_start(text))
}

/// Cutting white space at the beginning leaves the text from the first
/// character that is none.
pub proof fn lemma_trim_start(text: Seq<char>, lo: int)
    requires
        0 <= lo <= text.len(),
        forall|k: int| 0 <= k < lo ==> is_white_space(#[trigger] text[k]),
        lo == text.len() || !is_white_space(text[lo]),
    ensures
        trim_start(text) == text.subrange(lo, text.len() as int),
    decreases lo,
{
    if lo == 0 {
        assert(text.subrange(0, text.len() as int) =~= text);
    } else {
        let rest = text.drop_first();
        assert(forall|k: int| 0 <= k < lo - 1 ==> #[trigger] rest[k] == text[k + 1]);
        lemma_trim_start(rest, lo - 1);
        assert(rest.subrange(lo - 1, rest.len() as int) =~= text.subrange(lo, text.len() as int));
    }
}

/// Cutting white space at the end leaves the text up to the last character
/// that is none.
pub proof fn lemma_trim_end(text: Seq<char>, hi: int)
    requires
        0 <= hi <= text.len(),
        forall|k: int| hi <= k < text.len() ==> is_white_space(#[trigger] text[k]),
        hi == 0 || !is_white_space(text[hi - 1]),
    ensures
        trim_end(text) == text.subrange(0, hi),
    decreases text.len() - hi,
{
    if hi == text.len() {
        assert(text.subrange(0, hi) =~= text);
    } else {
        let rest = text.drop_last();
        lemma_trim_end(rest, hi);
        assert(rest.subrange(0, hi) =~= text.subrange(0, hi));
    }
}

/// Cuts the white space at the two ends of a text.
pub fn trim_chars(text: &Vec<char>) -> (out: Vec<char>)
    ensures
        out@ == trimmed(text@),
{
    let n = text.len();
    let mut lo: usize = 0;
    while lo < n && text[lo].is_whitespace()
        invariant
            lo <= n,
            n == text@.len(),
            forall|k: int| 0 <= k < lo ==> is_white_space(#[trigger] text@[k]),
        decreases n - lo,
    {
        lo += 1;
    }
    let mut hi: usize = n;
    while hi > lo && text[hi - 1].is_whitespace()
        invariant
            lo <= hi <= n,
            n == text@.len(),
            forall|k: int| hi <= k < n ==> is_white_space(#[trigger] text@[k]),
        decreases hi,
    {
        hi -= 1;
    }
    proof {
        let tail = text@.subrange(lo as int, n as int);
        lemma_trim_start(text@, lo as int);
        assert(forall|k: int| hi - lo <= k < tail.len() ==> #[trigger] tail[k] == text@[lo + k]);
        lemma_trim_end(tail, hi - lo);
        assert(tail.subrange(0, hi - lo) =~= text@.subrange(lo as int, hi as int));
    }
    vstd::slice::slice_to_vec(vstd::slice::slice_subrange(text.as_slice(), lo, hi))
}

/// Cuts the white space at the two ends of a text.
pub fn trim(text: &str) -> (out: String)
    ensures
        out@ == trimmed(text@),
{
    let chars = to_chars(text);
    let cut = trim_chars(&chars);
    from_chars(&cut)
}

/// Joins strings with a separator between each two neighbours.
pub fn join(parts: &Vec<String>, sep: &str) -> (s: String)
    ensures
        s@ == joined(views(parts@), sep@),
{
    let mut s = String::new();
    let mut i: usize = 0;
    while i < parts.len()
        invariant
            i <= parts@.len(),
            s@ == joined(views(parts@).subrange(0, i as int), sep@),
        decreases parts@.len() - i,
    {
        proof {
            let next = views(parts@).subrange(0, i + 1);
            assert(next.drop_last() =~= views(parts@).subrange(0, i as int));
            assert(next.last() == parts@[i as int]@);
            if i > 0 {
                assert(joined(next, sep@) == s@ + sep@ + parts@[i as int]@);
            } else {
                assert(s@ + parts@[i as int]@ =~= parts@[i as int]@);
            }
        }
        if i > 0 {
            s.append(sep);
        }
        s.append(parts[i].as_str());
        i += 1;
    }
    assert(views(parts@).subrange(0, i as int) =~= views(parts@));
    s
}

} // verus!
