//! Character-level views of document text: lines, cursor prefixes and
//! whitespace trimming.

use vstd::prelude::*;

verus! {

/// Position of the first line feed in `s`, or its length when it holds none.
pub open spec fn newline_index(s: Seq<char>) -> nat
    decreases s.len(),
{
    if s.len() == 0 {
        0
    } else if s[0] == '\n' {
        0
    } else {
        1 + newline_index(s.drop_first())
    }
}

/// The first line of `s`: everything before the first line feed, without the
/// carriage return of a `\r\n` terminator. A lone trailing `\r` is kept.
pub open spec fn first_line(s: Seq<char>) -> Seq<char> {
    let k = newline_index(s);
    if k < s.len() && k > 0 && s[k - 1] == '\r' {
        s.take(k - 1)
    } else {
        s.take(k as int)
    }
}

/// Line `n` (counted from zero) of `text`, lines being separated by `\n` or
/// `\r\n`; a line past the end of the text is empty.
pub open spec fn line_at(text: Seq<char>, n: nat) -> Seq<char>
    decreases n,
{
    let k = newline_index(text);
    if n == 0 {
        first_line(text)
    } else if k < text.len() {
        line_at(text.skip(k + 1 as int), (n - 1) as nat)
    } else {
        Seq::empty()
    }
}

/// The number of UTF-16 code units that encode `c`.
pub open spec fn utf16_width(c: char) -> int {
    if c as u32 >= 0x10000 {
        2
    } else {
        1
    }
}

/// The longest prefix of `line` that fits in `units` UTF-16 code units.
pub open spec fn utf16_prefix(line: Seq<char>, units: int) -> Seq<char>
    decreases line.len(),
{
    if line.len() == 0 || utf16_width(line[0]) > units {
        Seq::empty()
    } else {
        seq![line[0]] + utf16_prefix(line.drop_first(), units - utf16_width(line[0]))
    }
}

/// Unicode's White_Space property.
pub open spec fn is_white_space(c: char) -> bool {
    ||| '\t' <= c <= '\r'
    ||| c == ' '
    ||| c == '\u{85}'
    ||| c == '\u{A0}'
    ||| c == '\u{1680}'
    ||| '\u{2000}' <= c <= '\u{200A}'
    ||| c == '\u{2028}'
    ||| c == '\u{2029}'
    ||| c == '\u{202F}'
    ||| c == '\u{205F}'
    ||| c == '\u{3000}'
}

/// `s` without its leading white space.
pub open spec fn trim_start(s: Seq<char>) -> Seq<char>
    decreases s.len(),
{
    if s.len() > 0 && is_white_space(s[0]) {
        trim_start(s.drop_first())
    } else {
        s
    }
}

/// Whether `s` ends with `suffix`.
pub open spec fn ends_with(s: Seq<char>, suffix: Seq<char>) -> bool {
    suffix.len() <= s.len() && s.skip(s.len() - suffix.len()) == suffix
}

/// Whether `s` begins with `c`.
pub open spec fn starts_with_char(s: Seq<char>, c: char) -> bool {
    s.len() > 0 && s[0] == c
}

/// The decimal digit `d` as text.
pub open spec fn digit(d: int) -> Seq<char> {
    seq![seq!['0', '1', '2', '3', '4', '5', '6', '7', '8', '9'][d]]
}

/// The decimal digit `d` as text.
pub fn digit_text(d: u16) -> (r: &'static str)
    requires
        d < 10,
    ensures
        r@ == digit(d as int),
{
    proof {
        reveal_strlit("0");
        reveal_strlit("1");
        reveal_strlit("2");
        reveal_strlit("3");
        reveal_strlit("4");
        reveal_strlit("5");
        reveal_strlit("6");
        reveal_strlit("7");
        reveal_strlit("8");
        reveal_strlit("9");
    }
    match d {
        0 => "0",
        1 => "1",
        2 => "2",
        3 => "3",
        4 => "4",
        5 => "5",
        6 => "6",
        7 => "7",
        8 => "8",
        _ => "9",
    }
}

/// Whether `c` has Unicode's White_Space property, as `char::is_whitespace`
/// decides.
pub fn is_whitespace(c: char) -> (r: bool)
    ensures
        r == is_white_space(c),
{
    ('\t' <= c && c <= '\r') || c == ' ' || c == '\u{85}' || c == '\u{A0}' || c == '\u{1680}'
        || ('\u{2000}' <= c && c <= '\u{200A}') || c == '\u{2028}' || c == '\u{2029}' || c
        == '\u{202F}' || c == '\u{205F}' || c == '\u{3000}'
}

/// The characters of `s`, in order.
pub fn chars_of(s: &str) -> (r: Vec<char>)
    ensures
        r@ == s@,
{
    let mut r: Vec<char> = Vec::new();
    for c in it: s.chars()
        invariant
            r@ == it.seq().take(it.index() as int),
    {
        r.push(c);
    }
    r
}

proof fn lemma_newline_index(s: Seq<char>, k: int)
    requires
        0 <= k <= s.len(),
        forall|j: int| 0 <= j < k ==> s[j] != '\n',
        k == s.len() || s[k] == '\n',
    ensures
        newline_index(s) == k,
    decreases k,
{
    if k > 0 {
        lemma_newline_index(s.drop_first(), k - 1);
    }
}

/// Index of the first line feed at or after `start`, or the length of `text`.
fn find_newline(text: &Vec<char>, start: usize) -> (e: usize)
    requires
        start <= text.len(),
    ensures
        start <= e <= text.len(),
        e - start == newline_index(text@.skip(start as int)),
{
    let mut i: usize = start;
    while i < text.len() && text[i] != '\n'
        invariant
            start <= i <= text.len(),
            forall|j: int| start <= j < i ==> text@[j] != '\n',
        decreases text.len() - i,
    {
        i = i + 1;
    }
    proof {
        lemma_newline_index(text@.skip(start as int), i - start);
    }
    i
}

/// Line `n` of `text`; empty when `text` has fewer lines.
pub fn line_of(text: &Vec<char>, n: u32) -> (r: Vec<char>)
    ensures
        r@ == line_at(text@, n as nat),
{
    let mut start: usize = 0;
    let mut k: u32 = 0;
    assert(text@.skip(0) =~= text@);
    while k < n
        invariant
            start <= text.len(),
            k <= n,
            line_at(text@, n as nat) == line_at(text@.skip(start as int), (n - k) as nat),
        decreases n - k,
    {
        let e = find_newline(text, start);
        if e == text.len() {
            return Vec::new();
        }
        assert(text@.skip(start as int).skip(e - start + 1) =~= text@.skip(e + 1));
        start = e + 1;
        k = k + 1;
    }
    let e = find_newline(text, start);
    let end: usize = if e < text.len() && e > start && text[e - 1] == '\r' {
        e - 1
    } else {
        e
    };
    let mut r: Vec<char> = Vec::new();
    let mut i: usize = start;
    while i < end
        invariant
            start <= i <= end <= text.len(),
            r@ == text@.subrange(start as int, i as int),
        decreases end - i,
    {
        r.push(text[i]);
        i = i + 1;
    }
    assert(r@ =~= first_line(text@.skip(start as int)));
    r
}

/// The number of UTF-16 code units that encode `c`.
pub fn utf16_len(c: char) -> (w: u32)
    ensures
        w == utf16_width(c),
{
    if c as u32 >= 0x10000 {
        2
    } else {
        1
    }
}

/// The longest prefix of `line` that fits in `units` UTF-16 code units.
pub fn prefix_in_units(line: &Vec<char>, units: u32) -> (r: Vec<char>)
    ensures
        r@ == utf16_prefix(line@, units as int),
{
    let mut r: Vec<char> = Vec::new();
    let mut left: u32 = units;
    let mut i: usize = 0;
    assert(line@.skip(0) =~= line@);
    while i < line.len()
        invariant
            i <= line.len(),
            left <= units,
            r@ + utf16_prefix(line@.skip(i as int), left as int) == utf16_prefix(
                line@,
                units as int,
            ),
        ensures
            i == line.len() || utf16_width(line@[i as int]) > left,
            r@ + utf16_prefix(line@.skip(i as int), left as int) == utf16_prefix(
                line@,
                units as int,
            ),
        decreases line.len() - i,
    {
        let c = line[i];
        let w = utf16_len(c);
        if w > left {
            break;
        }
        proof {
            let rest = line@.skip(i as int);
            assert(rest.drop_first() =~= line@.skip(i + 1));
            assert(r@.push(c) + utf16_prefix(line@.skip(i + 1), left - w) =~= r@ + utf16_prefix(
                rest,
                left as int,
            ));
        }
        r.push(c);
        left = left - w;
        i = i + 1;
    }
    assert(r@ + utf16_prefix(line@.skip(i as int), left as int) =~= r@);
    r
}

/// The number of white-space characters that begin `s`.
pub fn leading_whitespace(s: &Vec<char>) -> (k: usize)
    ensures
        k <= s.len(),
        trim_start(s@) == s@.skip(k as int),
{
    let mut i: usize = 0;
    assert(s@.skip(0) =~= s@);
    while i < s.len()
        invariant
            i <= s.len(),
            trim_start(s@) == trim_start(s@.skip(i as int)),
        ensures
            i <= s.len(),
            trim_start(s@) == trim_start(s@.skip(i as int)),
            i == s.len() || !is_white_space(s@[i as int]),
        decreases s.len() - i,
    {
        if !is_whitespace(s[i]) {
            break;
        }
        assert(s@.skip(i as int).drop_first() =~= s@.skip(i + 1));
        i = i + 1;
    }
    i
}

/// Whether `s` ends with `suffix`.
pub fn has_suffix(s: &[char], suffix: &[char]) -> (r: bool)
    ensures
        r == ends_with(s@, suffix@),
{
    if suffix.len() > s.len() {
        return false;
    }
    let off: usize = s.len() - suffix.len();
    let mut i: usize = 0;
    while i < suffix.len()
        invariant
            off + suffix.len() == s.len(),
            i <= suffix.len(),
            forall|j: int| 0 <= j < i ==> s@[off + j] == suffix@[j],
        decreases suffix.len() - i,
    {
        if s[off + i] != suffix[i] {
            assert(s@.skip(off as int)[i as int] != suffix@[i as int]);
            return false;
        }
        i = i + 1;
    }
    assert(s@.skip(off as int) =~= suffix@);
    true
}

/// `s` without its leading white space.
pub fn trimmed_start(s: &Vec<char>) -> (r: Vec<char>)
    ensures
        r@ == trim_start(s@),
{
    let k = leading_whitespace(s);
    let mut r: Vec<char> = Vec::new();
    let mut i: usize = k;
    while i < s.len()
        invariant
            k <= i <= s.len(),
            r@ == s@.subrange(k as int, i as int),
        decreases s.len() - i,
    {
        r.push(s[i]);
        i = i + 1;
    }
    assert(r@ =~= s@.skip(k as int));
    r
}

/// Trimming leading white space does not change whether a text ends with a
/// suffix that begins with a character other than white space.
pub proof fn lemma_trim_keeps_suffix(p: Seq<char>, m: Seq<char>)
    requires
        m.len() > 0,
        !is_white_space(m[0]),
    ensures
        ends_with(trim_start(p), m) == ends_with(p, m),
    decreases p.len(),
{
    if p.len() > 0 && is_white_space(p[0]) {
        let q = p.drop_first();
        lemma_trim_keeps_suffix(q, m);
        if m.len() <= q.len() {
            assert(q.skip(q.len() - m.len()) =~= p.skip(p.len() - m.len()));
        } else if m.len() == p.len() {
            assert(p.skip(0) =~= p);
        }
    }
}

} // verus!
