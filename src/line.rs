//! Turning one raw line of input into its trimmed text, if any is left.

use vstd::prelude::*;
use vstd::string::{StrSliceExecFns, StringExecFns};

verus! {

/// Whether `c` carries Unicode's `White_Space` property: space, tab, line
/// feed, vertical tab, form feed and carriage return among ASCII; next line,
/// no-break space, ogham space mark, the spaces U+2000 to U+200A, line and
/// paragraph separator, narrow no-break space, medium mathematical space and
/// ideographic space beyond it.
pub open spec fn white_space(c: char) -> bool {
    let u = c as u32;
    ||| u == 0x20
    ||| 0x09 <= u <= 0x0D
    ||| u == 0x85
    ||| u == 0xA0
    ||| u == 0x1680
    ||| 0x2000 <= u <= 0x200A
    ||| u == 0x2028
    ||| u == 0x2029
    ||| u == 0x202F
    ||| u == 0x205F
    ||| u == 0x3000
}

/// Relies on `char::is_whitespace`: true exactly for the characters with
/// Unicode's `White_Space` property.
pub assume_specification[ char::is_whitespace ](c: char) -> (r: bool)
    ensures
        r == white_space(c),
;

/// `s` with its trailing whitespace removed; leading whitespace stays.
pub open spec fn trim_end(s: Seq<char>) -> Seq<char>
    decreases s.len(),
{
    if s.len() > 0 && white_space(s.last()) {
        trim_end(s.drop_last())
    } else {
        s
    }
}

/// The text of a line once trailing whitespace and the line terminator are
/// stripped: `None` when nothing is left, else the stripped text.
pub fn normalize_line(raw: &str) -> (r: Option<String>)
    ensures
        match r {
            Some(t) => t@ == trim_end(raw@) && t@.len() > 0,
            None => trim_end(raw@).len() == 0,
        },
{
    let mut k: usize = raw.unicode_len();
    assert(raw@.subrange(0, k as int) == raw@);
    loop
        invariant
            k <= raw@.len(),
            trim_end(raw@.subrange(0, k as int)) == trim_end(raw@),
        ensures
            k == 0 || !white_space(raw@[k - 1]),
            trim_end(raw@.subrange(0, k as int)) == trim_end(raw@),
        decreases k,
    {
        if k == 0 || !raw.get_char(k - 1).is_whitespace() {
            break;
        }
        assert(raw@.subrange(0, k as int).drop_last() == raw@.subrange(0, k - 1));
        k -= 1;
    }
    if k == 0 {
        None
    } else {
        assert(raw@.subrange(0, k as int).last() == raw@[k - 1]);
        Some(String::from_str(raw.substring_char(0, k)))
    }
}

/// Whether waiting for a blank line ends at this raw line: true exactly when
/// nothing but whitespace is on it (an exhausted input reads as empty).
pub fn ends_wait_enter(raw: &str) -> (r: bool)
    ensures
        r == (trim_end(raw@).len() == 0),
{
    normalize_line(raw).is_none()
}

/// A line that already ends in a non-whitespace character, written out with
/// a line feed, reads back as exactly that line.
pub proof fn lemma_line_reads_back(s: Seq<char>)
    requires
        s.len() > 0,
        trim_end(s) == s,
    ensures
        trim_end(s.push('\n')) == s,
        trim_end(s.push('\n')).len() > 0,
{
    assert(s.push('\n').drop_last() == s);
}

/// A line made of whitespace alone (a lone line feed among them) reads as
/// empty.
pub proof fn lemma_blank_line_is_empty(s: Seq<char>)
    requires
        forall|i: int| 0 <= i < s.len() ==> white_space(#[trigger] s[i]),
    ensures
        trim_end(s).len() == 0,
    decreases s.len(),
{
    if s.len() > 0 {
        assert(white_space(s[s.len() - 1]));
        let t = s.drop_last();
        assert forall|i: int| 0 <= i < t.len() implies white_space(#[trigger] t[i]) by {
            assert(t[i] == s[i]);
        }
        lemma_blank_line_is_empty(t);
    }
}

} // verus!
