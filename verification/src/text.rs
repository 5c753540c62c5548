//! Text rules: window titles and desktop action identifiers.

use vstd::prelude::*;

verus! {

/// Whether `c` is an ASCII letter or an ASCII digit.
pub open spec fn is_ascii_alnum(c: char) -> bool {
    ('a' <= c && c <= 'z') || ('A' <= c && c <= 'Z') || ('0' <= c && c <= '9')
}

/// `c` with an ASCII capital turned into its small letter.
pub open spec fn ascii_lower(c: char) -> char {
    if 'A' <= c && c <= 'Z' {
        (c as u8 + 32) as char
    } else {
        c
    }
}

/// The ASCII letters and digits of `id`, in small letters.
pub open spec fn normalized(id: Seq<char>) -> Seq<char> {
    id.filter(|c: char| is_ascii_alnum(c)).map_values(|c: char| ascii_lower(c))
}

/// Whether a desktop action of this identifier opens a new window.
pub open spec fn opens_new_window(id: Seq<char>) -> bool {
    let n = normalized(id);
    n == "new"@ || n == "newwindow"@ || n == "newemptywindow"@ || n == "newmainwindow"@
}

/// `title`, cut to `max_chars` characters: a title that is too long ends in three dots.
pub open spec fn truncated(title: Seq<char>, max_chars: nat) -> Seq<char> {
    if title.len() <= max_chars {
        title
    } else {
        let keep = if max_chars < 3 { 0 } else { max_chars - 3 };
        title.take(keep) + seq!['.', '.', '.']
    }
}

/// Whether `c` has the Unicode property `White_Space`.
pub open spec fn is_white_space(c: char) -> bool {
    let n = c as u32;
    ||| 0x9 <= n <= 0xd
    ||| n == 0x20 || n == 0x85 || n == 0xa0 || n == 0x1680
    ||| 0x2000 <= n <= 0x200a
    ||| n == 0x2028 || n == 0x2029 || n == 0x202f || n == 0x205f || n == 0x3000
}

/// `s` without the white space at its two ends.
pub open spec fn trim_of(s: Seq<char>) -> Seq<char>
    decreases s.len(),
{
    if s.len() > 0 && is_white_space(s.first()) {
        trim_of(s.drop_first())
    } else if s.len() > 0 && is_white_space(s.last()) {
        trim_of(s.drop_last())
    } else {
        s
    }
}

/// What is left of `s` without the white space at its ends, if anything is.
pub open spec fn trimmed_of(s: Seq<char>) -> Option<Seq<char>> {
    if trim_of(s).len() == 0 {
        None
    } else {
        Some(trim_of(s))
    }
}

/// The view of an optional string.
pub open spec fn text_of(s: Option<String>) -> Option<Seq<char>> {
    match s {
        Some(s) => Some(s@),
        None => None,
    }
}

/// Calls `str::trim`. Trusted: what is returned is the argument without the characters of the
/// Unicode property `White_Space` at its start and at its end.
#[verifier::external_body]
fn trim(value: &str) -> (r: &str)
    ensures
        r@ == trim_of(value@),
{
    value.trim()
}

/// The text without the white space at its ends, or nothing where only white space is there.
pub fn trimmed(value: &str) -> (r: Option<String>)
    ensures
        text_of(r) == trimmed_of(value@),
{
    let value = trim(value);
    if value.is_empty() {
        None
    } else {
        Some(value.to_owned())
    }
}

fn lower(c: char) -> (r: char)
    ensures
        r == ascii_lower(c),
{
    if 'A' <= c && c <= 'Z' {
        (c as u8 + 32) as char
    } else {
        c
    }
}

/// Whether the characters of `chars` spell `text`.
fn spells(chars: &Vec<char>, text: &str) -> (r: bool)
    ensures
        r == (chars@ == text@),
{
    let count: usize = chars.len();
    if count != text.unicode_len() {
        return false;
    }
    let mut i: usize = 0;
    for c in it: text.chars()
        invariant
            it.seq() == text@,
            count == chars@.len(),
            count == text@.len(),
            i == it.index(),
            forall|j: int| 0 <= j < i ==> chars@[j] == text@[j],
    {
        if chars[i] != c {
            return false;
        }
        i = i + 1;
    }
    assert(chars@ =~= text@);
    true
}

/// Whether a desktop action opens a new window, by its identifier. Case, punctuation and
/// whatever is not ASCII are left out of the comparison.
pub fn is_new_window_action_id(action_id: &str) -> (r: bool)
    ensures
        r == opens_new_window(action_id@),
{
    let mut kept: Vec<char> = Vec::new();
    let ghost pred = |c: char| is_ascii_alnum(c);
    let ghost low = |c: char| ascii_lower(c);
    for c in it: action_id.chars()
        invariant
            it.seq() == action_id@,
            pred == (|c: char| is_ascii_alnum(c)),
            low == (|c: char| ascii_lower(c)),
            kept@ == action_id@.take(it.index() as int).filter(pred).map_values(low),
    {
        proof {
            let i = it.index() as int;
            assert(action_id@.take(i + 1).drop_last() =~= action_id@.take(i));
            assert(action_id@.take(i + 1).last() == c);
            reveal(Seq::filter);
        }
        if ('a' <= c && c <= 'z') || ('A' <= c && c <= 'Z') || ('0' <= c && c <= '9') {
            kept.push(lower(c));
        }
    }
    assert(action_id@.take(action_id@.len() as int) =~= action_id@);
    spells(&kept, "new") || spells(&kept, "newwindow") || spells(&kept, "newemptywindow")
        || spells(&kept, "newmainwindow")
}

/// A title cut to at most `max_chars` characters, of which the last three are dots where the
/// title is too long. Under three characters, only the dots are left.
pub fn truncate_title(title: &str, max_chars: usize) -> (r: String)
    ensures
        r@ == truncated(title@, max_chars as nat),
{
    let char_count: usize = title.unicode_len();
    if char_count <= max_chars {
        return title.to_owned();
    }
    let keep: usize = max_chars.saturating_sub(3);
    let mut cut = title.substring_char(0, keep).to_owned();
    cut.append("...");
    proof {
        reveal_strlit("...");
        assert("..."@ =~= seq!['.', '.', '.']);
        assert(title@.subrange(0, keep as int) =~= title@.take(keep as int));
    }
    cut
}

} // verus!
