//! What the texts that the applet shows have to be.

use vstd::prelude::*;

use crate::laws::{normalized_one, normalized_parts, trim_bounds};
use crate::text::{is_white_space, normalized, opens_new_window, trim_of, trimmed_of, truncated};

verus! {

/// A title that fits stays as it is. One that does not keeps every character that leaves room for
/// three dots, each at its place, and ends in exactly these three dots.
pub proof fn law_cut_title_keeps_its_beginning(title: Seq<char>, max_chars: nat)
    ensures
        title.len() <= max_chars ==> truncated(title, max_chars) == title,
        title.len() > max_chars >= 3 ==> {
            let cut = truncated(title, max_chars);
            &&& cut.len() == max_chars
            &&& forall|i: int| 0 <= i < max_chars - 3 ==> #[trigger] cut[i] == title[i]
            &&& forall|i: int| max_chars - 3 <= i < max_chars ==> #[trigger] cut[i] == '.'
        },
        title.len() > max_chars && max_chars < 3 ==> {
            let cut = truncated(title, max_chars);
            cut.len() == 3 && cut[0] == '.' && cut[1] == '.' && cut[2] == '.'
        },
{
}

/// Two titles that begin alike are cut alike: what is shown of a title that is too long is decided
/// by the characters that are kept.
pub proof fn law_cut_title_forgets_its_end(a: Seq<char>, b: Seq<char>, max_chars: nat)
    requires
        a.len() > max_chars >= 3,
        b.len() > max_chars,
    ensures
        truncated(a, max_chars) == truncated(b, max_chars) <==> forall|i: int|
            0 <= i < max_chars - 3 ==> #[trigger] a[i] == b[i],
{
    let cut_a = truncated(a, max_chars);
    let cut_b = truncated(b, max_chars);
    if cut_a == cut_b {
        assert forall|i: int| 0 <= i < max_chars - 3 implies #[trigger] a[i] == b[i] by {
            assert(cut_a[i] == cut_b[i]);
        }
    } else if forall|i: int| 0 <= i < max_chars - 3 ==> #[trigger] a[i] == b[i] {
        assert(cut_a =~= cut_b);
    }
}

/// Whether `t` is `s` without the white space at its ends, and something is left.
pub open spec fn is_trim(s: Seq<char>, t: Seq<char>) -> bool {
    exists|a: int, b: int|
        0 <= a < b <= s.len() && t == #[trigger] s.subrange(a, b) && !is_white_space(s[a])
            && !is_white_space(s[b - 1]) && forall|i: int|
            0 <= i < a || b <= i < s.len() ==> is_white_space(#[trigger] s[i])
}

/// Whether `s` is all white space.
pub open spec fn is_blank(s: Seq<char>) -> bool {
    forall|i: int| 0 <= i < s.len() ==> is_white_space(#[trigger] s[i])
}

/// A text that is not blank loses the white space at its ends and nothing else; of a blank one
/// nothing is left.
pub proof fn law_trimming_leaves_the_rest(s: Seq<char>)
    ensures
        is_blank(s) ==> trimmed_of(s) is None && trim_of(s).len() == 0,
        !is_blank(s) ==> trimmed_of(s) == Some(trim_of(s)) && is_trim(s, trim_of(s)),
{
    let (a, b) = trim_bounds(s);
    if a < b {
        assert(!is_white_space(s[a]));
        assert(trim_of(s) == s.subrange(a, b));
    }
}

/// Of the ASCII characters, the blank, the tabulators and the ends of lines and pages are white
/// space, and no others.
pub proof fn law_ascii_white_space(c: char)
    requires
        (c as u32) < 0x80,
    ensures
        is_white_space(c) <==> c == ' ' || ('\t' <= c && c <= '\r'),
{
}

proof fn plain_is_normalized(id: Seq<char>)
    requires
        forall|i: int|
            0 <= i < id.len() ==> ('a' <= #[trigger] id[i] && id[i] <= 'z') || ('0' <= id[i]
                && id[i] <= '9'),
    ensures
        normalized(id) == id,
    decreases id.len(),
{
    if id.len() == 0 {
        reveal(Seq::filter);
        assert(normalized(id) =~= id);
    } else {
        let init = id.drop_last();
        assert forall|i: int| 0 <= i < init.len() implies ('a' <= #[trigger] init[i] && init[i]
            <= 'z') || ('0' <= init[i] && init[i] <= '9') by {
            assert(init[i] == id[i]);
        }
        plain_is_normalized(init);
        assert(id =~= init + seq![id.last()]);
        normalized_parts(init, seq![id.last()]);
        normalized_one(id.last());
    }
}

/// An identifier of small letters and digits opens a new window exactly where it is one of four
/// words.
pub proof fn law_four_words_open_a_new_window(id: Seq<char>)
    requires
        forall|i: int|
            0 <= i < id.len() ==> ('a' <= #[trigger] id[i] && id[i] <= 'z') || ('0' <= id[i]
                && id[i] <= '9'),
    ensures
        opens_new_window(id) <==> id == "new"@ || id == "newwindow"@ || id == "newemptywindow"@
            || id == "newmainwindow"@,
{
    plain_is_normalized(id);
}

/// A capital stands for its small letter, wherever it stands in an identifier.
pub proof fn law_capitals_open_as_small_letters_do(a: Seq<char>, c: char, b: Seq<char>)
    requires
        'A' <= c && c <= 'Z',
    ensures
        opens_new_window(a + seq![c] + b) == opens_new_window(
            a + seq![(c as u8 + 32) as char] + b,
        ),
{
    let d = (c as u8 + 32) as char;
    normalized_parts(a + seq![c], b);
    normalized_parts(a, seq![c]);
    normalized_parts(a + seq![d], b);
    normalized_parts(a, seq![d]);
    normalized_one(c);
    normalized_one(d);
}

/// What is neither an ASCII letter nor an ASCII digit counts for nothing, wherever it stands in an
/// identifier.
pub proof fn law_other_characters_open_nothing(a: Seq<char>, c: char, b: Seq<char>)
    requires
        !('a' <= c && c <= 'z'),
        !('A' <= c && c <= 'Z'),
        !('0' <= c && c <= '9'),
    ensures
        opens_new_window(a + seq![c] + b) == opens_new_window(a + b),
{
    crate::laws::law_new_window_id_ignores_punctuation(a, c, b);
}

} // verus!
