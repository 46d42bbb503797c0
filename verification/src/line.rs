//! Lines of text on a connection.
use vstd::prelude::*;

use crate::codec::one_line;

verus! {

/// A character with the Unicode property `White_Space`.
pub open spec fn white_space(c: char) -> bool {
    let code = c as int;
    ||| 0x9 <= code <= 0xd
    ||| code == 0x20
    ||| code == 0x85
    ||| code == 0xa0
    ||| code == 0x1680
    ||| 0x2000 <= code <= 0x200a
    ||| code == 0x2028
    ||| code == 0x2029
    ||| code == 0x202f
    ||| code == 0x205f
    ||| code == 0x3000
}

/// A text without its leading white space.
pub open spec fn trimmed_start(text: Seq<char>) -> Seq<char>
    decreases text.len(),
{
    if text.len() > 0 && white_space(text.first()) {
        trimmed_start(text.drop_first())
    } else {
        text
    }
}

/// A text without its trailing white space.
pub open spec fn trimmed_end(text: Seq<char>) -> Seq<char>
    decreases text.len(),
{
    if text.len() > 0 && white_space(text.last()) {
        trimmed_end(text.drop_last())
    } else {
        text
    }
}

/// A text without the white space around it.
pub open spec fn trimmed(text: Seq<char>) -> Seq<char> {
    trimmed_end(trimmed_start(text))
}

/// `str::trim` takes the white space off both ends of a text. White space are the characters with
/// the Unicode property `White_Space`.
pub assume_specification[ str::trim ](text: &str) -> (inner: &str)
    ensures
        inner@ == trimmed(text@),
;

/// A text with at most one line feed in it, at its end: what reading a line gives.
pub open spec fn read_line(text: Seq<char>) -> bool {
    forall|i: int| 0 <= i < text.len() - 1 ==> text[i] != '\n'
}

/// A message as it goes over a connection: the text and a line feed.
pub open spec fn framed(text: Seq<char>) -> Seq<char> {
    text.push('\n')
}

/// Puts the line feed behind a message.
pub fn frame(text: &str) -> (line: String)
    ensures
        line@ == framed(text@),
{
    proof {
        reveal_strlit("\n");
    }
    let mut line: String = text.to_owned();
    line.append("\n");
    assert(line@ =~= framed(text@));
    line
}

proof fn lemma_trimmed_start_within(text: Seq<char>)
    ensures
        exists|i: int| 0 <= i <= text.len() && trimmed_start(text) == #[trigger] text.skip(i),
    decreases text.len(),
{
    if text.len() > 0 && white_space(text.first()) {
        lemma_trimmed_start_within(text.drop_first());
        let i = choose|i: int|
            0 <= i <= text.len() - 1 && trimmed_start(text.drop_first())
                == #[trigger] text.drop_first().skip(i);
        assert(text.drop_first().skip(i) =~= text.skip(i + 1));
    } else {
        assert(text.skip(0) =~= text);
    }
}

proof fn lemma_trimmed_end_last(text: Seq<char>)
    ensures
        trimmed_end(text).len() > 0 ==> !white_space(trimmed_end(text).last()),
    decreases text.len(),
{
    if text.len() > 0 && white_space(text.last()) {
        lemma_trimmed_end_last(text.drop_last());
    }
}

proof fn lemma_trimmed_end_within(text: Seq<char>)
    ensures
        exists|j: int| 0 <= j <= text.len() && trimmed_end(text) == #[trigger] text.take(j),
    decreases text.len(),
{
    if text.len() > 0 && white_space(text.last()) {
        lemma_trimmed_end_within(text.drop_last());
        let j = choose|j: int|
            0 <= j <= text.len() - 1 && trimmed_end(text.drop_last())
                == #[trigger] text.drop_last().take(j);
        assert(text.drop_last().take(j) =~= text.take(j));
    } else {
        assert(text.take(text.len() as int) =~= text);
    }
}

/// What is left of a line that was read, once trimmed, is one line.
pub proof fn lemma_trimmed_line(text: Seq<char>)
    requires
        read_line(text),
    ensures
        one_line(trimmed(text)),
{
    lemma_trimmed_start_within(text);
    let i = choose|i: int|
        0 <= i <= text.len() && trimmed_start(text) == #[trigger] text.skip(i);
    let tail = trimmed_start(text);
    lemma_trimmed_end_within(tail);
    lemma_trimmed_end_last(tail);
    let j = choose|j: int| 0 <= j <= tail.len() && trimmed_end(tail) == #[trigger] tail.take(j);
    let inner = trimmed(text);
    if inner.contains('\n') {
        let k = choose|k: int| 0 <= k < inner.len() && inner[k] == '\n';
        assert(inner[k] == text[i + k]);
    }
}

/// A message of one line goes over the connection as one line: the only line feed is the one
/// that ends it.
pub proof fn law_framed_message_is_one_line(text: Seq<char>)
    requires
        one_line(text),
    ensures
        framed(text).last() == '\n',
        read_line(framed(text)),
        framed(text).drop_last() == text,
{
    assert forall|i: int| 0 <= i < framed(text).len() - 1 implies framed(text)[i] != '\n' by {
        assert(text.contains(text[i]));
    }
    assert(framed(text).drop_last() =~= text);
}

/// The characters that are trimmed: these 25, the space and the line break characters among them,
/// and no others.
pub proof fn law_white_space_is_listed(c: char)
    ensures
        white_space(c) <==> seq![
            0x9int,
            0xa,
            0xb,
            0xc,
            0xd,
            0x20,
            0x85,
            0xa0,
            0x1680,
            0x2000,
            0x2001,
            0x2002,
            0x2003,
            0x2004,
            0x2005,
            0x2006,
            0x2007,
            0x2008,
            0x2009,
            0x200a,
            0x2028,
            0x2029,
            0x202f,
            0x205f,
            0x3000,
        ].contains(c as int),
{
    let codes = seq![
        0x9int,
        0xa,
        0xb,
        0xc,
        0xd,
        0x20,
        0x85,
        0xa0,
        0x1680,
        0x2000,
        0x2001,
        0x2002,
        0x2003,
        0x2004,
        0x2005,
        0x2006,
        0x2007,
        0x2008,
        0x2009,
        0x200a,
        0x2028,
        0x2029,
        0x202f,
        0x205f,
        0x3000,
    ];
    let code = c as int;
    assert(codes[0] == 0x9 && codes[1] == 0xa && codes[2] == 0xb && codes[3] == 0xc && codes[4]
        == 0xd && codes[5] == 0x20 && codes[6] == 0x85 && codes[7] == 0xa0 && codes[8] == 0x1680);
    assert(codes[9] == 0x2000 && codes[10] == 0x2001 && codes[11] == 0x2002 && codes[12] == 0x2003
        && codes[13] == 0x2004 && codes[14] == 0x2005 && codes[15] == 0x2006 && codes[16]
        == 0x2007 && codes[17] == 0x2008 && codes[18] == 0x2009 && codes[19] == 0x200a);
    assert(codes[20] == 0x2028 && codes[21] == 0x2029 && codes[22] == 0x202f && codes[23] == 0x205f
        && codes[24] == 0x3000);
    if codes.contains(code) {
        let i = choose|i: int| 0 <= i < codes.len() && codes[i] == code;
        assert(white_space(c));
    }
}

proof fn lemma_trimmed_start_cut(text: Seq<char>) -> (i: int)
    ensures
        0 <= i <= text.len(),
        trimmed_start(text) == text.skip(i),
        forall|k: int| 0 <= k < i ==> white_space(#[trigger] text[k]),
        i < text.len() ==> !white_space(text[i]),
    decreases text.len(),
{
    if text.len() > 0 && white_space(text.first()) {
        let i = lemma_trimmed_start_cut(text.drop_first());
        assert(text.drop_first().skip(i) =~= text.skip(i + 1));
        assert forall|k: int| 0 <= k < i + 1 implies white_space(#[trigger] text[k]) by {
            if k > 0 {
                assert(text[k] == text.drop_first()[k - 1]);
            }
        }
        i + 1
    } else {
        assert(text.skip(0) =~= text);
        0
    }
}

proof fn lemma_trimmed_end_cut(text: Seq<char>) -> (j: int)
    ensures
        0 <= j <= text.len(),
        trimmed_end(text) == text.take(j),
        forall|k: int| j <= k < text.len() ==> white_space(#[trigger] text[k]),
        j > 0 ==> !white_space(text[j - 1]),
    decreases text.len(),
{
    if text.len() > 0 && white_space(text.last()) {
        let j = lemma_trimmed_end_cut(text.drop_last());
        assert(text.drop_last().take(j) =~= text.take(j));
        assert forall|k: int| j <= k < text.len() implies white_space(#[trigger] text[k]) by {
            if k < text.len() - 1 {
                assert(text[k] == text.drop_last()[k]);
            }
        }
        j
    } else {
        assert(text.take(text.len() as int) =~= text);
        text.len() as int
    }
}

/// Trimming cuts a piece out of a text: what is in front of it and what is behind it is white
/// space, and the piece neither starts nor ends with any.
pub proof fn law_trimming_cuts_white_space(text: Seq<char>) -> (cut: (int, int))
    ensures
        0 <= cut.0 <= cut.1 <= text.len(),
        trimmed(text) == text.subrange(cut.0, cut.1),
        forall|k: int| 0 <= k < cut.0 || cut.1 <= k < text.len() ==> white_space(#[trigger] text[k]),
        cut.0 < cut.1 ==> !white_space(text[cut.0]) && !white_space(text[cut.1 - 1]),
{
    let i = lemma_trimmed_start_cut(text);
    let tail = text.skip(i);
    let j = lemma_trimmed_end_cut(tail);
    assert(tail.take(j) =~= text.subrange(i, i + j));
    assert forall|k: int| 0 <= k < i || i + j <= k < text.len() implies white_space(
        #[trigger] text[k],
    ) by {
        if k >= i {
            assert(text[k] == tail[k - i]);
        }
    }
    if j > 0 {
        assert(tail[0] == text[i]);
        assert(tail[j - 1] == text[i + j - 1]);
    }
    (i, i + j)
}

/// A message goes over a connection unchanged, with one line feed behind it.
pub proof fn law_frame_adds_a_line_feed(text: Seq<char>)
    ensures
        framed(text).len() == text.len() + 1,
        framed(text).take(text.len() as int) == text,
        framed(text)[text.len() as int] == '\n',
{
    assert(framed(text).take(text.len() as int) =~= text);
}

} // verus!
