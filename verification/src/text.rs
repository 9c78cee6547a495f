//! Text helpers shared by the state and the renderer.

use vstd::prelude::*;
use vstd::utf8::*;

verus! {

/// The glyph that marks the cursor inside the pre-edit text.
pub const CURSOR_INDICATOR: char = '\u{2502}';

/// `text` with the cursor glyph placed at byte `offset`, or `text` itself
/// when `offset` does not fall on a character boundary of `text`.
pub open spec fn with_cursor_marker(text: Seq<char>, offset: int) -> Seq<char> {
    let bytes = encode_utf8(text);
    if is_char_boundary(bytes, offset) {
        decode_utf8(bytes.subrange(0, offset)).push(CURSOR_INDICATOR) + decode_utf8(
            bytes.subrange(offset, bytes.len() as int),
        )
    } else {
        text
    }
}

/// Places the cursor glyph at byte `cursor_offset` of `text`.
///
/// An offset that is negative, past the end, or inside a character leaves the
/// text without a glyph.
pub fn insert_cursor_marker(text: &str, cursor_offset: i32) -> (marked: String)
    ensures
        marked@ == with_cursor_marker(text@, cursor_offset as int),
{
    proof {
        encode_utf8_valid_utf8(text@);
    }
    if cursor_offset < 0 {
        return String::from_str(text);
    }
    let offset: usize = cursor_offset as usize;
    if !text.is_char_boundary(offset) {
        return String::from_str(text);
    }
    let (head, tail) = text.split_at(offset);
    let mut marked = String::from_str(head);
    proof {
        reveal_strlit("\u{2502}");
        encode_utf8_decode_utf8(head@);
        encode_utf8_decode_utf8(tail@);
    }
    marked.append("\u{2502}");
    marked.append(tail);
    assert("\u{2502}"@ =~= seq![CURSOR_INDICATOR]);
    assert(marked@ =~= with_cursor_marker(text@, cursor_offset as int));
    marked
}

/// The number of bytes that `text` takes in UTF-8.
pub open spec fn byte_len(text: Seq<char>) -> nat {
    encode_utf8(text).len()
}

/// `count` copies of `glyph`.
pub open spec fn run_of(glyph: char, count: nat) -> Seq<char> {
    Seq::new(count, |i: int| glyph)
}

/// The glyph that separator lines are drawn with.
pub const SEPARATOR_GLYPH: char = '\u{2500}';

/// Draws a horizontal rule of `width` columns.
pub fn separator_line(width: u32) -> (line: String)
    ensures
        line@ == run_of(SEPARATOR_GLYPH, width as nat),
{
    let mut line = String::new();
    let mut drawn: u32 = 0;
    assert(line@ =~= run_of(SEPARATOR_GLYPH, 0));
    while drawn < width
        invariant
            drawn <= width,
            line@ == run_of(SEPARATOR_GLYPH, drawn as nat),
        decreases width - drawn,
    {
        proof {
            reveal_strlit("\u{2500}");
        }
        line.append("\u{2500}");
        drawn += 1;
        assert(line@ =~= run_of(SEPARATOR_GLYPH, drawn as nat));
    }
    line
}

/// Makes a run of `count` spaces.
pub fn blank_run(count: usize) -> (line: String)
    ensures
        line@ == run_of(' ', count as nat),
{
    let mut line = String::new();
    let mut drawn: usize = 0;
    assert(line@ =~= run_of(' ', 0));
    while drawn < count
        invariant
            drawn <= count,
            line@ == run_of(' ', drawn as nat),
        decreases count - drawn,
    {
        proof {
            reveal_strlit(" ");
        }
        line.append(" ");
        drawn += 1;
        assert(line@ =~= run_of(' ', drawn as nat));
    }
    line
}

/// Says whether two texts hold the same characters.
pub fn same_text(left: &str, right: &str) -> (same: bool)
    ensures
        same == (left@ == right@),
{
    let a = left.as_bytes();
    let b = right.as_bytes();
    proof {
        encode_utf8_decode_utf8(left@);
        encode_utf8_decode_utf8(right@);
    }
    if a.len() != b.len() {
        return false;
    }
    let mut i: usize = 0;
    while i < a.len()
        invariant
            i <= a.len(),
            a.len() == b.len(),
            a@ == encode_utf8(left@),
            b@ == encode_utf8(right@),
            a@.subrange(0, i as int) == b@.subrange(0, i as int),
        decreases a.len() - i,
    {
        if a[i] != b[i] {
            assert(a@[i as int] != b@[i as int]);
            return false;
        }
        assert(a@.subrange(0, i + 1) =~= a@.subrange(0, i as int).push(a@[i as int]));
        assert(b@.subrange(0, i + 1) =~= b@.subrange(0, i as int).push(b@[i as int]));
        i += 1;
    }
    assert(a@ =~= a@.subrange(0, i as int));
    assert(b@ =~= b@.subrange(0, i as int));
    true
}

/// Whether `c` belongs to the text proper: neither a space nor the cursor
/// glyph.
pub open spec fn is_payload(c: char) -> bool {
    c != ' ' && c != CURSOR_INDICATOR
}

/// `text` without its spaces and cursor glyphs.
pub open spec fn payload_of(text: Seq<char>) -> Seq<char> {
    text.filter(|c: char| is_payload(c))
}

/// Removes every space and every cursor glyph from `text`.
pub fn strip_cursor_and_blanks(text: &str) -> (payload: String)
    ensures
        payload@ == payload_of(text@),
{
    let count = text.unicode_len();
    let mut payload = String::new();
    let mut i: usize = 0;
    proof {
        reveal(Seq::filter);
        assert(text@.subrange(0, 0) =~= Seq::empty());
    }
    while i < count
        invariant
            i <= count,
            count == text@.len(),
            payload@ == payload_of(text@.subrange(0, i as int)),
        decreases count - i,
    {
        let c = text.get_char(i);
        proof {
            reveal(Seq::filter);
            assert(text@.subrange(0, i + 1).drop_last() =~= text@.subrange(0, i as int));
            assert(text@.subrange(0, i + 1).last() == c);
        }
        if c != ' ' && c != CURSOR_INDICATOR {
            let piece = text.substring_char(i, i + 1);
            assert(piece@ =~= seq![c]);
            payload.append(piece);
        }
        i += 1;
    }
    assert(text@.subrange(0, i as int) =~= text@);
    payload
}

/// Appends `c` to `text` with `String::push`, which puts the character at
/// the end of the string and leaves the rest as it is.
#[verifier::external_body]
pub(crate) fn push_char(text: &mut String, c: char)
    ensures
        final(text)@ == old(text)@.push(c),
{
    text.push(c)
}

/// `text` in lower case, as `str::to_lowercase` of the standard library
/// gives it.
pub uninterp spec fn lowercase(text: Seq<char>) -> Seq<char>;

/// Lowers `text` with `str::to_lowercase`.
///
/// The contract only gives the result its name: the lowering follows the
/// Unicode tables of the standard library and depends on the text alone.
#[verifier::external_body]
pub(crate) fn to_lower(text: &str) -> (lowered: String)
    ensures
        lowered@ == lowercase(text@),
{
    text.to_lowercase()
}

} // verus!
