//! Bounding a text message to a maximum length in bytes.

use vstd::prelude::*;
use vstd::string::*;
use vstd::utf8::*;

verus! {

/// Length in bytes of the UTF-8 encoding of `text`.
pub open spec fn byte_len(text: Seq<char>) -> nat {
    encode_utf8(text).len()
}

/// The largest character boundary of `bytes` that does not exceed `limit`,
/// and 0 when `limit` is not positive.
pub open spec fn floor_boundary(bytes: Seq<u8>, limit: int) -> int
    decreases limit,
{
    if limit <= 0 {
        0
    } else if is_char_boundary(bytes, limit) {
        limit
    } else {
        floor_boundary(bytes, limit - 1)
    }
}

/// The truncation marker that fits into `max_len` bytes: three dots, or as
/// many dots as `max_len` leaves room for.
pub open spec fn marker(max_len: nat) -> Seq<char> {
    if max_len >= 3 {
        seq!['.', '.', '.']
    } else if max_len == 2 {
        seq!['.', '.']
    } else if max_len == 1 {
        seq!['.']
    } else {
        Seq::empty()
    }
}

/// Number of bytes of the text that survive a truncation to `max_len`.
pub open spec fn kept_len(text: Seq<char>, max_len: nat) -> int {
    floor_boundary(encode_utf8(text), max_len - 3)
}

/// What `text` becomes when it is bounded to `max_len` bytes.
///
/// A text that fits is unchanged. A longer one keeps its longest prefix of
/// whole characters that leaves room for the marker, followed by the marker.
pub open spec fn truncated(text: Seq<char>, max_len: nat) -> Seq<char> {
    if byte_len(text) <= max_len {
        text
    } else {
        decode_utf8(encode_utf8(text).subrange(0, kept_len(text, max_len))) + marker(max_len)
    }
}

/// Encoding distributes over concatenation.
pub proof fn lemma_encode_concat(a: Seq<char>, b: Seq<char>)
    ensures
        encode_utf8(a + b) == encode_utf8(a) + encode_utf8(b),
    decreases a.len(),
{
    if a.len() == 0 {
        assert(a + b =~= b);
        assert(encode_utf8(a) + encode_utf8(b) =~= encode_utf8(b));
    } else {
        lemma_encode_concat(a.drop_first(), b);
        assert((a + b).drop_first() =~= a.drop_first() + b);
        assert((a + b)[0] == a[0]);
        assert(encode_utf8(a + b) =~= encode_utf8(a) + encode_utf8(b));
    }
}

/// The boundary found below a limit is a boundary, within the limit, and no
/// boundary lies between the two.
pub proof fn lemma_floor_boundary(bytes: Seq<u8>, limit: int)
    requires
        valid_utf8(bytes),
    ensures
        0 <= floor_boundary(bytes, limit),
        limit >= 0 ==> floor_boundary(bytes, limit) <= limit,
        is_char_boundary(bytes, floor_boundary(bytes, limit)),
        forall|k: int|
            floor_boundary(bytes, limit) < k <= limit ==> !is_char_boundary(bytes, k),
    decreases limit,
{
    if limit <= 0 {
    } else if is_char_boundary(bytes, limit) {
    } else {
        lemma_floor_boundary(bytes, limit - 1);
    }
}

/// The marker is made of one-byte characters and never exceeds the bound.
pub proof fn lemma_marker_len(max_len: nat)
    ensures
        byte_len(marker(max_len)) == marker(max_len).len(),
        marker(max_len).len() == if max_len >= 3 { 3nat } else { max_len },
{
    let m = marker(max_len);
    assert(is_ascii_chars(m));
    is_ascii_chars_encode_utf8(m);
}

/// A truncated text never exceeds the bound, and a text that fits is left
/// as it is.
pub proof fn lemma_truncated_bounded(text: Seq<char>, max_len: nat)
    ensures
        byte_len(truncated(text, max_len)) <= max_len,
        byte_len(text) <= max_len ==> truncated(text, max_len) == text,
        byte_len(text) > max_len ==> byte_len(truncated(text, max_len)) == kept_len(text, max_len)
            + marker(max_len).len(),
{
    if byte_len(text) > max_len {
        let bytes = encode_utf8(text);
        let cut = kept_len(text, max_len);
        encode_utf8_valid_utf8(text);
        lemma_floor_boundary(bytes, max_len - 3);
        assert(cut <= bytes.len());
        let head = bytes.subrange(0, cut);
        valid_utf8_split(bytes, cut);
        decode_utf8_encode_utf8(head);
        lemma_encode_concat(decode_utf8(head), marker(max_len));
        lemma_marker_len(max_len);
    }
}

/// On text of one-byte characters truncation counts characters: a text
/// longer than a bound of at least three keeps its first `max_len - 3`
/// characters and ends in three dots.
pub proof fn lemma_truncated_ascii(text: Seq<char>, max_len: nat)
    requires
        is_ascii_chars(text),
    ensures
        byte_len(text) == text.len(),
        text.len() > max_len >= 3 ==> truncated(text, max_len) == text.subrange(0, max_len - 3)
            + seq!['.', '.', '.'],
        text.len() > max_len >= 3 ==> byte_len(truncated(text, max_len)) == max_len,
{
    let bytes = encode_utf8(text);
    is_ascii_chars_encode_utf8(text);
    encode_utf8_valid_utf8(text);
    if text.len() > max_len && max_len >= 3 {
        let cut = max_len - 3;
        is_char_boundary_iff_not_is_continuation_byte(bytes, cut);
        assert(text[cut] as u8 == bytes[cut]);
        assert(is_char_boundary(bytes, cut));
        assert(kept_len(text, max_len) == cut);
        let head = text.subrange(0, cut);
        let tail = text.subrange(cut, text.len() as int);
        assert(text =~= head + tail);
        lemma_encode_concat(head, tail);
        assert(is_ascii_chars(head));
        is_ascii_chars_encode_utf8(head);
        assert(bytes.subrange(0, cut) =~= encode_utf8(head));
        encode_utf8_decode_utf8(head);
        lemma_truncated_bounded(text, max_len);
    }
}

/// The marker as text: `"..."`, shortened when `max_len` is below three.
fn marker_text(max_len: usize) -> (text: &'static str)
    ensures
        text@ == marker(max_len as nat),
{
    proof {
        reveal_strlit("...");
        reveal_strlit("..");
        reveal_strlit(".");
        reveal_strlit("");
    }
    let text = if max_len >= 3 {
        "..."
    } else if max_len == 2 {
        ".."
    } else if max_len == 1 {
        "."
    } else {
        ""
    };
    assert(text@ =~= marker(max_len as nat));
    text
}

/// Bounds `msg` to `max_len` bytes.
///
/// A message of at most `max_len` bytes comes back unchanged. A longer one
/// is cut at the last character boundary that leaves three bytes free and
/// ends in `"..."`, so that the result never exceeds `max_len` bytes and is
/// exactly that long whenever the cut falls on a character boundary. Below
/// three bytes of room nothing of the message is kept and the marker itself
/// is shortened to fit.
pub fn truncate_message(msg: &str, max_len: usize) -> (out: String)
    ensures
        out@ == truncated(msg@, max_len as nat),
        byte_len(out@) <= max_len,
        byte_len(msg@) <= max_len ==> out@ == msg@,
        byte_len(msg@) > max_len && max_len >= 3 && is_char_boundary(
            encode_utf8(msg@),
            max_len - 3,
        ) ==> byte_len(out@) == max_len,
{
    proof {
        lemma_truncated_bounded(msg@, max_len as nat);
        encode_utf8_valid_utf8(msg@);
        lemma_floor_boundary(encode_utf8(msg@), max_len - 3);
        lemma_marker_len(max_len as nat);
    }
    if msg.as_bytes().len() <= max_len {
        msg.to_owned()
    } else {
        let ghost bytes = encode_utf8(msg@);
        let start: usize = if max_len >= 3 {
            max_len - 3
        } else {
            0
        };
        let mut cut: usize = start;
        while !msg.is_char_boundary(cut)
            invariant
                bytes == encode_utf8(msg@),
                valid_utf8(bytes),
                cut <= start < bytes.len(),
                floor_boundary(bytes, cut as int) == floor_boundary(bytes, start as int),
            decreases cut,
        {
            cut = cut - 1;
        }
        assert(floor_boundary(bytes, start as int) == kept_len(msg@, max_len as nat));
        let (head, _) = msg.split_at(cut);
        proof {
            valid_utf8_split(bytes, cut as int);
            encode_utf8_decode_utf8(head@);
            assert(head@ == decode_utf8(bytes.subrange(0, cut as int)));
        }
        let mut out = head.to_owned();
        out.append(marker_text(max_len));
        out
    }
}

} // verus!
