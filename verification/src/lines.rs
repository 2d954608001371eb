//! The lines of a text.

use vstd::prelude::*;
use vstd::string::{StringExecFns, StringSliceAdditionalSpecFns};
use vstd::utf8::{
    decode_utf8, encode_utf8, encode_utf8_decode_utf8, encode_utf8_valid_utf8, is_char_boundary,
    is_char_boundary_iff_not_is_continuation_byte, is_char_boundary_start_end_of_seq, valid_utf8,
};

verus! {

/// The byte that ends a line.
pub const LINE_FEED: u8 = 0x0A;

/// The byte that may stand before the line feed and belongs to the line end.
pub const CARRIAGE_RETURN: u8 = 0x0D;

/// Where the first line feed of `bytes` stands, or the length of `bytes`
/// where there is none.
pub open spec fn first_line_feed(bytes: Seq<u8>) -> int
    decreases bytes.len(),
{
    if bytes.len() == 0 || bytes[0] == LINE_FEED {
        0
    } else {
        1 + first_line_feed(bytes.drop_first())
    }
}

/// A line without the carriage return that ends it, if one does.
pub open spec fn without_carriage_return(line: Seq<u8>) -> Seq<u8> {
    if line.len() > 0 && line.last() == CARRIAGE_RETURN {
        line.drop_last()
    } else {
        line
    }
}

/// The lines of a byte string. A line ends with a line feed, or with a
/// carriage return and a line feed, neither of which belongs to it; what
/// follows the last line feed is a line too, unless it is empty.
pub open spec fn byte_lines(bytes: Seq<u8>) -> Seq<Seq<u8>>
    decreases bytes.len(),
{
    let end = first_line_feed(bytes);
    if bytes.len() == 0 {
        Seq::empty()
    } else if 0 <= end < bytes.len() {
        seq![without_carriage_return(bytes.subrange(0, end))] + byte_lines(
            bytes.subrange(end + 1, bytes.len() as int),
        )
    } else {
        seq![bytes]
    }
}

/// The lines of a text: the lines of its UTF-8 bytes, each read as text.
pub open spec fn text_lines(text: Seq<char>) -> Seq<Seq<char>> {
    byte_lines(encode_utf8(text)).map_values(|line: Seq<u8>| decode_utf8(line))
}

/// The texts of a list of strings.
pub open spec fn line_views(lines: Seq<String>) -> Seq<Seq<char>> {
    lines.map_values(|line: String| line@)
}

/// The first line feed stands where a line feed stands that none precedes.
pub proof fn lemma_first_line_feed(bytes: Seq<u8>, end: int)
    requires
        0 <= end <= bytes.len(),
        forall|j: int| 0 <= j < end ==> bytes[j] != LINE_FEED,
        end < bytes.len() ==> bytes[end] == LINE_FEED,
    ensures
        first_line_feed(bytes) == end,
    decreases end,
{
    if end > 0 {
        let rest = bytes.drop_first();
        assert forall|j: int| 0 <= j < end - 1 implies rest[j] != LINE_FEED by {
            assert(rest[j] == bytes[j + 1]);
        }
        lemma_first_line_feed(rest, end - 1);
    }
}

/// In UTF-8, the byte after a byte below 0x80 starts a character.
proof fn lemma_boundary_after_ascii(bytes: Seq<u8>, at: int)
    requires
        valid_utf8(bytes),
        0 <= at < bytes.len(),
        bytes[at] < 0x80,
    ensures
        is_char_boundary(bytes, at),
        is_char_boundary(bytes, at + 1),
{
    is_char_boundary_iff_not_is_continuation_byte(bytes, at);
    if at + 1 == bytes.len() {
        is_char_boundary_start_end_of_seq(bytes);
    } else {
        is_char_boundary_iff_not_is_continuation_byte(bytes, at + 1);
        lemma_no_continuation_after_ascii(bytes, at);
    }
}

/// In UTF-8, no continuation byte follows a byte below 0x80.
proof fn lemma_no_continuation_after_ascii(bytes: Seq<u8>, at: int)
    requires
        valid_utf8(bytes),
        0 <= at,
        at + 1 < bytes.len(),
        bytes[at] < 0x80,
    ensures
        !(0x80 <= bytes[at + 1] <= 0xbf),
    decreases bytes.len(),
{
    let first = vstd::utf8::length_of_first_scalar(bytes);
    let rest = vstd::utf8::pop_first_scalar(bytes);
    if at == 0 {
        assert(first == 1);
        assert(valid_utf8(rest));
        assert(rest[0] == bytes[1]);
        assert(vstd::utf8::valid_first_scalar(rest));
    } else if at < first {
        assert(0x80 <= bytes[at] <= 0xbf);
    } else {
        assert(rest[at - first] == bytes[at]);
        assert(rest[at - first + 1] == bytes[at + 1]);
        lemma_no_continuation_after_ascii(rest, at - first);
    }
}

/// Splits a text into its lines.
pub fn split_lines(text: &str) -> (lines: Vec<String>)
    ensures
        line_views(lines@) == text_lines(text@),
{
    let mut lines: Vec<String> = Vec::new();
    let mut rest: &str = text;
    assert(line_views(lines@) + text_lines(rest@) =~= text_lines(text@));
    loop
        invariant
            line_views(lines@) + text_lines(rest@) == text_lines(text@),
        decreases rest.spec_bytes().len(),
    {
        let bytes = rest.as_bytes();
        let len: usize = bytes.len();
        proof {
            encode_utf8_valid_utf8(rest@);
            encode_utf8_decode_utf8(rest@);
        }
        if len == 0 {
            proof {
                assert(text_lines(rest@) =~= Seq::empty());
                assert(line_views(lines@) + Seq::<Seq<char>>::empty() =~= line_views(lines@));
            }
            return lines;
        }
        let mut end: usize = 0;
        while end < len && bytes[end] != LINE_FEED
            invariant
                end <= len,
                len == bytes@.len(),
                forall|j: int| 0 <= j < end ==> bytes@[j] != LINE_FEED,
            decreases len - end,
        {
            end += 1;
        }
        proof {
            lemma_first_line_feed(bytes@, end as int);
        }
        if end == len {
            let ghost before = line_views(lines@);
            lines.push(String::from_str(rest));
            proof {
                assert(text_lines(rest@) =~= seq![rest@]);
                assert(line_views(lines@) =~= before + seq![rest@]);
            }
            return lines;
        }
        proof {
            lemma_boundary_after_ascii(bytes@, end as int);
        }
        let (head, tail) = rest.split_at(end);
        proof {
            encode_utf8_valid_utf8(tail@);
            assert(tail.spec_bytes()[0] == LINE_FEED);
            lemma_boundary_after_ascii(tail.spec_bytes(), 0);
        }
        let (_, next) = tail.split_at(1);
        let line = if end > 0 && bytes[end - 1] == CARRIAGE_RETURN {
            proof {
                encode_utf8_valid_utf8(head@);
                assert(head.spec_bytes()[end - 1] == CARRIAGE_RETURN);
                lemma_boundary_after_ascii(head.spec_bytes(), end - 1);
            }
            head.split_at(end - 1).0
        } else {
            head
        };
        let ghost before = line_views(lines@);
        lines.push(String::from_str(line));
        proof {
            let all = bytes@;
            assert(next.spec_bytes() =~= all.subrange(end + 1, len as int));
            assert(line.spec_bytes() =~= without_carriage_return(all.subrange(0, end as int)));
            encode_utf8_decode_utf8(line@);
            encode_utf8_decode_utf8(next@);
            assert(text_lines(rest@) =~= seq![line@] + text_lines(next@));
            assert(line_views(lines@) =~= before + seq![line@]);
            assert(line_views(lines@) + text_lines(next@) =~= before + text_lines(rest@));
        }
        rest = next;
    }
}

} // verus!
