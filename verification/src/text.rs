//! Text as the bytes that reach a file, and the lines a reader finds in them.

use vstd::prelude::*;
use vstd::utf8::{
    char_is_scalar, char_u32_cast, encode_scalar, encode_utf8, has_width_1_encoding, is_scalar,
};

verus! {

/// The byte that ends a line.
pub const NEWLINE: u8 = 0x0a;

/// The byte that a reader drops when it stands right before the newline.
pub const CARRIAGE_RETURN: u8 = 0x0d;

/// The bytes of a line of text: its UTF-8 encoding, then one newline.
pub open spec fn line_bytes(text: Seq<char>) -> Seq<u8> {
    encode_utf8(text).push(NEWLINE)
}

/// Text that is read back as one line, unchanged: it holds no newline and
/// does not end in a carriage return.
pub open spec fn is_one_line(text: Seq<char>) -> bool {
    &&& !text.contains('\n')
    &&& text.len() > 0 ==> text.last() != '\r'
}

/// How many bytes stand before the first newline, or how many there are if
/// there is no newline.
pub open spec fn line_end(bytes: Seq<u8>) -> nat
    decreases bytes.len(),
{
    if bytes.len() == 0 || bytes[0] == NEWLINE {
        0
    } else {
        1 + line_end(bytes.drop_first())
    }
}

/// A line without the carriage return that ended it, if one did.
pub open spec fn without_return(line: Seq<u8>) -> Seq<u8> {
    if line.len() > 0 && line.last() == CARRIAGE_RETURN {
        line.drop_last()
    } else {
        line
    }
}

/// The lines a reader finds in `bytes`. Each newline ends a line and is
/// dropped, together with a carriage return right before it; bytes after the
/// last newline make a last line, kept as it is.
pub open spec fn lines(bytes: Seq<u8>) -> Seq<Seq<u8>>
    decreases bytes.len(),
{
    if bytes.len() == 0 {
        Seq::empty()
    } else {
        let end = line_end(bytes);
        if end >= bytes.len() {
            seq![bytes]
        } else {
            seq![without_return(bytes.take(end as int))] + lines(bytes.skip(end as int + 1))
        }
    }
}

/// What each of `found` holds.
pub open spec fn rows(found: Seq<Vec<u8>>) -> Seq<Seq<u8>> {
    found.map_values(|row: Vec<u8>| row@)
}

/// `line_end` is where the first newline stands.
pub proof fn line_end_is_first_newline(bytes: Seq<u8>)
    ensures
        line_end(bytes) <= bytes.len(),
        line_end(bytes) < bytes.len() ==> bytes[line_end(bytes) as int] == NEWLINE,
        forall|i: int| 0 <= i < line_end(bytes) ==> bytes[i] != NEWLINE,
    decreases bytes.len(),
{
    if bytes.len() == 0 || bytes[0] == NEWLINE {
    } else {
        let rest = bytes.drop_first();
        line_end_is_first_newline(rest);
        assert forall|i: int| 0 <= i < line_end(bytes) implies bytes[i] != NEWLINE by {
            if i > 0 {
                assert(bytes[i] == rest[i - 1]);
            }
        }
    }
}

/// A position that holds the first newline, or the length where there is
/// none, is `line_end`.
pub proof fn first_newline_is_line_end(bytes: Seq<u8>, at: int)
    requires
        0 <= at <= bytes.len(),
        forall|i: int| 0 <= i < at ==> bytes[i] != NEWLINE,
        at < bytes.len() ==> bytes[at] == NEWLINE,
    ensures
        line_end(bytes) == at,
{
    line_end_is_first_newline(bytes);
    let end = line_end(bytes) as int;
    if end < at {
        assert(bytes[end] != NEWLINE);
    } else if at < end {
        assert(bytes[at] != NEWLINE);
    }
}

/// One byte for a scalar below 128, which is the scalar itself; for any
/// other scalar, bytes from 128 up only.
pub proof fn scalar_bytes(scalar: u32)
    requires
        is_scalar(scalar),
    ensures
        encode_scalar(scalar).len() > 0,
        has_width_1_encoding(scalar) ==> encode_scalar(scalar) == seq![scalar as u8],
        !has_width_1_encoding(scalar) ==> forall|i: int|
            0 <= i < encode_scalar(scalar).len() ==> #[trigger] encode_scalar(scalar)[i] >= 0x80,
{
    if has_width_1_encoding(scalar) {
        assert((scalar & 0x7F) as u8 == scalar as u8) by (bit_vector)
            requires
                scalar <= 0x7F,
        ;
    } else {
        assert forall|low: u8|
            (0x80u8 | low) >= 0x80 && (0xC0u8 | low) >= 0x80 && (0xE0u8 | low) >= 0x80 && (0xF0u8
                | low) >= 0x80 by {
            assert((0x80u8 | low) >= 0x80 && (0xC0u8 | low) >= 0x80 && (0xE0u8 | low) >= 0x80 && (
            0xF0u8 | low) >= 0x80) by (bit_vector);
        }
    }
}

/// Encoding goes character by character: the encoding of two texts in a row
/// is the two encodings in a row.
pub proof fn encoding_of_concatenation(left: Seq<char>, right: Seq<char>)
    ensures
        encode_utf8(left + right) == encode_utf8(left) + encode_utf8(right),
    decreases left.len(),
{
    if left.len() == 0 {
        assert(left + right =~= right);
        assert(encode_utf8(left) + encode_utf8(right) =~= encode_utf8(right));
    } else {
        assert((left + right).drop_first() =~= left.drop_first() + right);
        encoding_of_concatenation(left.drop_first(), right);
        assert(encode_utf8(left + right) =~= encode_utf8(left) + encode_utf8(right));
    }
}

/// The bytes of a line are the encoding of the text with a newline
/// character after it.
pub proof fn line_bytes_encode_the_line(text: Seq<char>)
    ensures
        line_bytes(text) == encode_utf8(text.push('\n')),
{
    let newline = seq!['\n'];
    assert(text.push('\n') =~= text + newline);
    encoding_of_concatenation(text, newline);
    char_is_scalar('\n');
    scalar_bytes('\n' as u32);
    assert(newline.drop_first() =~= Seq::<char>::empty());
    assert(encode_utf8(newline) =~= encode_scalar('\n' as u32) + encode_utf8(newline.drop_first()));
    assert(encode_utf8(newline) =~= seq![NEWLINE]);
    assert(line_bytes(text) =~= encode_utf8(text) + seq![NEWLINE]);
}

/// The encoding of text that is one line holds no newline byte and does not
/// end in a carriage return byte.
pub proof fn one_line_encoding(text: Seq<char>)
    requires
        is_one_line(text),
    ensures
        text.len() > 0 <==> encode_utf8(text).len() > 0,
        !encode_utf8(text).contains(NEWLINE),
        encode_utf8(text).len() > 0 ==> encode_utf8(text).last() != CARRIAGE_RETURN,
    decreases text.len(),
{
    if text.len() > 0 {
        let head = encode_scalar(text[0] as u32);
        let rest = text.drop_first();
        let tail = encode_utf8(rest);
        char_is_scalar(text[0]);
        scalar_bytes(text[0] as u32);
        char_u32_cast(text[0], text[0] as u32);
        assert(text.contains(text[0]));
        assert(rest.len() > 0 ==> rest.last() == text.last());
        assert forall|c: char| rest.contains(c) implies text.contains(c) by {
            let i = choose|i: int| 0 <= i < rest.len() && rest[i] == c;
            assert(text[i + 1] == c);
        }
        one_line_encoding(rest);
        assert forall|i: int| 0 <= i < head.len() implies head[i] != NEWLINE by {
            if has_width_1_encoding(text[0] as u32) {
                assert(text[0] != '\n');
            }
        }
        assert forall|i: int| 0 <= i < (head + tail).len() implies (head + tail)[i]
            != NEWLINE by {
            if i >= head.len() {
                assert(tail.contains(tail[i - head.len()]));
            }
        }
        if rest.len() == 0 {
            assert(head + tail =~= head);
            if has_width_1_encoding(text[0] as u32) {
                assert(text[0] != '\r');
            }
        } else {
            assert((head + tail).last() == tail.last());
        }
    }
}

/// A line that holds no newline and does not end in a carriage return,
/// followed by a newline, is the first line a reader finds, and the reader
/// goes on with what comes after that newline.
pub proof fn lines_after_a_line(line: Seq<u8>, rest: Seq<u8>)
    requires
        !line.contains(NEWLINE),
        line.len() > 0 ==> line.last() != CARRIAGE_RETURN,
    ensures
        lines(line.push(NEWLINE) + rest) == seq![line] + lines(rest),
{
    let bytes = line.push(NEWLINE) + rest;
    assert forall|i: int| 0 <= i < line.len() implies bytes[i] != NEWLINE by {
        assert(line.contains(line[i]));
    }
    first_newline_is_line_end(bytes, line.len() as int);
    assert(bytes.take(line.len() as int) =~= line);
    assert(bytes.skip(line.len() as int + 1) =~= rest);
}

/// A fresh vector holding the bytes of `source` from `from` up to, not
/// including, `to`.
pub fn copy_range(source: &[u8], from: usize, to: usize) -> (copy: Vec<u8>)
    requires
        from <= to <= source@.len(),
    ensures
        copy@ == source@.subrange(from as int, to as int),
{
    let mut copy: Vec<u8> = Vec::new();
    let mut i: usize = from;
    while i < to
        invariant
            from <= i <= to <= source@.len(),
            copy@ == source@.subrange(from as int, i as int),
        decreases to - i,
    {
        copy.push(source[i]);
        i = i + 1;
        assert(copy@ =~= source@.subrange(from as int, i as int));
    }
    copy
}

/// A fresh vector holding the bytes of `source`.
pub fn copy_bytes(source: &[u8]) -> (copy: Vec<u8>)
    ensures
        copy@ == source@,
{
    let copy = copy_range(source, 0, source.len());
    assert(source@.subrange(0, source@.len() as int) =~= source@);
    copy
}

/// The lines a reader finds in `bytes`, in order.
pub fn split_lines(bytes: &[u8]) -> (found: Vec<Vec<u8>>)
    ensures
        rows(found@) == lines(bytes@),
{
    let mut found: Vec<Vec<u8>> = Vec::new();
    let mut start: usize = 0;
    assert(rows(found@) + lines(bytes@.skip(0)) =~= lines(bytes@)) by {
        assert(bytes@.skip(0) =~= bytes@);
    }
    while start < bytes.len()
        invariant
            start <= bytes@.len(),
            rows(found@) + lines(bytes@.skip(start as int)) == lines(bytes@),
        decreases bytes@.len() - start,
    {
        let mut end: usize = start;
        while end < bytes.len() && bytes[end] != NEWLINE
            invariant
                start <= end <= bytes@.len(),
                forall|i: int| start <= i < end ==> bytes@[i] != NEWLINE,
            decreases bytes@.len() - end,
        {
            end = end + 1;
        }
        let ended = end < bytes.len();
        let stop: usize = if ended && start < end && bytes[end - 1] == CARRIAGE_RETURN {
            end - 1
        } else {
            end
        };
        let row = copy_range(bytes, start, stop);
        let next: usize = if ended {
            end + 1
        } else {
            end
        };
        proof {
            let rest = bytes@.skip(start as int);
            first_newline_is_line_end(rest, end - start);
            assert(rest.take(end - start) =~= bytes@.subrange(start as int, end as int));
            if ended {
                assert(rest.skip(end - start + 1) =~= bytes@.skip(end + 1));
                assert(row@ =~= without_return(rest.take(end - start)));
            } else {
                assert(row@ =~= rest);
                assert(lines(bytes@.skip(next as int)) =~= Seq::<Seq<u8>>::empty());
            }
            assert(lines(rest) =~= seq![row@] + lines(bytes@.skip(next as int)));
            assert(rows(found@.push(row)) =~= rows(found@) + seq![row@]);
        }
        found.push(row);
        start = next;
    }
    assert(lines(bytes@.skip(start as int)) =~= Seq::<Seq<u8>>::empty());
    assert(rows(found@) + Seq::<Seq<u8>>::empty() =~= rows(found@));
    found
}

} // verus!
