//! What the operations guarantee, one after another, on any file.

use vstd::prelude::*;
use vstd::utf8::encode_utf8;
use crate::access::{append_of, appender, creation, kept_handle, reader, write_of, writer};
use crate::entry::{
    after_creation, after_open, after_store, answers_in_memory, laid_over, open_result,
    store_result, written, written_at, Failure,
};
use crate::mode::OpenMode;
use crate::request::WriteRequestView;
use crate::steps::{first_failure_is_the_result, outcome_from, Step};
use crate::text::{is_one_line, line_bytes, lines, lines_after_a_line, one_line_encoding};

verus! {

/// Opening for reading leaves a handle exactly when the file is there, and
/// leaves the file as it was either way.
pub proof fn reading_needs_the_file(path: Seq<char>, before: Option<Seq<u8>>)
    ensures
        kept_handle(open_result(reader(path), before)) is Some <==> before is Some,
        after_open(reader(path), before) == before,
{
}

/// Opening for writing or for appending always goes through, and the file is
/// there afterwards: created empty if it was missing, emptied if truncation
/// was asked for, and untouched otherwise.
pub proof fn writers_find_a_file(
    path: Seq<char>,
    truncate: bool,
    buffered: bool,
    before: Option<Seq<u8>>,
)
    ensures
        open_result(writer(path, truncate, buffered), before) is Ok,
        open_result(appender(path, buffered), before) is Ok,
        after_open(writer(path, truncate, buffered), before) == Some(
            if before is Some && !truncate {
                before->0
            } else {
                Seq::<u8>::empty()
            },
        ),
        after_open(appender(path, buffered), before) == Some(
            if before is Some {
                before->0
            } else {
                Seq::<u8>::empty()
            },
        ),
{
}

/// A write through an appending handle lands at the end of the file,
/// wherever the handle stands.
pub proof fn appending_ignores_the_position(
    mode: OpenMode,
    held: Seq<u8>,
    position: nat,
    bytes: Seq<u8>,
)
    requires
        mode.append,
    ensures
        written_at(mode, held, position, bytes) == Ok::<Seq<u8>, Failure>(held + bytes),
{
    assert(laid_over(held, held.len(), bytes) =~= held + bytes);
}

/// Through a handle that writes without appending, the first write starts
/// at the first byte and the next goes on where it ended: two writes in a
/// row leave what one write of both would.
pub proof fn writes_follow_each_other(
    mode: OpenMode,
    held: Seq<u8>,
    first: Seq<u8>,
    second: Seq<u8>,
)
    requires
        mode.write,
        !mode.append,
    ensures
        written(mode, held, first) == Ok::<Seq<u8>, Failure>(laid_over(held, 0, first)),
        written_at(mode, laid_over(held, 0, first), first.len(), second) == Ok::<
            Seq<u8>,
            Failure,
        >(laid_over(held, 0, first + second)),
{
    let once = laid_over(held, 0, first);
    assert(laid_over(once, first.len(), second) =~= laid_over(held, 0, first + second));
}

/// The answer to a write request is what the calls it is made of come to,
/// taken in order up to the first that fails.
pub proof fn store_takes_the_steps(request: WriteRequestView, before: Option<Seq<u8>>)
    ensures
        store_result(request, before) == outcome_from(
            request.flush,
            Step::Open,
            answers_in_memory(request, before),
        ),
{
    first_failure_is_the_result(request.flush, answers_in_memory(request, before));
}

/// A truncating write succeeds and leaves exactly the bytes of `contents` in
/// the file, whatever was there before.
pub proof fn truncating_write_replaces(
    path: Seq<char>,
    contents: Seq<char>,
    before: Option<Seq<u8>>,
)
    ensures
        store_result(write_of(path, true, contents), before) is Ok,
        after_store(write_of(path, true, contents), before) == Some(encode_utf8(contents)),
{
}

/// A write to a file that is missing creates it, and the file then holds
/// exactly the bytes of `contents`, with or without truncation.
pub proof fn write_creates_a_missing_file(path: Seq<char>, truncate: bool, contents: Seq<char>)
    ensures
        store_result(write_of(path, truncate, contents), None) is Ok,
        after_store(write_of(path, truncate, contents), None) == Some(encode_utf8(contents)),
{
}

/// A write that does not truncate succeeds and lays the bytes of `contents`
/// over the start of what the file held: the file is as long as the longer
/// of the two, starts with the new bytes, and keeps what it held beyond
/// them.
pub proof fn plain_write_overlays(path: Seq<char>, contents: Seq<char>, held: Seq<u8>)
    ensures
        store_result(write_of(path, false, contents), Some(held)) is Ok,
        after_store(write_of(path, false, contents), Some(held)) is Some,
        ({
            let bytes = encode_utf8(contents);
            let stored = after_store(write_of(path, false, contents), Some(held))->0;
            &&& stored.len() == if bytes.len() < held.len() {
                held.len()
            } else {
                bytes.len()
            }
            &&& stored.take(bytes.len() as int) == bytes
            &&& forall|i: int| bytes.len() <= i < held.len() ==> stored[i] == held[i]
        }),
{
    let bytes = encode_utf8(contents);
    let stored = after_store(write_of(path, false, contents), Some(held))->0;
    assert(stored.take(bytes.len() as int) =~= bytes);
}

/// An append succeeds and puts one line after everything the file held; a
/// missing file is created and holds that line alone.
pub proof fn append_adds_a_line(path: Seq<char>, contents: Seq<char>, before: Option<Seq<u8>>)
    ensures
        store_result(append_of(path, contents), before) is Ok,
        after_store(append_of(path, contents), before) == Some(
            if before is Some {
                before->0 + line_bytes(contents)
            } else {
                line_bytes(contents)
            },
        ),
{
    assert(Seq::<u8>::empty() + line_bytes(contents) =~= line_bytes(contents));
}

/// Two appends to a file that is missing or empty leave it holding the two
/// lines, first before second, and nothing else.
pub proof fn appends_keep_their_order(
    path: Seq<char>,
    first: Seq<char>,
    second: Seq<char>,
    before: Option<Seq<u8>>,
)
    requires
        before is None || before == Some(Seq::<u8>::empty()),
    ensures
        ({
            let once = after_store(append_of(path, first), before);
            let twice = after_store(append_of(path, second), once);
            twice == Some(line_bytes(first) + line_bytes(second))
        }),
{
    append_adds_a_line(path, first, before);
    assert(Seq::<u8>::empty() + line_bytes(first) =~= line_bytes(first));
}

/// After two appends to a file that is missing or empty, a reader finds
/// exactly two lines: the first text, then the second, each as it was
/// given. This is stated for texts that are one line each.
pub proof fn appended_lines_read_back(
    path: Seq<char>,
    first: Seq<char>,
    second: Seq<char>,
    before: Option<Seq<u8>>,
)
    requires
        before is None || before == Some(Seq::<u8>::empty()),
        is_one_line(first),
        is_one_line(second),
    ensures
        ({
            let once = after_store(append_of(path, first), before);
            let twice = after_store(append_of(path, second), once);
            &&& twice is Some
            &&& lines(twice->0) == seq![encode_utf8(first), encode_utf8(second)]
        }),
{
    appends_keep_their_order(path, first, second, before);
    one_line_encoding(first);
    one_line_encoding(second);
    let nothing = Seq::<u8>::empty();
    lines_after_a_line(encode_utf8(first), line_bytes(second));
    lines_after_a_line(encode_utf8(second), nothing);
    assert(line_bytes(second) + nothing =~= line_bytes(second));
    assert(seq![encode_utf8(first)] + (seq![encode_utf8(second)] + lines(nothing)) =~= seq![
        encode_utf8(first),
        encode_utf8(second),
    ]);
}

/// Creating without truncation leaves a file that is there exactly as it
/// was.
pub proof fn creation_keeps_a_present_file(path: Seq<char>, held: Seq<u8>)
    ensures
        creation(path, false, true) is None,
        after_creation(creation(path, false, true), Some(held)) == Some(held),
{
}

/// Creating with truncation leaves a file that was there present and empty.
pub proof fn creation_can_empty_a_file(path: Seq<char>, held: Seq<u8>)
    ensures
        after_creation(creation(path, true, true), Some(held)) == Some(Seq::<u8>::empty()),
{
}

/// Creating a file that is missing leaves it present and empty, with or
/// without truncation.
pub proof fn creation_fills_the_gap(path: Seq<char>, truncate: bool)
    ensures
        after_creation(creation(path, truncate, false), None) == Some(Seq::<u8>::empty()),
{
}

/// Creating without truncation a second time changes nothing: after the
/// first call the file is there, and the second leaves it as the first did.
pub proof fn creation_is_idempotent(path: Seq<char>, before: Option<Seq<u8>>)
    ensures
        ({
            let once = after_creation(creation(path, false, before is Some), before);
            let twice = after_creation(creation(path, false, once is Some), once);
            &&& once is Some
            &&& twice == once
        }),
{
}

} // verus!
