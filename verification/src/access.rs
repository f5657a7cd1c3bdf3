//! The operations: each turns its arguments into the request to make.

use vstd::prelude::*;
use vstd::utf8::encode_utf8;
use crate::mode::OpenMode;
use crate::request::{plan_view, OpenRequest, OpenRequestView, WriteRequest, WriteRequestView};
use crate::text::{copy_bytes, line_bytes, NEWLINE};

verus! {

/// The request that opens `path` for reading.
pub open spec fn reader(path: Seq<char>) -> OpenRequestView {
    OpenRequestView { path, mode: OpenMode::spec_reading(), buffered: true }
}

/// The request that opens `path` for writing from its first byte.
pub open spec fn writer(path: Seq<char>, truncate: bool, buffered: bool) -> OpenRequestView {
    OpenRequestView { path, mode: OpenMode::spec_writing(truncate), buffered }
}

/// The request that opens `path` for appending.
pub open spec fn appender(path: Seq<char>, buffered: bool) -> OpenRequestView {
    OpenRequestView { path, mode: OpenMode::spec_appending(), buffered }
}

/// The request that stores `contents` in `path`, byte for byte.
pub open spec fn write_of(path: Seq<char>, truncate: bool, contents: Seq<char>) -> WriteRequestView {
    WriteRequestView {
        open: writer(path, truncate, false),
        bytes: encode_utf8(contents),
        flush: true,
    }
}

/// The request that adds `contents` to `path` as one more line.
pub open spec fn append_of(path: Seq<char>, contents: Seq<char>) -> WriteRequestView {
    WriteRequestView { open: appender(path, false), bytes: line_bytes(contents), flush: true }
}

/// What creating `path` asks for: nothing where the file is there and is to
/// be kept, else an open that leaves it empty.
pub open spec fn creation(path: Seq<char>, truncate: bool, present: bool) -> Option<
    OpenRequestView,
> {
    if present && !truncate {
        None
    } else {
        Some(writer(path, true, false))
    }
}

/// The handle that is left of an answer to an open call, if it is one.
pub open spec fn kept_handle<H, E>(answer: Result<H, E>) -> Option<H> {
    match answer {
        Ok(opened) => Some(opened),
        Err(_) => None,
    }
}

/// Asks for `file_path` to be opened for reading through a buffer. The file
/// must be there: nothing is created.
pub fn open_file(file_path: &str) -> (request: OpenRequest)
    ensures
        request@ == reader(file_path@),
{
    OpenRequest { path: file_path.to_owned(), mode: OpenMode::reading(), buffered: true }
}

/// What `open_file` hands its caller once the open has been tried: the
/// handle, or nothing. Why an open failed is not passed on.
pub fn handle_or_nothing<H, E>(answer: Result<H, E>) -> (handle: Option<H>)
    ensures
        handle == kept_handle(answer),
{
    match answer {
        Ok(opened) => Some(opened),
        Err(_) => None,
    }
}

/// Asks for `file_path` to be opened for writing and created if it is not
/// there. With `truncate` what it held is discarded on open; without, it is
/// kept and writes go over it from the first byte.
pub fn open_file_for_writing(file_path: &str, truncate: bool) -> (request: OpenRequest)
    ensures
        request@ == writer(file_path@, truncate, false),
{
    OpenRequest { path: file_path.to_owned(), mode: OpenMode::writing(truncate), buffered: false }
}

/// Asks for `file_path` to be opened for appending and created if it is not
/// there.
pub fn open_file_for_appending(file_path: &str) -> (request: OpenRequest)
    ensures
        request@ == appender(file_path@, false),
{
    OpenRequest { path: file_path.to_owned(), mode: OpenMode::appending(), buffered: false }
}

/// As `open_file_for_appending`, with the handle wrapped in a buffer.
pub fn open_buffered_file_appender(file_path: &str) -> (request: OpenRequest)
    ensures
        request@ == appender(file_path@, true),
{
    let mut request = open_file_for_appending(file_path);
    request.buffered = true;
    request
}

/// As `open_file_for_writing`, with the handle wrapped in a buffer.
pub fn open_buffered_file_writer(file_path: &str, truncate: bool) -> (request: OpenRequest)
    ensures
        request@ == writer(file_path@, truncate, true),
{
    let mut request = open_file_for_writing(file_path, truncate);
    request.buffered = true;
    request
}

/// Asks for `contents` to be added to the end of `file_path` as one line:
/// its bytes, then one newline. The file is created if it is not there, and
/// the write is flushed.
pub fn append_to_file(file_path: &str, contents: &str) -> (request: WriteRequest)
    ensures
        request@ == append_of(file_path@, contents@),
{
    let open = open_file_for_appending(file_path);
    let mut bytes = copy_bytes(contents.as_bytes());
    bytes.push(NEWLINE);
    WriteRequest { open, bytes, flush: true }
}

/// Asks for `contents` to be written to `file_path`, byte for byte and with
/// nothing added. The file is created if it is not there, emptied first when
/// `truncate` is set, and the write is flushed.
pub fn write_to_file(file_path: &str, truncate: bool, contents: &str) -> (request: WriteRequest)
    ensures
        request@ == write_of(file_path@, truncate, contents@),
{
    let open = open_file_for_writing(file_path, truncate);
    let bytes = copy_bytes(contents.as_bytes());
    WriteRequest { open, bytes, flush: true }
}

/// Plans what makes sure there is a file at `file_path`, given whether one
/// is `present` now. A file that is present is left alone unless `truncate`
/// is set: then nothing is asked for. In every other case the file is opened
/// so that it ends up present and empty.
pub fn create_file(file_path: &str, truncate: bool, present: bool) -> (plan: Option<OpenRequest>)
    ensures
        plan_view(plan) == creation(file_path@, truncate, present),
{
    if present && !truncate {
        None
    } else {
        Some(open_file_for_writing(file_path, true))
    }
}

} // verus!
