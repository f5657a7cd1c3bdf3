//! What an operation asks of the file system.

use vstd::prelude::*;
use crate::mode::OpenMode;

verus! {

/// A request to open the file at `path`.
#[derive(Debug, PartialEq, Eq)]
pub struct OpenRequest {
    /// The file, named as the caller named it.
    pub path: String,
    /// The switches of the open call.
    pub mode: OpenMode,
    /// Whether the handle is wrapped in a buffer before it is used or handed
    /// out. This says how bytes travel, not what the file ends up holding.
    pub buffered: bool,
}

/// An `OpenRequest` as a mathematical value.
pub struct OpenRequestView {
    pub path: Seq<char>,
    pub mode: OpenMode,
    pub buffered: bool,
}

impl View for OpenRequest {
    type V = OpenRequestView;

    open spec fn view(&self) -> OpenRequestView {
        OpenRequestView { path: self.path@, mode: self.mode, buffered: self.buffered }
    }
}

/// What an optional open request asks for, as a mathematical value.
pub open spec fn plan_view(plan: Option<OpenRequest>) -> Option<OpenRequestView> {
    match plan {
        Some(request) => Some(request@),
        None => None,
    }
}

/// A request to open a file, write `bytes` through the handle in full, and
/// release the handle.
#[derive(Debug, PartialEq, Eq)]
pub struct WriteRequest {
    /// How the file is opened.
    pub open: OpenRequest,
    /// The bytes to write, none added and none left out.
    pub bytes: Vec<u8>,
    /// Whether the handle is flushed after the write, before it is released.
    pub flush: bool,
}

/// A `WriteRequest` as a mathematical value.
pub struct WriteRequestView {
    pub open: OpenRequestView,
    pub bytes: Seq<u8>,
    pub flush: bool,
}

impl View for WriteRequest {
    type V = WriteRequestView;

    open spec fn view(&self) -> WriteRequestView {
        WriteRequestView { open: self.open@, bytes: self.bytes@, flush: self.flush }
    }
}

} // verus!
