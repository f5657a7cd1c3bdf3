//! What a request does to the file it names.
//!
//! A file is either missing or holds a sequence of bytes. The spec functions
//! give the file after a request and the answer the caller gets; `FileEntry`
//! is one such file held in memory, on which requests can be carried out.

use vstd::prelude::*;
use crate::mode::OpenMode;
use crate::request::{OpenRequest, OpenRequestView, WriteRequest, WriteRequestView};
use crate::steps::{calls_left, Next, Step};
use crate::text::copy_bytes;

verus! {

/// Why a request was turned down.
#[derive(Clone, Copy, Debug, PartialEq, Eq, Structural)]
pub enum Failure {
    /// The switches of the open call do not go together.
    InvalidInput,
    /// The file is missing and the open call does not create it.
    NotFound,
    /// Bytes were sent through a handle that takes none.
    NotWritable,
}

/// What opening in `mode` makes of the file: the bytes it holds once it is
/// open, or why it was not opened. A file that is not opened is not touched.
pub open spec fn opened(mode: OpenMode, before: Option<Seq<u8>>) -> Result<Seq<u8>, Failure> {
    if !mode.accepted() {
        Err(Failure::InvalidInput)
    } else {
        match before {
            None => if mode.create {
                Ok(Seq::empty())
            } else {
                Err(Failure::NotFound)
            },
            Some(held) => if mode.truncate {
                Ok(Seq::empty())
            } else {
                Ok(held)
            },
        }
    }
}

/// Where a write lands in a file of `len` bytes, through a handle that
/// stands at `position`: at the end when appending, wherever the handle
/// stands; where the handle stands otherwise.
pub open spec fn landing(mode: OpenMode, position: nat, len: nat) -> nat {
    if mode.append {
        len
    } else {
        position
    }
}

/// What `held` becomes when `bytes` are laid over it from `at` on: the new
/// bytes replace what stood in their place and lengthen the file where they
/// reach beyond its end.
pub open spec fn laid_over(held: Seq<u8>, at: nat, bytes: Seq<u8>) -> Seq<u8>
    recommends
        at <= held.len(),
{
    held.take(at as int) + bytes + if at + bytes.len() < held.len() {
        held.skip(at as int + bytes.len())
    } else {
        Seq::empty()
    }
}

/// What a write makes of a file that holds `held`, through a handle opened
/// in `mode` that stands at `position`.
pub open spec fn written_at(mode: OpenMode, held: Seq<u8>, position: nat, bytes: Seq<u8>)
    -> Result<Seq<u8>, Failure>
    recommends
        position <= held.len(),
{
    if mode.writable() {
        Ok(laid_over(held, landing(mode, position, held.len()), bytes))
    } else {
        Err(Failure::NotWritable)
    }
}

/// What the first write through a fresh handle makes of a file that holds
/// `held`. A fresh handle stands at the first byte.
pub open spec fn written(mode: OpenMode, held: Seq<u8>, bytes: Seq<u8>) -> Result<
    Seq<u8>,
    Failure,
> {
    written_at(mode, held, 0, bytes)
}

/// The file after an open request.
pub open spec fn after_open(request: OpenRequestView, before: Option<Seq<u8>>) -> Option<Seq<u8>> {
    match opened(request.mode, before) {
        Ok(held) => Some(held),
        Err(_) => before,
    }
}

/// The answer to an open request.
pub open spec fn open_result(request: OpenRequestView, before: Option<Seq<u8>>) -> Result<
    (),
    Failure,
> {
    match opened(request.mode, before) {
        Ok(_) => Ok(()),
        Err(failure) => Err(failure),
    }
}

/// The file after the first write through a fresh handle opened in `mode`.
/// A write that fails leaves the file as it was.
pub open spec fn after_write(mode: OpenMode, bytes: Seq<u8>, before: Option<Seq<u8>>) -> Option<
    Seq<u8>,
> {
    match before {
        Some(held) => match written(mode, held, bytes) {
            Ok(stored) => Some(stored),
            Err(_) => before,
        },
        None => None,
    }
}

/// The answer to the first write through a fresh handle opened in `mode`.
pub open spec fn write_result(mode: OpenMode, bytes: Seq<u8>, before: Option<Seq<u8>>) -> Result<
    (),
    Failure,
> {
    match before {
        Some(held) => match written(mode, held, bytes) {
            Ok(_) => Ok(()),
            Err(failure) => Err(failure),
        },
        None => Err(Failure::NotFound),
    }
}

/// How each call of a write request is answered on a file held in memory:
/// the open on the file as it was, the write on the file as the open left
/// it, and a flush that has nothing to do.
pub open spec fn answers_in_memory(request: WriteRequestView, before: Option<Seq<u8>>) -> spec_fn(
    Step,
) -> Result<(), Failure> {
    |step: Step|
        match step {
            Step::Open => open_result(request.open, before),
            Step::Write => write_result(
                request.open.mode,
                request.bytes,
                after_open(request.open, before),
            ),
            Step::Flush => Ok(()),
        }
}

/// The file after a write request: what the steps that went through have
/// made of it. Neither buffering nor flushing changes where the bytes end
/// up once the handle is released.
pub open spec fn after_store(request: WriteRequestView, before: Option<Seq<u8>>) -> Option<
    Seq<u8>,
> {
    match opened(request.open.mode, before) {
        Ok(held) => match written(request.open.mode, held, request.bytes) {
            Ok(stored) => Some(stored),
            Err(_) => Some(held),
        },
        Err(_) => before,
    }
}

/// The answer to a write request: the failure of the first step that did not
/// go through.
pub open spec fn store_result(request: WriteRequestView, before: Option<Seq<u8>>) -> Result<
    (),
    Failure,
> {
    match opened(request.open.mode, before) {
        Ok(held) => match written(request.open.mode, held, request.bytes) {
            Ok(_) => Ok(()),
            Err(failure) => Err(failure),
        },
        Err(failure) => Err(failure),
    }
}

/// The file after what `create_file` planned has been carried out.
pub open spec fn after_creation(plan: Option<OpenRequestView>, before: Option<Seq<u8>>) -> Option<
    Seq<u8>,
> {
    match plan {
        Some(request) => after_open(request, before),
        None => before,
    }
}

/// One file, held in memory.
pub struct FileEntry {
    content: Option<Vec<u8>>,
}

impl View for FileEntry {
    type V = Option<Seq<u8>>;

    closed spec fn view(&self) -> Option<Seq<u8>> {
        match self.content {
            Some(bytes) => Some(bytes@),
            None => None,
        }
    }
}

impl FileEntry {
    /// No file.
    pub fn missing() -> (entry: FileEntry)
        ensures
            entry@ is None,
    {
        FileEntry { content: None }
    }

    /// A file that holds `bytes`.
    pub fn holding(bytes: Vec<u8>) -> (entry: FileEntry)
        ensures
            entry@ == Some(bytes@),
    {
        FileEntry { content: Some(bytes) }
    }

    /// Whether there is a file.
    pub fn is_present(&self) -> (yes: bool)
        ensures
            yes == (self@ is Some),
    {
        self.content.is_some()
    }

    /// A copy of what the file holds, if there is a file.
    pub fn contents(&self) -> (bytes: Option<Vec<u8>>)
        ensures
            match bytes {
                Some(held) => self@ == Some(held@),
                None => self@ is None,
            },
    {
        match &self.content {
            Some(held) => Some(copy_bytes(held.as_slice())),
            None => None,
        }
    }

    /// Carries out an open request.
    pub fn open(&mut self, request: &OpenRequest) -> (result: Result<(), Failure>)
        ensures
            final(self)@ == after_open(request@, old(self)@),
            result == open_result(request@, old(self)@),
    {
        if !request.mode.is_accepted() {
            return Err(Failure::InvalidInput);
        }
        if self.content.is_none() {
            if !request.mode.create {
                return Err(Failure::NotFound);
            }
            self.content = Some(Vec::new());
        } else if request.mode.truncate {
            self.content = Some(Vec::new());
        }
        Ok(())
    }

    /// Carries out the first write through a fresh handle opened in `mode`.
    fn write(&mut self, mode: OpenMode, bytes: &[u8]) -> (result: Result<(), Failure>)
        ensures
            final(self)@ == after_write(mode, bytes@, old(self)@),
            result == write_result(mode, bytes@, old(self)@),
    {
        let held = match &self.content {
            Some(held) => held,
            None => {
                return Err(Failure::NotFound);
            },
        };
        if !mode.is_writable() {
            return Err(Failure::NotWritable);
        }
        let mut stored: Vec<u8>;
        if mode.append {
            stored = copy_bytes(held.as_slice());
            let mut i: usize = 0;
            while i < bytes.len()
                invariant
                    i <= bytes@.len(),
                    stored@ == held@ + bytes@.take(i as int),
                decreases bytes@.len() - i,
            {
                stored.push(bytes[i]);
                i = i + 1;
                assert(stored@ =~= held@ + bytes@.take(i as int));
            }
            assert(bytes@.take(i as int) =~= bytes@);
            assert(stored@ =~= laid_over(held@, held@.len(), bytes@));
        } else {
            stored = copy_bytes(bytes);
            let mut i: usize = bytes.len();
            while i < held.len()
                invariant
                    bytes@.len() <= i,
                    bytes@.len() < held@.len() ==> i <= held@.len(),
                    bytes@.len() < held@.len() ==> stored@ == bytes@ + held@.subrange(
                        bytes@.len() as int,
                        i as int,
                    ),
                    bytes@.len() >= held@.len() ==> stored@ == bytes@,
                decreases held@.len() - i,
            {
                stored.push(held[i]);
                i = i + 1;
                assert(stored@ =~= bytes@ + held@.subrange(bytes@.len() as int, i as int));
            }
            assert(stored@ =~= laid_over(held@, 0, bytes@));
        }
        self.content = Some(stored);
        Ok(())
    }

    /// Carries out a write request, call by call: the open, the write, and
    /// the flush, which has nothing to do on a file held in memory.
    pub fn store(&mut self, request: &WriteRequest) -> (result: Result<(), Failure>)
        ensures
            final(self)@ == after_store(request@, old(self)@),
            result == store_result(request@, old(self)@),
    {
        let mut step = request.first_step();
        loop
            invariant
                match step {
                    Step::Open => self@ == old(self)@,
                    Step::Write => self@ is Some && opened(request@.open.mode, old(self)@) == Ok::<
                        Seq<u8>,
                        Failure,
                    >(self@->0),
                    Step::Flush => request.flush && self@ == after_store(request@, old(self)@)
                        && store_result(request@, old(self)@) is Ok,
                },
            decreases calls_left(step),
        {
            let answer = match step {
                Step::Open => self.open(&request.open),
                Step::Write => self.write(request.open.mode, request.bytes.as_slice()),
                Step::Flush => Ok(()),
            };
            match request.next_step(step, answer) {
                Next::Take(then) => {
                    step = then;
                },
                Next::Finish(result) => {
                    return result;
                },
            }
        }
    }
}

} // verus!
