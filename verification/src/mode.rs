//! The flags a file is opened with.

use vstd::prelude::*;

verus! {

/// The five switches of an open call, each exactly as it is handed to the
/// file system.
#[derive(Clone, Copy, Debug, PartialEq, Eq, Structural)]
pub struct OpenMode {
    /// The handle may be read from.
    pub read: bool,
    /// The handle may be written to, starting at the first byte.
    pub write: bool,
    /// Every write through the handle lands at the end of the file.
    pub append: bool,
    /// What the file held is discarded the moment it is opened.
    pub truncate: bool,
    /// A file that is not there is created, empty.
    pub create: bool,
}

impl OpenMode {
    /// The combinations a file system takes: some access is asked for,
    /// truncation comes with plain write access only, and creation with write
    /// or append access only.
    pub open spec fn accepted(self) -> bool {
        &&& self.read || self.write || self.append
        &&& self.truncate ==> self.write && !self.append
        &&& self.create ==> self.write || self.append
    }

    /// A handle opened in this mode takes bytes.
    pub open spec fn writable(self) -> bool {
        self.write || self.append
    }

    /// The mode `reading` gives.
    pub open spec fn spec_reading() -> OpenMode {
        OpenMode { read: true, write: false, append: false, truncate: false, create: false }
    }

    /// The mode `writing` gives.
    pub open spec fn spec_writing(truncate: bool) -> OpenMode {
        OpenMode { read: false, write: true, append: false, truncate, create: true }
    }

    /// The mode `appending` gives.
    pub open spec fn spec_appending() -> OpenMode {
        OpenMode { read: false, write: false, append: true, truncate: false, create: true }
    }

    /// Read access to a file that must exist.
    #[verifier::when_used_as_spec(spec_reading)]
    pub fn reading() -> (mode: OpenMode)
        ensures
            mode == Self::spec_reading(),
    {
        OpenMode { read: true, write: false, append: false, truncate: false, create: false }
    }

    /// Write access from the first byte on, to a file that is created when it
    /// is missing and emptied first when `truncate` is set.
    #[verifier::when_used_as_spec(spec_writing)]
    pub fn writing(truncate: bool) -> (mode: OpenMode)
        ensures
            mode == Self::spec_writing(truncate),
    {
        OpenMode { read: false, write: true, append: false, truncate, create: true }
    }

    /// Append access to a file that is created when it is missing.
    #[verifier::when_used_as_spec(spec_appending)]
    pub fn appending() -> (mode: OpenMode)
        ensures
            mode == Self::spec_appending(),
    {
        OpenMode { read: false, write: false, append: true, truncate: false, create: true }
    }

    /// Whether a file system takes this combination of switches.
    pub fn is_accepted(&self) -> (yes: bool)
        ensures
            yes == self.accepted(),
    {
        (self.read || self.write || self.append) && (!self.truncate || (self.write
            && !self.append)) && (!self.create || self.write || self.append)
    }

    /// Whether a handle opened in this mode takes bytes.
    pub fn is_writable(&self) -> (yes: bool)
        ensures
            yes == self.writable(),
    {
        self.write || self.append
    }
}

} // verus!
