//! Plans for reading, writing, appending to and creating a single named file.
//!
//! Nothing here touches a disk. Each operation in `access` says what has to be
//! asked of the file system, as plain data; `entry` says what such a request
//! does to the file it names, and `laws` what follows for the operations.

pub mod access;
pub mod entry;
pub mod laws;
pub mod mode;
pub mod request;
pub mod steps;
pub mod text;

pub use access::{
    append_to_file, create_file, handle_or_nothing, open_buffered_file_appender,
    open_buffered_file_writer, open_file, open_file_for_appending, open_file_for_writing,
    write_to_file,
};
pub use entry::{Failure, FileEntry};
pub use mode::OpenMode;
pub use request::{OpenRequest, WriteRequest};
pub use steps::{Next, Step};
