//! Paths, failures of file operations and the rules built on them.

pub mod backup;
pub mod failure;
pub mod find;
pub mod paths;
pub mod read;
pub mod store;
pub mod write;

pub use self::backup::safe_back_up;
pub use self::failure::{IoFailure, IoFailureKind};
pub use self::find::{find_sentinel_dir, find_sentinel_file};
pub use self::paths::{file_name_safe_timestamp, label_file_name};
pub use self::read::{read_bytes, read_text_file, FileReadError, FileReadErrorKind};
pub use self::write::{FileWriteError, FileWriteErrorKind};
