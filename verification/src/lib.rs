//! File-system safety primitives and a structured error taxonomy.
//!
//! The crate holds the decisions behind non-clobbering file creation,
//! collision-avoiding timestamped backups, bounded upward searches for
//! sentinel entries and the classification of read, write and parse failures.
//! Every decision is a function with a contract over plain values; the caller
//! performs the file operations and reports what happened.

pub mod error;
pub mod formats;
pub mod fs;
pub mod text;

pub use self::error::HasOtherError;
pub use self::formats::{
    read_json_file, read_toml_file, read_toml_file_edit, read_yaml_file, JsonError, JsonErrorKind,
    TomlError, TomlErrorKind, YamlError, YamlErrorKind,
};
pub use self::fs::{
    file_name_safe_timestamp, find_sentinel_dir, find_sentinel_file, label_file_name, read_bytes,
    read_text_file, safe_back_up, FileReadError, FileReadErrorKind, FileWriteError,
    FileWriteErrorKind,
};
