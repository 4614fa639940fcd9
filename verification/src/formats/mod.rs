//! Readers of JSON, YAML and TOML documents that classify what the parser
//! reports.

pub mod json;
pub mod toml;
pub mod yaml;

pub use self::json::{read_json_file, JsonError, JsonErrorKind};
pub use self::toml::{read_toml_file, read_toml_file_edit, TomlError, TomlErrorKind};
pub use self::yaml::{read_yaml_file, YamlError, YamlErrorKind};
