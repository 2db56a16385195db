//! Verified core of two small text utilities: `echo`, which joins its
//! arguments with single spaces, and `cat`, which copies lines and can
//! number them.

pub mod cat;
pub mod config;
pub mod echo;
pub mod lemmas;
pub mod numfmt;
pub mod text;

pub use cat::{cat_file, cat_sources, open_failure_message, LineNumbering, RunOutput, Source};
pub use config::{is_stdin, Config, ConfigError};
pub use echo::echo;
pub use numfmt::{decimal_string, number_field};
