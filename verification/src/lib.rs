//! A linter core that finds comments whose body is itself valid Python code.

pub mod allow;
pub mod classify;
pub mod pyparse;
pub mod resolver;
pub mod strutil;

pub use classify::comment_has_valid_code;
pub use classify::file_report;
pub use classify::CommentSpan;
pub use pyparse::PyParser;
pub use resolver::PathResolver;
