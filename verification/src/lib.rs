//! Decorates a filesystem path for pasting: the path is wrapped in a bracket
//! pair or between two copies of an arbitrary token, and its backslashes are
//! doubled on request.

pub mod decorate;
pub mod escape;
pub mod laws;
pub mod request;
pub mod text;
pub mod wrap;

pub use decorate::get_path_str;
pub use request::DecorationRequest;
