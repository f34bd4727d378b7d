//! A local lookup trigger: parses an HTTP request line for a `text` query
//! value, and drives the focus-preserving automation sequence that hands the
//! text to a dictionary application and restores the user's window and pointer.
pub mod text;
pub mod request;
pub mod lookup;
pub mod sequence;
pub mod pointer;
