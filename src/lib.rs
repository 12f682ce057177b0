//! Reading and writing the plain-text content of the system clipboard.
//!
//! Two backends carry out the work: the host's native clipboard, reached
//! through `arboard` (module [`native`]), and a pair of helper programs that
//! take the text on standard input and hand it back on standard output
//! (module [`helper`]). The helper backend's process handling lives with the
//! caller; this library decides, from what the processes did, what the
//! caller is told.

mod error;
pub mod helper;
pub mod native;

pub use error::{ClipboardError, Helper};
