//! The native backend: the host's clipboard, reached through `arboard`.
//!
//! A clipboard that holds no text reads as the empty string, as the helper
//! backend's get program reports it, so that callers see one convention.
use vstd::prelude::*;

use crate::error::ClipboardError;

verus! {

#[verifier::external_type_specification]
#[verifier::external_body]
pub struct ExClipboard(arboard::Clipboard);

#[verifier::external_type_specification]
#[verifier::external_body]
pub struct ExClipboardError(arboard::Error);

/// Relies on `arboard::Clipboard::new`, which acquires a handle on the
/// host's clipboard or reports why none can be had.
pub assume_specification[ arboard::Clipboard::new ]() -> Result<arboard::Clipboard, arboard::Error>;

/// Relies on `arboard::Clipboard::get_text`, which fetches the clipboard's
/// text or reports why it could not.
pub assume_specification[ arboard::Clipboard::get_text ](
    clipboard: &mut arboard::Clipboard,
) -> Result<String, arboard::Error>;

/// Relies on `arboard::Clipboard::set_text`, which places `text` on the
/// clipboard or reports why it could not.
#[verifier::external_body]
fn store_text(clipboard: &mut arboard::Clipboard, text: &str) -> Result<(), arboard::Error> {
    clipboard.set_text(text)
}

/// Relies on the variant `arboard::Error::ContentNotAvailable`, by which
/// `arboard` reports a clipboard that is empty or holds no text.
#[verifier::external_body]
fn holds_no_text(e: &arboard::Error) -> bool {
    matches!(e, arboard::Error::ContentNotAvailable)
}

/// What reading the native clipboard came to.
#[derive(Debug)]
pub enum NativeRead {
    /// No clipboard handle could be acquired.
    Unavailable,
    /// The clipboard is empty or holds no text.
    NoText,
    /// Reading failed for another reason.
    Failed,
    /// The clipboard held this text.
    Text(String),
}

/// The result of `set_text` on the native backend, from whether a handle was
/// acquired and whether the text was stored through it.
pub fn native_set_result(acquired: bool, stored: bool) -> (r: Result<(), ClipboardError>)
    ensures
        !acquired ==> r == Err::<(), ClipboardError>(ClipboardError::ClipboardUnavailable),
        acquired && !stored ==> r == Err::<(), ClipboardError>(ClipboardError::WriteFailed),
        acquired && stored ==> r is Ok,
{
    if !acquired {
        Err(ClipboardError::ClipboardUnavailable)
    } else if !stored {
        Err(ClipboardError::WriteFailed)
    } else {
        Ok(())
    }
}

/// The result of `get_text` on the native backend, from what reading the
/// clipboard came to. A clipboard without text reads as the empty string.
pub fn native_get_result(read: NativeRead) -> (r: Result<String, ClipboardError>)
    ensures
        read is Unavailable ==> r == Err::<String, ClipboardError>(
            ClipboardError::ClipboardUnavailable,
        ),
        read is Failed ==> r == Err::<String, ClipboardError>(ClipboardError::ReadFailed),
        read is NoText ==> (r matches Ok(s) && s@ == Seq::<char>::empty()),
        read matches NativeRead::Text(t) ==> (r matches Ok(s) && s@ == t@),
{
    match read {
        NativeRead::Unavailable => Err(ClipboardError::ClipboardUnavailable),
        NativeRead::NoText => Ok(String::new()),
        NativeRead::Failed => Err(ClipboardError::ReadFailed),
        NativeRead::Text(t) => Ok(t),
    }
}

/// Places `text` on the host's clipboard.
///
/// It fails with `ClipboardUnavailable` when no clipboard can be acquired and
/// with `WriteFailed` when the clipboard refuses the text.
pub fn set_text(text: &str) -> (r: Result<(), ClipboardError>)
    ensures
        r is Ok || r == Err::<(), ClipboardError>(ClipboardError::ClipboardUnavailable) || r
            == Err::<(), ClipboardError>(ClipboardError::WriteFailed),
{
    match arboard::Clipboard::new() {
        Err(_) => native_set_result(false, false),
        Ok(mut clipboard) => {
            let stored = store_text(&mut clipboard, text).is_ok();
            native_set_result(true, stored)
        },
    }
}

/// Reads the text on the host's clipboard; a clipboard without text reads as
/// the empty string.
///
/// It fails with `ClipboardUnavailable` when no clipboard can be acquired and
/// with `ReadFailed` when the clipboard fails to hand out its text.
pub fn get_text() -> (r: Result<String, ClipboardError>)
    ensures
        r is Ok || r == Err::<String, ClipboardError>(ClipboardError::ClipboardUnavailable) || r
            == Err::<String, ClipboardError>(ClipboardError::ReadFailed),
{
    let read = match arboard::Clipboard::new() {
        Err(_) => NativeRead::Unavailable,
        Ok(mut clipboard) => match clipboard.get_text() {
            Ok(t) => NativeRead::Text(t),
            Err(e) => if holds_no_text(&e) {
                NativeRead::NoText
            } else {
                NativeRead::Failed
            },
        },
    };
    native_get_result(read)
}

} // verus!
