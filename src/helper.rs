//! Decisions of the subprocess backend.
//!
//! The caller spawns the helper programs, writes to and reads from them, and
//! waits for them; it then hands what happened to [`set_run_result`] or
//! [`get_run_result`], which say what the operation returns.
use vstd::prelude::*;
use vstd::slice::slice_to_vec;
use vstd::utf8::{decode_utf8, encode_utf8, valid_utf8, encode_utf8_decode_utf8, encode_utf8_valid_utf8};

use crate::error::{ClipboardError, Helper};

verus! {

/// How a helper program ended, as seen by the process that waited for it.
#[derive(Clone, Copy, Debug, PartialEq, Eq, Structural)]
pub enum ExitReport {
    /// It exited with a status that reports success.
    Success,
    /// It exited with a status that reports failure, or was killed.
    Failure,
    /// Waiting for it failed, so its status is not known.
    Unknown,
}

/// What happened when the set helper was run once.
#[derive(Clone, Copy, Debug, PartialEq, Eq, Structural)]
pub enum SetRun {
    /// The helper could not be launched.
    NotSpawned,
    /// The helper was launched; its input was closed and it was waited for.
    Ran {
        /// Whether the whole payload reached the helper's standard input.
        input_written: bool,
        exit: ExitReport,
    },
}

/// What happened when the get helper was run once.
#[derive(Debug)]
pub enum GetRun {
    /// The helper could not be launched.
    NotSpawned,
    /// The helper was launched and run to completion.
    Ran {
        exit: ExitReport,
        /// Everything the helper wrote to its standard output.
        output: Vec<u8>,
    },
}

/// The bytes that the set helper is given for `text`: its UTF-8 encoding.
pub open spec fn payload_of(text: Seq<char>) -> Seq<u8> {
    encode_utf8(text)
}

/// What `String::from_utf8_lossy` makes of `bytes`: each invalid sequence
/// replaced by U+FFFD.
pub uninterp spec fn lossy_text(bytes: Seq<u8>) -> Seq<char>;

/// The text read back from the get helper's output: valid UTF-8 is decoded
/// exactly, anything else with replacement characters.
pub open spec fn decoded_text(bytes: Seq<u8>) -> Seq<char> {
    if valid_utf8(bytes) {
        decode_utf8(bytes)
    } else {
        lossy_text(bytes)
    }
}

/// The outcome of `set_text` on the subprocess backend for a run of the
/// set helper.
///
/// A failure status outranks a write error: a helper that gives up early
/// also breaks the pipe it was being fed through.
pub open spec fn set_decision(run: SetRun) -> Result<(), ClipboardError> {
    match run {
        SetRun::NotSpawned => Err(ClipboardError::HelperSpawnFailed(Helper::Store)),
        SetRun::Ran { input_written, exit } => match exit {
            ExitReport::Failure => Err(ClipboardError::HelperProcessFailed(Helper::Store)),
            ExitReport::Unknown => Err(ClipboardError::IoFailed(Helper::Store)),
            ExitReport::Success => if input_written {
                Ok(())
            } else {
                Err(ClipboardError::IoFailed(Helper::Store))
            },
        },
    }
}

/// The outcome of `get_text` on the subprocess backend for a run of the
/// get helper, with the text as a sequence of characters.
pub open spec fn get_decision(run: GetRun) -> Result<Seq<char>, ClipboardError> {
    match run {
        GetRun::NotSpawned => Err(ClipboardError::HelperSpawnFailed(Helper::Fetch)),
        GetRun::Ran { exit, output } => match exit {
            ExitReport::Success => Ok(decoded_text(output@)),
            ExitReport::Failure => Err(ClipboardError::HelperProcessFailed(Helper::Fetch)),
            ExitReport::Unknown => Err(ClipboardError::IoFailed(Helper::Fetch)),
        },
    }
}

/// Relies on `String::from_utf8_lossy`, which returns valid UTF-8 input
/// decoded as it is and never fails.
#[verifier::external_body]
fn decode_lossy(bytes: &[u8]) -> (r: String)
    ensures
        r@ == lossy_text(bytes@),
        valid_utf8(bytes@) ==> r@ == decode_utf8(bytes@),
{
    String::from_utf8_lossy(bytes).into_owned()
}

/// The bytes to write to the set helper's standard input for `text`.
pub fn set_payload(text: &str) -> (r: Vec<u8>)
    ensures
        r@ == payload_of(text@),
{
    slice_to_vec(text.as_bytes())
}

/// The result of `set_text` on the subprocess backend, from what happened
/// when the set helper ran.
pub fn set_run_result(run: SetRun) -> (r: Result<(), ClipboardError>)
    ensures
        r == set_decision(run),
        run is NotSpawned ==> r == Err::<(), ClipboardError>(
            ClipboardError::HelperSpawnFailed(Helper::Store),
        ),
        run matches SetRun::Ran { exit: ExitReport::Failure, .. } ==> r == Err::<(), ClipboardError>(
            ClipboardError::HelperProcessFailed(Helper::Store),
        ),
        r is Ok <==> (run matches SetRun::Ran { input_written: true, exit: ExitReport::Success }),
{
    match run {
        SetRun::NotSpawned => Err(ClipboardError::HelperSpawnFailed(Helper::Store)),
        SetRun::Ran { input_written, exit } => match exit {
            ExitReport::Failure => Err(ClipboardError::HelperProcessFailed(Helper::Store)),
            ExitReport::Unknown => Err(ClipboardError::IoFailed(Helper::Store)),
            ExitReport::Success => if input_written {
                Ok(())
            } else {
                Err(ClipboardError::IoFailed(Helper::Store))
            },
        },
    }
}

/// The result of `get_text` on the subprocess backend, from what happened
/// when the get helper ran. Output that is not valid UTF-8 never makes it
/// fail: invalid sequences come back as replacement characters.
pub fn get_run_result(run: GetRun) -> (r: Result<String, ClipboardError>)
    ensures
        match r {
            Ok(s) => get_decision(run) == Ok::<Seq<char>, ClipboardError>(s@),
            Err(e) => get_decision(run) == Err::<Seq<char>, ClipboardError>(e),
        },
        r is Ok <==> (run matches GetRun::Ran { exit: ExitReport::Success, .. }),
{
    match run {
        GetRun::NotSpawned => Err(ClipboardError::HelperSpawnFailed(Helper::Fetch)),
        GetRun::Ran { exit, output } => match exit {
            ExitReport::Success => Ok(decode_lossy(output.as_slice())),
            ExitReport::Failure => Err(ClipboardError::HelperProcessFailed(Helper::Fetch)),
            ExitReport::Unknown => Err(ClipboardError::IoFailed(Helper::Fetch)),
        },
    }
}

/// Round trip through the helpers: when the get helper hands back exactly
/// the payload that the set helper was given for `text`, and exits with
/// success, reading yields `text` unchanged.
pub proof fn lemma_helper_round_trip(text: Seq<char>, run: GetRun)
    requires
        run matches GetRun::Ran { exit: ExitReport::Success, output } && output@ == payload_of(text),
    ensures
        get_decision(run) == Ok::<Seq<char>, ClipboardError>(text),
{
    broadcast use encode_utf8_decode_utf8, encode_utf8_valid_utf8;

    assert(valid_utf8(payload_of(text)));
    assert(decode_utf8(payload_of(text)) == text);
}

} // verus!
