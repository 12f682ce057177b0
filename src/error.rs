use vstd::prelude::*;

verus! {

/// One of the two helper programs of the subprocess backend.
#[derive(Clone, Copy, Debug, PartialEq, Eq, Structural)]
pub enum Helper {
    /// Reads text on standard input and stores it on the clipboard.
    Store,
    /// Writes the clipboard's text to standard output.
    Fetch,
}

impl Helper {
    /// The name under which the helper is looked up on the search path.
    pub fn program(self) -> (r: &'static str)
        ensures
            self is Store ==> r@ == "termux-clipboard-set"@,
            self is Fetch ==> r@ == "termux-clipboard-get"@,
    {
        match self {
            Helper::Store => "termux-clipboard-set",
            Helper::Fetch => "termux-clipboard-get",
        }
    }
}

/// Why a clipboard operation failed.
#[derive(Clone, Copy, Debug, PartialEq, Eq, Structural)]
pub enum ClipboardError {
    /// The native clipboard could not be acquired.
    ClipboardUnavailable,
    /// The native clipboard refused the text after it was acquired.
    WriteFailed,
    /// The native clipboard failed to hand out its text after it was acquired.
    ReadFailed,
    /// The helper program could not be launched.
    HelperSpawnFailed(Helper),
    /// The helper program ran and reported failure in its exit status.
    HelperProcessFailed(Helper),
    /// Talking to the helper program over its standard streams, or waiting
    /// for it, failed.
    IoFailed(Helper),
}

} // verus!
