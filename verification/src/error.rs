//! The errors with which a trap can fail.

use vstd::prelude::*;
use vstd::string::StringExecFns;

verus! {

/// An error that a trap may return. Both kinds come from the operating
/// system and carry its error code; they are rare in practice.
#[derive(Debug, Clone, Copy, PartialEq, Eq, Structural)]
pub enum Error {
    /// The console control handler could not be installed. The payload is the
    /// error code of the system.
    SetConsoleCtrlHandler(u32),
    /// The hidden window of the listener, or its window class, could not be
    /// created. The payload is the error code of the system.
    CreateWindow(u32),
}

impl Error {
    /// The error code that the operating system gave.
    pub open spec fn os_code(self) -> u32 {
        match self {
            Error::SetConsoleCtrlHandler(code) => code,
            Error::CreateWindow(code) => code,
        }
    }

    /// What went wrong, without the system's own words.
    pub open spec fn headline(self) -> Seq<char> {
        match self {
            Error::SetConsoleCtrlHandler(_) => "Error setting console control handler: "@,
            Error::CreateWindow(_) => "Error creating Window: "@,
        }
    }

    /// The error code that the operating system gave.
    pub fn code(&self) -> (code: u32)
        ensures
            code == self.os_code(),
    {
        match self {
            Error::SetConsoleCtrlHandler(code) => *code,
            Error::CreateWindow(code) => *code,
        }
    }

    /// The message of this error, where `os_text` is the text that the
    /// operating system has for [`Error::code`].
    pub fn describe(&self, os_text: &str) -> (text: String)
        ensures
            text@ == self.headline() + os_text@,
    {
        match self {
            Error::SetConsoleCtrlHandler(_) => String::from_str(
                "Error setting console control handler: ",
            ).concat(os_text),
            Error::CreateWindow(_) => String::from_str("Error creating Window: ").concat(os_text),
        }
    }
}

} // verus!
