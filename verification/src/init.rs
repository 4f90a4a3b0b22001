//! The initialization script, by the name of the shell.

use crate::shell::{render, script_of, Opts, Shell};
use vstd::prelude::*;
use vstd::string::*;

verus! {

/// How the message of an [`UnsupportedShellError`] begins.
pub const UNSUPPORTED_SHELL: &'static str = "Unsupported shell: ";

/// The shell that was asked for is not one of the recognized ones.
#[derive(Debug, Clone, PartialEq, Eq)]
pub struct UnsupportedShellError {
    /// The identifier that was given.
    pub shell: String,
}

impl UnsupportedShellError {
    /// The message for the user: it names the identifier that was given.
    pub fn message(&self) -> (text: String)
        ensures
            text@ == UNSUPPORTED_SHELL@ + self.shell@,
    {
        let mut text = String::from_str(UNSUPPORTED_SHELL);
        text.append(self.shell.as_str());
        text
    }
}

/// The initialization script for the shell that `shell` names.
///
/// It succeeds exactly for the recognized identifiers, with the whole script.
/// For any other identifier it fails with that identifier, and no part of a
/// script is produced.
pub fn init(shell: &str, opts: &Opts) -> (script: Result<String, UnsupportedShellError>)
    ensures
        match script {
            Ok(text) => Shell::recognize(shell@) matches Some(known) && text@ == script_of(
                known,
                opts@,
            ),
            Err(e) => Shell::recognize(shell@) is None && e.shell@ == shell@,
        },
{
    match Shell::parse(shell) {
        Some(known) => Ok(render(known, opts)),
        None => Err(UnsupportedShellError { shell: String::from_str(shell) }),
    }
}

} // verus!
