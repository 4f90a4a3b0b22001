use vstd::prelude::*;

verus! {

/// The shell event on which the generated hook fires.
#[derive(Debug, Copy, Clone, PartialEq, Eq, Structural)]
pub enum InitHook {
    /// No hook is installed.
    Off,
    /// The hook fires each time the prompt is displayed.
    Prompt,
    /// The hook fires each time the working directory changes.
    Pwd,
}

} // verus!
