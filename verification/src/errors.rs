use vstd::prelude::*;

verus! {

/// Why a run failed before producing formatted output.
#[derive(Clone, Copy, Debug, PartialEq, Eq, Structural)]
pub enum RunError {
    /// The contract template resource could not be opened.
    Resource,
    /// A template configuration call failed after the resource was opened.
    Configuration,
    /// The child could not be spawned; a zone-entry failure in the child
    /// surfaces here too, indistinguishable from an exec failure.
    Spawn,
    /// The child ran but its terminal status was not success.
    Launch,
}

impl RunError {
    /// A fixed description for each failure, for the caller to display.
    pub fn describe(&self) -> (r: String)
        ensures
            self is Resource ==> r@ == "failed to open contract process template"@,
            self is Configuration ==> r@ == "contract template creation failure"@,
            self is Spawn ==> r@ == "failed to launch command"@,
            self is Launch ==> r@ == "command failed"@,
    {
        match self {
            RunError::Resource => String::from_str("failed to open contract process template"),
            RunError::Configuration => String::from_str("contract template creation failure"),
            RunError::Spawn => String::from_str("failed to launch command"),
            RunError::Launch => String::from_str("command failed"),
        }
    }
}

} // verus!
