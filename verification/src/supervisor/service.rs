//! Restart policies of services.

use vstd::prelude::*;

verus! {

/// When a service is started again after it exits.
#[derive(Clone, Copy, Debug, PartialEq, Eq, Structural)]
pub enum RestartPolicy {
    /// After every exit.
    Always,
    /// After a failure.
    OnFailure,
    /// Never.
    Never,
}

impl Default for RestartPolicy {
    fn default() -> (r: Self)
        ensures
            r == RestartPolicy::OnFailure,
    {
        RestartPolicy::OnFailure
    }
}

impl RestartPolicy {
    /// The policy's name.
    pub open spec fn spec_name(self) -> Seq<char> {
        match self {
            RestartPolicy::Always => "always"@,
            RestartPolicy::OnFailure => "on_failure"@,
            RestartPolicy::Never => "never"@,
        }
    }

    /// The policy as text for people to read: its name.
    pub fn render(&self) -> (r: String)
        ensures
            r@ == self.spec_name(),
    {
        match self {
            RestartPolicy::Always => "always".to_string(),
            RestartPolicy::OnFailure => "on_failure".to_string(),
            RestartPolicy::Never => "never".to_string(),
        }
    }
}

} // verus!
