//! The failures a live-activity operation can report.

use vstd::prelude::*;

verus! {

/// Why a live-activity operation failed.
#[derive(Debug)]
pub enum Error {
    /// An update arrived while no session was active.
    NoActiveSession,
    /// The platform's backend cannot show live activities, under the policy
    /// that reports that as a failure.
    BackendUnavailable,
    /// The native render call failed; `context` names the step, `cause` the
    /// backend's own words.
    BackendCallFailed { context: String, cause: String },
}

impl Error {
    /// A human-readable description of the failure.
    pub fn message(&self) -> (s: String)
        ensures
            self is NoActiveSession ==> s@ == "No active live activity to update"@,
            self is BackendUnavailable ==> s@
                == "Desktop platforms doesn't support live activity now."@,
            self matches Error::BackendCallFailed { context, cause } ==> s@ == context@ + ": "@
                + cause@,
    {
        match self {
            Error::NoActiveSession => "No active live activity to update".to_owned(),
            Error::BackendUnavailable => {
                "Desktop platforms doesn't support live activity now.".to_owned()
            },
            Error::BackendCallFailed { context, cause } => {
                let mut s = context.clone();
                s.append(": ");
                s.append(cause.as_str());
                s
            },
        }
    }
}

} // verus!
