//! Notification-permission priming for the notification-center backend:
//! before its first send, the shell asks the OS for the authorization
//! status and follows the steps decided here. Whatever happens, a send is
//! still attempted afterwards (degraded if truly denied), and the OS
//! settings pane is opened for the user at most once in a process, however
//! many denials and send failures occur.

use vstd::prelude::*;

verus! {

/// The OS's answer about notification authorization.
pub enum AuthStatus {
    Authorized,
    Denied,
    Undetermined,
}

/// How an active authorization request ended. The shell bounds the wait, so
/// a request that outlives its timeout comes back as `TimedOut`.
pub enum RequestOutcome {
    Granted,
    DeniedByUser,
    TimedOut,
}

/// What the shell does next.
pub enum PrimeStep {
    /// Send right away.
    Proceed,
    /// Ask the OS to request authorization from the user (with a bounded
    /// wait), then report the outcome back.
    RequestAuthorization,
    /// Open the OS's notification-settings pane for the user, then still
    /// attempt the send.
    OpenSettingsAndProceed,
}

/// The one-shot latches behind permission priming, owned by the backend
/// instance rather than hidden in process-wide state.
pub struct PermissionPrimer {
    primed: bool,
    settings_opened: bool,
}

impl PermissionPrimer {
    /// Whether priming has run to a decision, so later sends skip it.
    pub closed spec fn spec_primed(&self) -> bool {
        self.primed
    }

    /// Whether the settings pane was already opened once.
    pub closed spec fn spec_settings_opened(&self) -> bool {
        self.settings_opened
    }

    /// Fresh latches: nothing primed, settings never opened.
    pub fn new() -> (r: PermissionPrimer)
        ensures
            !r.spec_primed(),
            !r.spec_settings_opened(),
    {
        PermissionPrimer { primed: false, settings_opened: false }
    }

    /// Whether a send must prime permission first.
    pub fn needs_priming(&self) -> (r: bool)
        ensures
            r == !self.spec_primed(),
    {
        !self.primed
    }

    /// Decides on a fresh authorization status: authorized sends go right
    /// ahead; an undetermined status calls for an active request; a denial
    /// opens the settings pane — only the first time — and sends anyway.
    pub fn on_status(&mut self, status: AuthStatus) -> (step: PrimeStep)
        ensures
            final(self).spec_settings_opened() == (old(self).spec_settings_opened() || (
            step is OpenSettingsAndProceed)),
            old(self).spec_settings_opened() ==> !(step is OpenSettingsAndProceed),
            status is Authorized ==> step is Proceed && final(self).spec_primed(),
            status is Undetermined ==> step is RequestAuthorization && final(self).spec_primed()
                == old(self).spec_primed(),
            status is Denied ==> final(self).spec_primed() && (step is OpenSettingsAndProceed
                <==> !old(self).spec_settings_opened()),
    {
        match status {
            AuthStatus::Authorized => {
                self.primed = true;
                PrimeStep::Proceed
            },
            AuthStatus::Undetermined => PrimeStep::RequestAuthorization,
            AuthStatus::Denied => {
                self.primed = true;
                if self.settings_opened {
                    PrimeStep::Proceed
                } else {
                    self.settings_opened = true;
                    PrimeStep::OpenSettingsAndProceed
                }
            },
        }
    }

    /// Decides on the outcome of an active authorization request: a grant
    /// sends right ahead; a refusal or a timeout opens the settings pane —
    /// only the first time — and sends anyway, degraded.
    pub fn on_request_outcome(&mut self, outcome: RequestOutcome) -> (step: PrimeStep)
        ensures
            final(self).spec_primed(),
            final(self).spec_settings_opened() == (old(self).spec_settings_opened() || (
            step is OpenSettingsAndProceed)),
            old(self).spec_settings_opened() ==> !(step is OpenSettingsAndProceed),
            outcome is Granted ==> step is Proceed,
            !(outcome is Granted) ==> (step is OpenSettingsAndProceed <==> !old(
                self,
            ).spec_settings_opened()),
    {
        self.primed = true;
        match outcome {
            RequestOutcome::Granted => PrimeStep::Proceed,
            RequestOutcome::DeniedByUser | RequestOutcome::TimedOut => {
                if self.settings_opened {
                    PrimeStep::Proceed
                } else {
                    self.settings_opened = true;
                    PrimeStep::OpenSettingsAndProceed
                }
            },
        }
    }

    /// A send failed: the settings pane is nudged too, still at most once
    /// in a process. Returns whether to open it now.
    pub fn on_send_failure(&mut self) -> (open_settings: bool)
        ensures
            open_settings == !old(self).spec_settings_opened(),
            final(self).spec_settings_opened(),
            final(self).spec_primed() == old(self).spec_primed(),
    {
        if self.settings_opened {
            false
        } else {
            self.settings_opened = true;
            true
        }
    }
}

} // verus!
