//! What the controller asks of the platform's notification backend: one
//! render call, described in full, together with the policy for its failure.
//! The unverified shell performs the call; the controller's state transition
//! never depends on how the call went.

use vstd::prelude::*;

use crate::errors::Error;

verus! {

/// How long a completed notification stays in the OS history before the
/// scheduled cleanup removes it: a grace period for the user to see "done",
/// not a correctness requirement.
pub const CLEANUP_DELAY_MS: u64 = 2500;

/// One render call against the platform's notification backend.
#[derive(Debug)]
pub enum BackendAction {
    /// Nothing to render.
    NoRender,
    /// Send a notification-center message (the macOS shape); resending under
    /// the same session replaces the previous message.
    Notify {
        title: String,
        subtitle: String,
        message: String,
        icon: Option<String>,
        bundle_id: Option<String>,
    },
    /// Show a progress toast (the Windows shape), addressed by `tag`.
    Toast {
        tag: String,
        title: String,
        body: String,
        logo: String,
        caption: String,
        status: String,
        fraction_scaled: u64,
        progress_text: String,
    },
    /// Patch the progress value and text of the toast under `tag` in place.
    /// `seq` grows with every patch: the OS accepts a patch only with a
    /// sequence number above the last one it saw for the tag.
    ToastProgress { tag: String, fraction_scaled: u64, progress_text: String, seq: u64 },
    /// Mark the toast under `tag` finished, with a closing label, and let
    /// the OS dispose of it after `cleanup_delay_ms`.
    ToastComplete { tag: String, label: String, progress_text: String, cleanup_delay_ms: u64 },
}

/// The mathematical content of a render call.
pub enum ActionView {
    NoRender,
    Notify {
        title: Seq<char>,
        subtitle: Seq<char>,
        message: Seq<char>,
        icon: Option<Seq<char>>,
        bundle_id: Option<Seq<char>>,
    },
    Toast {
        tag: Seq<char>,
        title: Seq<char>,
        body: Seq<char>,
        logo: Seq<char>,
        caption: Seq<char>,
        status: Seq<char>,
        fraction_scaled: int,
        progress_text: Seq<char>,
    },
    ToastProgress { tag: Seq<char>, fraction_scaled: int, progress_text: Seq<char>, seq: int },
    ToastComplete {
        tag: Seq<char>,
        label: Seq<char>,
        progress_text: Seq<char>,
        cleanup_delay_ms: int,
    },
}

impl View for BackendAction {
    type V = ActionView;

    open spec fn view(&self) -> ActionView {
        match self {
            BackendAction::NoRender => ActionView::NoRender,
            BackendAction::Notify { title, subtitle, message, icon, bundle_id } => {
                ActionView::Notify {
                    title: title@,
                    subtitle: subtitle@,
                    message: message@,
                    icon: crate::session::opt_view(*icon),
                    bundle_id: crate::session::opt_view(*bundle_id),
                }
            },
            BackendAction::Toast {
                tag,
                title,
                body,
                logo,
                caption,
                status,
                fraction_scaled,
                progress_text,
            } => {
                ActionView::Toast {
                    tag: tag@,
                    title: title@,
                    body: body@,
                    logo: logo@,
                    caption: caption@,
                    status: status@,
                    fraction_scaled: *fraction_scaled as int,
                    progress_text: progress_text@,
                }
            },
            BackendAction::ToastProgress { tag, fraction_scaled, progress_text, seq } => {
                ActionView::ToastProgress {
                    tag: tag@,
                    fraction_scaled: *fraction_scaled as int,
                    progress_text: progress_text@,
                    seq: *seq as int,
                }
            },
            BackendAction::ToastComplete { tag, label, progress_text, cleanup_delay_ms } => {
                ActionView::ToastComplete {
                    tag: tag@,
                    label: label@,
                    progress_text: progress_text@,
                    cleanup_delay_ms: *cleanup_delay_ms as int,
                }
            },
        }
    }
}

/// What to do when the render call fails.
#[derive(Debug)]
pub enum FailurePolicy {
    /// Report the failure to the caller, under the named step.
    Surface { context: String },
    /// Drop the failure: the operation already succeeded logically.
    Swallow,
}

/// The mathematical content of a failure policy.
pub enum PolicyView {
    Surface(Seq<char>),
    Swallow,
}

impl View for FailurePolicy {
    type V = PolicyView;

    open spec fn view(&self) -> PolicyView {
        match self {
            FailurePolicy::Surface { context } => PolicyView::Surface(context@),
            FailurePolicy::Swallow => PolicyView::Swallow,
        }
    }
}

/// A render call together with the policy for its failure.
#[derive(Debug)]
pub struct Dispatch {
    pub action: BackendAction,
    pub on_failure: FailurePolicy,
}

/// The mathematical content of a dispatch.
pub struct DispatchView {
    pub action: ActionView,
    pub on_failure: PolicyView,
}

impl View for Dispatch {
    type V = DispatchView;

    open spec fn view(&self) -> DispatchView {
        DispatchView { action: self.action@, on_failure: self.on_failure@ }
    }
}

impl Dispatch {
    /// Turns a failed render into the caller's error, or into nothing where
    /// the policy drops failures. `cause` is the backend's own words.
    pub fn failure_error(&self, cause: String) -> (r: Option<Error>)
        ensures
            self.on_failure matches FailurePolicy::Surface { context } ==> r is Some && (r.unwrap() matches Error::BackendCallFailed { context: c, cause: w }
                && c@ == context@ && w@ == cause@),
            self.on_failure is Swallow ==> r is None,
    {
        match &self.on_failure {
            FailurePolicy::Surface { context } => {
                Some(Error::BackendCallFailed { context: context.clone(), cause })
            },
            FailurePolicy::Swallow => None,
        }
    }
}

} // verus!
