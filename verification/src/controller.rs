//! The session controller: `create`, `update` and `remove` as transitions
//! over the session registry. Each operation settles the registry first and
//! returns the render call the platform backend owes; the unverified shell
//! performs that call. A transition never depends on how a render went: a
//! failed render is only reported, per the dispatch's failure policy.

use vstd::prelude::*;

use crate::actions::{
    ActionView, BackendAction, Dispatch, DispatchView, FailurePolicy, PolicyView, CLEANUP_DELAY_MS,
};
use crate::decimal::{spec_dec, u64_to_dec};
use crate::errors::Error;
use crate::models::{
    ActivityContent, CreateLiveActivityRequest, CreateRequestView, TaskQueueView,
    UpdateLiveActivityRequest,
};
use crate::progress::{normalize_progress, spec_display, spec_fraction};
use crate::session::{clone_opt_string, opt_view, Metadata, MetadataView, SessionRegistry, SessionView};
use crate::state_map::{spec_lookup, StateMap};
use crate::FRAC_SCALE;

verus! {

/// Which platform backend renders the activity. Unsupported platforms come
/// in two explicit policies: silently succeeding at every operation, or
/// reporting every render as unavailable. Either way the session state
/// machine runs the same; only the reported outcome differs.
#[derive(Clone, Copy)]
pub enum BackendKind {
    MacOs,
    Windows,
    UnsupportedSilent,
    UnsupportedFail,
}

/// The mathematical state of the controller.
pub struct ControllerView {
    pub backend: BackendKind,
    pub session: Option<SessionView>,
    pub creations: u64,
    pub next_seq: u64,
}

/// The outcome a transition owes the caller.
pub enum OutcomeView {
    Success(DispatchView),
    NoActiveSession,
    BackendUnavailable,
}

/// Whether the returned result carries exactly the outcome the transition
/// function names.
pub open spec fn outcome_matches(r: Result<Dispatch, Error>, o: OutcomeView) -> bool {
    match o {
        OutcomeView::Success(d) => r matches Ok(x) && x@ == d,
        OutcomeView::NoActiveSession => r matches Err(e) && e is NoActiveSession,
        OutcomeView::BackendUnavailable => r matches Err(e) && e is BackendUnavailable,
    }
}

/// The metadata cached for a task at creation time: its display strings,
/// and the icon and application identity read from the state blob.
pub open spec fn meta_of(task: TaskQueueView) -> MetadataView {
    MetadataView {
        title: task.title,
        text: task.text,
        icon: spec_lookup(task.state, "logo"@),
        bundle_id: spec_lookup(task.state, "bundle_id"@),
        task_name: task.task_name,
        task_type: task.task_type,
    }
}

/// The tag a creation installs. The Windows backend derives a tag of its
/// own from the request id and the count of creations so far, so that rapid
/// remove-and-recreate cycles never collide in the OS's toast bookkeeping;
/// the other backends use the request id as given.
pub open spec fn spec_tag(backend: BackendKind, creations: u64, id: Seq<char>) -> Seq<char> {
    if backend is Windows {
        id + "-"@ + spec_dec(creations as nat)
    } else {
        id
    }
}

/// `x + 1`, held at `u64::MAX` once reached.
pub open spec fn inc_sat(x: u64) -> u64 {
    if x < u64::MAX {
        (x + 1) as u64
    } else {
        x
    }
}

/// The notification-center message line for a fresh activity.
pub open spec fn mac_create_message(
    text: Seq<char>,
    task_name: Seq<char>,
    ptext: Seq<char>,
) -> Seq<char> {
    text + " \u{b7} "@ + task_name + " \u{2014} "@ + ptext
}

/// The notification-center message line for an activity under way or done.
pub open spec fn mac_update_message(text: Seq<char>, ptext: Seq<char>) -> Seq<char> {
    text + " \u{2014} "@ + ptext
}

/// The `create` transition: installs the session (overwriting any previous
/// one — the last writer wins, never an error) and owes the backend a full
/// render. Under the failing unsupported policy the registry is still
/// written, as it is on any other render failure, and the caller is told.
pub open spec fn spec_create(st: ControllerView, req: CreateRequestView) -> (ControllerView,
    OutcomeView) {
    let task = req.task;
    let meta = meta_of(task);
    let tag = spec_tag(st.backend, st.creations, task.id);
    let st2 = ControllerView {
        session: Some(SessionView { tag, meta }),
        creations: inc_sat(st.creations),
        ..st
    };
    let ptext = spec_display(task.state);
    match st.backend {
        BackendKind::MacOs => (
            st2,
            OutcomeView::Success(
                DispatchView {
                    action: ActionView::Notify {
                        title: task.title,
                        subtitle: task.task_type,
                        message: mac_create_message(task.text, task.task_name, ptext),
                        icon: meta.icon,
                        bundle_id: meta.bundle_id,
                    },
                    on_failure: PolicyView::Surface("Failed to send macOS notification"@),
                },
            ),
        ),
        BackendKind::Windows => (
            st2,
            OutcomeView::Success(
                DispatchView {
                    action: ActionView::Toast {
                        tag,
                        title: task.title,
                        body: task.text,
                        logo: task.task_icon,
                        caption: task.task_name,
                        status: task.task_type,
                        fraction_scaled: spec_fraction(task.state),
                        progress_text: ptext,
                    },
                    on_failure: PolicyView::Surface("Failed to show toast notification"@),
                },
            ),
        ),
        BackendKind::UnsupportedSilent => (
            st2,
            OutcomeView::Success(
                DispatchView { action: ActionView::NoRender, on_failure: PolicyView::Swallow },
            ),
        ),
        BackendKind::UnsupportedFail => (st2, OutcomeView::BackendUnavailable),
    }
}

/// The `update` transition. With no session it is rejected and changes
/// nothing. With a session, a fraction at exactly `1.0` is a completion:
/// the session is cleared — whatever becomes of the completion render — and
/// the backend owes a closing render. Short of completion the session
/// stays, and the backend owes an in-progress render from the cached
/// metadata and the fresh progress.
pub open spec fn spec_update(st: ControllerView, state: Seq<(Seq<char>, Seq<char>)>) -> (
    ControllerView,
    OutcomeView,
) {
    if st.session is None {
        (st, OutcomeView::NoActiveSession)
    } else {
        let ses = st.session.unwrap();
        let ptext = spec_display(state);
        if spec_fraction(state) == FRAC_SCALE as int {
            let st2 = ControllerView { session: None, ..st };
            match st.backend {
                BackendKind::MacOs => (
                    st2,
                    OutcomeView::Success(
                        DispatchView {
                            action: ActionView::Notify {
                                title: ses.meta.title,
                                subtitle: "\u{4f20}\u{8f93}\u{5b8c}\u{6210}"@,
                                message: mac_update_message(ses.meta.text, "100%"@),
                                icon: ses.meta.icon,
                                bundle_id: ses.meta.bundle_id,
                            },
                            on_failure: PolicyView::Surface(
                                "Failed to send completion notification"@,
                            ),
                        },
                    ),
                ),
                BackendKind::Windows => (
                    st2,
                    OutcomeView::Success(
                        DispatchView {
                            action: ActionView::ToastComplete {
                                tag: ses.tag,
                                label: "\u{4f20}\u{8f93}\u{5b8c}\u{6210}"@,
                                progress_text: "100%"@,
                                cleanup_delay_ms: CLEANUP_DELAY_MS as int,
                            },
                            on_failure: PolicyView::Surface("Failed to complete toast progress"@),
                        },
                    ),
                ),
                BackendKind::UnsupportedSilent => (
                    st2,
                    OutcomeView::Success(
                        DispatchView {
                            action: ActionView::NoRender,
                            on_failure: PolicyView::Swallow,
                        },
                    ),
                ),
                BackendKind::UnsupportedFail => (st2, OutcomeView::BackendUnavailable),
            }
        } else {
            match st.backend {
                BackendKind::MacOs => (
                    st,
                    OutcomeView::Success(
                        DispatchView {
                            action: ActionView::Notify {
                                title: ses.meta.title,
                                subtitle: "\u{4f20}\u{8f93}\u{4e2d}..."@,
                                message: mac_update_message(ses.meta.text, ptext),
                                icon: ses.meta.icon,
                                bundle_id: ses.meta.bundle_id,
                            },
                            on_failure: PolicyView::Surface("Failed to send progress notification"@),
                        },
                    ),
                ),
                BackendKind::Windows => (
                    ControllerView { next_seq: inc_sat(st.next_seq), ..st },
                    OutcomeView::Success(
                        DispatchView {
                            action: ActionView::ToastProgress {
                                tag: ses.tag,
                                fraction_scaled: spec_fraction(state),
                                progress_text: ptext,
                                seq: st.next_seq as int,
                            },
                            on_failure: PolicyView::Surface("Failed to update toast progress"@),
                        },
                    ),
                ),
                BackendKind::UnsupportedSilent => (
                    st,
                    OutcomeView::Success(
                        DispatchView {
                            action: ActionView::NoRender,
                            on_failure: PolicyView::Swallow,
                        },
                    ),
                ),
                BackendKind::UnsupportedFail => (st, OutcomeView::BackendUnavailable),
            }
        }
    }
}

/// The `remove` transition: a success whatever the state. With no session
/// it is a no-op without a render; with one, the session is cleared
/// unconditionally and the backend owes a best-effort closing render whose
/// failure is dropped.
pub open spec fn spec_remove(st: ControllerView) -> (ControllerView, DispatchView) {
    if st.session is None {
        (st, DispatchView { action: ActionView::NoRender, on_failure: PolicyView::Swallow })
    } else {
        let ses = st.session.unwrap();
        let st2 = ControllerView { session: None, ..st };
        match st.backend {
            BackendKind::MacOs => (
                st2,
                DispatchView {
                    action: ActionView::Notify {
                        title: ses.meta.title,
                        subtitle: "\u{5df2}\u{7ed3}\u{675f}"@,
                        message: ses.meta.text,
                        icon: ses.meta.icon,
                        bundle_id: ses.meta.bundle_id,
                    },
                    on_failure: PolicyView::Swallow,
                },
            ),
            BackendKind::Windows => (
                st2,
                DispatchView {
                    action: ActionView::ToastComplete {
                        tag: ses.tag,
                        label: "\u{5df2}\u{7ed3}\u{675f}"@,
                        progress_text: "100%"@,
                        cleanup_delay_ms: CLEANUP_DELAY_MS as int,
                    },
                    on_failure: PolicyView::Swallow,
                },
            ),
            _ => (
                st2,
                DispatchView { action: ActionView::NoRender, on_failure: PolicyView::Swallow },
            ),
        }
    }
}

/// The live-activity controller: the session registry, the configured
/// backend, and the counters behind Windows tag derivation and progress
/// patch sequencing.
pub struct LiveActivity {
    backend: BackendKind,
    registry: SessionRegistry,
    creations: u64,
    next_seq: u64,
}

impl View for LiveActivity {
    type V = ControllerView;

    closed spec fn view(&self) -> ControllerView {
        ControllerView {
            backend: self.backend,
            session: self.registry@,
            creations: self.creations,
            next_seq: self.next_seq,
        }
    }
}

/// Builds the controller for the configured backend, with no session
/// active.
pub fn init(backend: BackendKind) -> (r: LiveActivity)
    ensures
        r@ == (ControllerView { backend, session: None, creations: 0, next_seq: 0 }),
{
    LiveActivity { backend, registry: SessionRegistry::new(), creations: 0, next_seq: 0 }
}

/// Reads `key` from the state blob, duplicating the value.
fn cloned_lookup(state: &StateMap, key: &str) -> (r: Option<String>)
    ensures
        opt_view(r) == spec_lookup(state@, key@),
{
    match state.get(key) {
        Some(v) => Some(v.clone()),
        None => None,
    }
}

impl LiveActivity {
    /// Creates the live activity: installs the session per `spec_create`
    /// and returns the render call the backend owes.
    pub fn create_live_activity(&mut self, payload: CreateLiveActivityRequest) -> (r: Result<
        Dispatch,
        Error,
    >)
        ensures
            final(self)@ == spec_create(old(self)@, payload@).0,
            outcome_matches(r, spec_create(old(self)@, payload@).1),
    {
        let task = match payload.activity_content {
            ActivityContent::TaskQueue(t) => t,
        };
        let prog = normalize_progress(&task.state);
        let icon = cloned_lookup(&task.state, "logo");
        let bundle_id = cloned_lookup(&task.state, "bundle_id");
        let meta = Metadata {
            title: task.title.clone(),
            text: task.text.clone(),
            icon: clone_opt_string(&icon),
            bundle_id: clone_opt_string(&bundle_id),
            task_name: task.task_name.clone(),
            task_type: task.task_type.clone(),
        };
        let tag: String = match self.backend {
            BackendKind::Windows => {
                let mut t = task.id.clone();
                t.append("-");
                let num = u64_to_dec(self.creations);
                t.append(num.as_str());
                t
            },
            _ => task.id.clone(),
        };
        self.registry.set(tag.clone(), meta);
        self.creations = if self.creations < u64::MAX {
            self.creations + 1
        } else {
            self.creations
        };
        match self.backend {
            BackendKind::MacOs => {
                let mut message = task.text.clone();
                message.append(" \u{b7} ");
                message.append(task.task_name.as_str());
                message.append(" \u{2014} ");
                message.append(prog.text.as_str());
                Ok(
                    Dispatch {
                        action: BackendAction::Notify {
                            title: task.title,
                            subtitle: task.task_type,
                            message,
                            icon,
                            bundle_id,
                        },
                        on_failure: FailurePolicy::Surface {
                            context: "Failed to send macOS notification".to_owned(),
                        },
                    },
                )
            },
            BackendKind::Windows => Ok(
                Dispatch {
                    action: BackendAction::Toast {
                        tag,
                        title: task.title,
                        body: task.text,
                        logo: task.task_icon,
                        caption: task.task_name,
                        status: task.task_type,
                        fraction_scaled: prog.scaled,
                        progress_text: prog.text,
                    },
                    on_failure: FailurePolicy::Surface {
                        context: "Failed to show toast notification".to_owned(),
                    },
                },
            ),
            BackendKind::UnsupportedSilent => Ok(
                Dispatch { action: BackendAction::NoRender, on_failure: FailurePolicy::Swallow },
            ),
            BackendKind::UnsupportedFail => Err(Error::BackendUnavailable),
        }
    }

    /// Updates the live activity per `spec_update`: rejected while idle;
    /// clearing the session on completion; otherwise re-rendering from the
    /// cached metadata and the fresh progress.
    pub fn update_live_activity(&mut self, payload: UpdateLiveActivityRequest) -> (r: Result<
        Dispatch,
        Error,
    >)
        ensures
            final(self)@ == spec_update(old(self)@, payload@).0,
            outcome_matches(r, spec_update(old(self)@, payload@).1),
    {
        let ses = match self.registry.get() {
            Some(s) => s,
            None => {
                return Err(Error::NoActiveSession);
            },
        };
        let prog = normalize_progress(&payload.state);
        if prog.scaled == FRAC_SCALE {
            self.registry.clear();
            match self.backend {
                BackendKind::MacOs => {
                    let mut message = ses.meta.text.clone();
                    message.append(" \u{2014} ");
                    message.append("100%");
                    Ok(
                        Dispatch {
                            action: BackendAction::Notify {
                                title: ses.meta.title,
                                subtitle: "\u{4f20}\u{8f93}\u{5b8c}\u{6210}".to_owned(),
                                message,
                                icon: ses.meta.icon,
                                bundle_id: ses.meta.bundle_id,
                            },
                            on_failure: FailurePolicy::Surface {
                                context: "Failed to send completion notification".to_owned(),
                            },
                        },
                    )
                },
                BackendKind::Windows => Ok(
                    Dispatch {
                        action: BackendAction::ToastComplete {
                            tag: ses.tag,
                            label: "\u{4f20}\u{8f93}\u{5b8c}\u{6210}".to_owned(),
                            progress_text: "100%".to_owned(),
                            cleanup_delay_ms: CLEANUP_DELAY_MS,
                        },
                        on_failure: FailurePolicy::Surface {
                            context: "Failed to complete toast progress".to_owned(),
                        },
                    },
                ),
                BackendKind::UnsupportedSilent => Ok(
                    Dispatch {
                        action: BackendAction::NoRender,
                        on_failure: FailurePolicy::Swallow,
                    },
                ),
                BackendKind::UnsupportedFail => Err(Error::BackendUnavailable),
            }
        } else {
            match self.backend {
                BackendKind::MacOs => {
                    let mut message = ses.meta.text.clone();
                    message.append(" \u{2014} ");
                    message.append(prog.text.as_str());
                    Ok(
                        Dispatch {
                            action: BackendAction::Notify {
                                title: ses.meta.title,
                                subtitle: "\u{4f20}\u{8f93}\u{4e2d}...".to_owned(),
                                message,
                                icon: ses.meta.icon,
                                bundle_id: ses.meta.bundle_id,
                            },
                            on_failure: FailurePolicy::Surface {
                                context: "Failed to send progress notification".to_owned(),
                            },
                        },
                    )
                },
                BackendKind::Windows => {
                    let seq = self.next_seq;
                    self.next_seq = if self.next_seq < u64::MAX {
                        self.next_seq + 1
                    } else {
                        self.next_seq
                    };
                    Ok(
                        Dispatch {
                            action: BackendAction::ToastProgress {
                                tag: ses.tag,
                                fraction_scaled: prog.scaled,
                                progress_text: prog.text,
                                seq,
                            },
                            on_failure: FailurePolicy::Surface {
                                context: "Failed to update toast progress".to_owned(),
                            },
                        },
                    )
                },
                BackendKind::UnsupportedSilent => Ok(
                    Dispatch {
                        action: BackendAction::NoRender,
                        on_failure: FailurePolicy::Swallow,
                    },
                ),
                BackendKind::UnsupportedFail => Err(Error::BackendUnavailable),
            }
        }
    }

    /// Removes the live activity per `spec_remove`: always a success; the
    /// session, if any, is cleared, and the closing render's failure is
    /// dropped.
    pub fn remove_live_activity(&mut self) -> (r: Result<Dispatch, Error>)
        ensures
            final(self)@ == spec_remove(old(self)@).0,
            r is Ok && r.unwrap()@ == spec_remove(old(self)@).1,
    {
        let ses = match self.registry.get() {
            Some(s) => s,
            None => {
                return Ok(
                    Dispatch {
                        action: BackendAction::NoRender,
                        on_failure: FailurePolicy::Swallow,
                    },
                );
            },
        };
        self.registry.clear();
        match self.backend {
            BackendKind::MacOs => Ok(
                Dispatch {
                    action: BackendAction::Notify {
                        title: ses.meta.title,
                        subtitle: "\u{5df2}\u{7ed3}\u{675f}".to_owned(),
                        message: ses.meta.text,
                        icon: ses.meta.icon,
                        bundle_id: ses.meta.bundle_id,
                    },
                    on_failure: FailurePolicy::Swallow,
                },
            ),
            BackendKind::Windows => Ok(
                Dispatch {
                    action: BackendAction::ToastComplete {
                        tag: ses.tag,
                        label: "\u{5df2}\u{7ed3}\u{675f}".to_owned(),
                        progress_text: "100%".to_owned(),
                        cleanup_delay_ms: CLEANUP_DELAY_MS,
                    },
                    on_failure: FailurePolicy::Swallow,
                },
            ),
            BackendKind::UnsupportedSilent | BackendKind::UnsupportedFail => Ok(
                Dispatch { action: BackendAction::NoRender, on_failure: FailurePolicy::Swallow },
            ),
        }
    }

    /// Reads the active session's tag.
    pub fn current_tag(&self) -> (r: Option<String>)
        ensures
            match r {
                Some(t) => self@.session is Some && self@.session.unwrap().tag == t@,
                None => self@.session is None,
            },
    {
        self.registry.current_tag()
    }

    /// Reads the active session's cached metadata.
    pub fn current_meta(&self) -> (r: Option<Metadata>)
        ensures
            match r {
                Some(m) => self@.session is Some && self@.session.unwrap().meta == m@,
                None => self@.session is None,
            },
    {
        self.registry.current_meta()
    }
}

/// An update with no active session — before any creation, or after a
/// removal or a completion — is rejected as `NoActiveSession` and moves
/// nothing: it never silently succeeds.
pub proof fn lemma_idle_update_rejected(st: ControllerView, state: Seq<(Seq<char>, Seq<char>)>)
    requires
        st.session is None,
    ensures
        spec_update(st, state).0 == st,
        spec_update(st, state).1 is NoActiveSession,
{
}

/// After an update whose normalized fraction reaches exactly `1.0`, the
/// session is cleared, so the next update is rejected as `NoActiveSession`.
pub proof fn lemma_completion_clears(
    st: ControllerView,
    s1: Seq<(Seq<char>, Seq<char>)>,
    s2: Seq<(Seq<char>, Seq<char>)>,
)
    requires
        st.session is Some,
        spec_fraction(s1) == FRAC_SCALE as int,
    ensures
        spec_update(st, s1).0.session is None,
        spec_update(spec_update(st, s1).0, s2).1 is NoActiveSession,
{
}

/// Removal is a success in every state, and a second removal right after a
/// first is a renderless no-op: removing twice never errs.
pub proof fn lemma_remove_idempotent(st: ControllerView)
    ensures
        spec_remove(st).0.session is None,
        spec_remove(spec_remove(st).0).0 == spec_remove(st).0,
        spec_remove(spec_remove(st).0).1 == (DispatchView {
            action: ActionView::NoRender,
            on_failure: PolicyView::Swallow,
        }),
{
}

/// On the Windows backend, two creations never install the same tag, even
/// for one and the same request id: each creation's tag carries a fresh
/// count, so rapid remove-and-recreate cycles cannot collide in the OS's
/// toast bookkeeping. (Once the count saturates, freshness ends with it.)
pub proof fn lemma_windows_tags_fresh(
    st: ControllerView,
    r1: CreateRequestView,
    r2: CreateRequestView,
)
    requires
        st.backend is Windows,
        st.creations < u64::MAX,
        r1.task.id == r2.task.id,
    ensures
        ({
            let st1 = spec_create(st, r1).0;
            spec_create(st, r1).0.session.unwrap().tag != spec_create(st1, r2).0.session.unwrap().tag
        }),
{
    let st1 = spec_create(st, r1).0;
    let t1 = spec_create(st, r1).0.session.unwrap().tag;
    let t2 = spec_create(st1, r2).0.session.unwrap().tag;
    let id = r1.task.id;
    let d1 = spec_dec(st.creations as nat);
    let d2 = spec_dec((st.creations + 1) as nat);
    assert(t1 == id + "-"@ + d1);
    assert(t2 == id + "-"@ + d2);
    if t1 == t2 {
        let p = (id + "-"@).len();
        assert(d1 =~= t1.skip(p as int)) by {
            assert(forall|k: int| 0 <= k < d1.len() ==> t1[p + k] == #[trigger] d1[k]);
        }
        assert(d2 =~= t2.skip(p as int)) by {
            assert(forall|k: int| 0 <= k < d2.len() ==> t2[p + k] == #[trigger] d2[k]);
        }
        crate::decimal::lemma_spec_dec_injective(
            st.creations as nat,
            (st.creations + 1) as nat,
        );
    }
}

/// Two creations in a row leave the session of the second request alone:
/// its metadata is the second task's, and its tag is derived from the
/// second task's id. The first request leaves no trace but the creation
/// count behind the Windows tag.
pub proof fn lemma_create_last_writer_wins(
    st: ControllerView,
    r1: CreateRequestView,
    r2: CreateRequestView,
)
    ensures
        ({
            let st1 = spec_create(st, r1).0;
            let st2 = spec_create(st1, r2).0;
            st2.session == Some(
                SessionView {
                    tag: spec_tag(st.backend, st1.creations, r2.task.id),
                    meta: meta_of(r2.task),
                },
            )
        }),
{
}

} // verus!
