use live_activity::actions::{BackendAction, FailurePolicy, CLEANUP_DELAY_MS};
use live_activity::controller::{init, BackendKind};
use live_activity::errors::Error;
use live_activity::models::{
    ActivityContent, ActivityContentTaskQueue, CreateLiveActivityRequest,
    UpdateLiveActivityRequest,
};
use live_activity::permission::{AuthStatus, PermissionPrimer, PrimeStep, RequestOutcome};
use live_activity::session::{Metadata, SessionRegistry};
use live_activity::state_map::StateMap;

fn state(pairs: &[(&str, &str)]) -> StateMap {
    let mut m = StateMap::new();
    for (k, v) in pairs {
        m.insert((*k).to_string(), (*v).to_string());
    }
    m
}

fn create_req(id: &str, title: &str, text: &str, pairs: &[(&str, &str)]) -> CreateLiveActivityRequest {
    CreateLiveActivityRequest {
        activity_content_v: 1,
        activity_content: ActivityContent::TaskQueue(ActivityContentTaskQueue {
            id: id.to_string(),
            title: title.to_string(),
            text: text.to_string(),
            task_name: "transfer".to_string(),
            task_type: "queue".to_string(),
            task_icon: "icon.png".to_string(),
            state: state(pairs),
        }),
    }
}

fn update_req(pairs: &[(&str, &str)]) -> UpdateLiveActivityRequest {
    UpdateLiveActivityRequest { state: state(pairs) }
}

#[test]
fn scenario_running_then_completing() {
    let mut la = init(BackendKind::MacOs);
    let d = la
        .create_live_activity(create_req("t1", "Sync", "Copying", &[("progress", "0.25")]))
        .unwrap();
    match d.action {
        BackendAction::Notify { title, subtitle, message, .. } => {
            assert_eq!(title, "Sync");
            assert_eq!(subtitle, "queue");
            assert_eq!(message, "Copying \u{b7} transfer \u{2014} 25.0%");
        },
        _ => panic!("expected a notification render"),
    }
    assert_eq!(la.current_tag().unwrap(), "t1");

    let d2 = la.update_live_activity(update_req(&[("percent", "80")])).unwrap();
    match d2.action {
        BackendAction::Notify { subtitle, message, .. } => {
            assert_eq!(subtitle, "\u{4f20}\u{8f93}\u{4e2d}...");
            assert_eq!(message, "Copying \u{2014} 80%");
        },
        _ => panic!("expected a notification render"),
    }
    assert!(la.current_tag().is_some());

    let d3 = la.update_live_activity(update_req(&[("progress", "1.0")])).unwrap();
    match d3.action {
        BackendAction::Notify { subtitle, message, .. } => {
            assert_eq!(subtitle, "\u{4f20}\u{8f93}\u{5b8c}\u{6210}");
            assert_eq!(message, "Copying \u{2014} 100%");
        },
        _ => panic!("expected a completion render"),
    }
    assert!(la.current_tag().is_none());

    let after = la.update_live_activity(update_req(&[("progress", "0.5")]));
    assert!(matches!(after, Err(Error::NoActiveSession)));
}

#[test]
fn update_without_create_is_rejected() {
    let mut la = init(BackendKind::MacOs);
    let r = la.update_live_activity(update_req(&[]));
    match r {
        Err(e) => {
            assert!(matches!(e, Error::NoActiveSession));
            assert_eq!(e.message(), "No active live activity to update");
        },
        _ => panic!("an idle update must be rejected"),
    }
}

#[test]
fn remove_without_create_is_silent_success() {
    let mut la = init(BackendKind::MacOs);
    let d = la.remove_live_activity().unwrap();
    assert!(matches!(d.action, BackendAction::NoRender));
    assert!(matches!(d.on_failure, FailurePolicy::Swallow));
}

#[test]
fn remove_twice_never_errors() {
    let mut la = init(BackendKind::MacOs);
    la.create_live_activity(create_req("t1", "Sync", "Copying", &[])).unwrap();
    let first = la.remove_live_activity().unwrap();
    match first.action {
        BackendAction::Notify { subtitle, message, .. } => {
            assert_eq!(subtitle, "\u{5df2}\u{7ed3}\u{675f}");
            assert_eq!(message, "Copying");
        },
        _ => panic!("expected a closing render"),
    }
    assert!(matches!(first.on_failure, FailurePolicy::Swallow));
    let second = la.remove_live_activity().unwrap();
    assert!(matches!(second.action, BackendAction::NoRender));
    assert!(la.current_tag().is_none());
}

#[test]
fn second_create_wins() {
    let mut la = init(BackendKind::MacOs);
    la.create_live_activity(create_req("t1", "First", "Alpha", &[])).unwrap();
    la.create_live_activity(create_req("t2", "Second", "Beta", &[])).unwrap();
    assert_eq!(la.current_tag().unwrap(), "t2");
    let meta = la.current_meta().unwrap();
    assert_eq!(meta.title, "Second");
    assert_eq!(meta.text, "Beta");
    // an update after both renders from the second request's metadata only
    let d = la.update_live_activity(update_req(&[("percent", "50")])).unwrap();
    match d.action {
        BackendAction::Notify { title, message, .. } => {
            assert_eq!(title, "Second");
            assert_eq!(message, "Beta \u{2014} 50%");
        },
        _ => panic!("expected a notification render"),
    }
}

#[test]
fn create_reads_icon_and_identity_from_state() {
    let mut la = init(BackendKind::MacOs);
    let d = la
        .create_live_activity(create_req(
            "t1",
            "Sync",
            "Copying",
            &[("logo", "/tmp/a.png"), ("bundle_id", "com.example.app")],
        ))
        .unwrap();
    match d.action {
        BackendAction::Notify { icon, bundle_id, .. } => {
            assert_eq!(icon.unwrap(), "/tmp/a.png");
            assert_eq!(bundle_id.unwrap(), "com.example.app");
        },
        _ => panic!("expected a notification render"),
    }
    let meta = la.current_meta().unwrap();
    assert_eq!(meta.icon.unwrap(), "/tmp/a.png");
    assert_eq!(meta.bundle_id.unwrap(), "com.example.app");
}

#[test]
fn windows_tags_are_fresh_per_creation() {
    let mut la = init(BackendKind::Windows);
    let d = la.create_live_activity(create_req("t1", "Sync", "Copying", &[])).unwrap();
    match d.action {
        BackendAction::Toast { tag, title, body, logo, caption, status, .. } => {
            assert_eq!(tag, "t1-0");
            assert_eq!(title, "Sync");
            assert_eq!(body, "Copying");
            assert_eq!(logo, "icon.png");
            assert_eq!(caption, "transfer");
            assert_eq!(status, "queue");
        },
        _ => panic!("expected a toast render"),
    }
    la.remove_live_activity().unwrap();
    let d2 = la.create_live_activity(create_req("t1", "Sync", "Copying", &[])).unwrap();
    match d2.action {
        BackendAction::Toast { tag, .. } => assert_eq!(tag, "t1-1"),
        _ => panic!("expected a toast render"),
    }
    assert_eq!(la.current_tag().unwrap(), "t1-1");
}

#[test]
fn windows_tag_counter_prints_multiple_digits() {
    let mut la = init(BackendKind::Windows);
    for _ in 0..12 {
        la.create_live_activity(create_req("job", "Sync", "Copying", &[])).unwrap();
    }
    assert_eq!(la.current_tag().unwrap(), "job-11");
}

#[test]
fn windows_progress_updates_carry_growing_sequence() {
    let mut la = init(BackendKind::Windows);
    la.create_live_activity(create_req("t1", "Sync", "Copying", &[])).unwrap();
    let d1 = la.update_live_activity(update_req(&[("progress", "0.4")])).unwrap();
    match d1.action {
        BackendAction::ToastProgress { tag, fraction_scaled, progress_text, seq } => {
            assert_eq!(tag, "t1-0");
            assert_eq!(fraction_scaled, 40000);
            assert_eq!(progress_text, "40.0%");
            assert_eq!(seq, 0);
        },
        _ => panic!("expected a toast patch"),
    }
    let d2 = la.update_live_activity(update_req(&[("progress", "0.6")])).unwrap();
    match d2.action {
        BackendAction::ToastProgress { seq, .. } => assert_eq!(seq, 1),
        _ => panic!("expected a toast patch"),
    }
}

#[test]
fn windows_completion_schedules_cleanup() {
    let mut la = init(BackendKind::Windows);
    la.create_live_activity(create_req("t1", "Sync", "Copying", &[])).unwrap();
    let d = la.update_live_activity(update_req(&[("progress", "1.0")])).unwrap();
    match d.action {
        BackendAction::ToastComplete { tag, label, progress_text, cleanup_delay_ms } => {
            assert_eq!(tag, "t1-0");
            assert_eq!(label, "\u{4f20}\u{8f93}\u{5b8c}\u{6210}");
            assert_eq!(progress_text, "100%");
            assert_eq!(cleanup_delay_ms, CLEANUP_DELAY_MS);
        },
        _ => panic!("expected a completing toast"),
    }
    assert!(la.current_tag().is_none());
}

#[test]
fn windows_remove_renders_ended_toast() {
    let mut la = init(BackendKind::Windows);
    la.create_live_activity(create_req("t1", "Sync", "Copying", &[])).unwrap();
    let d = la.remove_live_activity().unwrap();
    match d.action {
        BackendAction::ToastComplete { label, .. } => {
            assert_eq!(label, "\u{5df2}\u{7ed3}\u{675f}");
        },
        _ => panic!("expected a closing toast"),
    }
    assert!(matches!(d.on_failure, FailurePolicy::Swallow));
}

#[test]
fn unsupported_fail_reports_but_still_caches() {
    let mut la = init(BackendKind::UnsupportedFail);
    let r = la.create_live_activity(create_req("t1", "Sync", "Copying", &[]));
    assert!(matches!(r, Err(Error::BackendUnavailable)));
    // the registry write sticks, as on any render failure
    assert_eq!(la.current_tag().unwrap(), "t1");
    let r2 = la.update_live_activity(update_req(&[("progress", "0.5")]));
    assert!(matches!(r2, Err(Error::BackendUnavailable)));
    // removal never surfaces backend trouble
    assert!(la.remove_live_activity().is_ok());
    assert!(la.current_tag().is_none());
    assert!(la.remove_live_activity().is_ok());
}

#[test]
fn unsupported_fail_still_rejects_idle_updates_first() {
    let mut la = init(BackendKind::UnsupportedFail);
    let r = la.update_live_activity(update_req(&[]));
    assert!(matches!(r, Err(Error::NoActiveSession)));
}

#[test]
fn unsupported_silent_succeeds_without_renders() {
    let mut la = init(BackendKind::UnsupportedSilent);
    let d = la.create_live_activity(create_req("t1", "Sync", "Copying", &[])).unwrap();
    assert!(matches!(d.action, BackendAction::NoRender));
    let d2 = la.update_live_activity(update_req(&[("progress", "0.5")])).unwrap();
    assert!(matches!(d2.action, BackendAction::NoRender));
    let d3 = la.update_live_activity(update_req(&[("progress", "1.0")])).unwrap();
    assert!(matches!(d3.action, BackendAction::NoRender));
    // completion still clears the session
    let after = la.update_live_activity(update_req(&[]));
    assert!(matches!(after, Err(Error::NoActiveSession)));
}

#[test]
fn boundary_fraction_just_below_one_stays_active() {
    let mut la = init(BackendKind::MacOs);
    la.create_live_activity(create_req("t1", "Sync", "Copying", &[])).unwrap();
    let d = la.update_live_activity(update_req(&[("progress", "0.99999")])).unwrap();
    assert!(matches!(d.action, BackendAction::Notify { .. }));
    assert!(la.current_tag().is_some());
}

#[test]
fn clamped_overshoot_counts_as_completion() {
    let mut la = init(BackendKind::MacOs);
    la.create_live_activity(create_req("t1", "Sync", "Copying", &[])).unwrap();
    la.update_live_activity(update_req(&[("progress", "1.5")])).unwrap();
    assert!(la.current_tag().is_none());
}

#[test]
fn failure_wrapping_respects_policy() {
    let mut la = init(BackendKind::MacOs);
    let d = la.create_live_activity(create_req("t1", "Sync", "Copying", &[])).unwrap();
    let e = d.failure_error("boom".to_string()).unwrap();
    match &e {
        Error::BackendCallFailed { context, cause } => {
            assert_eq!(context, "Failed to send macOS notification");
            assert_eq!(cause, "boom");
        },
        _ => panic!("expected a wrapped backend failure"),
    }
    assert_eq!(e.message(), "Failed to send macOS notification: boom");

    let closing = la.remove_live_activity().unwrap();
    assert!(closing.failure_error("boom".to_string()).is_none());
}

#[test]
fn update_contexts_name_the_failing_step() {
    let mut la = init(BackendKind::Windows);
    la.create_live_activity(create_req("t1", "Sync", "Copying", &[])).unwrap();
    let running = la.update_live_activity(update_req(&[("progress", "0.5")])).unwrap();
    match running.on_failure {
        FailurePolicy::Surface { context } => {
            assert_eq!(context, "Failed to update toast progress");
        },
        _ => panic!("running updates surface failures"),
    }
    let done = la.update_live_activity(update_req(&[("progress", "1.0")])).unwrap();
    match done.on_failure {
        FailurePolicy::Surface { context } => {
            assert_eq!(context, "Failed to complete toast progress");
        },
        _ => panic!("completions surface failures"),
    }
}

#[test]
fn error_messages_are_descriptive() {
    assert_eq!(Error::NoActiveSession.message(), "No active live activity to update");
    assert_eq!(
        Error::BackendUnavailable.message(),
        "Desktop platforms doesn't support live activity now."
    );
}

#[test]
fn registry_holds_tag_and_metadata_together() {
    let mut reg = SessionRegistry::new();
    assert!(reg.get().is_none());
    assert!(reg.current_tag().is_none());
    assert!(reg.current_meta().is_none());
    reg.set(
        "tag-1".to_string(),
        Metadata {
            title: "T".to_string(),
            text: "B".to_string(),
            icon: None,
            bundle_id: None,
            task_name: "n".to_string(),
            task_type: "k".to_string(),
        },
    );
    let s = reg.get().unwrap();
    assert_eq!(s.tag, "tag-1");
    assert_eq!(s.meta.title, "T");
    assert_eq!(reg.current_tag().unwrap(), "tag-1");
    assert_eq!(reg.current_meta().unwrap().text, "B");
    reg.clear();
    assert!(reg.get().is_none());
}

#[test]
fn settings_pane_opens_at_most_once() {
    let mut primer = PermissionPrimer::new();
    assert!(primer.needs_priming());
    let first = primer.on_status(AuthStatus::Denied);
    assert!(matches!(first, PrimeStep::OpenSettingsAndProceed));
    let second = primer.on_status(AuthStatus::Denied);
    assert!(matches!(second, PrimeStep::Proceed));
    assert!(!primer.on_send_failure());
}

#[test]
fn authorized_status_goes_straight_through() {
    let mut primer = PermissionPrimer::new();
    let step = primer.on_status(AuthStatus::Authorized);
    assert!(matches!(step, PrimeStep::Proceed));
    assert!(!primer.needs_priming());
}

#[test]
fn undetermined_status_requests_then_timeout_nudges_once() {
    let mut primer = PermissionPrimer::new();
    let step = primer.on_status(AuthStatus::Undetermined);
    assert!(matches!(step, PrimeStep::RequestAuthorization));
    assert!(primer.needs_priming());
    let outcome = primer.on_request_outcome(RequestOutcome::TimedOut);
    assert!(matches!(outcome, PrimeStep::OpenSettingsAndProceed));
    assert!(!primer.needs_priming());
    assert!(!primer.on_send_failure());
}

#[test]
fn send_failure_nudges_settings_once() {
    let mut primer = PermissionPrimer::new();
    primer.on_status(AuthStatus::Authorized);
    assert!(primer.on_send_failure());
    assert!(!primer.on_send_failure());
}

#[test]
fn granted_request_proceeds_without_nudge() {
    let mut primer = PermissionPrimer::new();
    primer.on_status(AuthStatus::Undetermined);
    let step = primer.on_request_outcome(RequestOutcome::Granted);
    assert!(matches!(step, PrimeStep::Proceed));
    assert!(primer.on_send_failure());
}
