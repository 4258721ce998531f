use modelrelay::desktop::{
    auto_start_at_launch, launch_prompt_message, prefixed, progress_after, summary_from_check,
    tray_action,
    AppSettings, AppStatus, FoundUpdate, TrayAction, UpdateSummary, CHECK_FAILED_PREFIX,
    INSTALL_FAILED_PREFIX, NO_UPDATE_MESSAGE,
};

#[test]
fn default_settings_match_fresh_install() {
    let s = AppSettings::default();
    assert_eq!(s.backend_url, "http://localhost:11434");
    assert_eq!(s.relay_url, "https://api.modelrelay.io");
    assert_eq!(s.worker_secret, "");
    assert_eq!(s.provider, "default");
    assert_eq!(s.worker_name, "my-worker");
    assert_eq!(s.models, vec!["*".to_owned()]);
    assert_eq!(s.max_concurrent, 4);
    assert!(!s.auto_start);
    assert_eq!(s.poll_interval_secs, 30);
    assert!(!s.has_saved_settings());
}

#[test]
fn loaded_settings_win_over_defaults() {
    let mut s = AppSettings::default();
    s.worker_name = "gpu-box".to_owned();
    let r = AppSettings::loaded_or_default(Some(s));
    assert_eq!(r.worker_name, "gpu-box");
    assert_eq!(AppSettings::loaded_or_default(None).worker_name, "my-worker");
}

#[test]
fn starting_requires_a_worker_secret() {
    let s = AppSettings::default();
    assert_eq!(s.launch_config().err().as_deref(), Some("Worker secret is required"));
    let mut s = AppSettings::default();
    s.worker_secret = "secret".to_owned();
    s.models = vec!["llama".to_owned(), "qwen".to_owned()];
    let c = s.launch_config().unwrap();
    assert_eq!(c.proxy_base_url, "https://api.modelrelay.io");
    assert_eq!(c.backend_base_url, "http://localhost:11434");
    assert_eq!(c.worker_secret, "secret");
    assert_eq!(c.provider, "default");
    assert_eq!(c.worker_name, "my-worker");
    assert_eq!(c.models, vec!["llama".to_owned(), "qwen".to_owned()]);
    assert_eq!(c.max_concurrent, 4);
    assert!(c.endpoint_prefixes.is_empty());
    assert!(s.has_saved_settings());
}

#[test]
fn auto_start_needs_flag_and_secret() {
    let mut s = AppSettings::default();
    assert!(!auto_start_at_launch(Some(&s)));
    s.auto_start = true;
    assert!(!auto_start_at_launch(Some(&s)));
    s.worker_secret = "k".to_owned();
    assert!(auto_start_at_launch(Some(&s)));
    assert!(!auto_start_at_launch(None));
}

#[test]
fn settings_clone_keeps_every_field() {
    let mut s = AppSettings::default();
    s.worker_secret = "k".to_owned();
    s.poll_interval_secs = 5;
    let c = s.clone();
    assert_eq!(c.worker_secret, "k");
    assert_eq!(c.poll_interval_secs, 5);
    assert_eq!(c.models, s.models);
}

#[test]
fn status_transitions() {
    let mut st = AppStatus::default();
    assert!(!st.connected);
    assert_eq!(st.active_requests, 0);
    st.active_requests = 3;
    st.error = Some("old".to_owned());
    st.mark_starting("https://relay", &vec!["m".to_owned()]);
    assert!(st.connected);
    assert_eq!(st.relay_url, "https://relay");
    assert_eq!(st.models, vec!["m".to_owned()]);
    assert!(st.error.is_none());
    assert_eq!(st.active_requests, 3);
    st.mark_exited(Some("boom".to_owned()));
    assert!(!st.connected);
    assert_eq!(st.active_requests, 0);
    assert_eq!(st.error.as_deref(), Some("boom"));
    st.mark_exited(None);
    assert_eq!(st.error.as_deref(), Some("boom"));
    st.mark_stopped();
    assert!(!st.connected);
    assert!(st.error.is_none());
    assert_eq!(st.relay_url, "https://relay");
}

#[test]
fn tray_menu_actions() {
    assert!(matches!(tray_action("show"), TrayAction::OpenTab("dashboard")));
    assert!(matches!(tray_action("settings"), TrayAction::OpenTab("settings")));
    assert!(matches!(tray_action("quit"), TrayAction::Quit));
    assert!(matches!(tray_action("other"), TrayAction::Ignore));
}

#[test]
fn update_summaries() {
    let n = UpdateSummary::none("0.1.1".to_owned());
    assert!(!n.available);
    assert_eq!(n.current_version, "0.1.1");
    assert!(n.latest_version.is_none() && n.release_notes.is_none() && n.pub_date.is_none());
    let u = UpdateSummary::from_update(
        "0.1.1".to_owned(),
        "0.1.2".to_owned(),
        Some("notes".to_owned()),
        Some("2026-04-16".to_owned()),
    );
    assert!(u.available);
    assert_eq!(u.latest_version.as_deref(), Some("0.1.2"));
    assert_eq!(u.release_notes.as_deref(), Some("notes"));
    assert_eq!(u.pub_date.as_deref(), Some("2026-04-16"));
}

#[test]
fn check_outcomes_become_summaries_or_errors() {
    let found = FoundUpdate { version: "0.2.0".to_owned(), body: None, date: None };
    let s = summary_from_check("0.1.0".to_owned(), Ok(Some(found))).unwrap();
    assert!(s.available);
    assert_eq!(s.latest_version.as_deref(), Some("0.2.0"));
    let s = summary_from_check("0.1.0".to_owned(), Ok(None)).unwrap();
    assert!(!s.available);
    let e = summary_from_check("0.1.0".to_owned(), Err("offline".to_owned())).err().unwrap();
    assert_eq!(e, "Update check failed: offline");
    assert_eq!(CHECK_FAILED_PREFIX, "Update check failed: ");
    assert_eq!(prefixed(INSTALL_FAILED_PREFIX, "bad sig"), "Update install failed: bad sig");
    assert_eq!(NO_UPDATE_MESSAGE, "No update available");
}

#[test]
fn launch_prompt_text() {
    let s = UpdateSummary::from_update("0.1.1".to_owned(), "0.1.2".to_owned(), None, None);
    assert_eq!(
        launch_prompt_message(&s),
        "A new version of ModelRelay is available.\n\nCurrent: 0.1.1\nLatest: 0.1.2\n\nNo release notes."
    );
    let s = UpdateSummary {
        available: true,
        current_version: "1".to_owned(),
        latest_version: None,
        release_notes: Some("Fixes".to_owned()),
        pub_date: None,
    };
    assert_eq!(
        launch_prompt_message(&s),
        "A new version of ModelRelay is available.\n\nCurrent: 1\nLatest: \n\nFixes"
    );
}

#[test]
fn download_progress_accumulates() {
    let mut d: u64 = 0;
    d = progress_after(d, 1024);
    d = progress_after(d, 512);
    assert_eq!(d, 1536);
    assert_eq!(progress_after(u64::MAX - 5, 5), u64::MAX);
}
