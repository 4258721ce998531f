//! The desktop app's settings, worker status and update summary.

use vstd::prelude::*;
use crate::text::{clone_opt_string, opt_view};

verus! {

pub open spec fn strings_view(v: Seq<String>) -> Seq<Seq<char>> {
    v.map_values(|s: String| s@)
}


/// Copies a list of strings.
pub fn clone_strings(v: &Vec<String>) -> (r: Vec<String>)
    ensures
        strings_view(r@) == strings_view(v@),
{
    let mut r: Vec<String> = Vec::new();
    let mut i: usize = 0;
    while i < v.len()
        invariant
            i <= v@.len(),
            r@.len() == i,
            forall|j: int| 0 <= j < i ==> #[trigger] r@[j]@ == v@[j]@,
        decreases v@.len() - i,
    {
        let c = v[i].clone();
        r.push(c);
        i = i + 1;
    }
    assert(strings_view(r@) =~= strings_view(v@));
    r
}


// ---------------------------------------------------------------------------
// Settings
// ---------------------------------------------------------------------------

/// The worker settings edited in the desktop app.
pub struct AppSettings {
    pub backend_url: String,
    pub relay_url: String,
    pub worker_secret: String,
    pub provider: String,
    pub worker_name: String,
    pub models: Vec<String>,
    pub max_concurrent: u32,
    pub auto_start: bool,
    pub poll_interval_secs: u64,
}

/// Whether two settings values hold the same data.
pub open spec fn same_settings(a: AppSettings, b: AppSettings) -> bool {
    &&& a.backend_url@ == b.backend_url@
    &&& a.relay_url@ == b.relay_url@
    &&& a.worker_secret@ == b.worker_secret@
    &&& a.provider@ == b.provider@
    &&& a.worker_name@ == b.worker_name@
    &&& strings_view(a.models@) == strings_view(b.models@)
    &&& a.max_concurrent == b.max_concurrent
    &&& a.auto_start == b.auto_start
    &&& a.poll_interval_secs == b.poll_interval_secs
}

/// Two settings values are the same exactly when each field of one equals the
/// same field of the other.
pub proof fn law_same_settings_is_field_by_field(a: AppSettings, b: AppSettings)
    ensures
        same_settings(a, b) <==> {
            &&& a.backend_url@ == b.backend_url@
            &&& a.relay_url@ == b.relay_url@
            &&& a.worker_secret@ == b.worker_secret@
            &&& a.provider@ == b.provider@
            &&& a.worker_name@ == b.worker_name@
            &&& a.models@.len() == b.models@.len()
            &&& forall|k: int| 0 <= k < a.models@.len() ==> (#[trigger] a.models@[k])@ == b.models@[k]@
            &&& a.max_concurrent == b.max_concurrent
            &&& a.auto_start == b.auto_start
            &&& a.poll_interval_secs == b.poll_interval_secs
        },
{
    if a.models@.len() == b.models@.len() && forall|k: int|
        0 <= k < a.models@.len() ==> (#[trigger] a.models@[k])@ == b.models@[k]@ {
        assert(strings_view(a.models@) =~= strings_view(b.models@));
    }
    assert(strings_view(a.models@).len() == a.models@.len());
    assert(strings_view(b.models@).len() == b.models@.len());
    if strings_view(a.models@) == strings_view(b.models@) {
        assert forall|k: int| 0 <= k < a.models@.len() implies (#[trigger] a.models@[k])@ == b.models@[k]@ by {
            assert(strings_view(a.models@)[k] == strings_view(b.models@)[k]);
        }
    }
}

/// A copy of the settings holds the same data, field by field.
pub proof fn law_settings_copy_keeps_each_field(original: AppSettings, copy: AppSettings)
    requires
        same_settings(copy, original),
    ensures
        copy.backend_url@ == original.backend_url@,
        copy.relay_url@ == original.relay_url@,
        copy.worker_secret@ == original.worker_secret@,
        copy.provider@ == original.provider@,
        copy.worker_name@ == original.worker_name@,
        copy.max_concurrent == original.max_concurrent,
        copy.auto_start == original.auto_start,
        copy.poll_interval_secs == original.poll_interval_secs,
{
    law_same_settings_is_field_by_field(copy, original);
}

/// The settings of a fresh install.
pub open spec fn is_default_settings(s: AppSettings) -> bool {
    &&& s.backend_url@ == "http://localhost:11434"@
    &&& s.relay_url@ == "https://api.modelrelay.io"@
    &&& s.worker_secret@ == Seq::<char>::empty()
    &&& s.provider@ == "default"@
    &&& s.worker_name@ == "my-worker"@
    &&& strings_view(s.models@) == seq!["*"@]
    &&& s.max_concurrent == 4
    &&& !s.auto_start
    &&& s.poll_interval_secs == 30
}

impl Clone for AppSettings {
    fn clone(&self) -> (r: Self)
        ensures
            same_settings(r, *self),
    {
        AppSettings {
            backend_url: self.backend_url.clone(),
            relay_url: self.relay_url.clone(),
            worker_secret: self.worker_secret.clone(),
            provider: self.provider.clone(),
            worker_name: self.worker_name.clone(),
            models: clone_strings(&self.models),
            max_concurrent: self.max_concurrent,
            auto_start: self.auto_start,
            poll_interval_secs: self.poll_interval_secs,
        }
    }
}

impl Default for AppSettings {
    /// Local Ollama backend, the hosted relay, every model, four concurrent
    /// requests, no auto-start, a 30 second poll interval and no secret.
    fn default() -> (r: Self)
        ensures
            is_default_settings(r),
    {
        let mut models: Vec<String> = Vec::new();
        models.push("*".to_owned());
        let r = AppSettings {
            backend_url: "http://localhost:11434".to_owned(),
            relay_url: "https://api.modelrelay.io".to_owned(),
            worker_secret: String::new(),
            provider: "default".to_owned(),
            worker_name: "my-worker".to_owned(),
            models,
            max_concurrent: 4,
            auto_start: false,
            poll_interval_secs: 30,
        };
        assert(strings_view(r.models@) =~= seq!["*"@]);
        r
    }
}

/// Message of the error returned when the worker is started without a secret.
pub const MISSING_SECRET_MESSAGE: &'static str = "Worker secret is required";

/// What the worker daemon is started with.
pub struct WorkerLaunchConfig {
    pub proxy_base_url: String,
    pub provider: String,
    pub worker_secret: String,
    pub worker_name: String,
    pub models: Vec<String>,
    pub max_concurrent: u32,
    pub backend_base_url: String,
    pub endpoint_prefixes: Vec<String>,
}

impl AppSettings {
    /// Settings loaded from disk, or the defaults when none could be read.
    pub fn loaded_or_default(loaded: Option<AppSettings>) -> (r: AppSettings)
        ensures
            match loaded {
                Some(s) => r == s,
                None => is_default_settings(r),
            },
    {
        match loaded {
            Some(s) => s,
            None => AppSettings::default(),
        }
    }

    /// Whether the user has saved settings: a worker secret has been entered.
    pub fn has_saved_settings(&self) -> (r: bool)
        ensures
            r == (self.worker_secret@.len() > 0),
    {
        !self.worker_secret.as_str().is_empty()
    }

    /// Whether the worker starts as soon as the app launches: auto-start is
    /// on and a worker secret is set.
    pub fn starts_at_launch(&self) -> (r: bool)
        ensures
            r == (self.auto_start && self.worker_secret@.len() > 0),
    {
        self.auto_start && !self.worker_secret.as_str().is_empty()
    }

    /// The daemon configuration for these settings, or the error message when
    /// the worker secret is empty.
    pub fn launch_config(&self) -> (r: Result<WorkerLaunchConfig, String>)
        ensures
            r is Err == (self.worker_secret@.len() == 0),
            r matches Err(e) ==> e@ == MISSING_SECRET_MESSAGE@,
            r matches Ok(c) ==> {
                &&& c.proxy_base_url@ == self.relay_url@
                &&& c.provider@ == self.provider@
                &&& c.worker_secret@ == self.worker_secret@
                &&& c.worker_name@ == self.worker_name@
                &&& strings_view(c.models@) == strings_view(self.models@)
                &&& c.max_concurrent == self.max_concurrent
                &&& c.backend_base_url@ == self.backend_url@
                &&& c.endpoint_prefixes@.len() == 0
            },
    {
        if self.worker_secret.as_str().is_empty() {
            return Err(MISSING_SECRET_MESSAGE.to_owned());
        }
        Ok(WorkerLaunchConfig {
            proxy_base_url: self.relay_url.clone(),
            provider: self.provider.clone(),
            worker_secret: self.worker_secret.clone(),
            worker_name: self.worker_name.clone(),
            models: clone_strings(&self.models),
            max_concurrent: self.max_concurrent,
            backend_base_url: self.backend_url.clone(),
            endpoint_prefixes: Vec::new(),
        })
    }
}

/// Whether the worker starts at launch, given the settings read from disk
/// (`None` when the file is missing or does not parse).
pub fn auto_start_at_launch(loaded: Option<&AppSettings>) -> (r: bool)
    ensures
        r == match loaded {
            Some(s) => s.auto_start && s.worker_secret@.len() > 0,
            None => false,
        },
{
    match loaded {
        Some(s) => s.starts_at_launch(),
        None => false,
    }
}

// ---------------------------------------------------------------------------
// Worker status
// ---------------------------------------------------------------------------

/// What the desktop UI shows about the worker.
pub struct AppStatus {
    pub connected: bool,
    pub relay_url: String,
    pub active_requests: u32,
    pub models: Vec<String>,
    pub error: Option<String>,
}

impl Clone for AppStatus {
    fn clone(&self) -> (r: Self)
        ensures
            r.connected == self.connected,
            r.relay_url@ == self.relay_url@,
            r.active_requests == self.active_requests,
            strings_view(r.models@) == strings_view(self.models@),
            opt_view(r.error) == opt_view(self.error),
    {
        AppStatus {
            connected: self.connected,
            relay_url: self.relay_url.clone(),
            active_requests: self.active_requests,
            models: clone_strings(&self.models),
            error: clone_opt_string(&self.error),
        }
    }
}

impl Default for AppStatus {
    /// Disconnected, no relay, no requests, no models, no error.
    fn default() -> (r: Self)
        ensures
            !r.connected,
            r.relay_url@ == Seq::<char>::empty(),
            r.active_requests == 0,
            r.models@.len() == 0,
            r.error is None,
    {
        AppStatus {
            connected: false,
            relay_url: String::new(),
            active_requests: 0,
            models: Vec::new(),
            error: None,
        }
    }
}

impl AppStatus {
    /// The worker is being started against `relay_url` serving `models`.
    pub fn mark_starting(&mut self, relay_url: &str, models: &Vec<String>)
        ensures
            final(self).connected,
            final(self).relay_url@ == relay_url@,
            strings_view(final(self).models@) == strings_view(models@),
            final(self).error is None,
            final(self).active_requests == old(self).active_requests,
    {
        self.connected = true;
        self.relay_url = relay_url.to_owned();
        self.models = clone_strings(models);
        self.error = None;
    }

    /// The worker exited on its own, with `error` when it failed; a clean
    /// exit keeps the error shown before.
    pub fn mark_exited(&mut self, error: Option<String>)
        ensures
            !final(self).connected,
            final(self).active_requests == 0,
            opt_view(final(self).error) == (if error is Some {
                opt_view(error)
            } else {
                opt_view(old(self).error)
            }),
            final(self).relay_url@ == old(self).relay_url@,
            strings_view(final(self).models@) == strings_view(old(self).models@),
    {
        self.connected = false;
        self.active_requests = 0;
        if error.is_some() {
            self.error = error;
        }
    }

    /// The worker was stopped by the user.
    pub fn mark_stopped(&mut self)
        ensures
            !final(self).connected,
            final(self).active_requests == 0,
            final(self).error is None,
            final(self).relay_url@ == old(self).relay_url@,
            strings_view(final(self).models@) == strings_view(old(self).models@),
    {
        self.connected = false;
        self.active_requests = 0;
        self.error = None;
    }
}

// ---------------------------------------------------------------------------
// Tray menu
// ---------------------------------------------------------------------------

/// What a tray menu entry does.
pub enum TrayAction {
    /// Show the main window on this tab.
    OpenTab(&'static str),
    /// Quit the app.
    Quit,
    /// Nothing.
    Ignore,
}

/// The action of the tray menu entry with id `id`.
pub fn tray_action(id: &str) -> (r: TrayAction)
    ensures
        id@ == "show"@ ==> (r matches TrayAction::OpenTab(t) && t@ == "dashboard"@),
        id@ != "show"@ && id@ == "settings"@ ==> (r matches TrayAction::OpenTab(t) && t@ == "settings"@),
        id@ != "show"@ && id@ != "settings"@ && id@ == "quit"@ ==> r is Quit,
        id@ != "show"@ && id@ != "settings"@ && id@ != "quit"@ ==> r is Ignore,
{
    if crate::text::str_eq(id, "show") {
        TrayAction::OpenTab("dashboard")
    } else if crate::text::str_eq(id, "settings") {
        TrayAction::OpenTab("settings")
    } else if crate::text::str_eq(id, "quit") {
        TrayAction::Quit
    } else {
        TrayAction::Ignore
    }
}

// ---------------------------------------------------------------------------
// Update summary
// ---------------------------------------------------------------------------

/// Summary of an available update, returned to the UI.
pub struct UpdateSummary {
    pub available: bool,
    pub current_version: String,
    pub latest_version: Option<String>,
    pub release_notes: Option<String>,
    pub pub_date: Option<String>,
}

/// An update found by the updater plugin, as plain values.
pub struct FoundUpdate {
    pub version: String,
    pub body: Option<String>,
    pub date: Option<String>,
}

impl UpdateSummary {
    /// No update available for `current`.
    pub fn none(current: String) -> (r: Self)
        ensures
            !r.available,
            r.current_version == current,
            r.latest_version is None,
            r.release_notes is None,
            r.pub_date is None,
    {
        UpdateSummary {
            available: false,
            current_version: current,
            latest_version: None,
            release_notes: None,
            pub_date: None,
        }
    }

    /// Update `version` with its notes and date is available for `current`.
    pub fn from_update(current: String, version: String, body: Option<String>, date: Option<String>) -> (r: Self)
        ensures
            r.available,
            r.current_version == current,
            r.latest_version == Some(version),
            r.release_notes == body,
            r.pub_date == date,
    {
        UpdateSummary {
            available: true,
            current_version: current,
            latest_version: Some(version),
            release_notes: body,
            pub_date: date,
        }
    }
}

/// Bytes downloaded so far after a further chunk of `chunk_len` bytes.
pub fn progress_after(downloaded: u64, chunk_len: usize) -> (r: u64)
    requires
        downloaded + chunk_len <= u64::MAX,
    ensures
        r == downloaded + chunk_len,
{
    downloaded + chunk_len as u64
}

/// Prefix of the error returned when an update check fails.
pub const CHECK_FAILED_PREFIX: &'static str = "Update check failed: ";

/// Prefix of the error returned when installing an update fails.
pub const INSTALL_FAILED_PREFIX: &'static str = "Update install failed: ";

/// Error returned when an install is requested but no update exists.
pub const NO_UPDATE_MESSAGE: &'static str = "No update available";

/// `prefix` followed by `detail`.
pub fn prefixed(prefix: &str, detail: &str) -> (r: String)
    ensures
        r@ == prefix@ + detail@,
{
    let mut r = prefix.to_owned();
    r.append(detail);
    r
}

/// The summary for the outcome of an update check run for version `current`.
pub fn summary_from_check(current: String, outcome: Result<Option<FoundUpdate>, String>) -> (r: Result<UpdateSummary, String>)
    ensures
        match outcome {
            Ok(Some(u)) => r matches Ok(s) && s.available && s.current_version == current
                && s.latest_version == Some(u.version) && s.release_notes == u.body && s.pub_date == u.date,
            Ok(None) => r matches Ok(s) && !s.available && s.current_version == current
                && s.latest_version is None && s.release_notes is None && s.pub_date is None,
            Err(e) => r matches Err(m) && m@ == CHECK_FAILED_PREFIX@ + e@,
        },
{
    match outcome {
        Ok(Some(u)) => Ok(UpdateSummary::from_update(current, u.version, u.body, u.date)),
        Ok(None) => Ok(UpdateSummary::none(current)),
        Err(e) => Err(prefixed(CHECK_FAILED_PREFIX, e.as_str())),
    }
}

/// The text asking the user whether to install an available update.
pub open spec fn prompt_text(current: Seq<char>, latest: Seq<char>, notes: Seq<char>) -> Seq<char> {
    "A new version of ModelRelay is available.\n\nCurrent: "@ + current + "\nLatest: "@ + latest + "\n\n"@
        + notes
}

/// The text held by `o`, or `fallback`.
pub open spec fn text_or(o: Option<String>, fallback: Seq<char>) -> Seq<char> {
    match o {
        Some(s) => s@,
        None => fallback,
    }
}

/// Notes shown when a release has none.
pub const NO_NOTES: &'static str = "No release notes.";

/// The text of the dialog offering an available update: the current and the
/// latest version (empty when unknown) and the release notes.
pub fn launch_prompt_message(summary: &UpdateSummary) -> (r: String)
    ensures
        r@ == prompt_text(
            summary.current_version@,
            text_or(summary.latest_version, Seq::<char>::empty()),
            text_or(summary.release_notes, NO_NOTES@),
        ),
{
    let mut r = "A new version of ModelRelay is available.\n\nCurrent: ".to_owned();
    r.append(summary.current_version.as_str());
    r.append("\nLatest: ");
    match &summary.latest_version {
        Some(v) => r.append(v.as_str()),
        None => {},
    }
    r.append("\n\n");
    match &summary.release_notes {
        Some(n) => r.append(n.as_str()),
        None => r.append(NO_NOTES),
    }
    assert(r@ =~= prompt_text(
        summary.current_version@,
        text_or(summary.latest_version, Seq::<char>::empty()),
        text_or(summary.release_notes, NO_NOTES@),
    ));
    r
}

} // verus!
