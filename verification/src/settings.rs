//! The settings of a cycle and the state of the application.
//!
//! The user interface sends its settings whenever they change. They are
//! brought into form here and kept, together with the session slot and the
//! delivery targets, in one value that the caller guards with a lock.

use vstd::prelude::*;
use vstd::string::StringExecFns;
use crate::focus::TargetSlots;
use crate::recording::outcome::text_view;
use crate::recording::slot::{SessionSlot, Phase};
use crate::stt::dispatch::{clamp_timeout, clamped_timeout};
use crate::text::{trimmed, without_trailing, trim_end_slashes};

verus! {

/// A model name as it is kept: without white space at its ends, and none
/// where nothing is left.
pub open spec fn kept_model(model: Seq<char>) -> Option<Seq<char>> {
    if trimmed(model).len() == 0 {
        None
    } else {
        Some(trimmed(model))
    }
}

/// An endpoint as it is kept: without white space at its ends and without
/// the `/` at its end, and none where the text is empty once the white
/// space is gone.
pub open spec fn kept_endpoint(url: Seq<char>) -> Option<Seq<char>> {
    if trimmed(url).len() == 0 {
        None
    } else {
        Some(without_trailing(trimmed(url), '/'))
    }
}

/// Brings a model name into the form in which it is kept.
pub fn normalize_model_setting(model: &str) -> (kept: Option<String>)
    ensures
        text_view(kept) == kept_model(model@),
{
    let t: &str = model.trim();
    if t.is_empty() {
        None
    } else {
        Some(t.to_owned())
    }
}

/// Brings an endpoint into the form in which it is kept.
pub fn normalize_endpoint_setting(url: &str) -> (kept: Option<String>)
    ensures
        text_view(kept) == kept_endpoint(url@),
{
    let t: &str = url.trim();
    if t.is_empty() {
        None
    } else {
        Some(trim_end_slashes(t).to_owned())
    }
}

/// The settings that the library works with.
#[derive(Debug, Clone, PartialEq, Eq)]
pub struct Settings {
    /// Where the floating widget stands.
    pub widget_position: String,
    /// Whether the floating widget is shown.
    pub floating_window_enabled: bool,
    /// The language spoken.
    pub stt_language: String,
    /// The name of the transcription provider.
    pub stt_provider: String,
    /// The transcription model, where one is chosen.
    pub stt_model: Option<String>,
    /// The endpoint of the transcription provider, where one is set.
    pub stt_base_url: Option<String>,
    /// After how many seconds a cloud call is given up.
    pub cloud_timeout_secs: u64,
    /// Whether events of the user interface are logged.
    pub debug_logging_enabled: bool,
}

/// Settings as a mathematical value.
pub struct SettingsView {
    pub widget_position: Seq<char>,
    pub floating_window_enabled: bool,
    pub stt_language: Seq<char>,
    pub stt_provider: Seq<char>,
    pub stt_model: Option<Seq<char>>,
    pub stt_base_url: Option<Seq<char>>,
    pub cloud_timeout_secs: u64,
    pub debug_logging_enabled: bool,
}

impl View for Settings {
    type V = SettingsView;

    open spec fn view(&self) -> SettingsView {
        SettingsView {
            widget_position: self.widget_position@,
            floating_window_enabled: self.floating_window_enabled,
            stt_language: self.stt_language@,
            stt_provider: self.stt_provider@,
            stt_model: text_view(self.stt_model),
            stt_base_url: text_view(self.stt_base_url),
            cloud_timeout_secs: self.cloud_timeout_secs,
            debug_logging_enabled: self.debug_logging_enabled,
        }
    }
}

/// The settings that the user interface sent: each is present where it
/// is to change.
#[derive(Debug, Clone, PartialEq, Eq)]
pub struct SettingsUpdate {
    pub widget_position: Option<String>,
    pub floating_window_enabled: Option<bool>,
    pub stt_language: Option<String>,
    pub stt_provider: Option<String>,
    pub stt_model: Option<String>,
    pub stt_base_url: Option<String>,
    pub cloud_timeout_secs: Option<u64>,
    pub debug_logging_enabled: Option<bool>,
}

/// An update as a mathematical value.
pub struct SettingsUpdateView {
    pub widget_position: Option<Seq<char>>,
    pub floating_window_enabled: Option<bool>,
    pub stt_language: Option<Seq<char>>,
    pub stt_provider: Option<Seq<char>>,
    pub stt_model: Option<Seq<char>>,
    pub stt_base_url: Option<Seq<char>>,
    pub cloud_timeout_secs: Option<u64>,
    pub debug_logging_enabled: Option<bool>,
}

impl View for SettingsUpdate {
    type V = SettingsUpdateView;

    open spec fn view(&self) -> SettingsUpdateView {
        SettingsUpdateView {
            widget_position: text_view(self.widget_position),
            floating_window_enabled: self.floating_window_enabled,
            stt_language: text_view(self.stt_language),
            stt_provider: text_view(self.stt_provider),
            stt_model: text_view(self.stt_model),
            stt_base_url: text_view(self.stt_base_url),
            cloud_timeout_secs: self.cloud_timeout_secs,
            debug_logging_enabled: self.debug_logging_enabled,
        }
    }
}

/// The settings at the start of the application.
pub open spec fn initial_settings() -> SettingsView {
    SettingsView {
        widget_position: "bottom-right"@,
        floating_window_enabled: false,
        stt_language: "en"@,
        stt_provider: "vosk"@,
        stt_model: None,
        stt_base_url: None,
        cloud_timeout_secs: 45,
        debug_logging_enabled: true,
    }
}

/// `new` where it is present, else `old`.
pub open spec fn changed<T>(old: T, new: Option<T>) -> T {
    match new {
        Some(v) => v,
        None => old,
    }
}

/// The settings after an update: what is present replaces what was kept,
/// a model and an endpoint in the form in which they are kept, a timeout
/// brought into the allowed range.
pub open spec fn updated(s: SettingsView, u: SettingsUpdateView) -> SettingsView {
    SettingsView {
        widget_position: changed(s.widget_position, u.widget_position),
        floating_window_enabled: changed(s.floating_window_enabled, u.floating_window_enabled),
        stt_language: changed(s.stt_language, u.stt_language),
        stt_provider: changed(s.stt_provider, u.stt_provider),
        stt_model: match u.stt_model {
            Some(m) => kept_model(m),
            None => s.stt_model,
        },
        stt_base_url: match u.stt_base_url {
            Some(url) => kept_endpoint(url),
            None => s.stt_base_url,
        },
        cloud_timeout_secs: match u.cloud_timeout_secs {
            Some(t) => clamped_timeout(t),
            None => s.cloud_timeout_secs,
        },
        debug_logging_enabled: changed(s.debug_logging_enabled, u.debug_logging_enabled),
    }
}

impl Default for Settings {
    /// The settings at the start of the application.
    fn default() -> (s: Self)
        ensures
            s@ == initial_settings(),
    {
        Settings {
            widget_position: String::from_str("bottom-right"),
            floating_window_enabled: false,
            stt_language: String::from_str("en"),
            stt_provider: String::from_str("vosk"),
            stt_model: None,
            stt_base_url: None,
            cloud_timeout_secs: 45,
            debug_logging_enabled: true,
        }
    }
}

impl Settings {
    /// Takes in the settings that the user interface sent.
    pub fn sync_settings(&mut self, update: SettingsUpdate)
        ensures
            final(self)@ == updated(old(self)@, update@),
    {
        match update.widget_position {
            Some(p) => {
                self.widget_position = p;
            },
            None => {},
        }
        match update.floating_window_enabled {
            Some(b) => {
                self.floating_window_enabled = b;
            },
            None => {},
        }
        match update.stt_language {
            Some(l) => {
                self.stt_language = l;
            },
            None => {},
        }
        match update.stt_provider {
            Some(p) => {
                self.stt_provider = p;
            },
            None => {},
        }
        match update.stt_model {
            Some(m) => {
                self.stt_model = normalize_model_setting(m.as_str());
            },
            None => {},
        }
        match update.stt_base_url {
            Some(u) => {
                self.stt_base_url = normalize_endpoint_setting(u.as_str());
            },
            None => {},
        }
        match update.cloud_timeout_secs {
            Some(t) => {
                self.cloud_timeout_secs = clamp_timeout(t);
            },
            None => {},
        }
        match update.debug_logging_enabled {
            Some(b) => {
                self.debug_logging_enabled = b;
            },
            None => {},
        }
    }
}

/// The state of the application: the one session with its stop signal
/// (`S`) and task handle (`T`), the settings, the delivery targets and
/// the text that the preview window shows.
pub struct AppState<S, T> {
    pub session: SessionSlot<S, T>,
    pub settings: Settings,
    pub targets: TargetSlots,
    pub preview_text: Option<String>,
}

impl<S, T> Default for AppState<S, T> {
    /// The state at the start of the application: no session, the initial
    /// settings, no targets, no preview.
    fn default() -> (state: Self)
        ensures
            state.session.phase() == Phase::Idle,
            state.settings@ == initial_settings(),
            state.targets.recording() is None,
            state.targets.preview() is None,
            state.preview_text is None,
    {
        AppState {
            session: SessionSlot::new(),
            settings: Settings::default(),
            targets: TargetSlots::new(),
            preview_text: None,
        }
    }
}

/// Facts about the application, for the user interface.
#[derive(Debug, Clone, PartialEq, Eq)]
pub struct AppInfo {
    pub name: String,
    pub version: String,
}

/// The application's name and the version given.
pub fn get_app_info(version: &str) -> (info: AppInfo)
    ensures
        info.name@ == "Voxlore"@,
        info.version@ == version@,
{
    AppInfo { name: String::from_str("Voxlore"), version: version.to_owned() }
}

/// A greeting for `name`.
pub fn greet(name: &str) -> (greeting: String)
    ensures
        greeting@ == "Hello, "@ + name@ + "! Welcome to Voxlore."@,
{
    crate::text::concat3("Hello, ", name, "! Welcome to Voxlore.")
}

} // verus!
