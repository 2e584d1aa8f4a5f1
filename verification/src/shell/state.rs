//! What the user interface remembers.

use crate::domain::installed::InstalledModule;
use crate::domain::module::ModuleUuid;
use crate::services::preferences::{PreferenceEntry, PreferencesSchema};
use vstd::prelude::*;

verus! {

/// How a notification is to be read.
#[derive(Debug, Clone, Copy, PartialEq, Eq, Structural)]
pub enum NotificationKind {
    Info,
    Success,
    Warning,
    Error,
}

/// A message to the user, with the time at which it was raised, in
/// milliseconds on the caller's clock.
#[derive(Debug, Clone)]
pub struct Notification {
    pub message: String,
    pub kind: NotificationKind,
    pub created_at: u64,
}

/// The screen in front.
#[derive(Debug, Clone)]
pub enum Screen {
    Browse,
    Installed,
    Updates,
    Settings,
    /// The details of the module with this identifier text.
    ModuleDetail(String),
}

/// Whether the screenshot of the module in detail is there.
#[derive(Debug, Clone, Copy, PartialEq, Eq, Structural)]
pub enum ScreenshotState {
    NotLoaded,
    Loading,
    Loaded,
    Failed,
}

/// Something the user is asked to confirm.
#[derive(Debug, Clone)]
pub enum ConfirmationAction {
    UninstallModule { uuid: ModuleUuid, name: String },
}

/// How the colors are chosen.
#[derive(Debug, Clone, Copy, PartialEq, Eq, Structural)]
pub enum ThemeMode {
    System,
    Light,
    Dark,
    Omarchy,
}

/// What the tray icon reports.
#[derive(Debug, Clone, Copy, PartialEq, Eq, Structural)]
pub enum TrayEvent {
    ShowWindow,
    CheckUpdates,
    Quit,
}

/// A search text that was typed and is applied once typing pauses.
#[derive(Debug, Clone)]
pub struct PendingSearch {
    pub query: String,
    /// When it was typed, in milliseconds on the caller's clock.
    pub since: u64,
}

/// The confirmation dialog.
#[derive(Debug, Clone)]
pub struct ConfirmationState {
    pub pending_action: Option<ConfirmationAction>,
}

/// The detail screen of a module.
#[derive(Debug, Clone)]
pub struct ModuleDetailState {
    pub screenshot: ScreenshotState,
    pub installing: bool,
}

/// The preferences dialog.
#[derive(Debug, Clone)]
pub struct PreferencesState {
    /// The identifier text of the module whose preferences are open.
    pub open_for: Option<String>,
    pub schema: Option<PreferencesSchema>,
    pub values: Vec<PreferenceEntry>,
    pub module_name: String,
}

/// The browse page.
#[derive(Debug, Clone)]
pub struct BrowseState {
    pub search_query: String,
    pub pending_search: Option<PendingSearch>,
    pub refreshing: bool,
}

/// The page of installed modules.
#[derive(Debug, Clone)]
pub struct InstalledState {
    pub search_query: String,
    pub pending_search: Option<PendingSearch>,
    /// The modules whose removal is under way.
    pub uninstalling: Vec<ModuleUuid>,
}

/// Everything the user interface remembers.
#[derive(Debug, Clone)]
pub struct App {
    pub screen: Screen,
    pub loading: bool,
    pub spinner_frame: u8,
    /// The notifications on screen, oldest first.
    pub notifications: Vec<Notification>,
    pub confirmation: ConfirmationState,
    pub module_detail: ModuleDetailState,
    pub preferences: PreferencesState,
    pub browse: BrowseState,
    pub installed: InstalledState,
    pub installed_modules: Vec<InstalledModule>,
    pub theme_mode: ThemeMode,
    pub system_dark: bool,
    pub tray_enabled: bool,
    pub tray_running: bool,
}

/// The work that a handler leaves to the caller.
#[derive(Debug, Clone)]
pub enum Command {
    /// Nothing is to be done.
    Idle,
    SaveSettings,
    ReloadOmarchyPalette,
    SaveSettingsAndStartTray,
    SaveSettingsAndStopTray,
    /// Store the values of the preferences dialog for this module; a
    /// failure is to be told with `handle_preferences_save_failed`.
    SavePreferences { uuid: String },
    /// Store the values of the preferences dialog, which were reset to the
    /// defaults, for this module; how it went is to be told with
    /// `handle_preferences_reset_saved`.
    SaveResetPreferences { uuid: String },
    UninstallModule(ModuleUuid),
    InstallModule(ModuleUuid),
    ClearCache,
    ResetSettings,
    RefreshRegistry,
    LoadRegistry,
    OpenUrl(String),
    /// Pass on what the tray icon reported.
    Tray(TrayEvent),
    Quit,
}

/// How many pictures the spinner has.
pub const SPINNER_FRAMES: u8 = 8;

/// How long a notification that reports no error stays, in milliseconds.
pub const NOTIFICATION_LIFETIME_MS: u64 = 5000;

/// How long typing must pause before a search text is applied, in
/// milliseconds.
pub const SEARCH_DEBOUNCE_MS: u64 = 300;

impl App {
    /// The state at start: the browse screen, nothing open, nothing pending.
    pub fn new() -> (app: App)
        ensures
            app.screen is Browse,
            !app.loading,
            app.spinner_frame == 0,
            app.notifications@.len() == 0,
            app.confirmation.pending_action is None,
            app.module_detail.screenshot == ScreenshotState::NotLoaded,
            !app.module_detail.installing,
            app.preferences.open_for is None,
            app.preferences.schema is None,
            app.preferences.values@.len() == 0,
            app.browse.search_query@.len() == 0,
            app.browse.pending_search is None,
            !app.browse.refreshing,
            app.installed.search_query@.len() == 0,
            app.installed.pending_search is None,
            app.installed.uninstalling@.len() == 0,
            app.installed_modules@.len() == 0,
            app.theme_mode == ThemeMode::System,
            !app.system_dark,
            !app.tray_enabled,
            !app.tray_running,
    {
        App {
            screen: Screen::Browse,
            loading: false,
            spinner_frame: 0,
            notifications: Vec::new(),
            confirmation: ConfirmationState { pending_action: None },
            module_detail: ModuleDetailState {
                screenshot: ScreenshotState::NotLoaded,
                installing: false,
            },
            preferences: PreferencesState {
                open_for: None,
                schema: None,
                values: Vec::new(),
                module_name: String::new(),
            },
            browse: BrowseState {
                search_query: String::new(),
                pending_search: None,
                refreshing: false,
            },
            installed: InstalledState {
                search_query: String::new(),
                pending_search: None,
                uninstalling: Vec::new(),
            },
            installed_modules: Vec::new(),
            theme_mode: ThemeMode::System,
            system_dark: false,
            tray_enabled: false,
            tray_running: false,
        }
    }

    /// Raises a notification: it joins the others as the newest.
    pub fn push_notification(&mut self, message: String, kind: NotificationKind, now: u64)
        ensures
            *final(self) == (App { notifications: final(self).notifications, ..*old(self) }),
            final(self).notifications@ == old(self).notifications@.push(
                Notification { message, kind, created_at: now },
            ),
    {
        self.notifications.push(Notification { message, kind, created_at: now });
    }
}

} // verus!
