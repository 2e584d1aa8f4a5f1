//! What each user action and each finished task does to the state.

use crate::domain::module::{parse_outcome, ModuleUuid};
use crate::security::url_validation::{validate_web_url, web_url_defect};
use crate::services::preferences::{
    defaults_of, get_default_preferences, merge_with_defaults, merged, pairs_of, set_preference,
    value_of, Pair, PreferenceEntry, PreferenceValue, PreferencesSchema,
};
use crate::shell::state::{
    App, Command, ConfirmationAction, Notification, NotificationKind, PendingSearch, Screen,
    ScreenshotState, ThemeMode, TrayEvent, NOTIFICATION_LIFETIME_MS, SEARCH_DEBOUNCE_MS,
    SPINNER_FRAMES,
};
use crate::text::joined_text;
use crate::ui::installed::{is_first_module, is_module, position_of};
use vstd::prelude::*;

verus! {

/// `after` is `before` with one more notification, the newest, that reads
/// `message`, is of kind `kind` and was raised at `now`.
pub open spec fn notified(
    before: App,
    after: App,
    message: Seq<char>,
    kind: NotificationKind,
    now: u64,
) -> bool {
    &&& after == (App { notifications: after.notifications, ..before })
    &&& after.notifications@.len() == before.notifications@.len() + 1
    &&& after.notifications@.drop_last() == before.notifications@
    &&& after.notifications@.last().message@ == message
    &&& after.notifications@.last().kind == kind
    &&& after.notifications@.last().created_at == now
}

/// Raises a notification that reads `message`.
fn notify(app: &mut App, message: String, kind: NotificationKind, now: u64)
    ensures
        notified(*old(app), *final(app), message@, kind, now),
{
    app.push_notification(message, kind, now);
    assert(app.notifications@.drop_last() =~= old(app).notifications@);
}

/// The system's preference for dark colors changed.
pub fn handle_system_theme_changed(app: &mut App, is_dark: bool) -> (command: Command)
    ensures
        *final(app) == (App { system_dark: is_dark, ..*old(app) }),
        command is Idle,
{
    app.system_dark = is_dark;
    Command::Idle
}

/// The user chose how the colors are chosen: the choice is kept and the
/// settings are to be saved.
pub fn handle_set_theme_mode(app: &mut App, mode: ThemeMode) -> (command: Command)
    ensures
        *final(app) == (App { theme_mode: mode, ..*old(app) }),
        command is SaveSettings,
{
    app.theme_mode = mode;
    Command::SaveSettings
}

/// The Omarchy theme changed on disk: its palette is to be read again if it
/// is the one in use.
pub fn handle_omarchy_theme_changed(app: &mut App) -> (command: Command)
    ensures
        *final(app) == *old(app),
        old(app).theme_mode == ThemeMode::Omarchy ==> command is ReloadOmarchyPalette,
        old(app).theme_mode != ThemeMode::Omarchy ==> command is Idle,
{
    if app.theme_mode == ThemeMode::Omarchy {
        Command::ReloadOmarchyPalette
    } else {
        Command::Idle
    }
}

/// The user switched the tray icon on or off. The choice is kept and saved.
/// Switching it on starts the tray unless it runs; switching it off stops
/// it. Either is told to the user; switching it on while it runs is not.
pub fn handle_toggle_tray(app: &mut App, enabled: bool, now: u64) -> (command: Command)
    ensures
        enabled && !old(app).tray_running ==> command is SaveSettingsAndStartTray && notified(
            App { tray_enabled: true, ..*old(app) },
            *final(app),
            "Tray icon enabled"@,
            NotificationKind::Success,
            now,
        ),
        enabled && old(app).tray_running ==> command is SaveSettings && *final(app) == (App {
            tray_enabled: true,
            ..*old(app)
        }),
        !enabled ==> command is SaveSettingsAndStopTray && notified(
            App { tray_enabled: false, tray_running: false, ..*old(app) },
            *final(app),
            "Tray icon disabled"@,
            NotificationKind::Info,
            now,
        ),
{
    app.tray_enabled = enabled;
    if enabled && !app.tray_running {
        notify(app, "Tray icon enabled".to_owned(), NotificationKind::Success, now);
        Command::SaveSettingsAndStartTray
    } else if !enabled {
        app.tray_running = false;
        notify(app, "Tray icon disabled".to_owned(), NotificationKind::Info, now);
        Command::SaveSettingsAndStopTray
    } else {
        Command::SaveSettings
    }
}

/// The tray was asked to start: whether it runs now.
pub fn handle_tray_started(app: &mut App, running: bool)
    ensures
        *final(app) == (App { tray_running: running, ..*old(app) }),
{
    app.tray_running = running;
}

/// The user asked for the preferences of the module `uuid`. `schema` is the
/// schema that the module ships, if it ships one, and `stored` the values
/// stored for it. For an installed module with a schema the dialog opens on
/// the stored values completed by the defaults; for one without, the user is
/// told that there is nothing to configure; for a module that is not
/// installed nothing happens.
pub fn handle_open_preferences(
    app: &mut App,
    uuid: &ModuleUuid,
    schema: Option<PreferencesSchema>,
    stored: Vec<PreferenceEntry>,
    now: u64,
) -> (command: Command)
    ensures
        command is Idle,
        (forall|j: int| !is_module(old(app).installed_modules@, j, uuid.text())) ==> *final(app)
            == *old(app),
        (exists|j: int| is_module(old(app).installed_modules@, j, uuid.text())) && schema is None
            ==> notified(
            *old(app),
            *final(app),
            "This module has no configurable preferences"@,
            NotificationKind::Info,
            now,
        ),
        (exists|j: int| is_module(old(app).installed_modules@, j, uuid.text())) && schema is Some
            ==> {
            &&& *final(app) == (App { preferences: final(app).preferences, ..*old(app) })
            &&& final(app).preferences.open_for matches Some(text) && text@ == uuid.text()
            &&& final(app).preferences.schema == schema
            &&& pairs_of(final(app).preferences.values@) == merged(
                pairs_of(stored@),
                defaults_of(schema->0.fields@),
            )
            &&& exists|j: int|
                is_first_module(old(app).installed_modules@, j, uuid.text())
                    && final(app).preferences.module_name@
                    == old(app).installed_modules@[j].waybar_module_name@
        },
{
    let uuid_text = uuid.to_string();
    let at = match position_of(&app.installed_modules, uuid_text.as_str()) {
        Some(at) => at,
        None => {
            return Command::Idle;
        },
    };
    assert(is_module(app.installed_modules@, at as int, uuid.text()));
    match schema {
        Some(schema) => {
            let values = merge_with_defaults(stored, &schema);
            app.preferences.module_name = app.installed_modules[at].waybar_module_name.clone();
            app.preferences.open_for = Some(uuid_text);
            app.preferences.schema = Some(schema);
            app.preferences.values = values;
        },
        None => {
            notify(
                app,
                "This module has no configurable preferences".to_owned(),
                NotificationKind::Info,
                now,
            );
        },
    }
    Command::Idle
}

/// The preferences dialog is open for the module with the identifier text
/// `uuid`.
pub open spec fn preferences_open_for(app: App, uuid: Seq<char>) -> bool {
    app.preferences.open_for matches Some(text) && text@ == uuid
}

/// The user changed one preference of the module `uuid`. Where the dialog is
/// open for that module, the value is kept and the values are to be saved;
/// otherwise nothing happens.
pub fn handle_preference_changed(
    app: &mut App,
    uuid: &ModuleUuid,
    key: &str,
    value: PreferenceValue,
) -> (command: Command)
    ensures
        !preferences_open_for(*old(app), uuid.text()) ==> command is Idle && *final(app)
            == *old(app),
        preferences_open_for(*old(app), uuid.text()) ==> {
            &&& command matches Command::SavePreferences { uuid: text } && text@ == uuid.text()
            &&& *final(app) == (App {
                preferences: crate::shell::state::PreferencesState {
                    values: final(app).preferences.values,
                    ..old(app).preferences
                },
                ..*old(app)
            })
            &&& value_of(pairs_of(final(app).preferences.values@), key@) == Some(value@)
            &&& forall|other: Seq<char>|
                other != key@ ==> value_of(pairs_of(final(app).preferences.values@), other)
                    == value_of(pairs_of(old(app).preferences.values@), other)
        },
{
    let uuid_text = uuid.to_string();
    let open = match &app.preferences.open_for {
        Some(text) => *text == uuid_text,
        None => false,
    };
    if !open {
        return Command::Idle;
    }
    set_preference(&mut app.preferences.values, key, value);
    Command::SavePreferences { uuid: uuid_text }
}

/// Saving the preferences failed: the user is told.
pub fn handle_preferences_save_failed(app: &mut App, now: u64)
    ensures
        notified(
            *old(app),
            *final(app),
            "Failed to save preferences"@,
            NotificationKind::Error,
            now,
        ),
{
    notify(app, "Failed to save preferences".to_owned(), NotificationKind::Error, now);
}

/// `after` is `before` with the preferences dialog closed and emptied.
pub open spec fn preferences_closed(before: App, after: App) -> bool {
    &&& after == (App {
        preferences: crate::shell::state::PreferencesState {
            open_for: None,
            schema: None,
            values: after.preferences.values,
            ..before.preferences
        },
        ..before
    })
    &&& after.preferences.values@.len() == 0
}

/// The user closed the preferences dialog.
pub fn handle_close_preferences(app: &mut App) -> (command: Command)
    ensures
        command is Idle,
        preferences_closed(*old(app), *final(app)),
{
    app.preferences.open_for = None;
    app.preferences.schema = None;
    app.preferences.values = Vec::new();
    Command::Idle
}

/// The user reset the preferences of the module `uuid`. Where a schema is
/// open, the values become its defaults and are to be saved, and the user is
/// to be told how the saving went; otherwise nothing happens.
pub fn handle_reset_preferences(app: &mut App, uuid: &ModuleUuid) -> (command: Command)
    ensures
        old(app).preferences.schema is None ==> command is Idle && *final(app) == *old(app),
        old(app).preferences.schema matches Some(schema) ==> {
            &&& command matches Command::SaveResetPreferences { uuid: text } && text@ == uuid.text()
            &&& *final(app) == (App {
                preferences: crate::shell::state::PreferencesState {
                    values: final(app).preferences.values,
                    ..old(app).preferences
                },
                ..*old(app)
            })
            &&& pairs_of(final(app).preferences.values@) == merged(
                Seq::<Pair>::empty(),
                defaults_of(schema.fields@),
            )
        },
{
    let defaults = match &app.preferences.schema {
        Some(schema) => get_default_preferences(schema),
        None => {
            return Command::Idle;
        },
    };
    app.preferences.values = defaults;
    Command::SaveResetPreferences { uuid: uuid.to_string() }
}

/// The defaults were saved, or could not be: the user is told which.
pub fn handle_preferences_reset_saved(app: &mut App, saved: bool, now: u64)
    ensures
        saved ==> notified(
            *old(app),
            *final(app),
            "Preferences reset to defaults"@,
            NotificationKind::Success,
            now,
        ),
        !saved ==> notified(
            *old(app),
            *final(app),
            "Failed to save preferences"@,
            NotificationKind::Error,
            now,
        ),
{
    if saved {
        notify(app, "Preferences reset to defaults".to_owned(), NotificationKind::Success, now);
    } else {
        notify(app, "Failed to save preferences".to_owned(), NotificationKind::Error, now);
    }
}

/// The user asked for the search field: it is on the browse page unless the
/// page of installed modules is in front.
pub fn handle_focus_search(app: &mut App) -> (command: Command)
    ensures
        command is Idle,
        old(app).screen is Browse || old(app).screen is Installed ==> *final(app) == *old(app),
        !(old(app).screen is Browse || old(app).screen is Installed) ==> *final(app) == (App {
            screen: Screen::Browse,
            ..*old(app)
        }),
{
    let stays = match &app.screen {
        Screen::Browse => true,
        Screen::Installed => true,
        _ => false,
    };
    if !stays {
        app.screen = Screen::Browse;
    }
    Command::Idle
}

/// `after` is `before` with the detail screen left for the browse screen.
pub open spec fn detail_left(before: App, after: App) -> bool {
    after == (App {
        screen: Screen::Browse,
        module_detail: crate::shell::state::ModuleDetailState {
            screenshot: ScreenshotState::NotLoaded,
            installing: false,
        },
        ..before
    })
}

/// `after` is `before` without its oldest notification, if it has one.
pub open spec fn oldest_dismissed(before: App, after: App) -> bool {
    &&& after == (App { notifications: after.notifications, ..before })
    &&& after.notifications@ == if before.notifications@.len() > 0 {
        before.notifications@.subrange(1, before.notifications@.len() as int)
    } else {
        before.notifications@
    }
}

/// Takes the oldest notification off the screen.
fn dismiss_oldest(app: &mut App)
    ensures
        oldest_dismissed(*old(app), *final(app)),
{
    if app.notifications.len() > 0 {
        app.notifications.remove(0);
        assert(app.notifications@ =~= old(app).notifications@.subrange(
            1,
            old(app).notifications@.len() as int,
        ));
    }
}

/// What the escape key closes, in this order of precedence.
pub enum EscapeTarget {
    Preferences,
    Confirmation,
    ModuleDetail,
    BrowseSearch,
    InstalledSearch,
    Notification,
}

/// What the escape key closes in the state `app`: the preferences dialog if
/// it is open, else a pending confirmation, else the detail screen, else the
/// search text of the page in front, else the oldest notification.
pub open spec fn escape_target(app: App) -> EscapeTarget {
    if app.preferences.open_for is Some {
        EscapeTarget::Preferences
    } else if app.confirmation.pending_action is Some {
        EscapeTarget::Confirmation
    } else if app.screen is ModuleDetail {
        EscapeTarget::ModuleDetail
    } else if app.browse.search_query@.len() > 0 && app.screen is Browse {
        EscapeTarget::BrowseSearch
    } else if app.installed.search_query@.len() > 0 && app.screen is Installed {
        EscapeTarget::InstalledSearch
    } else {
        EscapeTarget::Notification
    }
}

/// The user pressed escape: the one thing that `escape_target` names is
/// closed.
pub fn handle_escape_pressed(app: &mut App) -> (command: Command)
    ensures
        command is Idle,
        match escape_target(*old(app)) {
            EscapeTarget::Preferences => preferences_closed(*old(app), *final(app)),
            EscapeTarget::Confirmation => *final(app) == (App {
                confirmation: crate::shell::state::ConfirmationState { pending_action: None },
                ..*old(app)
            }),
            EscapeTarget::ModuleDetail => detail_left(*old(app), *final(app)),
            EscapeTarget::BrowseSearch => {
                &&& *final(app) == (App {
                    browse: crate::shell::state::BrowseState {
                        search_query: final(app).browse.search_query,
                        pending_search: None,
                        ..old(app).browse
                    },
                    ..*old(app)
                })
                &&& final(app).browse.search_query@.len() == 0
            },
            EscapeTarget::InstalledSearch => {
                &&& *final(app) == (App {
                    installed: crate::shell::state::InstalledState {
                        search_query: final(app).installed.search_query,
                        pending_search: None,
                        ..old(app).installed
                    },
                    ..*old(app)
                })
                &&& final(app).installed.search_query@.len() == 0
            },
            EscapeTarget::Notification => oldest_dismissed(*old(app), *final(app)),
        },
{
    let on_detail = match &app.screen {
        Screen::ModuleDetail(_) => true,
        _ => false,
    };
    let on_browse = match &app.screen {
        Screen::Browse => true,
        _ => false,
    };
    let on_installed = match &app.screen {
        Screen::Installed => true,
        _ => false,
    };
    if app.preferences.open_for.is_some() {
        app.preferences.open_for = None;
        app.preferences.schema = None;
        app.preferences.values = Vec::new();
    } else if app.confirmation.pending_action.is_some() {
        app.confirmation.pending_action = None;
    } else if on_detail {
        app.screen = Screen::Browse;
        app.module_detail.screenshot = ScreenshotState::NotLoaded;
        app.module_detail.installing = false;
    } else if !app.browse.search_query.as_str().is_empty() && on_browse {
        app.browse.search_query = String::new();
        app.browse.pending_search = None;
    } else if !app.installed.search_query.as_str().is_empty() && on_installed {
        app.installed.search_query = String::new();
        app.installed.pending_search = None;
    } else {
        dismiss_oldest(app);
    }
    Command::Idle
}

/// The test that keeps a notification at the time `now`: it reports an
/// error, or it is not older than the lifetime of notifications.
pub open spec fn still_shown(now: u64) -> spec_fn(Notification) -> bool {
    |n: Notification|
        n.kind == NotificationKind::Error || now - n.created_at <= NOTIFICATION_LIFETIME_MS
}

/// The next picture of the spinner.
pub open spec fn next_frame(frame: u8) -> u8 {
    if frame + 1 >= SPINNER_FRAMES {
        0
    } else {
        (frame + 1) as u8
    }
}

/// Whether the spinner turns: something is loading.
pub open spec fn spinner_turns(app: App) -> bool {
    app.loading || app.module_detail.screenshot == ScreenshotState::Loading
}

/// The pending search is due at `now`: typing has paused long enough.
pub open spec fn search_due(pending: Option<PendingSearch>, now: u64) -> bool {
    pending matches Some(p) && now - p.since >= SEARCH_DEBOUNCE_MS
}

/// The search text after the tick at `now`: the pending text if it is due,
/// else the text as it was.
pub open spec fn search_after(query: String, pending: Option<PendingSearch>, now: u64) -> String {
    if search_due(pending, now) {
        pending->0.query
    } else {
        query
    }
}

/// What is pending after the tick at `now`: nothing if the pending text was
/// due.
pub open spec fn pending_after(pending: Option<PendingSearch>, now: u64) -> Option<
    PendingSearch,
> {
    if search_due(pending, now) {
        None
    } else {
        pending
    }
}

/// Applies a pending search text if it is due.
fn settle_search(query: &mut String, pending: &mut Option<PendingSearch>, now: u64)
    ensures
        *final(query) == search_after(*old(query), *old(pending), now),
        *final(pending) == pending_after(*old(pending), now),
{
    let due = match pending {
        Some(p) => now >= p.since && now - p.since >= SEARCH_DEBOUNCE_MS,
        None => false,
    };
    if due {
        let mut taken: Option<PendingSearch> = None;
        std::mem::swap(pending, &mut taken);
        match taken {
            Some(p) => {
                *query = p.query;
            },
            None => {},
        }
    }
}

/// Drops the notifications that are no longer shown at `now`.
fn expire_notifications(app: &mut App, now: u64)
    ensures
        *final(app) == (App { notifications: final(app).notifications, ..*old(app) }),
        final(app).notifications@ == old(app).notifications@.filter(still_shown(now)),
{
    let mut all: Vec<Notification> = Vec::new();
    std::mem::swap(&mut app.notifications, &mut all);
    proof {
        reveal(Seq::filter);
        assert(all@.take(0) =~= Seq::<Notification>::empty());
    }
    for notification in it: all
        invariant
            it.seq() == old(app).notifications@,
            *app == (App { notifications: app.notifications, ..*old(app) }),
            app.notifications@ == old(app).notifications@.take(it.index() as int).filter(
                still_shown(now),
            ),
    {
        let ghost i = it.index() as int;
        proof {
            let seen = old(app).notifications@.take(i);
            assert(old(app).notifications@.take(i + 1) =~= seen.push(notification));
            seen.lemma_filter_push(notification, still_shown(now));
        }
        let is_error = match notification.kind {
            NotificationKind::Error => true,
            _ => false,
        };
        let fresh = now < notification.created_at || now - notification.created_at
            <= NOTIFICATION_LIFETIME_MS;
        if is_error || fresh {
            app.notifications.push(notification);
        }
    }
    proof {
        assert(old(app).notifications@.take(old(app).notifications@.len() as int)
            =~= old(app).notifications@);
    }
}

/// The clock ticked at `now`, and the tray icon reported `tray_event`, if
/// anything. The spinner turns while something loads; notifications that
/// report no error go after their lifetime; search texts whose typing has
/// paused are applied; and what the tray reported is passed on.
pub fn handle_tick(app: &mut App, now: u64, tray_event: Option<TrayEvent>) -> (command: Command)
    ensures
        *final(app) == (App {
            spinner_frame: if spinner_turns(*old(app)) {
                next_frame(old(app).spinner_frame)
            } else {
                old(app).spinner_frame
            },
            notifications: final(app).notifications,
            browse: crate::shell::state::BrowseState {
                search_query: search_after(
                    old(app).browse.search_query,
                    old(app).browse.pending_search,
                    now,
                ),
                pending_search: pending_after(old(app).browse.pending_search, now),
                ..old(app).browse
            },
            installed: crate::shell::state::InstalledState {
                search_query: search_after(
                    old(app).installed.search_query,
                    old(app).installed.pending_search,
                    now,
                ),
                pending_search: pending_after(old(app).installed.pending_search, now),
                ..old(app).installed
            },
            ..*old(app)
        }),
        final(app).notifications@ == old(app).notifications@.filter(still_shown(now)),
        match tray_event {
            Some(event) => command matches Command::Tray(passed) && passed == event,
            None => command is Idle,
        },
{
    let screenshot_loading = match app.module_detail.screenshot {
        ScreenshotState::Loading => true,
        _ => false,
    };
    if app.loading || screenshot_loading {
        app.spinner_frame = if app.spinner_frame >= SPINNER_FRAMES - 1 {
            0
        } else {
            app.spinner_frame + 1
        };
    }
    expire_notifications(app, now);
    settle_search(&mut app.browse.search_query, &mut app.browse.pending_search, now);
    settle_search(&mut app.installed.search_query, &mut app.installed.pending_search, now);
    match tray_event {
        Some(event) => Command::Tray(event),
        None => Command::Idle,
    }
}

/// A task asked for a notification.
pub fn handle_show_notification(app: &mut App, message: String, kind: NotificationKind, now: u64)
    ensures
        notified(*old(app), *final(app), message@, kind, now),
{
    notify(app, message, kind, now);
}

/// The user dismissed what is in front: a pending confirmation, else the
/// detail screen, else the oldest notification.
pub fn handle_dismiss_notification(app: &mut App) -> (command: Command)
    ensures
        command is Idle,
        old(app).confirmation.pending_action is Some ==> *final(app) == (App {
            confirmation: crate::shell::state::ConfirmationState { pending_action: None },
            ..*old(app)
        }),
        old(app).confirmation.pending_action is None && old(app).screen is ModuleDetail
            ==> detail_left(*old(app), *final(app)),
        old(app).confirmation.pending_action is None && !(old(app).screen is ModuleDetail)
            ==> oldest_dismissed(*old(app), *final(app)),
{
    let on_detail = match &app.screen {
        Screen::ModuleDetail(_) => true,
        _ => false,
    };
    if app.confirmation.pending_action.is_some() {
        app.confirmation.pending_action = None;
    } else if on_detail {
        app.screen = Screen::Browse;
        app.module_detail.screenshot = ScreenshotState::NotLoaded;
        app.module_detail.installing = false;
    } else {
        dismiss_oldest(app);
    }
    Command::Idle
}

/// Something needs the user's confirmation: it becomes the pending action.
pub fn handle_request_confirmation(app: &mut App, action: ConfirmationAction)
    ensures
        *final(app) == (App {
            confirmation: crate::shell::state::ConfirmationState { pending_action: Some(action) },
            ..*old(app)
        }),
{
    app.confirmation.pending_action = Some(action);
}

/// The identifier texts of a list of identifiers.
pub open spec fn texts_of(uuids: Seq<ModuleUuid>) -> Seq<Seq<char>> {
    Seq::new(uuids.len(), |i: int| uuids[i].text())
}

/// The user confirmed the pending action. A pending removal starts: the
/// module joins those being removed, unless it is there already, and is to
/// be uninstalled. With nothing pending, nothing happens.
pub fn handle_confirm_action(app: &mut App) -> (command: Command)
    ensures
        old(app).confirmation.pending_action is None ==> command is Idle && *final(app)
            == *old(app),
        old(app).confirmation.pending_action matches Some(
            ConfirmationAction::UninstallModule { uuid, name },
        ) ==> {
            &&& command matches Command::UninstallModule(target) && target == uuid
            &&& *final(app) == (App {
                confirmation: crate::shell::state::ConfirmationState { pending_action: None },
                installed: crate::shell::state::InstalledState {
                    uninstalling: final(app).installed.uninstalling,
                    ..old(app).installed
                },
                ..*old(app)
            })
            &&& texts_of(final(app).installed.uninstalling@) == if texts_of(
                old(app).installed.uninstalling@,
            ).contains(uuid.text()) {
                texts_of(old(app).installed.uninstalling@)
            } else {
                texts_of(old(app).installed.uninstalling@).push(uuid.text())
            }
        },
{
    let mut pending: Option<ConfirmationAction> = None;
    std::mem::swap(&mut app.confirmation.pending_action, &mut pending);
    match pending {
        Some(ConfirmationAction::UninstallModule { uuid, name }) => {
            let ghost before = texts_of(app.installed.uninstalling@);
            let wanted = uuid.to_string();
            let mut i: usize = 0;
            let mut listed = false;
            while i < app.installed.uninstalling.len()
                invariant
                    i <= app.installed.uninstalling@.len(),
                    wanted@ == uuid.text(),
                    before == texts_of(app.installed.uninstalling@),
                    *app == (App {
                        confirmation: crate::shell::state::ConfirmationState {
                            pending_action: None,
                        },
                        ..*old(app)
                    }),
                    listed == exists|j: int| 0 <= j < i && before[j] == uuid.text(),
                decreases app.installed.uninstalling@.len() - i,
            {
                let text = app.installed.uninstalling[i].to_string();
                if text == wanted {
                    assert(before[i as int] == uuid.text());
                    listed = true;
                }
                i += 1;
            }
            if !listed {
                app.installed.uninstalling.push(uuid.clone());
                proof {
                    assert(texts_of(app.installed.uninstalling@) =~= before.push(uuid.text()));
                }
            }
            Command::UninstallModule(uuid)
        },
        None => Command::Idle,
    }
}

/// The user declined the pending action.
pub fn handle_cancel_confirmation(app: &mut App)
    ensures
        *final(app) == (App {
            confirmation: crate::shell::state::ConfirmationState { pending_action: None },
            ..*old(app)
        }),
{
    app.confirmation.pending_action = None;
}

/// The user asked for the cache to be cleared.
pub fn handle_clear_cache() -> (command: Command)
    ensures
        command is ClearCache,
{
    Command::ClearCache
}

/// Clearing the cache ended: the user is told how.
pub fn handle_cache_clear_completed(app: &mut App, result: Result<(), String>, now: u64)
    ensures
        match result {
            Ok(_) => notified(
                *old(app),
                *final(app),
                "Cache cleared successfully"@,
                NotificationKind::Success,
                now,
            ),
            Err(reason) => notified(
                *old(app),
                *final(app),
                "Failed to clear cache: "@ + reason@,
                NotificationKind::Error,
                now,
            ),
        },
{
    match result {
        Ok(_) => {
            notify(app, "Cache cleared successfully".to_owned(), NotificationKind::Success, now);
        },
        Err(reason) => {
            notify(
                app,
                joined_text("Failed to clear cache: ", reason.as_str()),
                NotificationKind::Error,
                now,
            );
        },
    }
}

/// The user asked for the settings to be reset.
pub fn handle_reset_settings() -> (command: Command)
    ensures
        command is ResetSettings,
{
    Command::ResetSettings
}

/// Resetting the settings ended: the user is told how.
pub fn handle_settings_reset_completed(app: &mut App, result: Result<(), String>, now: u64)
    ensures
        match result {
            Ok(_) => notified(
                *old(app),
                *final(app),
                "Settings reset successfully"@,
                NotificationKind::Success,
                now,
            ),
            Err(reason) => notified(
                *old(app),
                *final(app),
                "Failed to reset settings: "@ + reason@,
                NotificationKind::Error,
                now,
            ),
        },
{
    match result {
        Ok(_) => {
            notify(app, "Settings reset successfully".to_owned(), NotificationKind::Success, now);
        },
        Err(reason) => {
            notify(
                app,
                joined_text("Failed to reset settings: ", reason.as_str()),
                NotificationKind::Error,
                now,
            );
        },
    }
}

/// The user asked for a module's repository page. A URL that passes the
/// allow-list is to be opened; any other is not, and the user is told why.
pub fn handle_open_repo_url(app: &mut App, url: String, now: u64) -> (command: Command)
    ensures
        match web_url_defect(url@) {
            None => command matches Command::OpenUrl(opened) && opened == url && *final(app)
                == *old(app),
            Some(error) => command is Idle && notified(
                *old(app),
                *final(app),
                "Cannot open URL: "@ + error.spec_message(),
                NotificationKind::Error,
                now,
            ),
        },
{
    match validate_web_url(url.as_str()) {
        Ok(_) => Command::OpenUrl(url),
        Err(error) => {
            notify(
                app,
                joined_text("Cannot open URL: ", error.message()),
                NotificationKind::Error,
                now,
            );
            Command::Idle
        },
    }
}

/// The module that the detail screen shows can be installed: the screen
/// shows a module and its identifier parses.
pub open spec fn detail_installable(app: App) -> bool {
    app.screen matches Screen::ModuleDetail(text) && parse_outcome(text@) is Ok
}

/// The user asked to install the module on the detail screen. Where its
/// identifier parses, the screen shows the install as under way and the
/// module is to be installed; otherwise nothing happens.
pub fn handle_detail_install_module(app: &mut App) -> (command: Command)
    ensures
        !detail_installable(*old(app)) ==> command is Idle && *final(app) == *old(app),
        detail_installable(*old(app)) ==> {
            &&& *final(app) == (App {
                module_detail: crate::shell::state::ModuleDetailState {
                    installing: true,
                    ..old(app).module_detail
                },
                ..*old(app)
            })
            &&& command matches Command::InstallModule(uuid)
                && old(app).screen matches Screen::ModuleDetail(text) && uuid.text() == text@
        },
{
    let parsed = match &app.screen {
        Screen::ModuleDetail(text) => ModuleUuid::parse(text.as_str()),
        _ => {
            return Command::Idle;
        },
    };
    match parsed {
        Ok(uuid) => {
            app.module_detail.installing = true;
            Command::InstallModule(uuid)
        },
        Err(_) => Command::Idle,
    }
}

/// The user asked for a fresh registry: the browse page shows the refresh
/// as under way and the registry is to be refreshed.
pub fn handle_refresh_registry(app: &mut App) -> (command: Command)
    ensures
        command is RefreshRegistry,
        *final(app) == (App {
            browse: crate::shell::state::BrowseState { refreshing: true, ..old(app).browse },
            ..*old(app)
        }),
{
    app.browse.refreshing = true;
    Command::RefreshRegistry
}

/// The tray asked for the window: showing it is the caller's business.
pub fn handle_tray_show_window() -> (command: Command)
    ensures
        command is Idle,
{
    Command::Idle
}

/// The tray asked for updates: the updates screen comes to the front, the
/// user is told, and the registry is to be loaded.
pub fn handle_tray_check_updates(app: &mut App, now: u64) -> (command: Command)
    ensures
        command is LoadRegistry,
        notified(
            App { screen: Screen::Updates, ..*old(app) },
            *final(app),
            "Checking for updates..."@,
            NotificationKind::Info,
            now,
        ),
{
    app.screen = Screen::Updates;
    notify(app, "Checking for updates...".to_owned(), NotificationKind::Info, now);
    Command::LoadRegistry
}

/// The tray asked to quit: the caller stops the tray and ends the process.
pub fn handle_tray_quit() -> (command: Command)
    ensures
        command is Quit,
{
    Command::Quit
}

} // verus!
