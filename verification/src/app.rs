//! The application: its screens and the state that the key handling and the
//! profile and JQL operations work on.
use vstd::prelude::*;

use crate::api::auth::delete_token;
use crate::api::types::Issue;
use crate::config::profile::Profile;
use crate::config::{find_profile, lemma_find_spec, not_named, Config, ConfigError, ProfileView};
use crate::history::{lemma_string_views_push, remember, string_views};
use crate::commands::CommandAction;
use crate::error::{critical, suggestion_for, user_message_of, AppError};
use crate::config::{opt_chars, Settings};
use crate::events::key::{pressed, pressed_char, KeyCode, KeyEvent, KeyModifiers};
use crate::ui::components::command_palette::{palette_handled, results_current, CommandPalette, CommandPaletteAction};
use crate::ui::components::jql_input::{jql_input_handled, JqlAction, JqlInput};
use crate::events::Event;
use crate::ui::components::loading::{frame_count, LoadingIndicator};
use crate::ui::components::modal::ErrorDialog;
use crate::ui::components::notification::keep_unexpired;
use crate::ui::components::profile_picker::{is_position_or_first, ProfilePicker, ProfilePickerAction};
use crate::ui::components::notification::{pushed, Notification, NotificationManager, NotificationType};
use crate::text::{
    concat2, concat3, contains, copy_str, decimal, seq_contains, str_eq, to_decimal,
    to_uppercase, uppercase,
};
use crate::ui::components::input::ctrl;
use crate::ui::components::profile_picker::profile_picker_step;

verus! {

/// The screen the application shows.
#[derive(Debug, Clone, Copy, PartialEq, Eq, Structural)]
pub enum AppState {
    /// Loading the first data.
    Loading,
    /// The list of issues.
    IssueList,
    /// The details of one issue.
    IssueDetail,
    /// The quick profile switcher.
    ProfileSelect,
    /// The profile management list.
    ProfileManagement,
    /// The filter panel.
    FilterPanel,
    /// The JQL query input.
    JqlInput,
    /// The help screen.
    Help,
    /// Quitting.
    Exiting,
}

impl Default for AppState {
    /// The application starts by loading.
    fn default() -> (s: AppState)
        ensures
            s == AppState::Loading,
    {
        AppState::Loading
    }
}


/// `b` is `a` with one more notification of type `t` saying `msg`.
pub open spec fn notified(a: NotificationManager, b: NotificationManager, t: NotificationType, msg: Seq<char>) -> bool {
    &&& b.max_visible == a.max_visible
    &&& exists|n: Notification|
        n.message@ == msg && n.notification_type == t
            && #[trigger] b.notifications@ == pushed(a.notifications@, n, a.max_visible as nat)
}

/// The connection details of a profile as data.
pub open spec fn profile_view(p: Profile) -> ProfileView {
    (p.name@, p.url@, p.email@)
}

/// The application state that does not belong to a single screen.
pub struct App {
    /// The screen shown.
    pub state: AppState,
    /// Whether the application should quit.
    pub should_quit: bool,
    /// The key of the issue shown in detail, if any.
    pub selected_issue_key: Option<String>,
    /// The issue shown on the detail screen, if any.
    pub detail_issue: Option<Issue>,
    /// Toast messages.
    pub notifications: NotificationManager,
    /// The dialog for critical errors.
    pub error_dialog: ErrorDialog,
    /// The loading indicator.
    pub loading: LoadingIndicator,
    /// The configuration.
    pub config: Config,
    /// The active profile.
    pub current_profile: Option<Profile>,
    /// The quick profile switcher.
    pub profile_picker: ProfilePicker,
    /// The JQL query input.
    pub jql_input: JqlInput,
    /// The command palette.
    pub command_palette: CommandPalette,
    /// JQL typed directly, used in place of the filters when set.
    pub current_jql: Option<String>,
    /// The screen to return to when help closes.
    pub previous_state: Option<AppState>,
    /// Whether the issue list must be fetched again.
    pub refresh_requested: bool,
}

/// The name of the active profile.
pub open spec fn current_name(a: App) -> Option<Seq<char>> {
    match a.current_profile {
        Some(p) => Some(p.name@),
        None => None,
    }
}

/// The outcome of switching `a` to the profile named `name`, when one exists: no
/// change when it is already active; otherwise it becomes active, the shown issue
/// is dropped, the list is fetched again and a success message is shown.
pub open spec fn switched(a: App, name: Seq<char>, b: App) -> bool {
    match find_profile(a.config.profile_list(), name) {
        None => false,
        Some(i) => if current_name(a) == Some(name) {
            b == a
        } else {
            &&& b == (App {
                current_profile: b.current_profile,
                notifications: b.notifications,
                selected_issue_key: None,
                detail_issue: None,
                refresh_requested: true,
                ..a
            })
            &&& b.current_profile matches Some(p) && profile_view(p) == a.config.profile_list()[i]
            &&& notified(a.notifications, b.notifications, NotificationType::Success, "Switched to profile: "@ + name)
        },
    }
}

/// A copy of a list of strings.
fn copy_strings(v: &Vec<String>) -> (r: Vec<String>)
    ensures
        string_views(r@) == string_views(v@),
{
    let mut r: Vec<String> = Vec::new();
    let mut i: usize = 0;
    while i < v.len()
        invariant
            i <= v@.len(),
            string_views(r@) == string_views(v@).take(i as int),
        decreases v.len() - i,
    {
        let ghost before = r@;
        let c = copy_str(v[i].as_str());
        r.push(c);
        proof {
            lemma_string_views_push(before, c);
            assert(string_views(v@).take(i + 1) =~= string_views(v@).take(i as int).push(v@[i as int]@));
        }
        i += 1;
    }
    proof {
        assert(string_views(v@).take(v@.len() as int) =~= string_views(v@));
    }
    r
}

/// The names of a list of profiles.
pub open spec fn profile_names(ps: Seq<Profile>) -> Seq<Seq<char>> {
    ps.map_values(|p: Profile| p.name@)
}

/// The outcome of opening the quick profile switcher on `a`: a warning when no
/// profile is configured, a note when only one is, else the switcher lists the
/// profile names with the active one highlighted.
pub open spec fn picker_shown(a: App, b: App) -> bool {
    let n = a.config.profiles@.len();
    if n == 0 {
        &&& b == (App { notifications: b.notifications, ..a })
        &&& notified(a.notifications, b.notifications, NotificationType::Warning, "No profiles configured"@)
    } else if n == 1 {
        &&& b == (App { notifications: b.notifications, ..a })
        &&& notified(a.notifications, b.notifications, NotificationType::Info, "Only one profile configured"@)
    } else {
        &&& b == (App { profile_picker: b.profile_picker, ..a })
        &&& b.profile_picker.visible
        &&& string_views(b.profile_picker.profiles@) == profile_names(a.config.profiles@)
        &&& b.profile_picker.current_profile@ == (match current_name(a) {
            Some(x) => x,
            None => Seq::empty(),
        })
        &&& is_position_or_first(
            b.profile_picker.profiles@,
            b.profile_picker.current_profile@,
            b.profile_picker.selected as int,
        )
    }
}

/// The outcome of opening the JQL input on `a`: an empty input, its history kept,
/// and the JQL screen.
pub open spec fn jql_opened(a: App, b: App) -> bool {
    &&& b == (App { jql_input: b.jql_input, state: AppState::JqlInput, ..a })
    &&& b.jql_input.wf()
    &&& b.jql_input.visible
    &&& b.jql_input.input.value@.len() == 0
    &&& b.jql_input.input.cursor == 0
    &&& b.jql_input.history_index is None
    &&& b.jql_input.pre_history_text@.len() == 0
    &&& b.jql_input.error is None
    &&& b.jql_input.history == a.jql_input.history
}

/// The outcome of opening help on `a`: the screen to return to is remembered,
/// unless help is already open.
pub open spec fn help_opened(a: App, b: App) -> bool {
    if a.state != AppState::Help {
        b == (App { previous_state: Some(a.state), state: AppState::Help, ..a })
    } else {
        b == a
    }
}

/// The outcome of running the query `jql` on `a`: it becomes the current JQL, is
/// added to the history of the configuration, and the issue list is fetched again.
pub open spec fn jql_executed(a: App, jql: Seq<char>, b: App) -> bool {
    &&& b == (App {
        current_jql: b.current_jql,
        config: b.config,
        refresh_requested: true,
        state: AppState::IssueList,
        ..a
    })
    &&& b.current_jql matches Some(q) && q@ == jql
    &&& b.config.profiles == a.config.profiles
    &&& b.config.settings == (Settings { jql_history: b.config.settings.jql_history, ..a.config.settings })
    &&& string_views(b.config.settings.jql_history@) == remember(
        string_views(a.config.settings.jql_history@),
        jql,
        10,
    )
}

/// The outcome of a command of the palette on `a`.
pub open spec fn command_done(a: App, action: CommandAction, b: App) -> bool {
    match action {
        CommandAction::GoToList => b == (App { state: AppState::IssueList, ..a }),
        CommandAction::GoToProfiles => b == (App { state: AppState::ProfileManagement, ..a }),
        CommandAction::GoToFilters => b == (App { state: AppState::FilterPanel, ..a }),
        CommandAction::GoToHelp => help_opened(a, b),
        CommandAction::RefreshIssues => b == (App { refresh_requested: true, ..a }),
        CommandAction::SwitchProfile => picker_shown(a, b),
        CommandAction::OpenJqlInput => jql_opened(a, b),
        CommandAction::ClearFilters => {
            &&& b == (App {
                current_jql: None,
                refresh_requested: true,
                notifications: b.notifications,
                ..a
            })
            &&& notified(a.notifications, b.notifications, NotificationType::Info, "Filters cleared"@)
        },
        CommandAction::ClearCache => {
            &&& b == (App { notifications: b.notifications, ..a })
            &&& notified(a.notifications, b.notifications, NotificationType::Info, "Cache cleared"@)
        },
    }
}

/// The JQL the issue list is fetched with, from the current JQL (or, without one,
/// the filters' JQL) and the sort clause: nothing when empty, unchanged when it
/// has its own ORDER BY, else with the sort clause after a space.
pub open spec fn effective_jql_of(current_jql: Option<Seq<char>>, filter_jql: Seq<char>, sort_jql: Seq<char>) -> Seq<char> {
    let base = match current_jql {
        Some(j) => j,
        None => filter_jql,
    };
    if base.len() == 0 {
        base
    } else if seq_contains(uppercase(base), "ORDER BY"@) {
        base
    } else {
        base + " "@ + sort_jql
    }
}

/// The outcome of a tick on `a`: the spinner turns, expired notifications go,
/// and the first tick leaves the loading screen for the issue list, stopping the
/// spinner.
pub open spec fn tick_handled(a: App, b: App) -> bool {
    &&& (({
        let l = a.loading;
        let turned = if l.active {
            LoadingIndicator {
                spinner_state: ((l.spinner_state + 1) % (frame_count(l.spinner_style) as int)) as usize,
                ..l
            }
        } else {
            l
        };
        &&& b.loading == (if a.state == AppState::Loading {
            LoadingIndicator { active: false, ..turned }
        } else {
            turned
        })
        &&& b.state == (if a.state == AppState::Loading {
            AppState::IssueList
        } else {
            a.state
        })
    }))
    &&& (b == (App {
        loading: b.loading,
        notifications: b.notifications,
        state: b.state,
        ..a
    }))
    &&& (b.notifications.max_visible == a.notifications.max_visible)
    &&& (exists|flags: Seq<bool>|
        flags.len() == a.notifications.notifications@.len()
            && b.notifications.notifications@ == keep_unexpired(
            a.notifications.notifications@,
            flags,
        ))
}

/// The outcome of a key press on `a`. An open dialog takes the key first, in this
/// order: the error dialog (Esc or Enter closes it), the profile switcher, the JQL
/// input, the command palette. Otherwise Ctrl+C quits, '?' opens help (outside the
/// issue details), 'p' opens the profile switcher and Shift+P the profile
/// management (from the issue list), Ctrl+P or Ctrl+K opens the palette. On the
/// issue list 'q' quits and 'f' opens the filter panel; on the issue details 'q'
/// or Esc goes back to the list, dropping the shown issue; Esc leaves the profile
/// selection, or help for the screen it was opened from. The other keys of the
/// issue list, the issue details, help, the filter panel and the profile list
/// belong to those screens' views, which this library does not hold: of them it
/// is stated only that they do not quit.
pub open spec fn key_handled(a: App, key: KeyEvent, b: App) -> bool {
    &&& (a.error_dialog.visible ==> b == (if key.code == KeyCode::Esc || key.code
        == KeyCode::Enter {
        App { error_dialog: ErrorDialog { visible: false, ..a.error_dialog }, ..a }
    } else {
        a
    }))
    &&& (!a.error_dialog.visible && a.profile_picker.visible ==> {
        let (pp, act) = profile_picker_step(a.profile_picker, key);
        let mid = App { profile_picker: pp, ..a };
        match act {
            Some(Some(name)) => if find_profile(mid.config.profile_list(), name) is Some {
                switched(mid, name, b)
            } else {
                &&& b == (App { notifications: b.notifications, ..mid })
                &&& notified(
                    mid.notifications,
                    b.notifications,
                    NotificationType::Error,
                    "Failed to switch profile: "@ + "profile not found: "@ + name,
                )
            },
            _ => b == mid,
        }
    })
    &&& (!a.error_dialog.visible && !a.profile_picker.visible && a.jql_input.visible ==> exists|
        r: Option<JqlAction>,
    |
        {
            &&& #[trigger] jql_input_handled(a.jql_input, key, b.jql_input, r)
            &&& match r {
                Some(JqlAction::Execute(q)) => jql_executed(App { jql_input: b.jql_input, ..a }, q@, b),
                Some(JqlAction::Cancel) => b == (App {
                    jql_input: b.jql_input,
                    state: AppState::IssueList,
                    ..a
                }),
                None => b == (App { jql_input: b.jql_input, ..a }),
            }
        })
    &&& (!a.error_dialog.visible && !a.profile_picker.visible && !a.jql_input.visible
        && a.command_palette.visible ==> exists|r: Option<CommandPaletteAction>|
        {
            &&& #[trigger] palette_handled(a.command_palette, key, b.command_palette, r)
            &&& match r {
                Some(CommandPaletteAction::Execute(act)) => command_done(
                    App { command_palette: b.command_palette, ..a },
                    act,
                    b,
                ),
                _ => b == (App { command_palette: b.command_palette, ..a }),
            }
        })
    &&& (!a.error_dialog.visible && !a.profile_picker.visible
        && !a.jql_input.visible && !a.command_palette.visible ==> {
        let s = a.state;
        let in_list = s == AppState::IssueList || s == AppState::Loading;
        if ctrl(key, 'c') {
            b == (App { should_quit: true, state: AppState::Exiting, ..a })
        } else if pressed_char(key, '?') && s != AppState::IssueDetail {
            help_opened(a, b)
        } else if pressed_char(key, 'p') && in_list {
            picker_shown(a, b)
        } else if key.code == KeyCode::Char('P') && key.modifiers == KeyModifiers::SHIFT && in_list {
            b == (App { state: AppState::ProfileManagement, ..a })
        } else if ctrl(key, 'p') || ctrl(key, 'k') {
            &&& b == (App { command_palette: b.command_palette, ..a })
            &&& b.command_palette.visible
            &&& b.command_palette.search_input.value@.len() == 0
            &&& b.command_palette.selected == 0
            &&& b.command_palette.registry == a.command_palette.registry
            &&& b.command_palette.search_input.cursor == 0
            &&& b.command_palette.search_input.masked == a.command_palette.search_input.masked
            &&& b.command_palette.search_input.placeholder == a.command_palette.search_input.placeholder
            &&& results_current(b.command_palette)
        } else if in_list && pressed_char(key, 'q') {
            b == (App { should_quit: true, state: AppState::Exiting, ..a })
        } else if in_list && pressed_char(key, 'f') {
            b == (App { state: AppState::FilterPanel, ..a })
        } else if s == AppState::IssueDetail && (pressed_char(key, 'q') || pressed(key, KeyCode::Esc)) {
            b == (App { state: AppState::IssueList, detail_issue: None, ..a })
        } else if s == AppState::ProfileSelect && key.code == KeyCode::Esc {
            b == (App { state: AppState::IssueList, ..a })
        } else if s == AppState::Help && pressed(key, KeyCode::Esc) {
            b == (App {
                state: match a.previous_state {
                    Some(p) => p,
                    None => AppState::IssueList,
                },
                previous_state: None,
                ..a
            })
        } else if s == AppState::ProfileSelect || s == AppState::JqlInput || s == AppState::Exiting {
            b == a
        } else {
            // Any other key goes to the screen's own view (the issue list, the
            // issue details, help, the filter panel or the profile list), which
            // this library does not hold; none of those views quits.
            b.should_quit == a.should_quit && b.state != AppState::Exiting
        }
    })
}

impl App {
    /// The text inputs are well formed and the palette's selection names a result.
    pub open spec fn wf(&self) -> bool {
        self.jql_input.wf() && self.command_palette.wf() && self.loading.wf()
    }

    /// The application for a configuration: loading, with the default profile
    /// active, no notification and no error shown.
    pub fn with_config(config: Config) -> (a: App)
        ensures
            a.state == AppState::Loading,
            !a.should_quit,
            a.selected_issue_key is None,
            a.detail_issue is None,
            a.notifications.notifications@.len() == 0,
            a.notifications.max_visible == 3,
            !a.error_dialog.visible,
            a.loading.active,
            a.loading.message@ == "Loading issues..."@,
            a.config == config,
            match config.settings.default_profile {
                Some(d) => match find_profile(config.profile_list(), d@) {
                    Some(i) => a.current_profile matches Some(p) && profile_view(p) == config.profile_list()[i],
                    None => a.current_profile is None,
                },
                None => if config.profiles@.len() > 0 {
                    a.current_profile matches Some(p) && profile_view(p) == config.profile_list()[0]
                } else {
                    a.current_profile is None
                },
            },
            a.wf(),
            !a.profile_picker.visible,
            !a.jql_input.visible,
            string_views(a.jql_input.history@) == string_views(config.settings.jql_history@).take(
                if config.settings.jql_history@.len() < 10 { config.settings.jql_history@.len() as int } else { 10 },
            ),
            !a.command_palette.visible,
            a.current_jql is None,
            a.previous_state is None,
            a.refresh_requested,
    {
        proof {
            if config.settings.default_profile is Some {
                lemma_find_spec(config.profile_list(), config.settings.default_profile->0@);
            }
        }
        let current_profile = match config.get_default_profile() {
            Some(p) => Some(p.duplicate()),
            None => None,
        };
        let config_history = copy_strings(&config.settings.jql_history);
        let mut loading = LoadingIndicator::with_message("Loading issues...");
        loading.start();
        App {
            state: AppState::Loading,
            should_quit: false,
            selected_issue_key: None,
            detail_issue: None,
            notifications: NotificationManager::new(),
            error_dialog: ErrorDialog::new(),
            loading,
            config,
            current_profile,
            profile_picker: ProfilePicker::new(),
            jql_input: JqlInput::with_history(config_history),
            command_palette: CommandPalette::new(),
            current_jql: None,
            previous_state: None,
            refresh_requested: true,
        }
    }

    /// Whether the application should quit.
    pub fn should_quit(&self) -> (b: bool)
        ensures
            b == self.should_quit,
    {
        self.should_quit
    }

    /// The name of the active profile.
    pub fn current_profile_name(&self) -> (r: Option<&str>)
        ensures
            match r {
                Some(n) => current_name(*self) == Some(n@),
                None => current_name(*self) is None,
            },
    {
        match &self.current_profile {
            Some(p) => Some(p.name.as_str()),
            None => None,
        }
    }

    /// Show an information message.
    pub fn notify_info(&mut self, message: &str)
        ensures
            *final(self) == (App { notifications: final(self).notifications, ..*old(self) }),
            notified(old(self).notifications, final(self).notifications, NotificationType::Info, message@),
    {
        self.notifications.info(message);
    }

    /// Show a success message.
    pub fn notify_success(&mut self, message: &str)
        ensures
            *final(self) == (App { notifications: final(self).notifications, ..*old(self) }),
            notified(old(self).notifications, final(self).notifications, NotificationType::Success, message@),
    {
        self.notifications.success(message);
    }

    /// Show a warning.
    pub fn notify_warning(&mut self, message: &str)
        ensures
            *final(self) == (App { notifications: final(self).notifications, ..*old(self) }),
            notified(old(self).notifications, final(self).notifications, NotificationType::Warning, message@),
    {
        self.notifications.warning(message);
    }

    /// Show an error message.
    pub fn notify_error(&mut self, message: &str)
        ensures
            *final(self) == (App { notifications: final(self).notifications, ..*old(self) }),
            notified(old(self).notifications, final(self).notifications, NotificationType::Error, message@),
    {
        self.notifications.error(message);
    }

    /// Whether the error dialog is shown.
    pub fn is_error_dialog_visible(&self) -> (b: bool)
        ensures
            b == self.error_dialog.visible,
    {
        self.error_dialog.visible
    }

    /// Close the error dialog.
    pub fn dismiss_error_dialog(&mut self)
        ensures
            *final(self) == (App {
                error_dialog: ErrorDialog { visible: false, ..old(self).error_dialog },
                ..*old(self)
            }),
    {
        self.error_dialog.dismiss();
    }

    /// The screen shown.
    pub fn state(&self) -> (s: AppState)
        ensures
            s == self.state,
    {
        self.state
    }

    /// The notifications.
    pub fn notifications(&self) -> (n: &NotificationManager)
        ensures
            *n == self.notifications,
    {
        &self.notifications
    }

    /// The configuration.
    pub fn config(&self) -> (c: &Config)
        ensures
            *c == self.config,
    {
        &self.config
    }

    /// The number of configured profiles.
    pub fn profile_count(&self) -> (n: usize)
        ensures
            n == self.config.profiles@.len(),
    {
        self.config.profiles.len()
    }

    /// The active profile.
    pub fn current_profile(&self) -> (p: Option<&Profile>)
        ensures
            match p {
                Some(x) => self.current_profile == Some(*x),
                None => self.current_profile is None,
            },
    {
        match &self.current_profile {
            Some(x) => Some(x),
            None => None,
        }
    }

    /// The key of the issue shown in detail.
    pub fn selected_issue_key(&self) -> (k: Option<&String>)
        ensures
            match k {
                Some(x) => self.selected_issue_key == Some(*x),
                None => self.selected_issue_key is None,
            },
    {
        match &self.selected_issue_key {
            Some(x) => Some(x),
            None => None,
        }
    }

    /// Show an issue on the detail screen; it becomes the selected issue.
    pub fn set_detail_issue(&mut self, issue: Issue)
        ensures
            *final(self) == (App {
                selected_issue_key: final(self).selected_issue_key,
                detail_issue: Some(issue),
                ..*old(self)
            }),
            final(self).selected_issue_key matches Some(k) && k@ == issue.key@,
    {
        self.selected_issue_key = Some(copy_str(issue.key.as_str()));
        self.detail_issue = Some(issue);
    }

    /// The issue shown on the detail screen, if any.
    pub fn detail_issue(&self) -> (r: Option<&Issue>)
        ensures
            match r {
                Some(i) => self.detail_issue == Some(*i),
                None => self.detail_issue is None,
            },
    {
        match &self.detail_issue {
            Some(i) => Some(i),
            None => None,
        }
    }

    /// Whether the profile switcher is open.
    pub fn is_profile_picker_visible(&self) -> (b: bool)
        ensures
            b == self.profile_picker.visible,
    {
        self.profile_picker.visible
    }

    /// Whether the loading indicator runs.
    pub fn is_loading(&self) -> (b: bool)
        ensures
            b == self.loading.active,
    {
        self.loading.active
    }

    /// Start the loading indicator with a message.
    pub fn start_loading(&mut self, message: &str)
        requires
            old(self).wf(),
        ensures
            final(self).wf(),
            *final(self) == (App { loading: final(self).loading, ..*old(self) }),
            final(self).loading.active,
            final(self).loading.message@ == message@,
            final(self).loading.spinner_state == 0,
            final(self).loading.spinner_style == old(self).loading.spinner_style,
    {
        self.loading.start_with_message(message);
    }

    /// Stop the loading indicator.
    pub fn stop_loading(&mut self)
        ensures
            *final(self) == (App { loading: LoadingIndicator { active: false, ..old(self).loading }, ..*old(self) }),
    {
        self.loading.stop();
    }

    /// A tick (see `tick_handled`).
    pub fn handle_tick(&mut self)
        requires
            old(self).wf(),
        ensures
            final(self).wf(),
            tick_handled(*old(self), *final(self)),
    {
        self.loading.tick();
        self.notifications.tick();
        if self.state == AppState::Loading {
            self.state = AppState::IssueList;
            self.loading.stop();
        }
    }

    /// Handle an event: a quit request quits, a key goes to `handle_key_event`, a
    /// tick to `handle_tick`, and a resize changes nothing.
    pub fn update(&mut self, event: Event)
        requires
            old(self).wf(),
        ensures
            final(self).wf(),
            event is Quit ==> *final(self) == (App { should_quit: true, state: AppState::Exiting, ..*old(self) }),
            event is Resize ==> *final(self) == *old(self),
            event is Tick ==> tick_handled(*old(self), *final(self)),
            event matches Event::Key(k) ==> key_handled(*old(self), k, *final(self)),
    {
        match event {
            Event::Quit => {
                self.should_quit = true;
                self.state = AppState::Exiting;
            },
            Event::Key(k) => {
                self.handle_key_event(k);
            },
            Event::Resize(_, _) => {},
            Event::Tick => {
                self.handle_tick();
            },
        }
    }

    /// Report an error: a critical one in the error dialog, any other as an error
    /// notification with its message for the user.
    pub fn handle_error(&mut self, error: &AppError)
        ensures
            critical(*error) ==> {
                &&& *final(self) == (App { error_dialog: final(self).error_dialog, ..*old(self) })
                &&& final(self).error_dialog.visible
                &&& final(self).error_dialog.title@ == "Error"@
                &&& final(self).error_dialog.message@ == user_message_of(*error)
                &&& match final(self).error_dialog.suggestion {
                    Some(s) => suggestion_for(*error) == Some(s@),
                    None => suggestion_for(*error) is None,
                }
            },
            !critical(*error) ==> {
                &&& *final(self) == (App { notifications: final(self).notifications, ..*old(self) })
                &&& notified(
                    old(self).notifications,
                    final(self).notifications,
                    NotificationType::Error,
                    user_message_of(*error),
                )
            },
    {
        if error.is_critical() {
            self.error_dialog.show(error);
        } else {
            let msg = error.user_message();
            self.notifications.push(Notification::error(msg.as_str()));
        }
    }

    /// Show the error dialog with a title and message.
    pub fn show_error_dialog(&mut self, title: &str, message: &str)
        ensures
            *final(self) == (App { error_dialog: final(self).error_dialog, ..*old(self) }),
            final(self).error_dialog.visible,
            final(self).error_dialog.title@ == title@,
            final(self).error_dialog.message@ == message@,
            final(self).error_dialog.details is None,
            final(self).error_dialog.suggestion is None,
    {
        self.error_dialog.show_message(title, message);
    }

    /// Open the profile management screen.
    pub fn open_profile_management(&mut self)
        ensures
            *final(self) == (App { state: AppState::ProfileManagement, ..*old(self) }),
    {
        self.state = AppState::ProfileManagement;
    }

    /// Show an error under the JQL input.
    pub fn set_jql_error(&mut self, error: &str)
        requires
            old(self).wf(),
        ensures
            final(self).wf(),
            *final(self) == (App { jql_input: final(self).jql_input, ..*old(self) }),
            final(self).jql_input == (JqlInput { error: final(self).jql_input.error, ..old(self).jql_input }),
            final(self).jql_input.error matches Some(e) && e@ == error@,
    {
        self.jql_input.set_error(error);
    }

    /// Switch to the profile named `profile_name`; fails with `ProfileNotFound`,
    /// changing nothing, when there is none.
    pub fn switch_profile(&mut self, profile_name: &str) -> (r: Result<(), ConfigError>)
        ensures
            find_profile(old(self).config.profile_list(), profile_name@) is None ==> (r matches Err(
                ConfigError::ProfileNotFound(n),
            ) && n@ == profile_name@ && *final(self) == *old(self)),
            find_profile(old(self).config.profile_list(), profile_name@) is Some ==> (r is Ok
                && switched(*old(self), profile_name@, *final(self))),
    {
        proof {
            lemma_find_spec(self.config.profile_list(), profile_name@);
        }
        let profile = match self.config.get_profile(profile_name) {
            Some(p) => p.duplicate(),
            None => {
                return Err(ConfigError::ProfileNotFound(copy_str(profile_name)));
            },
        };
        let same = match &self.current_profile {
            Some(p) => str_eq(p.name.as_str(), profile_name),
            None => false,
        };
        if same {
            return Ok(());
        }
        self.selected_issue_key = None;
        self.detail_issue = None;
        self.refresh_requested = true;
        self.current_profile = Some(profile);
        let msg = concat2("Switched to profile: ", profile_name);
        self.notifications.success(msg.as_str());
        Ok(())
    }

    /// Make the profile at `index` the default; fails with `ProfileNotFound`
    /// ("index N"), changing nothing, when there is none.
    pub fn set_default_profile(&mut self, index: usize) -> (r: Result<(), ConfigError>)
        ensures
            index >= old(self).config.profiles@.len() ==> (r matches Err(ConfigError::ProfileNotFound(m))
                && m@ == "index "@ + decimal(index as nat) && *final(self) == *old(self)),
            index < old(self).config.profiles@.len() ==> {
                let name = old(self).config.profiles@[index as int].name@;
                &&& r is Ok
                &&& *final(self) == (App {
                    config: final(self).config,
                    notifications: final(self).notifications,
                    ..*old(self)
                })
                &&& final(self).config.profiles == old(self).config.profiles
                &&& final(self).config.settings.default_profile matches Some(d) && d@ == name
                &&& final(self).config.settings == (crate::config::Settings {
                    default_profile: final(self).config.settings.default_profile,
                    ..old(self).config.settings
                })
                &&& notified(
                    old(self).notifications,
                    final(self).notifications,
                    NotificationType::Success,
                    "'"@ + name + "' set as default profile"@,
                )
            },
    {
        if index >= self.config.profiles.len() {
            let n = to_decimal(index as u64);
            return Err(ConfigError::ProfileNotFound(concat2("index ", n.as_str())));
        }
        let name = copy_str(self.config.profiles[index].name.as_str());
        let msg = concat3("'", name.as_str(), "' set as default profile");
        self.config.settings.default_profile = Some(name);
        self.notifications.success(msg.as_str());
        Ok(())
    }
    /// Delete the profile at `index` (and its token, whatever the keyring answers);
    /// when it was active, the first remaining profile becomes active. Fails with
    /// `ProfileNotFound` ("index N"), changing nothing, when there is none.
    pub fn delete_profile(&mut self, index: usize) -> (r: Result<(), ConfigError>)
        ensures
            index >= old(self).config.profiles@.len() ==> (r matches Err(ConfigError::ProfileNotFound(m))
                && m@ == "index "@ + decimal(index as nat) && *final(self) == *old(self)),
            index < old(self).config.profiles@.len() ==> {
                let name = old(self).config.profiles@[index as int].name@;
                &&& r is Ok
                &&& final(self).config.profile_list() == old(self).config.profile_list().filter(not_named(name))
                &&& final(self).config.settings == (Settings {
                    default_profile: final(self).config.settings.default_profile,
                    ..old(self).config.settings
                })
                &&& (opt_chars(old(self).config.settings.default_profile) == Some(name) ==> final(self).config.settings.default_profile is None)
                &&& (opt_chars(old(self).config.settings.default_profile) != Some(name) ==> final(self).config.settings.default_profile == old(self).config.settings.default_profile)
                &&& notified(
                    old(self).notifications,
                    final(self).notifications,
                    NotificationType::Success,
                    "Profile '"@ + name + "' deleted"@,
                )
                &&& if current_name(*old(self)) == Some(name) {
                    &&& *final(self) == (App {
                        config: final(self).config,
                        notifications: final(self).notifications,
                        current_profile: final(self).current_profile,
                        selected_issue_key: None,
                        detail_issue: None,
                        refresh_requested: true,
                        ..*old(self)
                    })
                    &&& (final(self).config.profiles@.len() > 0 ==> (final(self).current_profile matches Some(p)
                        && profile_view(p) == final(self).config.profile_list()[0]))
                    &&& (final(self).config.profiles@.len() == 0 ==> final(self).current_profile is None)
                } else {
                    *final(self) == (App {
                        config: final(self).config,
                        notifications: final(self).notifications,
                        ..*old(self)
                    })
                }
            },
    {
        if index >= self.config.profiles.len() {
            let n = to_decimal(index as u64);
            return Err(ConfigError::ProfileNotFound(concat2("index ", n.as_str())));
        }
        let name = copy_str(self.config.profiles[index].name.as_str());
        let _ = delete_token(name.as_str());
        let ghost before = self.config.profile_list();
        proof {
            assert(before[index as int].0 == name@);
        }
        let removed = self.config.remove_profile(name.as_str());
        if !removed {
            return Err(ConfigError::ProfileNotFound(name));
        }
        let was_current = match &self.current_profile {
            Some(p) => str_eq(p.name.as_str(), name.as_str()),
            None => false,
        };
        if was_current {
            self.current_profile = match self.config.profiles.first() {
                Some(p) => Some(p.duplicate()),
                None => None,
            };
            self.selected_issue_key = None;
            self.detail_issue = None;
            self.refresh_requested = true;
        }
        let msg = concat3("Profile '", name.as_str(), "' deleted");
        self.notifications.success(msg.as_str());
        Ok(())
    }

    /// Open the quick profile switcher (see `picker_shown`).
    pub fn show_profile_picker(&mut self)
        ensures
            picker_shown(*old(self), *final(self)),
    {
        let n = self.config.profiles.len();
        if n == 0 {
            self.notifications.warning("No profiles configured");
            return;
        }
        if n == 1 {
            self.notifications.info("Only one profile configured");
            return;
        }
        let mut names: Vec<String> = Vec::new();
        let mut i: usize = 0;
        while i < n
            invariant
                n == self.config.profiles@.len(),
                i <= n,
                string_views(names@) == profile_names(self.config.profiles@).take(i as int),
            decreases n - i,
        {
            let ghost before = names@;
            let c = copy_str(self.config.profiles[i].name.as_str());
            names.push(c);
            proof {
                lemma_string_views_push(before, c);
                assert(profile_names(self.config.profiles@).take(i + 1) =~= profile_names(
                    self.config.profiles@,
                ).take(i as int).push(self.config.profiles@[i as int].name@));
            }
            i += 1;
        }
        proof {
            assert(profile_names(self.config.profiles@).take(n as int) =~= profile_names(self.config.profiles@));
        }
        let current = match &self.current_profile {
            Some(p) => p.name.as_str(),
            None => "",
        };
        proof {
            reveal_strlit("");
            assert(""@ =~= Seq::<char>::empty());
        }
        self.profile_picker.show(names, current);
    }

    /// Open the JQL input (see `jql_opened`).
    pub fn open_jql_input(&mut self)
        requires
            old(self).wf(),
        ensures
            jql_opened(*old(self), *final(self)),
            final(self).wf(),
    {
        self.jql_input.show();
        self.state = AppState::JqlInput;
    }

    /// Run a JQL query typed directly (see `jql_executed`).
    pub fn execute_jql(&mut self, jql: String)
        ensures
            jql_executed(*old(self), jql@, *final(self)),
    {
        let ghost q = jql@;
        self.config.settings.add_jql_to_history(copy_str(jql.as_str()));
        self.current_jql = Some(jql);
        self.refresh_requested = true;
        self.state = AppState::IssueList;
    }

    /// The JQL the issue list is fetched with, given the filters' JQL and the sort
    /// clause of the list (see `effective_jql_of`).
    pub fn effective_jql(&self, filter_jql: &str, sort_jql: &str) -> (r: String)
        ensures
            r@ == effective_jql_of(opt_chars(self.current_jql), filter_jql@, sort_jql@),
    {
        let base = match &self.current_jql {
            Some(j) => copy_str(j.as_str()),
            None => copy_str(filter_jql),
        };
        if base.as_str().is_empty() {
            return base;
        }
        let upper = to_uppercase(base.as_str());
        if contains(upper.as_str(), "ORDER BY") {
            return base;
        }
        concat3(base.as_str(), " ", sort_jql)
    }

    /// Run a command of the palette (see `command_done`).
    pub fn execute_command_action(&mut self, action: CommandAction)
        requires
            old(self).wf(),
        ensures
            command_done(*old(self), action, *final(self)),
            final(self).wf(),
    {
        match action {
            CommandAction::GoToList => {
                self.state = AppState::IssueList;
            },
            CommandAction::GoToProfiles => {
                self.state = AppState::ProfileManagement;
            },
            CommandAction::GoToFilters => {
                self.state = AppState::FilterPanel;
            },
            CommandAction::GoToHelp => {
                if self.state != AppState::Help {
                    self.previous_state = Some(self.state);
                    self.state = AppState::Help;
                }
            },
            CommandAction::RefreshIssues => {
                self.refresh_requested = true;
            },
            CommandAction::SwitchProfile => {
                self.show_profile_picker();
            },
            CommandAction::OpenJqlInput => {
                self.open_jql_input();
            },
            CommandAction::ClearFilters => {
                self.current_jql = None;
                self.refresh_requested = true;
                self.notifications.info("Filters cleared");
            },
            CommandAction::ClearCache => {
                self.notifications.info("Cache cleared");
            },
        }
    }
    /// Handle a key press (see `key_handled`).
    pub fn handle_key_event(&mut self, key: KeyEvent)
        requires
            old(self).wf(),
        ensures
            final(self).wf(),
            key_handled(*old(self), key, *final(self)),
    {
        if self.error_dialog.visible {
            if key.code == KeyCode::Esc || key.code == KeyCode::Enter {
                self.error_dialog.dismiss();
            }
            return;
        }
        if self.profile_picker.visible {
            let action = self.profile_picker.handle_input(key);
            match action {
                Some(ProfilePickerAction::Select(name)) => {
                    proof {
                        lemma_find_spec(self.config.profile_list(), name@);
                    }
                    match self.switch_profile(name.as_str()) {
                        Ok(()) => {},
                        Err(e) => {
                            let m = e.to_string();
                            let msg = concat2("Failed to switch profile: ", m.as_str());
                            assert(msg@ =~= "Failed to switch profile: "@ + "profile not found: "@ + name@);
                            self.notifications.error(msg.as_str());
                        },
                    }
                },
                _ => {},
            }
            return;
        }
        if self.jql_input.visible {
            let ghost a = *self;
            let action = self.jql_input.handle_input(key);
            let ghost act = action;
            match action {
                Some(JqlAction::Execute(jql)) => {
                    self.execute_jql(jql);
                },
                Some(JqlAction::Cancel) => {
                    self.state = AppState::IssueList;
                },
                None => {},
            }
            assert(jql_input_handled(a.jql_input, key, self.jql_input, act));
            return;
        }
        if self.command_palette.visible {
            let ghost a = *self;
            let action = self.command_palette.handle_input(key);
            let ghost act = action;
            match action {
                Some(CommandPaletteAction::Execute(c)) => {
                    self.execute_command_action(c);
                },
                _ => {},
            }
            assert(palette_handled(a.command_palette, key, self.command_palette, act));
            return;
        }
        let in_list = self.state == AppState::IssueList || self.state == AppState::Loading;
        match (key.code, key.modifiers) {
            (KeyCode::Char('c'), KeyModifiers::CONTROL) => {
                self.should_quit = true;
                self.state = AppState::Exiting;
                return;
            },
            (KeyCode::Char('?'), KeyModifiers::NONE) => {
                if self.state != AppState::IssueDetail {
                    if self.state != AppState::Help {
                        self.previous_state = Some(self.state);
                        self.state = AppState::Help;
                    }
                    return;
                }
            },
            (KeyCode::Char('p'), KeyModifiers::NONE) => {
                if in_list {
                    self.show_profile_picker();
                    return;
                }
            },
            (KeyCode::Char('P'), KeyModifiers::SHIFT) => {
                if in_list {
                    self.state = AppState::ProfileManagement;
                    return;
                }
            },
            (KeyCode::Char('p'), KeyModifiers::CONTROL) | (KeyCode::Char('k'), KeyModifiers::CONTROL) => {
                self.command_palette.show();
                return;
            },
            _ => {},
        }
        if in_list {
            if key.code == KeyCode::Char('q') && key.modifiers == KeyModifiers::NONE {
                self.should_quit = true;
                self.state = AppState::Exiting;
            } else if key.code == KeyCode::Char('f') && key.modifiers == KeyModifiers::NONE {
                self.state = AppState::FilterPanel;
            }
        } else if self.state == AppState::IssueDetail {
            if (key.code == KeyCode::Char('q') || key.code == KeyCode::Esc) && key.modifiers == KeyModifiers::NONE {
                self.state = AppState::IssueList;
                self.detail_issue = None;
            }
        } else if self.state == AppState::ProfileSelect {
            if key.code == KeyCode::Esc {
                self.state = AppState::IssueList;
            }
        } else if self.state == AppState::Help {
            if key.code == KeyCode::Esc && key.modifiers == KeyModifiers::NONE {
                self.state = match self.previous_state {
                    Some(p) => p,
                    None => AppState::IssueList,
                };
                self.previous_state = None;
            }
        }
    }
}

/// The query the issue list is fetched with: the effective JQL, or, when that is
/// empty, the user's own issues (assigned or reported) with the sort clause.
pub open spec fn fetch_query_of(effective: Seq<char>, sort_jql: Seq<char>) -> Seq<char> {
    if effective.len() == 0 {
        "assignee = currentUser() OR reporter = currentUser() "@ + sort_jql
    } else {
        effective
    }
}

/// The query the issue list is fetched with (see `fetch_query_of`).
pub fn fetch_query(effective: &str, sort_jql: &str) -> (q: String)
    ensures
        q@ == fetch_query_of(effective@, sort_jql@),
{
    if effective.is_empty() {
        concat2("assignee = currentUser() OR reporter = currentUser() ", sort_jql)
    } else {
        copy_str(effective)
    }
}

/// What a fetch of the issue list waits for.
#[derive(Debug, Clone, Copy, PartialEq, Eq, Structural)]
pub enum FetchPhase {
    /// The cached results of the query.
    AwaitCache,
    /// The server's answer to the query.
    AwaitSearch,
    /// Nothing: the fetch is over.
    Done,
}

/// A fetch of the issue list: cache first, then the server.
#[derive(Debug, Clone, Copy, PartialEq, Eq, Structural)]
pub struct IssueFetch {
    /// What the fetch waits for.
    pub phase: FetchPhase,
    /// Whether there is a client to ask the server.
    pub has_client: bool,
    /// Whether cached results are shown.
    pub showing_cache: bool,
}

/// What the fetch asks for next.
#[derive(Debug, Clone, Copy, PartialEq, Eq, Structural)]
pub enum FetchRequest {
    /// Read the cached results of the query.
    ReadCache,
    /// Search the server with the query.
    Search,
    /// Nothing more.
    Nothing,
}

/// The answer to a request of the fetch.
#[derive(Debug, Clone, Copy, PartialEq, Eq, Structural)]
pub enum FetchResponse {
    /// The cache holds results for the query.
    CacheHit,
    /// The cache holds none.
    CacheMiss,
    /// The server answered.
    Fetched,
    /// The server could not be asked or failed.
    Failed,
}

/// What the list shows after an answer.
#[derive(Debug, Clone, Copy, PartialEq, Eq, Structural)]
pub enum FetchEffect {
    /// Show the cached results, marked as from the cache.
    ShowCached,
    /// Store the server's results in the cache and show them, marked fresh.
    ShowFresh,
    /// Keep showing the cached results (the refresh failed).
    KeepCached,
    /// Stop loading and show "Failed to fetch issues: " and the error.
    ShowError,
    /// Stop loading, marked offline: nothing to show and no server to ask.
    Offline,
    /// Nothing changes.
    Nothing,
}

/// A fetch that starts with the cache when there is one, else with the server
/// when there is a client, else ends at once, offline.
pub open spec fn fetch_started(has_cache: bool, has_client: bool) -> (IssueFetch, FetchEffect) {
    if has_cache {
        (IssueFetch { phase: FetchPhase::AwaitCache, has_client, showing_cache: false }, FetchEffect::Nothing)
    } else if has_client {
        (IssueFetch { phase: FetchPhase::AwaitSearch, has_client, showing_cache: false }, FetchEffect::Nothing)
    } else {
        (IssueFetch { phase: FetchPhase::Done, has_client, showing_cache: false }, FetchEffect::Offline)
    }
}

/// The request that goes with each phase.
pub open spec fn request_for(f: IssueFetch) -> FetchRequest {
    match f.phase {
        FetchPhase::AwaitCache => FetchRequest::ReadCache,
        FetchPhase::AwaitSearch => FetchRequest::Search,
        FetchPhase::Done => FetchRequest::Nothing,
    }
}

/// The fetch after an answer: cached results are shown at once and then refreshed
/// from the server when there is a client; fresh results replace them; a failed
/// refresh keeps the cached results, a failed first fetch shows the error.
pub open spec fn fetch_step(f: IssueFetch, r: FetchResponse) -> (IssueFetch, FetchEffect) {
    match (f.phase, r) {
        (FetchPhase::AwaitCache, FetchResponse::CacheHit) => (
            IssueFetch {
                phase: if f.has_client { FetchPhase::AwaitSearch } else { FetchPhase::Done },
                showing_cache: true,
                ..f
            },
            FetchEffect::ShowCached,
        ),
        (FetchPhase::AwaitCache, FetchResponse::CacheMiss) => if f.has_client {
            (IssueFetch { phase: FetchPhase::AwaitSearch, ..f }, FetchEffect::Nothing)
        } else {
            (IssueFetch { phase: FetchPhase::Done, ..f }, FetchEffect::Offline)
        },
        (FetchPhase::AwaitSearch, FetchResponse::Fetched) => (
            IssueFetch { phase: FetchPhase::Done, ..f },
            FetchEffect::ShowFresh,
        ),
        (FetchPhase::AwaitSearch, FetchResponse::Failed) => (
            IssueFetch { phase: FetchPhase::Done, ..f },
            if f.showing_cache { FetchEffect::KeepCached } else { FetchEffect::ShowError },
        ),
        _ => (f, FetchEffect::Nothing),
    }
}

/// Start a fetch of the issue list (see `fetch_started`).
pub fn start_fetch(has_cache: bool, has_client: bool) -> (r: (IssueFetch, FetchEffect))
    ensures
        r == fetch_started(has_cache, has_client),
{
    if has_cache {
        (IssueFetch { phase: FetchPhase::AwaitCache, has_client, showing_cache: false }, FetchEffect::Nothing)
    } else if has_client {
        (IssueFetch { phase: FetchPhase::AwaitSearch, has_client, showing_cache: false }, FetchEffect::Nothing)
    } else {
        (IssueFetch { phase: FetchPhase::Done, has_client, showing_cache: false }, FetchEffect::Offline)
    }
}

/// The request the fetch makes next (see `request_for`).
pub fn next_request(f: &IssueFetch) -> (r: FetchRequest)
    ensures
        r == request_for(*f),
{
    match f.phase {
        FetchPhase::AwaitCache => FetchRequest::ReadCache,
        FetchPhase::AwaitSearch => FetchRequest::Search,
        FetchPhase::Done => FetchRequest::Nothing,
    }
}

/// The fetch after an answer, with what the list shows (see `fetch_step`).
pub fn on_response(f: IssueFetch, r: FetchResponse) -> (out: (IssueFetch, FetchEffect))
    ensures
        out == fetch_step(f, r),
{
    match (f.phase, r) {
        (FetchPhase::AwaitCache, FetchResponse::CacheHit) => (
            IssueFetch {
                phase: if f.has_client { FetchPhase::AwaitSearch } else { FetchPhase::Done },
                showing_cache: true,
                ..f
            },
            FetchEffect::ShowCached,
        ),
        (FetchPhase::AwaitCache, FetchResponse::CacheMiss) => if f.has_client {
            (IssueFetch { phase: FetchPhase::AwaitSearch, ..f }, FetchEffect::Nothing)
        } else {
            (IssueFetch { phase: FetchPhase::Done, ..f }, FetchEffect::Offline)
        },
        (FetchPhase::AwaitSearch, FetchResponse::Fetched) => (
            IssueFetch { phase: FetchPhase::Done, ..f },
            FetchEffect::ShowFresh,
        ),
        (FetchPhase::AwaitSearch, FetchResponse::Failed) => (
            IssueFetch { phase: FetchPhase::Done, ..f },
            if f.showing_cache { FetchEffect::KeepCached } else { FetchEffect::ShowError },
        ),
        _ => (f, FetchEffect::Nothing),
    }
}

/// Whether `r` answers the request `q`.
pub open spec fn answers(q: FetchRequest, r: FetchResponse) -> bool {
    match q {
        FetchRequest::ReadCache => r == FetchResponse::CacheHit || r == FetchResponse::CacheMiss,
        FetchRequest::Search => r == FetchResponse::Fetched || r == FetchResponse::Failed,
        FetchRequest::Nothing => true,
    }
}

/// A fetch ends: answering its requests, it is done after two answers at most;
/// and once cached results are shown, a failed refresh keeps them instead of
/// showing an error.
pub proof fn law_fetch_ends(has_cache: bool, has_client: bool, r1: FetchResponse, r2: FetchResponse)
    requires
        answers(request_for(fetch_started(has_cache, has_client).0), r1),
        answers(request_for(fetch_step(fetch_started(has_cache, has_client).0, r1).0), r2),
    ensures
        fetch_step(fetch_step(fetch_started(has_cache, has_client).0, r1).0, r2).0.phase == FetchPhase::Done,
        fetch_step(fetch_started(has_cache, has_client).0, r1).0.showing_cache ==> fetch_step(
            fetch_step(fetch_started(has_cache, has_client).0, r1).0,
            r2,
        ).1 != FetchEffect::ShowError,
{
}

/// Only two keys quit: Ctrl+C, and a plain 'q' on the issue list (or while it
/// loads), each with no dialog, switcher, JQL input or palette open. Any other key
/// in any state leaves a running application running (help closed with Esc
/// returns to the screen it was opened from, so that screen must not be the
/// exit).
pub proof fn law_only_quit_keys_quit(a: App, key: KeyEvent, b: App)
    requires
        key_handled(a, key, b),
        !a.should_quit,
        a.state != AppState::Exiting,
        a.previous_state != Some(AppState::Exiting),
    ensures
        (b.should_quit || b.state == AppState::Exiting) ==> {
            &&& !a.error_dialog.visible
            &&& !a.profile_picker.visible
            &&& !a.jql_input.visible
            &&& !a.command_palette.visible
            &&& (ctrl(key, 'c') || (pressed_char(key, 'q') && (a.state == AppState::IssueList || a.state
                == AppState::Loading)))
        },
{
    if a.error_dialog.visible {
    } else if a.profile_picker.visible {
        let (pp, act) = profile_picker_step(a.profile_picker, key);
        let mid = App { profile_picker: pp, ..a };
        match act {
            Some(Some(name)) => {
                if find_profile(mid.config.profile_list(), name) is Some {
                    assert(switched(mid, name, b));
                }
            },
            _ => {},
        }
    } else if a.jql_input.visible {
        let r = choose|r: Option<JqlAction>|
            #[trigger] jql_input_handled(a.jql_input, key, b.jql_input, r) && match r {
                Some(JqlAction::Execute(q)) => jql_executed(App { jql_input: b.jql_input, ..a }, q@, b),
                Some(JqlAction::Cancel) => b == (App {
                    jql_input: b.jql_input,
                    state: AppState::IssueList,
                    ..a
                }),
                None => b == (App { jql_input: b.jql_input, ..a }),
            };
        match r {
            Some(JqlAction::Execute(q)) => {},
            _ => {},
        }
    } else if a.command_palette.visible {
        let r = choose|r: Option<CommandPaletteAction>|
            #[trigger] palette_handled(a.command_palette, key, b.command_palette, r) && match r {
                Some(CommandPaletteAction::Execute(act)) => command_done(
                    App { command_palette: b.command_palette, ..a },
                    act,
                    b,
                ),
                _ => b == (App { command_palette: b.command_palette, ..a }),
            };
        match r {
            Some(CommandPaletteAction::Execute(act)) => {
                let m = App { command_palette: b.command_palette, ..a };
                assert(command_done(m, act, b));
                match act {
                    CommandAction::GoToHelp => {
                        assert(help_opened(m, b));
                    },
                    CommandAction::SwitchProfile => {
                        assert(picker_shown(m, b));
                    },
                    CommandAction::OpenJqlInput => {
                        assert(jql_opened(m, b));
                    },
                    _ => {},
                }
            },
            _ => {},
        }
    } else {
        if pressed_char(key, '?') && a.state != AppState::IssueDetail {
            assert(help_opened(a, b));
        } else if pressed_char(key, 'p') && (a.state == AppState::IssueList || a.state == AppState::Loading) {
            assert(picker_shown(a, b));
        }
    }
}

/// With a client the server is always asked: the fetch either starts with a
/// search or, whatever the cache answers, searches next. Without a client the
/// server is never asked, and only then does a fetch end offline.
pub proof fn law_client_is_asked(has_cache: bool, has_client: bool, r1: FetchResponse)
    requires
        answers(request_for(fetch_started(has_cache, has_client).0), r1),
    ensures
        has_client ==> request_for(fetch_started(has_cache, has_client).0) == FetchRequest::Search
            || request_for(fetch_step(fetch_started(has_cache, has_client).0, r1).0) == FetchRequest::Search,
        !has_client ==> request_for(fetch_started(has_cache, has_client).0) != FetchRequest::Search
            && request_for(fetch_step(fetch_started(has_cache, has_client).0, r1).0) != FetchRequest::Search,
        fetch_started(has_cache, has_client).1 == FetchEffect::Offline ==> !has_client,
        fetch_step(fetch_started(has_cache, has_client).0, r1).1 == FetchEffect::Offline ==> !has_client,
{
}

/// A fetch waiting for the cache that learns the cache has nothing asks the
/// server next when there is a client.
pub proof fn law_cache_miss_searches(f: IssueFetch)
    requires
        f.phase == FetchPhase::AwaitCache,
        f.has_client,
    ensures
        request_for(fetch_step(f, FetchResponse::CacheMiss).0) == FetchRequest::Search,
        fetch_step(f, FetchResponse::CacheMiss).1 != FetchEffect::Offline,
{
}

} // verus!
