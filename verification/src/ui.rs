pub mod log;

use vstd::prelude::*;

use crate::event::{Event, EventModel};
use crate::ui::log::{Download, DownloadModel, Log, LogModel, StatusModel};

verus! {

/// Which of the three panes has keyboard/controller focus.
#[derive(Debug, Clone, Copy, PartialEq, Eq, Structural)]
pub enum FocusedLog {
    LauncherLog,
    GameStdout,
    GameStderr,
}

/// The input device last used, for help-text rendering only.
#[derive(Debug, Clone, Copy, PartialEq, Eq, Structural)]
pub enum InputMethod {
    Controller,
    Keyboard,
}

/// Normal three-pane view, or one pane fullscreen with the visible height
/// captured for scroll bounds.
#[derive(Debug, Clone, Copy, PartialEq, Eq, Structural)]
pub enum DisplayMode {
    Normal,
    Fullscreen(usize),
}

#[derive(Debug, Clone, Copy, PartialEq, Eq, Structural)]
pub enum ExitPopupState {
    Hidden,
    Visible,
}

#[derive(Debug, Clone, Copy, PartialEq, Eq, Structural)]
pub enum TerminalFocus {
    Focused,
    Unfocused,
}

/// Guard against duplicate self-update downloads: set to `Requested` when the
/// first download worker is spawned, never reset.
#[derive(Debug, Clone, Copy, PartialEq, Eq, Structural)]
pub enum UpdateStatus {
    NotRequested,
    Requested,
}

/// The authoritative UI snapshot, owned by the consumer loop and mutated only
/// by folding one event at a time.
pub struct AppState {
    pub log: Log,
    pub game_stdout: Vec<String>,
    pub game_stderr: Vec<String>,
    pub stdout_scroll: usize,
    pub stderr_scroll: usize,
    pub focused_log: FocusedLog,
    pub display_mode: DisplayMode,
    pub exit_popup: ExitPopupState,
    pub terminal_focus: TerminalFocus,
    pub input_method: InputMethod,
    pub launcher_update_available: Option<String>,
    pub update_status: UpdateStatus,
}

/// Model of the UI snapshot.
pub struct AppStateModel {
    pub log: LogModel,
    pub game_stdout: Seq<Seq<char>>,
    pub game_stderr: Seq<Seq<char>>,
    pub stdout_scroll: usize,
    pub stderr_scroll: usize,
    pub focused_log: FocusedLog,
    pub display_mode: DisplayMode,
    pub exit_popup: ExitPopupState,
    pub terminal_focus: TerminalFocus,
    pub input_method: InputMethod,
    pub launcher_update_available: Option<Seq<char>>,
    pub update_status: UpdateStatus,
}

impl View for AppState {
    type V = AppStateModel;

    open spec fn view(&self) -> AppStateModel {
        AppStateModel {
            log: self.log@,
            game_stdout: self.game_stdout@.map_values(|s: String| s@),
            game_stderr: self.game_stderr@.map_values(|s: String| s@),
            stdout_scroll: self.stdout_scroll,
            stderr_scroll: self.stderr_scroll,
            focused_log: self.focused_log,
            display_mode: self.display_mode,
            exit_popup: self.exit_popup,
            terminal_focus: self.terminal_focus,
            input_method: self.input_method,
            launcher_update_available: log::opt_string_view(self.launcher_update_available),
            update_status: self.update_status,
        }
    }
}

/// The state every session starts from: empty logs, launcher pane focused,
/// normal view, popup hidden, terminal focused, no update known.
pub open spec fn spec_init_state() -> AppStateModel {
    AppStateModel {
        log: LogModel {
            local_hash_msg: None,
            remote_hash_msg: None,
            launcher_status_msg: None,
            game_download: None,
            launcher_update: None,
            extra_log: Seq::empty(),
        },
        game_stdout: Seq::empty(),
        game_stderr: Seq::empty(),
        stdout_scroll: 0,
        stderr_scroll: 0,
        focused_log: FocusedLog::LauncherLog,
        display_mode: DisplayMode::Normal,
        exit_popup: ExitPopupState::Hidden,
        terminal_focus: TerminalFocus::Focused,
        input_method: InputMethod::Controller,
        launcher_update_available: None,
        update_status: UpdateStatus::NotRequested,
    }
}

/// The forward three-way ring over the panes.
pub open spec fn spec_next_focus(f: FocusedLog) -> FocusedLog {
    match f {
        FocusedLog::LauncherLog => FocusedLog::GameStdout,
        FocusedLog::GameStdout => FocusedLog::GameStderr,
        FocusedLog::GameStderr => FocusedLog::LauncherLog,
    }
}

/// The reverse three-way ring over the panes.
pub open spec fn spec_prev_focus(f: FocusedLog) -> FocusedLog {
    match f {
        FocusedLog::LauncherLog => FocusedLog::GameStderr,
        FocusedLog::GameStdout => FocusedLog::LauncherLog,
        FocusedLog::GameStderr => FocusedLog::GameStdout,
    }
}

/// The pane focus after one backward step undoes one forward step, and the
/// other way round: `prev_log` is the inverse of `next_log`.
pub proof fn lemma_prev_log_inverts_next_log(f: FocusedLog)
    ensures
        spec_prev_focus(spec_next_focus(f)) == f,
        spec_next_focus(spec_prev_focus(f)) == f,
{
}

/// Cycling the pane focus forward three times returns to the starting pane:
/// the focus ring is a 3-cycle.
pub proof fn lemma_next_log_three_cycle(f: FocusedLog)
    ensures
        spec_next_focus(spec_next_focus(spec_next_focus(f))) == f,
        spec_next_focus(f) != f,
{
}

impl AppState {
    pub fn init() -> (s: AppState)
        ensures
            s@ == spec_init_state(),
    {
        let s = AppState {
            log: Log::new(),
            game_stdout: Vec::new(),
            game_stderr: Vec::new(),
            stdout_scroll: 0,
            stderr_scroll: 0,
            focused_log: FocusedLog::LauncherLog,
            display_mode: DisplayMode::Normal,
            exit_popup: ExitPopupState::Hidden,
            terminal_focus: TerminalFocus::Focused,
            input_method: InputMethod::Controller,
            launcher_update_available: None,
            update_status: UpdateStatus::NotRequested,
        };
        proof {
            assert(s@.game_stdout =~= Seq::<Seq<char>>::empty());
            assert(s@.game_stderr =~= Seq::<Seq<char>>::empty());
        }
        s
    }

    pub fn next_log(&mut self)
        ensures
            final(self)@ == (AppStateModel {
                focused_log: spec_next_focus(old(self)@.focused_log),
                ..old(self)@
            }),
    {
        self.focused_log = match self.focused_log {
            FocusedLog::LauncherLog => FocusedLog::GameStdout,
            FocusedLog::GameStdout => FocusedLog::GameStderr,
            FocusedLog::GameStderr => FocusedLog::LauncherLog,
        };
    }

    pub fn prev_log(&mut self)
        ensures
            final(self)@ == (AppStateModel {
                focused_log: spec_prev_focus(old(self)@.focused_log),
                ..old(self)@
            }),
    {
        self.focused_log = match self.focused_log {
            FocusedLog::LauncherLog => FocusedLog::GameStderr,
            FocusedLog::GameStdout => FocusedLog::LauncherLog,
            FocusedLog::GameStderr => FocusedLog::GameStdout,
        };
    }

    pub fn enter_fullscreen(&mut self, visible_height: usize)
        ensures
            final(self)@ == (AppStateModel {
                display_mode: DisplayMode::Fullscreen(visible_height),
                ..old(self)@
            }),
    {
        self.display_mode = DisplayMode::Fullscreen(visible_height);
    }

    pub fn exit_fullscreen(&mut self)
        ensures
            final(self)@ == (AppStateModel { display_mode: DisplayMode::Normal, ..old(self)@ }),
    {
        self.display_mode = DisplayMode::Normal;
    }

    pub fn show_exit_popup(&mut self)
        ensures
            final(self)@ == (AppStateModel { exit_popup: ExitPopupState::Visible, ..old(self)@ }),
    {
        self.exit_popup = ExitPopupState::Visible;
    }

    pub fn hide_exit_popup(&mut self)
        ensures
            final(self)@ == (AppStateModel { exit_popup: ExitPopupState::Hidden, ..old(self)@ }),
    {
        self.exit_popup = ExitPopupState::Hidden;
    }

    /// Record whether the terminal has focus; a report that matches the
    /// current state is a no-op.
    pub fn set_terminal_focus(&mut self, focused: bool)
        ensures
            final(self)@ == (AppStateModel {
                terminal_focus: if focused {
                    TerminalFocus::Focused
                } else {
                    TerminalFocus::Unfocused
                },
                ..old(self)@
            }),
    {
        if (focused && self.terminal_focus == TerminalFocus::Unfocused) || (!focused
            && self.terminal_focus == TerminalFocus::Focused) {
            self.terminal_focus = if focused {
                TerminalFocus::Focused
            } else {
                TerminalFocus::Unfocused
            };
        }
    }

    pub fn controller_input_used(&mut self)
        ensures
            final(self)@ == (AppStateModel { input_method: InputMethod::Controller, ..old(self)@ }),
    {
        self.input_method = InputMethod::Controller;
    }

    pub fn keyboard_input_used(&mut self)
        ensures
            final(self)@ == (AppStateModel { input_method: InputMethod::Keyboard, ..old(self)@ }),
    {
        self.input_method = InputMethod::Keyboard;
    }

    /// One step up in the focused output pane; only the stdout and stderr
    /// panes scroll, and never above the first line.
    pub fn scroll_up(&mut self)
        ensures
            final(self)@ == spec_scroll_up(old(self)@),
    {
        match self.focused_log {
            FocusedLog::GameStdout => {
                if self.stdout_scroll > 0 {
                    self.stdout_scroll = self.stdout_scroll - 1;
                }
            },
            FocusedLog::GameStderr => {
                if self.stderr_scroll > 0 {
                    self.stderr_scroll = self.stderr_scroll - 1;
                }
            },
            _ => {},
        }
    }

    /// One step down in the focused output pane, clamped so the offset stays
    /// within `[0, len - 1]`.
    pub fn scroll_down(&mut self)
        ensures
            final(self)@ == spec_scroll_down(old(self)@),
    {
        match self.focused_log {
            FocusedLog::GameStdout => {
                let max_scroll = saturating_dec(self.game_stdout.len());
                if self.stdout_scroll < max_scroll {
                    self.stdout_scroll = self.stdout_scroll + 1;
                }
            },
            FocusedLog::GameStderr => {
                let max_scroll = saturating_dec(self.game_stderr.len());
                if self.stderr_scroll < max_scroll {
                    self.stderr_scroll = self.stderr_scroll + 1;
                }
            },
            _ => {},
        }
    }

    /// Jump to the first line of the focused output pane.
    pub fn scroll_to_top(&mut self)
        ensures
            final(self)@ == (match old(self)@.focused_log {
                FocusedLog::GameStdout => AppStateModel { stdout_scroll: 0, ..old(self)@ },
                FocusedLog::GameStderr => AppStateModel { stderr_scroll: 0, ..old(self)@ },
                FocusedLog::LauncherLog => old(self)@,
            }),
    {
        match self.focused_log {
            FocusedLog::GameStdout => {
                self.stdout_scroll = 0;
            },
            FocusedLog::GameStderr => {
                self.stderr_scroll = 0;
            },
            _ => {},
        }
    }

    /// Jump to the last line of the focused output pane.
    pub fn scroll_to_bottom(&mut self)
        ensures
            final(self)@ == (match old(self)@.focused_log {
                FocusedLog::GameStdout => AppStateModel {
                    stdout_scroll: spec_max_scroll(old(self)@.game_stdout.len()),
                    ..old(self)@
                },
                FocusedLog::GameStderr => AppStateModel {
                    stderr_scroll: spec_max_scroll(old(self)@.game_stderr.len()),
                    ..old(self)@
                },
                FocusedLog::LauncherLog => old(self)@,
            }),
    {
        match self.focused_log {
            FocusedLog::GameStdout => {
                self.stdout_scroll = saturating_dec(self.game_stdout.len());
            },
            FocusedLog::GameStderr => {
                self.stderr_scroll = saturating_dec(self.game_stderr.len());
            },
            _ => {},
        }
    }
}

/// `n - 1`, except that 0 stays 0.
fn saturating_dec(n: usize) -> (r: usize)
    ensures
        r == spec_max_scroll(n as nat),
{
    if n > 0 {
        n - 1
    } else {
        0
    }
}

/// The largest admissible scroll offset for a pane of `len` lines.
pub open spec fn spec_max_scroll(len: nat) -> usize {
    if len > 0 {
        (len - 1) as usize
    } else {
        0
    }
}

pub open spec fn spec_scroll_up(m: AppStateModel) -> AppStateModel {
    match m.focused_log {
        FocusedLog::GameStdout => AppStateModel {
            stdout_scroll: if m.stdout_scroll > 0 {
                (m.stdout_scroll - 1) as usize
            } else {
                0
            },
            ..m
        },
        FocusedLog::GameStderr => AppStateModel {
            stderr_scroll: if m.stderr_scroll > 0 {
                (m.stderr_scroll - 1) as usize
            } else {
                0
            },
            ..m
        },
        FocusedLog::LauncherLog => m,
    }
}

/// What the consumer loop must do after folding one event: nothing, or spawn
/// one worker that downloads the launcher update for the given version.
pub enum SystemAction {
    Nothing,
    SpawnUpdateDownload(String),
}

/// Model of a fold action.
pub enum SystemActionModel {
    Nothing,
    SpawnUpdateDownload(Seq<char>),
}

impl View for SystemAction {
    type V = SystemActionModel;

    open spec fn view(&self) -> SystemActionModel {
        match self {
            SystemAction::Nothing => SystemActionModel::Nothing,
            SystemAction::SpawnUpdateDownload(v) => SystemActionModel::SpawnUpdateDownload(v@),
        }
    }
}

/// The text line a titled log entry is stored as.
pub open spec fn titled_line(title: Seq<char>, text: Seq<char>) -> Seq<char> {
    title + ": "@ + text
}

/// The pure fold of one event into the UI snapshot: the new snapshot and the
/// action the consumer loop owes. `version` is the running launcher's own
/// version, used in status lines. Input, focus, tick and resize events leave
/// the snapshot unchanged here; they are dispatched separately.
pub open spec fn spec_fold(m: AppStateModel, e: EventModel, version: Seq<char>) -> (
    AppStateModel,
    SystemActionModel,
) {
    match e {
        EventModel::AccessingOnlineHash => (
            AppStateModel {
                log: LogModel { remote_hash_msg: Some("accessing"@), ..m.log },
                ..m
            },
            SystemActionModel::Nothing,
        ),
        EventModel::OfflineError(err) => (
            AppStateModel {
                log: LogModel {
                    remote_hash_msg: Some("unavailable. No internet connection: "@ + err),
                    ..m.log
                },
                ..m
            },
            SystemActionModel::Nothing,
        ),
        EventModel::RemoteHash(h) => (
            AppStateModel { log: LogModel { remote_hash_msg: Some(h), ..m.log }, ..m },
            SystemActionModel::Nothing,
        ),
        EventModel::ComputingLocalHash => (
            AppStateModel {
                log: LogModel { local_hash_msg: Some("Computing"@), ..m.log },
                ..m
            },
            SystemActionModel::Nothing,
        ),
        EventModel::LocalHash(h) => (
            AppStateModel { log: LogModel { local_hash_msg: Some(h), ..m.log }, ..m },
            SystemActionModel::Nothing,
        ),
        EventModel::HashAreEqual(eq) => (
            AppStateModel {
                log: LogModel {
                    extra_log: m.log.extra_log.push(
                        if eq {
                            titled_line(
                                "Hashes are the same"@,
                                "You have the latest version of the game."@,
                            )
                        } else {
                            titled_line("Hashes are different"@, "There is a newer version."@)
                        },
                    ),
                    ..m.log
                },
                ..m
            },
            SystemActionModel::Nothing,
        ),
        EventModel::StartDownloadingBinary(total) => (
            AppStateModel {
                log: LogModel {
                    game_download: Some(
                        DownloadModel { total, current: 0u64, status: StatusModel::InProgress },
                    ),
                    ..m.log
                },
                ..m
            },
            SystemActionModel::Nothing,
        ),
        EventModel::DownloadProgress(downloaded) => (
            AppStateModel {
                log: LogModel {
                    game_download: match m.log.game_download {
                        Some(d) => Some(DownloadModel { current: downloaded, ..d }),
                        None => None,
                    },
                    ..m.log
                },
                ..m
            },
            SystemActionModel::Nothing,
        ),
        EventModel::RemoteBinaryDownloaded => (
            AppStateModel {
                log: LogModel {
                    game_download: match m.log.game_download {
                        Some(d) => Some(DownloadModel { status: StatusModel::Complete, ..d }),
                        None => None,
                    },
                    ..m.log
                },
                ..m
            },
            SystemActionModel::Nothing,
        ),
        EventModel::BinaryDownloadError(err) => (
            AppStateModel {
                log: LogModel {
                    game_download: match m.log.game_download {
                        Some(d) => Some(
                            DownloadModel { status: StatusModel::Errored(err), ..d },
                        ),
                        None => None,
                    },
                    ..m.log
                },
                ..m
            },
            SystemActionModel::Nothing,
        ),
        EventModel::NoLocalBinaryFound => (
            AppStateModel {
                log: LogModel {
                    extra_log: m.log.extra_log.push("Local game binary not found"@),
                    ..m.log
                },
                ..m
            },
            SystemActionModel::Nothing,
        ),
        EventModel::Launching => (
            AppStateModel {
                log: LogModel {
                    extra_log: m.log.extra_log.push("Launching the game..."@),
                    ..m.log
                },
                ..m
            },
            SystemActionModel::Nothing,
        ),
        EventModel::GameExecutionError(err) => (
            AppStateModel {
                log: LogModel {
                    extra_log: m.log.extra_log.push(titled_line("Execution error"@, err)),
                    ..m.log
                },
                ..m
            },
            SystemActionModel::Nothing,
        ),
        EventModel::GameOutput(line) => (
            AppStateModel { game_stdout: m.game_stdout.push(line), ..m },
            SystemActionModel::Nothing,
        ),
        EventModel::GameErrorOutput(line) => (
            AppStateModel { game_stderr: m.game_stderr.push(line), ..m },
            SystemActionModel::Nothing,
        ),
        EventModel::LauncherError(err) => (
            AppStateModel {
                log: LogModel {
                    extra_log: m.log.extra_log.push(titled_line("Error"@, err)),
                    ..m.log
                },
                ..m
            },
            SystemActionModel::Nothing,
        ),
        EventModel::CheckingForLauncherUpdate => (
            AppStateModel {
                log: LogModel {
                    launcher_status_msg: Some("checking for a newer version"@),
                    ..m.log
                },
                ..m
            },
            SystemActionModel::Nothing,
        ),
        EventModel::LauncherUpdateAvailable(v) => (
            AppStateModel {
                log: LogModel {
                    launcher_status_msg: Some(
                        "an update is available "@ + version + " -> "@ + v,
                    ),
                    ..m.log
                },
                launcher_update_available: Some(v),
                ..m
            },
            SystemActionModel::Nothing,
        ),
        EventModel::LauncherNoUpdateAvailable => (
            AppStateModel {
                log: LogModel {
                    launcher_status_msg: Some("already at the latest version - "@ + version),
                    ..m.log
                },
                ..m
            },
            SystemActionModel::Nothing,
        ),
        EventModel::StartDownloadingLauncherUpdate => (
            AppStateModel {
                log: LogModel {
                    launcher_update: Some(
                        DownloadModel {
                            total: None,
                            current: 0u64,
                            status: StatusModel::InProgress,
                        },
                    ),
                    ..m.log
                },
                ..m
            },
            SystemActionModel::Nothing,
        ),
        EventModel::LauncherDownloadProgress(downloaded, total) => (
            AppStateModel {
                log: LogModel {
                    launcher_update: match m.log.launcher_update {
                        Some(d) => Some(
                            DownloadModel {
                                current: downloaded,
                                total: if d.total is None && total is Some {
                                    total
                                } else {
                                    d.total
                                },
                                ..d
                            },
                        ),
                        None => None,
                    },
                    ..m.log
                },
                ..m
            },
            SystemActionModel::Nothing,
        ),
        EventModel::LauncherUpdateDownloaded => (
            AppStateModel {
                log: LogModel {
                    launcher_update: match m.log.launcher_update {
                        Some(d) => Some(DownloadModel { status: StatusModel::Complete, ..d }),
                        None => None,
                    },
                    ..m.log
                },
                ..m
            },
            SystemActionModel::Nothing,
        ),
        EventModel::LauncherApplyingUpdate => (
            AppStateModel {
                log: LogModel { launcher_status_msg: Some("applying update..."@), ..m.log },
                ..m
            },
            SystemActionModel::Nothing,
        ),
        EventModel::LauncherUpdateApplied => (
            AppStateModel {
                log: LogModel {
                    launcher_status_msg: Some("update applied. Please restart the launcher."@),
                    ..m.log
                },
                ..m
            },
            SystemActionModel::Nothing,
        ),
        EventModel::RequestLauncherUpdate => match m.launcher_update_available {
            Some(v) => if m.update_status == UpdateStatus::NotRequested {
                (
                    AppStateModel { update_status: UpdateStatus::Requested, ..m },
                    SystemActionModel::SpawnUpdateDownload(v),
                )
            } else {
                (m, SystemActionModel::Nothing)
            },
            None => (m, SystemActionModel::Nothing),
        },
        _ => (m, SystemActionModel::Nothing),
    }
}

/// Requesting the launcher update is honored exactly once: with an update
/// known available and not yet requested, the first request spawns the one
/// download worker and flips the guard, and a second request immediately
/// after is a no-op.
pub proof fn lemma_update_requested_only_once(m: AppStateModel, version: Seq<char>, v: Seq<char>)
    requires
        m.launcher_update_available == Some(v),
        m.update_status == UpdateStatus::NotRequested,
    ensures
        spec_fold(m, EventModel::RequestLauncherUpdate, version).1
            == SystemActionModel::SpawnUpdateDownload(v),
        spec_fold(
            spec_fold(m, EventModel::RequestLauncherUpdate, version).0,
            EventModel::RequestLauncherUpdate,
            version,
        ).1 == SystemActionModel::Nothing,
        spec_fold(
            spec_fold(m, EventModel::RequestLauncherUpdate, version).0,
            EventModel::RequestLauncherUpdate,
            version,
        ).0 == spec_fold(m, EventModel::RequestLauncherUpdate, version).0,
{
}

/// Fold one system event into the snapshot and return the action the caller
/// owes. The caller is the single consumer loop; it performs the returned
/// action (spawning at most one update worker) after each fold.
pub fn handle_system_event(app_state: &mut AppState, current_version: &str, event: Event) -> (r:
    SystemAction)
    ensures
        final(app_state)@ == spec_fold(old(app_state)@, event@, current_version@).0,
        r@ == spec_fold(old(app_state)@, event@, current_version@).1,
{
    match event {
        Event::AccessingOnlineHash => {
            app_state.log.remote_hash_msg = Some(String::from_str("accessing"));
            SystemAction::Nothing
        },
        Event::OfflineError(err) => {
            app_state.log.remote_hash_msg = Some(
                String::from_str("unavailable. No internet connection: ").concat(err.as_str()),
            );
            SystemAction::Nothing
        },
        Event::RemoteHash(hash_value) => {
            app_state.log.remote_hash_msg = Some(hash_value);
            SystemAction::Nothing
        },
        Event::ComputingLocalHash => {
            app_state.log.local_hash_msg = Some(String::from_str("Computing"));
            SystemAction::Nothing
        },
        Event::LocalHash(hash_value) => {
            app_state.log.local_hash_msg = Some(hash_value);
            SystemAction::Nothing
        },
        Event::HashAreEqual(eq) => {
            if eq {
                app_state.log.add_titled(
                    String::from_str("Hashes are the same"),
                    String::from_str("You have the latest version of the game."),
                );
            } else {
                app_state.log.add_titled(
                    String::from_str("Hashes are different"),
                    String::from_str("There is a newer version."),
                );
            }
            SystemAction::Nothing
        },
        Event::StartDownloadingBinary(total_download_size) => {
            app_state.log.start_download(total_download_size);
            SystemAction::Nothing
        },
        Event::DownloadProgress(downloaded) => {
            app_state.log.set_download_progress(downloaded);
            SystemAction::Nothing
        },
        Event::RemoteBinaryDownloaded => {
            app_state.log.mark_download_complete();
            SystemAction::Nothing
        },
        Event::BinaryDownloadError(err) => {
            app_state.log.set_download_error(err);
            SystemAction::Nothing
        },
        Event::NoLocalBinaryFound => {
            app_state.log.add_text(String::from_str("Local game binary not found"));
            SystemAction::Nothing
        },
        Event::GameBinaryUpdated => { SystemAction::Nothing },
        Event::Launching => {
            app_state.log.add_text(String::from_str("Launching the game..."));
            SystemAction::Nothing
        },
        Event::GameExecutionError(err) => {
            app_state.log.add_titled(String::from_str("Execution error"), err);
            SystemAction::Nothing
        },
        Event::GameOutput(stdout_line) => {
            app_state.game_stdout.push(stdout_line);
            proof {
                assert(app_state@.game_stdout =~= old(app_state)@.game_stdout.push(
                    app_state.game_stdout@.last()@,
                ));
            }
            SystemAction::Nothing
        },
        Event::GameErrorOutput(stderr_line) => {
            app_state.game_stderr.push(stderr_line);
            proof {
                assert(app_state@.game_stderr =~= old(app_state)@.game_stderr.push(
                    app_state.game_stderr@.last()@,
                ));
            }
            SystemAction::Nothing
        },
        Event::LauncherError(err) => {
            app_state.log.add_titled(String::from_str("Error"), err);
            SystemAction::Nothing
        },
        Event::CheckingForLauncherUpdate => {
            app_state.log.launcher_status_msg = Some(
                String::from_str("checking for a newer version"),
            );
            SystemAction::Nothing
        },
        Event::LauncherUpdateAvailable(version) => {
            app_state.log.launcher_status_msg = Some(
                String::from_str("an update is available ").concat(current_version).concat(
                    " -> ",
                ).concat(version.as_str()),
            );
            app_state.launcher_update_available = Some(version);
            SystemAction::Nothing
        },
        Event::LauncherNoUpdateAvailable => {
            app_state.log.launcher_status_msg = Some(
                String::from_str("already at the latest version - ").concat(current_version),
            );
            SystemAction::Nothing
        },
        Event::StartDownloadingLauncherUpdate => {
            app_state.log.launcher_update = Some(Download::new(None));
            SystemAction::Nothing
        },
        Event::LauncherDownloadProgress(downloaded, total) => {
            if let Some(download) = &mut app_state.log.launcher_update {
                download.set_progress(downloaded);
                if download.total().is_none() && total.is_some() {
                    download.set_total(total);
                }
            }
            SystemAction::Nothing
        },
        Event::LauncherUpdateDownloaded => {
            if let Some(download) = &mut app_state.log.launcher_update {
                download.mark_complete();
            }
            SystemAction::Nothing
        },
        Event::LauncherApplyingUpdate => {
            app_state.log.launcher_status_msg = Some(String::from_str("applying update..."));
            SystemAction::Nothing
        },
        Event::LauncherUpdateApplied => {
            app_state.log.launcher_status_msg = Some(
                String::from_str("update applied. Please restart the launcher."),
            );
            SystemAction::Nothing
        },
        Event::RequestLauncherUpdate => {
            if let Some(version) = &app_state.launcher_update_available {
                if app_state.update_status == UpdateStatus::NotRequested {
                    let requested = version.clone();
                    app_state.update_status = UpdateStatus::Requested;
                    return SystemAction::SpawnUpdateDownload(requested);
                }
            }
            SystemAction::Nothing
        },
        _ => { SystemAction::Nothing },
    }
}

pub open spec fn spec_scroll_down(m: AppStateModel) -> AppStateModel {
    match m.focused_log {
        FocusedLog::GameStdout => AppStateModel {
            stdout_scroll: if m.stdout_scroll < spec_max_scroll(m.game_stdout.len()) {
                (m.stdout_scroll + 1) as usize
            } else {
                m.stdout_scroll
            },
            ..m
        },
        FocusedLog::GameStderr => AppStateModel {
            stderr_scroll: if m.stderr_scroll < spec_max_scroll(m.game_stderr.len()) {
                (m.stderr_scroll + 1) as usize
            } else {
                m.stderr_scroll
            },
            ..m
        },
        FocusedLog::LauncherLog => m,
    }
}

} // verus!
