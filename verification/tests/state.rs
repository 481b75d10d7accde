use grav_launcher::event::{Axis, AxisSign, Button, Event, Key};
use grav_launcher::input::{
    handle_controller_axis, handle_controller_input, handle_keyboard_input, InputAction,
};
use grav_launcher::ui::log::DownloadStatus;
use grav_launcher::ui::{
    handle_system_event, AppState, DisplayMode, ExitPopupState, FocusedLog, InputMethod,
    SystemAction, TerminalFocus, UpdateStatus,
};

const VERSION: &str = "0.1.0";

#[test]
fn focus_cycles_forward_through_three_panes() {
    let mut s = AppState::init();
    assert_eq!(s.focused_log, FocusedLog::LauncherLog);
    s.next_log();
    assert_eq!(s.focused_log, FocusedLog::GameStdout);
    s.next_log();
    assert_eq!(s.focused_log, FocusedLog::GameStderr);
    s.next_log();
    assert_eq!(s.focused_log, FocusedLog::LauncherLog);
}

#[test]
fn prev_log_undoes_next_log() {
    let mut s = AppState::init();
    s.next_log();
    s.prev_log();
    assert_eq!(s.focused_log, FocusedLog::LauncherLog);
    s.prev_log();
    assert_eq!(s.focused_log, FocusedLog::GameStderr);
    s.next_log();
    assert_eq!(s.focused_log, FocusedLog::LauncherLog);
}

#[test]
fn esc_under_popup_hides_it_and_changes_nothing_else() {
    let mut s = AppState::init();
    s.show_exit_popup();
    assert_eq!(s.exit_popup, ExitPopupState::Visible);
    let action = handle_keyboard_input(&mut s, Key::Esc);
    assert_eq!(action, InputAction::Nothing);
    assert_eq!(s.exit_popup, ExitPopupState::Hidden);
    assert_eq!(s.focused_log, FocusedLog::LauncherLog);
    assert_eq!(s.display_mode, DisplayMode::Normal);
    assert_eq!(s.terminal_focus, TerminalFocus::Focused);
    assert_eq!(s.update_status, UpdateStatus::NotRequested);
    assert!(s.game_stdout.is_empty());
    assert!(s.game_stderr.is_empty());
    assert!(s.log.extra_log.is_empty());
}

#[test]
fn popup_confirm_keys_exit() {
    let mut s = AppState::init();
    s.show_exit_popup();
    assert_eq!(handle_keyboard_input(&mut s, Key::Enter), InputAction::Exit);
    let mut s = AppState::init();
    s.show_exit_popup();
    assert_eq!(
        handle_keyboard_input(&mut s, Key::Char('y')),
        InputAction::Exit
    );
}

#[test]
fn double_update_request_spawns_one_worker() {
    let mut s = AppState::init();
    let first = handle_system_event(
        &mut s,
        VERSION,
        Event::LauncherUpdateAvailable(String::from("v2.0.0")),
    );
    assert!(matches!(first, SystemAction::Nothing));
    assert_eq!(s.launcher_update_available, Some(String::from("v2.0.0")));
    assert_eq!(s.update_status, UpdateStatus::NotRequested);

    let second = handle_system_event(&mut s, VERSION, Event::RequestLauncherUpdate);
    match second {
        SystemAction::SpawnUpdateDownload(v) => assert_eq!(v, "v2.0.0"),
        SystemAction::Nothing => panic!("first request must spawn the download worker"),
    }
    assert_eq!(s.update_status, UpdateStatus::Requested);

    let third = handle_system_event(&mut s, VERSION, Event::RequestLauncherUpdate);
    assert!(
        matches!(third, SystemAction::Nothing),
        "second request must be a no-op"
    );
    assert_eq!(s.update_status, UpdateStatus::Requested);
}

#[test]
fn update_request_without_known_update_is_ignored() {
    let mut s = AppState::init();
    let action = handle_system_event(&mut s, VERSION, Event::RequestLauncherUpdate);
    assert!(matches!(action, SystemAction::Nothing));
    assert_eq!(s.update_status, UpdateStatus::NotRequested);
}

#[test]
fn update_request_key_requires_armed_state() {
    let mut s = AppState::init();
    assert_eq!(
        handle_keyboard_input(&mut s, Key::Char('u')),
        InputAction::Nothing
    );
    s.launcher_update_available = Some(String::from("v9"));
    assert_eq!(
        handle_keyboard_input(&mut s, Key::Char('u')),
        InputAction::RequestUpdate
    );
    s.update_status = UpdateStatus::Requested;
    assert_eq!(
        handle_keyboard_input(&mut s, Key::Char('u')),
        InputAction::Nothing
    );
}

#[test]
fn fold_records_hash_progress_messages() {
    let mut s = AppState::init();
    handle_system_event(&mut s, VERSION, Event::AccessingOnlineHash);
    assert_eq!(s.log.remote_hash_msg, Some(String::from("accessing")));
    handle_system_event(&mut s, VERSION, Event::RemoteHash(String::from("abc")));
    assert_eq!(s.log.remote_hash_msg, Some(String::from("abc")));
    handle_system_event(&mut s, VERSION, Event::ComputingLocalHash);
    assert_eq!(s.log.local_hash_msg, Some(String::from("Computing")));
    handle_system_event(&mut s, VERSION, Event::LocalHash(String::from("abc")));
    assert_eq!(s.log.local_hash_msg, Some(String::from("abc")));
    handle_system_event(&mut s, VERSION, Event::HashAreEqual(true));
    assert_eq!(
        s.log.extra_log,
        vec![String::from(
            "Hashes are the same: You have the latest version of the game."
        )]
    );
}

#[test]
fn fold_offline_error_names_the_cause() {
    let mut s = AppState::init();
    handle_system_event(
        &mut s,
        VERSION,
        Event::OfflineError(String::from("timed out")),
    );
    assert_eq!(
        s.log.remote_hash_msg,
        Some(String::from(
            "unavailable. No internet connection: timed out"
        ))
    );
}

#[test]
fn fold_tracks_game_download_lifecycle() {
    let mut s = AppState::init();
    handle_system_event(&mut s, VERSION, Event::StartDownloadingBinary(Some(100)));
    {
        let d = s.log.game_download.as_ref().unwrap();
        assert_eq!(d.current(), 0);
        assert_eq!(*d.total(), Some(100));
        assert!(matches!(d.status(), DownloadStatus::InProgress));
    }
    handle_system_event(&mut s, VERSION, Event::DownloadProgress(40));
    assert_eq!(s.log.game_download.as_ref().unwrap().current(), 40);
    handle_system_event(&mut s, VERSION, Event::DownloadProgress(100));
    assert_eq!(s.log.game_download.as_ref().unwrap().current(), 100);
    handle_system_event(&mut s, VERSION, Event::RemoteBinaryDownloaded);
    assert!(matches!(
        s.log.game_download.as_ref().unwrap().status(),
        DownloadStatus::Complete
    ));
}

#[test]
fn fold_reports_download_error() {
    let mut s = AppState::init();
    handle_system_event(&mut s, VERSION, Event::StartDownloadingBinary(None));
    handle_system_event(
        &mut s,
        VERSION,
        Event::BinaryDownloadError(String::from("connection reset")),
    );
    match s.log.game_download.as_ref().unwrap().status() {
        DownloadStatus::Errored(msg) => assert_eq!(msg, "connection reset"),
        _ => panic!("download must be marked errored"),
    }
}

#[test]
fn fold_update_status_lines_name_both_versions() {
    let mut s = AppState::init();
    handle_system_event(
        &mut s,
        VERSION,
        Event::LauncherUpdateAvailable(String::from("v0.2.0")),
    );
    assert_eq!(
        s.log.launcher_status_msg,
        Some(String::from("an update is available 0.1.0 -> v0.2.0"))
    );
    handle_system_event(&mut s, VERSION, Event::LauncherNoUpdateAvailable);
    assert_eq!(
        s.log.launcher_status_msg,
        Some(String::from("already at the latest version - 0.1.0"))
    );
}

#[test]
fn fold_launcher_update_progress_keeps_first_total() {
    let mut s = AppState::init();
    handle_system_event(&mut s, VERSION, Event::StartDownloadingLauncherUpdate);
    {
        let d = s.log.launcher_update.as_ref().unwrap();
        assert_eq!(*d.total(), None);
        assert_eq!(d.current(), 0);
    }
    handle_system_event(
        &mut s,
        VERSION,
        Event::LauncherDownloadProgress(10, Some(50)),
    );
    {
        let d = s.log.launcher_update.as_ref().unwrap();
        assert_eq!(d.current(), 10);
        assert_eq!(*d.total(), Some(50));
    }
    // Once set, the total is kept even if a later event offers another.
    handle_system_event(
        &mut s,
        VERSION,
        Event::LauncherDownloadProgress(20, Some(60)),
    );
    {
        let d = s.log.launcher_update.as_ref().unwrap();
        assert_eq!(d.current(), 20);
        assert_eq!(*d.total(), Some(50));
    }
    handle_system_event(&mut s, VERSION, Event::LauncherUpdateDownloaded);
    assert!(matches!(
        s.log.launcher_update.as_ref().unwrap().status(),
        DownloadStatus::Complete
    ));
}

#[test]
fn fold_appends_process_output_lines_in_order() {
    let mut s = AppState::init();
    handle_system_event(&mut s, VERSION, Event::GameOutput(String::from("one")));
    handle_system_event(&mut s, VERSION, Event::GameOutput(String::from("two")));
    handle_system_event(&mut s, VERSION, Event::GameErrorOutput(String::from("bad")));
    assert_eq!(s.game_stdout, vec!["one".to_string(), "two".to_string()]);
    assert_eq!(s.game_stderr, vec!["bad".to_string()]);
}

#[test]
fn scrolling_clamps_to_pane_bounds() {
    let mut s = AppState::init();
    for i in 0..3 {
        handle_system_event(&mut s, VERSION, Event::GameOutput(format!("line {i}")));
    }
    s.next_log(); // focus stdout
    assert_eq!(s.focused_log, FocusedLog::GameStdout);
    s.scroll_up();
    assert_eq!(s.stdout_scroll, 0, "never scrolls above the first line");
    for _ in 0..10 {
        s.scroll_down();
    }
    assert_eq!(s.stdout_scroll, 2, "clamped to len - 1");
    s.scroll_to_top();
    assert_eq!(s.stdout_scroll, 0);
    s.scroll_to_bottom();
    assert_eq!(s.stdout_scroll, 2);
}

#[test]
fn terminal_focus_updates_are_idempotent() {
    let mut s = AppState::init();
    s.set_terminal_focus(true);
    assert_eq!(s.terminal_focus, TerminalFocus::Focused);
    s.set_terminal_focus(false);
    assert_eq!(s.terminal_focus, TerminalFocus::Unfocused);
    s.set_terminal_focus(false);
    assert_eq!(s.terminal_focus, TerminalFocus::Unfocused);
}

#[test]
fn fullscreen_entry_and_exit_via_keys() {
    let mut s = AppState::init();
    assert_eq!(
        handle_keyboard_input(&mut s, Key::Enter),
        InputAction::Nothing
    );
    assert_eq!(s.display_mode, DisplayMode::Fullscreen(20));
    assert_eq!(handle_keyboard_input(&mut s, Key::Esc), InputAction::Nothing);
    assert_eq!(s.display_mode, DisplayMode::Normal);
    // Esc in the normal view asks for the exit popup instead.
    handle_keyboard_input(&mut s, Key::Esc);
    assert_eq!(s.exit_popup, ExitPopupState::Visible);
}

#[test]
fn controller_buttons_follow_the_same_precedence() {
    let mut s = AppState::init();
    handle_controller_input(&mut s, Button::South);
    assert_eq!(s.display_mode, DisplayMode::Fullscreen(20));
    handle_controller_input(&mut s, Button::East);
    assert_eq!(s.display_mode, DisplayMode::Normal);
    handle_controller_input(&mut s, Button::East);
    assert_eq!(s.exit_popup, ExitPopupState::Visible);
    assert_eq!(
        handle_controller_input(&mut s, Button::South),
        InputAction::Exit
    );
}

#[test]
fn axis_navigates_panes_in_normal_view() {
    let mut s = AppState::init();
    handle_controller_axis(&mut s, Axis::LeftStickX, AxisSign::Positive);
    assert_eq!(s.focused_log, FocusedLog::GameStdout);
    handle_controller_axis(&mut s, Axis::LeftStickX, AxisSign::NonPositive);
    assert_eq!(s.focused_log, FocusedLog::LauncherLog);
    s.show_exit_popup();
    handle_controller_axis(&mut s, Axis::LeftStickX, AxisSign::Positive);
    assert_eq!(
        s.focused_log,
        FocusedLog::LauncherLog,
        "axis input is ignored under the popup"
    );
}

#[test]
fn input_method_recording_does_not_move_focus() {
    let mut s = AppState::init();
    s.keyboard_input_used();
    assert_eq!(s.input_method, InputMethod::Keyboard);
    s.controller_input_used();
    assert_eq!(s.input_method, InputMethod::Controller);
    assert_eq!(s.focused_log, FocusedLog::LauncherLog);
}
