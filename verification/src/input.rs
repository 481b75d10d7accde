use vstd::prelude::*;

use crate::event::{Axis, AxisSign, Button, Key};
use crate::ui::{
    spec_next_focus, spec_prev_focus, spec_scroll_down, spec_scroll_up, AppState, AppStateModel,
    DisplayMode, ExitPopupState, FocusedLog, UpdateStatus,
};

verus! {

/// What the consumer loop must do after dispatching one input event:
/// nothing, leave the session, or put a launcher-update request on the bus.
#[derive(Debug, Clone, Copy, PartialEq, Eq, Structural)]
pub enum InputAction {
    Nothing,
    Exit,
    RequestUpdate,
}

/// The height recorded when entering fullscreen from a key or button; the
/// next draw replaces it with the real visible height.
pub const DEFAULT_FULLSCREEN_HEIGHT: usize = 20;

/// Whether the update-request key is armed: an update must be known
/// available and no download may have been requested yet.
pub open spec fn update_request_armed(m: AppStateModel) -> bool {
    m.launcher_update_available is Some && m.update_status == UpdateStatus::NotRequested
}

/// Keyboard dispatch. Precedence: the exit popup (confirm or cancel only),
/// then fullscreen (back and scroll only), then the normal view.
pub open spec fn spec_handle_key(m: AppStateModel, key: Key) -> (AppStateModel, InputAction) {
    if m.exit_popup == ExitPopupState::Visible {
        match key {
            Key::Enter | Key::Char('y') => (m, InputAction::Exit),
            Key::Esc | Key::Char('n') | Key::Char('q') => (
                AppStateModel { exit_popup: ExitPopupState::Hidden, ..m },
                InputAction::Nothing,
            ),
            _ => (m, InputAction::Nothing),
        }
    } else if m.display_mode is Fullscreen {
        match key {
            Key::Esc | Key::Char('h') | Key::Char('q') => (
                AppStateModel { display_mode: DisplayMode::Normal, ..m },
                InputAction::Nothing,
            ),
            Key::Up | Key::Char('k') => (spec_scroll_up(m), InputAction::Nothing),
            Key::Down | Key::Char('j') => (spec_scroll_down(m), InputAction::Nothing),
            _ => (m, InputAction::Nothing),
        }
    } else {
        match key {
            Key::Char('q') | Key::Esc => (
                AppStateModel { exit_popup: ExitPopupState::Visible, ..m },
                InputAction::Nothing,
            ),
            Key::Enter | Key::Char('l') => (
                AppStateModel {
                    display_mode: DisplayMode::Fullscreen(DEFAULT_FULLSCREEN_HEIGHT),
                    ..m
                },
                InputAction::Nothing,
            ),
            Key::Right | Key::Down | Key::Char('j') | Key::Tab => (
                AppStateModel { focused_log: spec_next_focus(m.focused_log), ..m },
                InputAction::Nothing,
            ),
            Key::Left | Key::Up | Key::Char('k') | Key::BackTab => (
                AppStateModel { focused_log: spec_prev_focus(m.focused_log), ..m },
                InputAction::Nothing,
            ),
            Key::Char('u') => if update_request_armed(m) {
                (m, InputAction::RequestUpdate)
            } else {
                (m, InputAction::Nothing)
            },
            _ => (m, InputAction::Nothing),
        }
    }
}

/// Gamepad button dispatch, with the same precedence as the keyboard.
pub open spec fn spec_handle_button(m: AppStateModel, button: Button) -> (
    AppStateModel,
    InputAction,
) {
    if m.exit_popup == ExitPopupState::Visible {
        match button {
            Button::South => (m, InputAction::Exit),
            Button::East => (
                AppStateModel { exit_popup: ExitPopupState::Hidden, ..m },
                InputAction::Nothing,
            ),
            _ => (m, InputAction::Nothing),
        }
    } else if m.display_mode is Fullscreen {
        match button {
            Button::East => (
                AppStateModel { display_mode: DisplayMode::Normal, ..m },
                InputAction::Nothing,
            ),
            Button::DPadUp => (spec_scroll_up(m), InputAction::Nothing),
            Button::DPadDown => (spec_scroll_down(m), InputAction::Nothing),
            Button::LeftTrigger => (
                AppStateModel { focused_log: spec_prev_focus(m.focused_log), ..m },
                InputAction::Nothing,
            ),
            Button::RightTrigger => (
                AppStateModel { focused_log: spec_next_focus(m.focused_log), ..m },
                InputAction::Nothing,
            ),
            Button::LeftTrigger2 => (spec_scroll_top(m), InputAction::Nothing),
            Button::RightTrigger2 => (spec_scroll_bottom(m), InputAction::Nothing),
            _ => (m, InputAction::Nothing),
        }
    } else {
        match button {
            Button::East => (
                AppStateModel { exit_popup: ExitPopupState::Visible, ..m },
                InputAction::Nothing,
            ),
            Button::South => (
                AppStateModel {
                    display_mode: DisplayMode::Fullscreen(DEFAULT_FULLSCREEN_HEIGHT),
                    ..m
                },
                InputAction::Nothing,
            ),
            Button::North => if update_request_armed(m) {
                (m, InputAction::RequestUpdate)
            } else {
                (m, InputAction::Nothing)
            },
            Button::DPadRight | Button::DPadDown | Button::RightTrigger => (
                AppStateModel { focused_log: spec_next_focus(m.focused_log), ..m },
                InputAction::Nothing,
            ),
            Button::DPadLeft | Button::DPadUp | Button::LeftTrigger => (
                AppStateModel { focused_log: spec_prev_focus(m.focused_log), ..m },
                InputAction::Nothing,
            ),
            _ => (m, InputAction::Nothing),
        }
    }
}

pub open spec fn spec_scroll_top(m: AppStateModel) -> AppStateModel {
    match m.focused_log {
        FocusedLog::GameStdout => AppStateModel { stdout_scroll: 0, ..m },
        FocusedLog::GameStderr => AppStateModel { stderr_scroll: 0, ..m },
        FocusedLog::LauncherLog => m,
    }
}

pub open spec fn spec_scroll_bottom(m: AppStateModel) -> AppStateModel {
    match m.focused_log {
        FocusedLog::GameStdout => AppStateModel {
            stdout_scroll: crate::ui::spec_max_scroll(m.game_stdout.len()),
            ..m
        },
        FocusedLog::GameStderr => AppStateModel {
            stderr_scroll: crate::ui::spec_max_scroll(m.game_stderr.len()),
            ..m
        },
        FocusedLog::LauncherLog => m,
    }
}

/// Analog stick dispatch: ignored under the popup; horizontal movement
/// navigates the panes in the normal view; vertical movement scrolls in
/// fullscreen and navigates otherwise.
pub open spec fn spec_handle_axis(m: AppStateModel, axis: Axis, sign: AxisSign) -> AppStateModel {
    if m.exit_popup == ExitPopupState::Visible {
        m
    } else {
        match axis {
            Axis::LeftStickX => if m.display_mode == DisplayMode::Normal {
                if sign == AxisSign::Positive {
                    AppStateModel { focused_log: spec_next_focus(m.focused_log), ..m }
                } else {
                    AppStateModel { focused_log: spec_prev_focus(m.focused_log), ..m }
                }
            } else {
                m
            },
            Axis::LeftStickY => if m.display_mode is Fullscreen {
                if sign == AxisSign::Positive {
                    spec_scroll_up(m)
                } else {
                    spec_scroll_down(m)
                }
            } else if sign == AxisSign::Positive {
                AppStateModel { focused_log: spec_next_focus(m.focused_log), ..m }
            } else {
                AppStateModel { focused_log: spec_prev_focus(m.focused_log), ..m }
            },
            Axis::Other => m,
        }
    }
}

/// Dispatch one keyboard key against the current snapshot.
pub fn handle_keyboard_input(app_state: &mut AppState, key: Key) -> (r: InputAction)
    ensures
        final(app_state)@ == spec_handle_key(old(app_state)@, key).0,
        r == spec_handle_key(old(app_state)@, key).1,
{
    if app_state.exit_popup == ExitPopupState::Visible {
        match key {
            Key::Enter | Key::Char('y') => {
                return InputAction::Exit;
            },
            Key::Esc | Key::Char('n') | Key::Char('q') => {
                app_state.hide_exit_popup();
            },
            _ => {},
        }
    } else if matches!(app_state.display_mode, DisplayMode::Fullscreen(_)) {
        match key {
            Key::Esc | Key::Char('h') | Key::Char('q') => {
                app_state.exit_fullscreen();
            },
            Key::Up | Key::Char('k') => {
                app_state.scroll_up();
            },
            Key::Down | Key::Char('j') => {
                app_state.scroll_down();
            },
            _ => {},
        }
    } else {
        match key {
            Key::Char('q') | Key::Esc => {
                app_state.show_exit_popup();
            },
            Key::Enter | Key::Char('l') => {
                app_state.enter_fullscreen(DEFAULT_FULLSCREEN_HEIGHT);
            },
            Key::Right | Key::Down | Key::Char('j') | Key::Tab => {
                app_state.next_log();
            },
            Key::Left | Key::Up | Key::Char('k') | Key::BackTab => {
                app_state.prev_log();
            },
            Key::Char('u') => {
                if app_state.launcher_update_available.is_some() && app_state.update_status
                    == UpdateStatus::NotRequested {
                    return InputAction::RequestUpdate;
                }
            },
            _ => {},
        }
    }
    InputAction::Nothing
}

/// Dispatch one gamepad button against the current snapshot. The caller
/// ignores gamepad input entirely while the terminal is unfocused.
pub fn handle_controller_input(app_state: &mut AppState, button: Button) -> (r: InputAction)
    ensures
        final(app_state)@ == spec_handle_button(old(app_state)@, button).0,
        r == spec_handle_button(old(app_state)@, button).1,
{
    if app_state.exit_popup == ExitPopupState::Visible {
        match button {
            Button::South => {
                return InputAction::Exit;
            },
            Button::East => {
                app_state.hide_exit_popup();
            },
            _ => {},
        }
    } else if matches!(app_state.display_mode, DisplayMode::Fullscreen(_)) {
        match button {
            Button::East => {
                app_state.exit_fullscreen();
            },
            Button::DPadUp => {
                app_state.scroll_up();
            },
            Button::DPadDown => {
                app_state.scroll_down();
            },
            Button::LeftTrigger => {
                app_state.prev_log();
            },
            Button::RightTrigger => {
                app_state.next_log();
            },
            Button::LeftTrigger2 => {
                app_state.scroll_to_top();
            },
            Button::RightTrigger2 => {
                app_state.scroll_to_bottom();
            },
            _ => {},
        }
    } else {
        match button {
            Button::East => {
                app_state.show_exit_popup();
            },
            Button::South => {
                app_state.enter_fullscreen(DEFAULT_FULLSCREEN_HEIGHT);
            },
            Button::North => {
                if app_state.launcher_update_available.is_some() && app_state.update_status
                    == UpdateStatus::NotRequested {
                    return InputAction::RequestUpdate;
                }
            },
            Button::DPadRight | Button::DPadDown | Button::RightTrigger => {
                app_state.next_log();
            },
            Button::DPadLeft | Button::DPadUp | Button::LeftTrigger => {
                app_state.prev_log();
            },
            _ => {},
        }
    }
    InputAction::Nothing
}

/// Dispatch one analog stick deflection against the current snapshot. The
/// caller ignores gamepad input entirely while the terminal is unfocused.
pub fn handle_controller_axis(app_state: &mut AppState, axis: Axis, sign: AxisSign)
    ensures
        final(app_state)@ == spec_handle_axis(old(app_state)@, axis, sign),
{
    if app_state.exit_popup == ExitPopupState::Visible {
        return ;
    }
    match axis {
        Axis::LeftStickX => {
            if app_state.display_mode == DisplayMode::Normal {
                if sign == AxisSign::Positive {
                    app_state.next_log();
                } else {
                    app_state.prev_log();
                }
            }
        },
        Axis::LeftStickY => {
            if matches!(app_state.display_mode, DisplayMode::Fullscreen(_)) {
                if sign == AxisSign::Positive {
                    app_state.scroll_up();
                } else {
                    app_state.scroll_down();
                }
            } else if sign == AxisSign::Positive {
                app_state.next_log();
            } else {
                app_state.prev_log();
            }
        },
        Axis::Other => {},
    }
}

} // verus!
