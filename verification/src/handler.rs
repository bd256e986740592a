//! The key and mouse handlers.
//!
//! Each handler maps one event and the current state to the next state and
//! one outbound action. Handlers never perform I/O themselves: the caller
//! carries out the returned action, so a failed send can be logged there
//! without touching the state.

use vstd::prelude::*;

use crate::app::{App, AppView, TransportStatus, odometer_bump, saturating_dec, saturating_inc};
use crate::command::{Command, activate_encoding, deactivate_line, encode_command};
use crate::event::{KeyCode, KeyEvent, MouseEvent, MouseKind, Viewport};

verus! {

/// What the caller must do after a handler ran: nothing, send one command
/// line over the transport, or report that the transport is unavailable.
#[derive(Debug, PartialEq, Eq)]
pub enum Action {
    Nothing,
    Send(String),
    ReportUnavailable,
}

/// Mathematical model of an action, with the payload as a character
/// sequence.
pub enum ActionView {
    Nothing,
    Send(Seq<char>),
    ReportUnavailable,
}

impl View for Action {
    type V = ActionView;

    open spec fn view(&self) -> ActionView {
        match self {
            Action::Nothing => ActionView::Nothing,
            Action::Send(message) => ActionView::Send(message@),
            Action::ReportUnavailable => ActionView::ReportUnavailable,
        }
    }
}

/// The command the toggle key sends, picked by the parity of the odometer
/// after the press: odd presses activate, even presses deactivate.
pub open spec fn toggle_command(count_after: u64) -> Seq<char> {
    if count_after % 2 == 1 {
        activate_encoding("en"@)
    } else {
        deactivate_line()
    }
}

/// The state after one key press.
pub open spec fn key_update(a: AppView, k: KeyEvent) -> AppView {
    match k.code {
        KeyCode::Esc => AppView { running: false, ..a },
        KeyCode::Char(ch) => if ch == 'q' {
            AppView { running: false, ..a }
        } else if (ch == 'c' || ch == 'C') && k.ctrl {
            AppView { running: false, ..a }
        } else if ch == ' ' {
            AppView { toggle_count: odometer_bump(a.toggle_count), ..a }
        } else {
            a
        },
        KeyCode::Right => AppView { counter: saturating_inc(a.counter), ..a },
        KeyCode::Left => AppView { counter: saturating_dec(a.counter), ..a },
        KeyCode::Other => a,
    }
}

/// The action of one key press: only the toggle key sends, and only while
/// a transport is present; without one it reports unavailability.
pub open spec fn key_action(a: AppView, k: KeyEvent) -> ActionView {
    match k.code {
        KeyCode::Char(ch) => if ch == ' ' {
            match a.socket {
                TransportStatus::Connected => ActionView::Send(
                    toggle_command(odometer_bump(a.toggle_count)),
                ),
                TransportStatus::Disconnected => ActionView::ReportUnavailable,
            }
        } else {
            ActionView::Nothing
        },
        _ => ActionView::Nothing,
    }
}

/// Left edge of the clickable transcribe button: centred, 30 cells wide.
pub open spec fn button_left(v: Viewport) -> int {
    if v.width >= 30 {
        ((v.width - 30) / 2) as int
    } else {
        0
    }
}

/// Top edge of the clickable transcribe button: a quarter of the way down.
pub open spec fn button_top(v: Viewport) -> int {
    (v.height / 4) as int
}

/// Whether a cell lies inside the clickable button rectangle: 30 cells
/// wide and 3 rows tall from its top-left corner.
pub open spec fn in_button_region(v: Viewport, column: u16, row: u16) -> bool {
    button_left(v) <= column < button_left(v) + 30 && button_top(v) <= row < button_top(v) + 3
}

/// The action of one mouse event: a press inside the button sends one
/// activate command — with no toggle semantics, so the key handler's
/// odometer is untouched by any mouse path.
pub open spec fn mouse_action(a: AppView, m: MouseEvent) -> ActionView {
    if m.kind is Down && in_button_region(a.size, m.column, m.row) {
        match a.socket {
            TransportStatus::Connected => ActionView::Send(activate_encoding("en"@)),
            TransportStatus::Disconnected => ActionView::ReportUnavailable,
        }
    } else {
        ActionView::Nothing
    }
}

/// Handles one key press: quit keys clear the continuation flag, the arrow
/// keys step the counter saturatingly, and the space key advances the
/// toggle odometer and alternates activate and deactivate commands.
pub fn handle_key_events(key_event: KeyEvent, app: &mut App) -> (action: Action)
    ensures
        final(app)@ == key_update(old(app)@, key_event),
        action@ == key_action(old(app)@, key_event),
{
    match key_event.code {
        KeyCode::Esc => {
            app.quit();
            Action::Nothing
        },
        KeyCode::Char(ch) => {
            if ch == 'q' {
                app.quit();
                Action::Nothing
            } else if (ch == 'c' || ch == 'C') && key_event.ctrl {
                app.quit();
                Action::Nothing
            } else if ch == ' ' {
                if app.toggle_count == u64::MAX {
                    app.toggle_count = 0;
                } else {
                    app.toggle_count = app.toggle_count + 1;
                }
                match app.socket {
                    TransportStatus::Connected => {
                        if app.toggle_count % 2 == 1 {
                            Action::Send(
                                encode_command(
                                    &Command::Activate { language: String::from_str("en") },
                                ),
                            )
                        } else {
                            Action::Send(encode_command(&Command::Deactivate))
                        }
                    },
                    TransportStatus::Disconnected => Action::ReportUnavailable,
                }
            } else {
                Action::Nothing
            }
        },
        KeyCode::Right => {
            app.increment_counter();
            Action::Nothing
        },
        KeyCode::Left => {
            app.decrement_counter();
            Action::Nothing
        },
        KeyCode::Other => Action::Nothing,
    }
}

/// Handles one mouse event: a press inside the button rectangle asks for
/// one activate command; everything else is ignored. The state is never
/// changed by a mouse event.
pub fn handle_mouse_events(mouse_event: MouseEvent, app: &mut App) -> (action: Action)
    ensures
        final(app)@ == old(app)@,
        action@ == mouse_action(old(app)@, mouse_event),
{
    match mouse_event.kind {
        MouseKind::Down => {
            let button_x: u16 = if app.size.width >= 30 {
                (app.size.width - 30) / 2
            } else {
                0
            };
            let button_y: u16 = app.size.height / 4;
            if mouse_event.column >= button_x && mouse_event.column < button_x + 30
                && mouse_event.row >= button_y && mouse_event.row < button_y + 3 {
                match app.socket {
                    TransportStatus::Connected => Action::Send(
                        encode_command(&Command::Activate { language: String::from_str("en") }),
                    ),
                    TransportStatus::Disconnected => Action::ReportUnavailable,
                }
            } else {
                Action::Nothing
            }
        },
        MouseKind::Other => Action::Nothing,
    }
}

} // verus!
