use transcriber::app::{App, TransportStatus};
use transcriber::dispatch::{
    dispatch_event, dispatch_inbound, error_is_fatal, next_phase, AppError, LoopPhase,
};
use transcriber::event::{Event, KeyCode, KeyEvent, MouseEvent, MouseKind, Viewport};
use transcriber::handler::{handle_key_events, handle_mouse_events, Action};

fn key(code: KeyCode) -> KeyEvent {
    KeyEvent { code, ctrl: false }
}

#[test]
fn new_app_holds_only_the_welcome_entry() {
    let app = App::new();
    assert!(app.running);
    assert_eq!(app.counter, 0);
    assert_eq!(app.responses, vec![String::from("Welcome to the application!")]);
    assert_eq!(app.size, Viewport { width: 0, height: 0 });
    assert_eq!(app.socket, TransportStatus::Disconnected);
    assert!(app.inbound_open);
    assert_eq!(app.toggle_count, 0);
}

#[test]
fn quit_clears_the_running_flag() {
    let mut app = App::new();
    app.quit();
    assert!(!app.running);
    assert_eq!(app.responses.len(), 1);
}

#[test]
fn counter_saturates_at_the_top() {
    let mut app = App::new();
    for _ in 0..300 {
        app.increment_counter();
    }
    assert_eq!(app.counter, u8::MAX);
    app.increment_counter();
    assert_eq!(app.counter, u8::MAX);
}

#[test]
fn counter_saturates_at_zero() {
    let mut app = App::new();
    app.decrement_counter();
    assert_eq!(app.counter, 0);
    app.increment_counter();
    app.decrement_counter();
    app.decrement_counter();
    assert_eq!(app.counter, 0);
}

#[test]
fn arrow_keys_drive_the_counter() {
    let mut app = App::new();
    let a = handle_key_events(key(KeyCode::Right), &mut app);
    assert_eq!(a, Action::Nothing);
    let _ = handle_key_events(key(KeyCode::Right), &mut app);
    assert_eq!(app.counter, 2);
    let _ = handle_key_events(key(KeyCode::Left), &mut app);
    assert_eq!(app.counter, 1);
    assert!(app.running);
}

#[test]
fn quit_keys_stop_the_loop() {
    let mut app = App::new();
    let _ = handle_key_events(key(KeyCode::Esc), &mut app);
    assert!(!app.running);

    let mut app = App::new();
    let _ = handle_key_events(key(KeyCode::Char('q')), &mut app);
    assert!(!app.running);

    let mut app = App::new();
    let _ = handle_key_events(KeyEvent { code: KeyCode::Char('c'), ctrl: true }, &mut app);
    assert!(!app.running);

    let mut app = App::new();
    let _ = handle_key_events(key(KeyCode::Char('c')), &mut app);
    assert!(app.running);
}

#[test]
fn toggle_alternates_activate_and_deactivate() {
    let mut app = App::new();
    app.socket = TransportStatus::Connected;
    let first = handle_key_events(key(KeyCode::Char(' ')), &mut app);
    assert_eq!(
        first,
        Action::Send(String::from(
            "{\"event\": \"on\", \"type\": \"transcribe\", \"language\": \"en\"}"
        ))
    );
    let second = handle_key_events(key(KeyCode::Char(' ')), &mut app);
    assert_eq!(
        second,
        Action::Send(String::from("{\"event\": \"off\", \"type\": \"transcribe\"}"))
    );
    let third = handle_key_events(key(KeyCode::Char(' ')), &mut app);
    assert_eq!(
        third,
        Action::Send(String::from(
            "{\"event\": \"on\", \"type\": \"transcribe\", \"language\": \"en\"}"
        ))
    );
    assert_eq!(app.toggle_count, 3);
}

#[test]
fn toggle_without_transport_reports_unavailable() {
    let mut app = App::new();
    assert_eq!(app.socket, TransportStatus::Disconnected);
    let a = handle_key_events(key(KeyCode::Char(' ')), &mut app);
    assert_eq!(a, Action::ReportUnavailable);
    assert_eq!(app.toggle_count, 1);
    assert!(app.running);
}

#[test]
fn mouse_press_inside_the_button_sends_activate() {
    let mut app = App::new();
    app.size = Viewport { width: 100, height: 40 };
    app.socket = TransportStatus::Connected;
    // The button spans columns 35..65 and rows 10..13 at this size.
    let a = handle_mouse_events(
        MouseEvent { kind: MouseKind::Down, column: 35, row: 10 },
        &mut app,
    );
    assert_eq!(
        a,
        Action::Send(String::from(
            "{\"event\": \"on\", \"type\": \"transcribe\", \"language\": \"en\"}"
        ))
    );
    let b = handle_mouse_events(
        MouseEvent { kind: MouseKind::Down, column: 64, row: 12 },
        &mut app,
    );
    assert_ne!(b, Action::Nothing);
}

#[test]
fn mouse_outside_the_button_or_not_a_press_does_nothing() {
    let mut app = App::new();
    app.size = Viewport { width: 100, height: 40 };
    app.socket = TransportStatus::Connected;
    for (column, row) in [(34, 10), (65, 10), (35, 9), (35, 13), (0, 0)] {
        let a = handle_mouse_events(MouseEvent { kind: MouseKind::Down, column, row }, &mut app);
        assert_eq!(a, Action::Nothing);
    }
    let a = handle_mouse_events(
        MouseEvent { kind: MouseKind::Other, column: 40, row: 11 },
        &mut app,
    );
    assert_eq!(a, Action::Nothing);
}

#[test]
fn mouse_path_leaves_the_toggle_parity_alone() {
    let mut app = App::new();
    app.size = Viewport { width: 100, height: 40 };
    app.socket = TransportStatus::Connected;
    // An even number of toggle presses...
    let _ = handle_key_events(key(KeyCode::Char(' ')), &mut app);
    let _ = handle_key_events(key(KeyCode::Char(' ')), &mut app);
    assert_eq!(app.toggle_count % 2, 0);
    // ...then a mouse-driven activate: the odometer is untouched...
    let a = handle_mouse_events(
        MouseEvent { kind: MouseKind::Down, column: 40, row: 11 },
        &mut app,
    );
    assert_eq!(
        a,
        Action::Send(String::from(
            "{\"event\": \"on\", \"type\": \"transcribe\", \"language\": \"en\"}"
        ))
    );
    assert_eq!(app.toggle_count, 2);
    // ...so the next toggle press still starts a fresh activate.
    let next = handle_key_events(key(KeyCode::Char(' ')), &mut app);
    assert_eq!(
        next,
        Action::Send(String::from(
            "{\"event\": \"on\", \"type\": \"transcribe\", \"language\": \"en\"}"
        ))
    );
}

#[test]
fn resize_updates_the_viewport() {
    let mut app = App::new();
    let a = dispatch_event(&mut app, Event::Resize(80, 24));
    assert_eq!(a, Action::Nothing);
    assert_eq!(app.size, Viewport { width: 80, height: 24 });
}

#[test]
fn ticks_change_nothing() {
    let mut app = App::new();
    for _ in 0..100 {
        let a = dispatch_event(&mut app, Event::Tick);
        assert_eq!(a, Action::Nothing);
    }
    assert_eq!(app.counter, 0);
    assert_eq!(app.responses.len(), 1);
    assert!(app.running);
}

#[test]
fn inbound_lines_append_in_arrival_order() {
    let mut app = App::new();
    let lines = ["alpha\n", "beta\n", "gamma\n"];
    for line in lines {
        dispatch_inbound(&mut app, String::from(line));
    }
    assert_eq!(app.responses.len(), lines.len() + 1);
    assert_eq!(app.responses[1], "alpha\n");
    assert_eq!(app.responses[2], "beta\n");
    assert_eq!(app.responses[3], "gamma\n");
}

#[test]
fn inbound_end_of_stream_stops_only_the_read_path() {
    let mut app = App::new();
    dispatch_inbound(&mut app, String::from("one\n"));
    dispatch_inbound(&mut app, String::new());
    assert!(!app.inbound_open);
    assert!(app.running);
    assert_eq!(app.responses.len(), 2);
    // The loop keeps serving input events afterwards.
    let _ = dispatch_event(&mut app, Event::Key(key(KeyCode::Right)));
    assert_eq!(app.counter, 1);
    assert!(app.running);
}

#[test]
fn rapid_interleaving_leaves_the_net_counter() {
    let mut app = App::new();
    // 100 ticks and 50 key presses (30 up, then 20 down), interleaved.
    for i in 0..50 {
        let _ = dispatch_event(&mut app, Event::Tick);
        let code = if i < 30 { KeyCode::Right } else { KeyCode::Left };
        let _ = dispatch_event(&mut app, Event::Key(key(code)));
        let _ = dispatch_event(&mut app, Event::Tick);
    }
    assert_eq!(app.counter, 10);
}

#[test]
fn connect_failure_is_fatal_io_failure_is_not() {
    assert!(error_is_fatal(&AppError::Connect));
    assert!(!error_is_fatal(&AppError::Io));
    assert!(error_is_fatal(&AppError::Event));
}

#[test]
fn loop_phases_advance_as_specified() {
    assert_eq!(next_phase(LoopPhase::Running, true), LoopPhase::Running);
    assert_eq!(next_phase(LoopPhase::Running, false), LoopPhase::Terminating);
    assert_eq!(next_phase(LoopPhase::Terminating, false), LoopPhase::Stopped);
    assert_eq!(next_phase(LoopPhase::Terminating, true), LoopPhase::Stopped);
    assert_eq!(next_phase(LoopPhase::Stopped, true), LoopPhase::Stopped);
}

#[test]
fn send_transcribe_command_builds_the_activate_line() {
    let app = App::new();
    assert_eq!(
        app.send_transcribe_command(),
        "{\"event\": \"on\", \"type\": \"transcribe\", \"language\": \"en\"}"
    );
}
