//! The mutable application state and its elementary mutations.
//!
//! All state lives in [`App`]; it is mutated only through the methods here
//! and through the handlers, one event at a time. The mathematical model of
//! a state is [`AppView`], and every contract of the library speaks of it.

use vstd::prelude::*;

use crate::event::Viewport;

verus! {

/// Whether a transport connection was established at startup. The owning
/// process keeps the actual connection beside the state; the state records
/// only its presence, which gates the outbound command paths.
#[derive(Clone, Copy, Debug, PartialEq, Eq, Structural)]
pub enum TransportStatus {
    Connected,
    Disconnected,
}

/// Mathematical model of an application state: the same fields, with the
/// response log abstracted to a sequence of character sequences.
pub struct AppView {
    pub running: bool,
    pub counter: u8,
    pub responses: Seq<Seq<char>>,
    pub size: Viewport,
    pub socket: TransportStatus,
    pub inbound_open: bool,
    pub toggle_count: u64,
}

/// The application state.
#[derive(Debug)]
pub struct App {
    /// Is the application running? The dispatch loop exits once this is
    /// false.
    pub running: bool,
    /// Bounded counter driven by the arrow keys; clamped to `[0, u8::MAX]`
    /// by saturating steps.
    pub counter: u8,
    /// Append-only log of inbound lines, shown in arrival order.
    pub responses: Vec<String>,
    /// Last known terminal dimensions.
    pub size: Viewport,
    /// Presence of the transport connection.
    pub socket: TransportStatus,
    /// Whether the inbound read path still yields lines; cleared when the
    /// peer closes its end, without stopping the loop.
    pub inbound_open: bool,
    /// Odometer of toggle-key presses; its parity picks the next toggle
    /// command.
    pub toggle_count: u64,
}

impl View for App {
    type V = AppView;

    open spec fn view(&self) -> AppView {
        AppView {
            running: self.running,
            counter: self.counter,
            responses: self.responses.deep_view(),
            size: self.size,
            socket: self.socket,
            inbound_open: self.inbound_open,
            toggle_count: self.toggle_count,
        }
    }
}

/// The counter step of the right-arrow key: one up, saturating at the top.
pub open spec fn saturating_inc(c: u8) -> u8 {
    if c < u8::MAX {
        (c + 1) as u8
    } else {
        c
    }
}

/// The counter step of the left-arrow key: one down, saturating at zero.
pub open spec fn saturating_dec(c: u8) -> u8 {
    if c > 0 {
        (c - 1) as u8
    } else {
        c
    }
}

/// The odometer step of the toggle key: one up, wrapping, so that the
/// parity flips on every press.
pub open spec fn odometer_bump(c: u64) -> u64 {
    if c == u64::MAX {
        0
    } else {
        (c + 1) as u64
    }
}

impl Default for App {
    /// A fresh state: running, counter at zero, empty log, zero-sized
    /// viewport, no transport.
    fn default() -> (app: App)
        ensures
            app@ == (AppView {
                running: true,
                counter: 0,
                responses: Seq::<Seq<char>>::empty(),
                size: Viewport { width: 0, height: 0 },
                socket: TransportStatus::Disconnected,
                inbound_open: true,
                toggle_count: 0,
            }),
    {
        let app = App {
            running: true,
            counter: 0,
            responses: Vec::new(),
            size: Viewport { width: 0, height: 0 },
            socket: TransportStatus::Disconnected,
            inbound_open: true,
            toggle_count: 0,
        };
        proof {
            assert(app@.responses =~= Seq::<Seq<char>>::empty());
        }
        app
    }
}

impl App {
    /// Constructs the startup state: a fresh state whose log is seeded with
    /// the single welcome entry.
    pub fn new() -> (app: App)
        ensures
            app@ == (AppView {
                running: true,
                counter: 0,
                responses: seq![welcome_line()],
                size: Viewport { width: 0, height: 0 },
                socket: TransportStatus::Disconnected,
                inbound_open: true,
                toggle_count: 0,
            }),
    {
        let mut app = App::default();
        app.receive_response(String::from_str("Welcome to the application!"));
        proof {
            assert(app@.responses =~= seq![welcome_line()]);
        }
        app
    }

    /// The periodic tick: a hook point for future periodic work; changes
    /// nothing.
    pub fn tick(&self)
    {
    }

    /// Clears the continuation flag so that the dispatch loop exits.
    pub fn quit(&mut self)
        ensures
            final(self)@ == (AppView { running: false, ..old(self)@ }),
    {
        self.running = false;
    }

    /// Raises the counter by one, saturating at the top of its range.
    pub fn increment_counter(&mut self)
        ensures
            final(self)@ == (AppView { counter: saturating_inc(old(self)@.counter), ..old(self)@ }),
    {
        if let Some(res) = self.counter.checked_add(1) {
            self.counter = res;
        }
    }

    /// Lowers the counter by one, saturating at zero.
    pub fn decrement_counter(&mut self)
        ensures
            final(self)@ == (AppView { counter: saturating_dec(old(self)@.counter), ..old(self)@ }),
    {
        if let Some(res) = self.counter.checked_sub(1) {
            self.counter = res;
        }
    }

    /// Builds the activate command line that the transcribe control sends.
    /// The caller writes it to the transport; the state is untouched.
    pub fn send_transcribe_command(&self) -> (message: String)
        ensures
            message@ == crate::command::activate_encoding("en"@),
    {
        crate::command::encode_command(
            &crate::command::Command::Activate { language: String::from_str("en") },
        )
    }

    /// Appends one inbound line to the response log; nothing else changes,
    /// and earlier entries keep their places.
    pub fn receive_response(&mut self, response: String)
        ensures
            final(self)@ == (AppView {
                responses: old(self)@.responses.push(response@),
                ..old(self)@
            }),
    {
        self.responses.push(response);
        proof {
            assert(self@.responses =~~= old(self)@.responses.push(response@));
        }
    }
}

/// The text of the startup welcome entry.
pub open spec fn welcome_line() -> Seq<char> {
    "Welcome to the application!"@
}

} // verus!
