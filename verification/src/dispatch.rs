//! The dispatch loop's decision core.
//!
//! Each iteration of the owning loop renders, waits for the next of a
//! merged input event or an inbound transport line, and hands the winner to
//! exactly one of the dispatch functions here. The functions mutate the
//! state and say what the loop must do next; the loop performs the I/O.
//! The module also states, as proved lemmas, what whole event sequences do
//! to the state.

use vstd::arithmetic::div_mod::lemma_add_mod_noop;
use vstd::prelude::*;

use crate::app::{App, AppView, odometer_bump};
use crate::event::{Event, KeyCode, KeyEvent, MouseEvent, Viewport};
use crate::handler::{
    Action, ActionView, handle_key_events, handle_mouse_events, key_action, key_update,
    mouse_action,
};

verus! {

/// The state after one input event: key presses go to the key handler,
/// resize notifications update the viewport, ticks and mouse events change
/// nothing.
pub open spec fn event_update(a: AppView, e: Event) -> AppView {
    match e {
        Event::Tick => a,
        Event::Key(k) => key_update(a, k),
        Event::Mouse(_) => a,
        Event::Resize(w, h) => AppView { size: Viewport { width: w, height: h }, ..a },
    }
}

/// The action of one input event: only the handlers ever ask for a send.
pub open spec fn event_action(a: AppView, e: Event) -> ActionView {
    match e {
        Event::Tick => ActionView::Nothing,
        Event::Key(k) => key_action(a, k),
        Event::Mouse(m) => mouse_action(a, m),
        Event::Resize(_, _) => ActionView::Nothing,
    }
}

/// Routes one input event to its handler and returns the action the loop
/// must carry out.
pub fn dispatch_event(app: &mut App, event: Event) -> (action: Action)
    ensures
        final(app)@ == event_update(old(app)@, event),
        action@ == event_action(old(app)@, event),
{
    match event {
        Event::Tick => {
            app.tick();
            Action::Nothing
        },
        Event::Key(key_event) => handle_key_events(key_event, app),
        Event::Mouse(mouse_event) => handle_mouse_events(mouse_event, app),
        Event::Resize(width, height) => {
            app.size = Viewport { width, height };
            Action::Nothing
        },
    }
}

/// The state after one inbound transport line. An empty line is the
/// end-of-stream mark: it closes the inbound read path and nothing more —
/// in particular the loop keeps running. Any other line is appended to the
/// response log verbatim.
pub open spec fn inbound_update(a: AppView, line: Seq<char>) -> AppView {
    if line.len() == 0 {
        AppView { inbound_open: false, ..a }
    } else {
        AppView { responses: a.responses.push(line), ..a }
    }
}

/// Applies one inbound transport line to the state. End-of-stream stops
/// only the inbound read path: the continuation flag is untouched, so the
/// loop goes on serving ticks and input.
pub fn dispatch_inbound(app: &mut App, line: String)
    ensures
        final(app)@ == inbound_update(old(app)@, line@),
        final(app)@.running == old(app)@.running,
{
    if line.as_str().is_empty() {
        app.inbound_open = false;
    } else {
        app.receive_response(line);
    }
}

/// The dispatch loop's phases: serving events, about to tear down, done.
#[derive(Clone, Copy, Debug, PartialEq, Eq, Structural)]
pub enum LoopPhase {
    Running,
    Terminating,
    Stopped,
}

/// One observation of the continuation flag: a running loop keeps running
/// while the flag holds and starts terminating once it is cleared; a
/// terminating loop finishes its teardown and stops; a stopped loop stays
/// stopped.
pub open spec fn phase_after(phase: LoopPhase, running: bool) -> LoopPhase {
    match phase {
        LoopPhase::Running => if running {
            LoopPhase::Running
        } else {
            LoopPhase::Terminating
        },
        LoopPhase::Terminating => LoopPhase::Stopped,
        LoopPhase::Stopped => LoopPhase::Stopped,
    }
}

/// Advances the loop phase by one observation of the continuation flag.
pub fn next_phase(phase: LoopPhase, running: bool) -> (next: LoopPhase)
    ensures
        next == phase_after(phase, running),
{
    match phase {
        LoopPhase::Running => if running {
            LoopPhase::Running
        } else {
            LoopPhase::Terminating
        },
        LoopPhase::Terminating => LoopPhase::Stopped,
        LoopPhase::Stopped => LoopPhase::Stopped,
    }
}

/// The error taxonomy of the loop: a failed connection attempt, an I/O
/// failure on the established connection, or a failure of the terminal
/// input subsystem.
#[derive(Clone, Copy, Debug, PartialEq, Eq, Structural)]
pub enum AppError {
    Connect,
    Io,
    Event,
}

/// Whether an error ends the loop. A connection failure is fatal at
/// startup, and an input-subsystem failure is fatal because the loop
/// cannot go on without input; an I/O failure on the established
/// connection is logged and the loop continues.
pub open spec fn fatal(e: AppError) -> bool {
    match e {
        AppError::Connect => true,
        AppError::Io => false,
        AppError::Event => true,
    }
}

/// Decides whether an error ends the loop.
pub fn error_is_fatal(e: &AppError) -> (f: bool)
    ensures
        f == fatal(*e),
{
    match e {
        AppError::Connect => true,
        AppError::Io => false,
        AppError::Event => true,
    }
}

/// The state after a whole sequence of input events, applied in order.
pub open spec fn run_events(a: AppView, events: Seq<Event>) -> AppView
    decreases events.len(),
{
    if events.len() == 0 {
        a
    } else {
        run_events(event_update(a, events[0]), events.drop_first())
    }
}

/// The state after a whole sequence of inbound lines, applied in order.
pub open spec fn run_inbound(a: AppView, lines: Seq<Seq<char>>) -> AppView
    decreases lines.len(),
{
    if lines.len() == 0 {
        a
    } else {
        run_inbound(inbound_update(a, lines[0]), lines.drop_first())
    }
}

/// What one event contributes to the counter: one up for a right arrow,
/// one down for a left arrow, nothing otherwise.
pub open spec fn counter_delta(e: Event) -> int {
    match e {
        Event::Key(k) => match k.code {
            KeyCode::Right => 1,
            KeyCode::Left => -1,
            _ => 0,
        },
        _ => 0,
    }
}

/// The net of increments minus decrements over a sequence of events.
pub open spec fn net_counter(events: Seq<Event>) -> int
    decreases events.len(),
{
    if events.len() == 0 {
        0
    } else {
        counter_delta(events[0]) + net_counter(events.drop_first())
    }
}

/// However events arrive and in whatever order, the counter stays within
/// `[0, u8::MAX]`: every step is saturating, so no sequence can drive it
/// past either bound.
pub proof fn lemma_counter_bounded(a: AppView, events: Seq<Event>)
    ensures
        0 <= run_events(a, events).counter <= u8::MAX,
{
}

proof fn lemma_net_counter_take(events: Seq<Event>, j: int)
    requires
        events.len() > 0,
        0 <= j <= events.len() - 1,
    ensures
        net_counter(events.take(j + 1)) == counter_delta(events[0]) + net_counter(
            events.drop_first().take(j),
        ),
{
    let t = events.take(j + 1);
    assert(t[0] == events[0]);
    assert(t.drop_first() =~= events.drop_first().take(j));
}

/// Processing any interleaving of ticks, key presses and other events
/// leaves the counter at the start value plus the net of increments minus
/// decrements, provided no prefix of the sequence would push it past a
/// bound on the way.
pub proof fn lemma_counter_net(a: AppView, events: Seq<Event>)
    requires
        forall|i: int|
            0 <= i <= events.len() ==> 0 <= a.counter + net_counter(
                #[trigger] events.take(i),
            ) <= u8::MAX,
    ensures
        run_events(a, events).counter == a.counter + net_counter(events),
    decreases events.len(),
{
    if events.len() == 0 {
    } else {
        let e = events[0];
        let a1 = event_update(a, e);
        let tail = events.drop_first();
        lemma_net_counter_take(events, 0);
        assert(tail.take(0) =~= Seq::<Event>::empty());
        assert(events.take(1) =~= seq![e]);
        assert(0 <= a.counter + net_counter(events.take(1)) <= u8::MAX);
        assert(net_counter(events.take(1)) == counter_delta(e));
        assert(a1.counter == a.counter + counter_delta(e));
        assert forall|j: int|
            0 <= j <= tail.len() implies 0 <= a1.counter + net_counter(
            #[trigger] tail.take(j),
        ) <= u8::MAX by {
            lemma_net_counter_take(events, j);
            assert(0 <= a.counter + net_counter(events.take(j + 1)) <= u8::MAX);
        }
        lemma_counter_net(a1, tail);
    }
}

/// Inbound lines land in the log first come, first served: after a
/// sequence of nonempty lines the log is the old log followed by exactly
/// those lines in arrival order, and the rest of the state is untouched.
/// In particular, a log holding only the startup welcome entry holds
/// `n + 1` entries after `n` lines.
pub proof fn lemma_responses_fifo(a: AppView, lines: Seq<Seq<char>>)
    requires
        forall|i: int| 0 <= i < lines.len() ==> (#[trigger] lines[i]).len() > 0,
    ensures
        run_inbound(a, lines).responses == a.responses + lines,
        run_inbound(a, lines) == (AppView { responses: a.responses + lines, ..a }),
    decreases lines.len(),
{
    if lines.len() == 0 {
        assert(a.responses + lines =~~= a.responses);
        assert(run_inbound(a, lines) =~~= (AppView { responses: a.responses + lines, ..a }));
    } else {
        let a1 = inbound_update(a, lines[0]);
        assert(lines[0].len() > 0);
        let tail = lines.drop_first();
        assert(forall|i: int| 0 <= i < tail.len() ==> (#[trigger] tail[i]).len() > 0);
        lemma_responses_fifo(a1, tail);
        assert(a.responses.push(lines[0]) + tail =~~= a.responses + lines);
        assert(run_inbound(a, lines) =~~= (AppView { responses: a.responses + lines, ..a }));
    }
}

/// Input events never touch the response log: whatever ticks, keys, mouse
/// events and resizes arrive, the log is built by inbound lines alone.
pub proof fn lemma_events_leave_responses(a: AppView, events: Seq<Event>)
    ensures
        run_events(a, events).responses == a.responses,
    decreases events.len(),
{
    if events.len() == 0 {
    } else {
        lemma_events_leave_responses(event_update(a, events[0]), events.drop_first());
    }
}

/// The toggle key press, as the event stream carries it.
pub open spec fn toggle_key() -> Event {
    Event::Key(KeyEvent { code: KeyCode::Char(' '), ctrl: false })
}

/// A run of consecutive toggle key presses.
pub open spec fn toggle_presses(n: nat) -> Seq<Event> {
    Seq::new(n, |i: int| toggle_key())
}

/// Appending one event to a sequence runs the sequence first and the new
/// event last.
pub proof fn lemma_run_events_snoc(a: AppView, events: Seq<Event>, e: Event)
    ensures
        run_events(a, events.push(e)) == event_update(run_events(a, events), e),
    decreases events.len(),
{
    if events.len() == 0 {
        assert(events.push(e)[0] == e);
        assert(events.push(e).drop_first() =~= Seq::<Event>::empty());
        assert(run_events(a, events.push(e)) == run_events(event_update(a, e), Seq::<Event>::empty()));
    } else {
        let a1 = event_update(a, events[0]);
        let tail = events.drop_first();
        assert(events.push(e)[0] == events[0]);
        assert(events.push(e).drop_first() =~= tail.push(e));
        lemma_run_events_snoc(a1, tail, e);
        assert(run_events(a, events.push(e)) == run_events(a1, events.push(e).drop_first()));
        assert(run_events(a1, events.push(e).drop_first()) == run_events(a1, tail.push(e)));
        assert(run_events(a1, tail.push(e)) == event_update(run_events(a1, tail), e));
        assert(run_events(a, events) == run_events(a1, tail));
    }
}

/// After a run of toggle presses the odometer's parity is the start parity
/// advanced by one per press.
pub proof fn lemma_toggle_parity(a: AppView, n: nat)
    ensures
        run_events(a, toggle_presses(n)).toggle_count % 2 == (a.toggle_count + n) % 2,
        run_events(a, toggle_presses(n)).socket == a.socket,
        run_events(a, toggle_presses(n)).size == a.size,
    decreases n,
{
    if n == 0 {
        assert(toggle_presses(0) =~= Seq::<Event>::empty());
    } else {
        let a1 = event_update(a, toggle_key());
        assert(toggle_presses(n)[0] == toggle_key());
        assert(toggle_presses(n).drop_first() =~= toggle_presses((n - 1) as nat));
        assert(a1.toggle_count == odometer_bump(a.toggle_count));
        assert(a1.toggle_count % 2 == (a.toggle_count + 1) % 2);
        lemma_toggle_parity(a1, (n - 1) as nat);
        lemma_add_mod_noop(a1.toggle_count as int, n - 1, 2);
        lemma_add_mod_noop(a.toggle_count + 1, n - 1, 2);
    }
}

/// The two outbound paths are independent: a mouse event after an even
/// number of toggle presses leaves the toggle odometer's parity exactly
/// where it started — the mouse path never advances the odometer. And a
/// press inside the button of a connected state still asks for one
/// activate command, however many toggle presses came before.
pub proof fn lemma_mouse_keeps_toggle_parity(a: AppView, n: nat, m: MouseEvent)
    requires
        n % 2 == 0,
    ensures
        run_events(a, toggle_presses(n).push(Event::Mouse(m))).toggle_count % 2
            == a.toggle_count % 2,
        (a.socket is Connected && m.kind is Down && crate::handler::in_button_region(
            a.size,
            m.column,
            m.row,
        )) ==> event_action(run_events(a, toggle_presses(n)), Event::Mouse(m))
            == ActionView::Send(crate::command::activate_encoding("en"@)),
{
    lemma_run_events_snoc(a, toggle_presses(n), Event::Mouse(m));
    lemma_toggle_parity(a, n);
    lemma_add_mod_noop(a.toggle_count as int, n as int, 2);
}

} // verus!
