//! The input-event model and the event-handling capability that every page
//! implements. A page consumes one event and either continues with no
//! output, continues with a produced value, or asks to stop; the navigation
//! driver reacts only to these three outcomes and never inspects
//! page-internal state.
use core::ops::ControlFlow;
use vstd::prelude::*;

verus! {

/// What happened to a key: pages react to presses only.
#[derive(Clone, Copy, Debug)]
pub enum KeyEventKind {
    Press,
    Repeat,
    Release,
}

/// The keys the dashboard distinguishes; everything else is a no-op.
#[derive(Clone, Copy, Debug)]
pub enum KeyCode {
    Char(char),
    Esc,
    Enter,
    Up,
    Down,
    Other,
}

/// One key event: which key, and what happened to it.
#[derive(Clone, Copy, Debug)]
pub struct KeyEvent {
    pub code: KeyCode,
    pub kind: KeyEventKind,
}

/// One terminal input event.
#[derive(Clone, Copy, Debug)]
pub enum Event {
    Key(KeyEvent),
    Other,
}

/// The event is a press of the given key.
pub open spec fn is_press(e: Event, c: KeyCode) -> bool {
    e matches Event::Key(k) && k.kind is Press && k.code == c
}

/// Quit on the selection page, back on the graph page: `q` or Escape.
pub open spec fn is_quit_event(e: Event) -> bool {
    is_press(e, KeyCode::Char('q')) || is_press(e, KeyCode::Esc)
}

/// Move the highlight down: `j` or the down arrow.
pub open spec fn is_down_event(e: Event) -> bool {
    is_press(e, KeyCode::Char('j')) || is_press(e, KeyCode::Down)
}

/// Move the highlight up: `k` or the up arrow.
pub open spec fn is_up_event(e: Event) -> bool {
    is_press(e, KeyCode::Char('k')) || is_press(e, KeyCode::Up)
}

/// Confirm the highlighted station: Enter.
pub open spec fn is_confirm_event(e: Event) -> bool {
    is_press(e, KeyCode::Enter)
}

/// Decide whether the event is a quit (or back) request.
pub fn event_is_quit(e: &Event) -> (r: bool)
    ensures
        r == is_quit_event(*e),
{
    match e {
        Event::Key(k) => match k.kind {
            KeyEventKind::Press => match k.code {
                KeyCode::Char(c) => c == 'q',
                KeyCode::Esc => true,
                _ => false,
            },
            _ => false,
        },
        _ => false,
    }
}

/// A page that consumes one event, may mutate itself and separate state.
pub trait MutStatefulEventHandler<S, B, C> {
    fn handle(&mut self, event: Event, state: &mut S) -> ControlFlow<B, C>;
}

/// A page that consumes one event with read-only state.
pub trait StatefulEventHandler<S, B, C> {
    fn handle(&self, event: Event, state: &S) -> ControlFlow<B, C>;
}

/// A self-contained page that consumes one event and may mutate itself.
pub trait MutEventHandler<B, C> {
    fn handle(&mut self, event: Event) -> ControlFlow<B, C>;
}

/// A self-contained page that consumes one event without mutation.
pub trait EventHandler<B, C> {
    fn handle(&self, event: Event) -> ControlFlow<B, C>;
}

} // verus!
