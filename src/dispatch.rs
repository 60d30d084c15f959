//! The decisions of the event dispatch loop: for each event, the action the
//! window-owning thread performs and whether the loop goes on.
use vstd::prelude::*;
use crate::geometry::ResizeDirection;
use crate::intent::Intent;
use crate::message::WM_NCLBUTTONDOWN;

verus! {

/// An event that reaches the dispatch loop.
#[derive(Clone, Copy, Debug, PartialEq, Eq, Structural)]
pub enum LoopEvent {
    /// A lifecycle intent sent by the content layer.
    Intent(Intent),
    /// The system asked to close the window.
    CloseRequested,
}

/// What the window-owning thread does in reply to one event.
#[derive(Clone, Copy, Debug, PartialEq, Eq, Structural)]
pub enum Action {
    /// Nothing.
    Nothing,
    /// Minimize the window.
    Minimize,
    /// Set the maximized state of the window to the given value.
    SetMaximized(bool),
    /// Release the input capture, then send `message` with `wparam` to the
    /// window, which hands the resize over to the system's own loop.
    NativeResize { message: u32, wparam: usize },
    /// Terminate the development server, then leave the loop.
    Shutdown,
}

/// The single window-owning dispatch loop.
#[derive(Clone, Copy, Debug, PartialEq, Eq, Structural)]
pub struct Dispatcher {
    /// False once the loop has stopped; no event is handled after that.
    pub running: bool,
}

/// The action that starts a native resize in direction `d`.
pub open spec fn native_resize(d: ResizeDirection) -> Action {
    Action::NativeResize { message: WM_NCLBUTTONDOWN, wparam: d.spec_code() as usize }
}

/// One step of the loop: whether it still runs afterwards, and the action,
/// given whether the window is maximized right now. A stopped loop does
/// nothing. Minimize minimizes; maximize inverts the live maximized state;
/// a close intent or a system close request shuts down; a resize intent
/// starts the native resize whatever the state of the mouse buttons.
pub open spec fn step(running: bool, event: LoopEvent, live_maximized: bool) -> (bool, Action) {
    if !running {
        (false, Action::Nothing)
    } else {
        match event {
            LoopEvent::CloseRequested => (false, Action::Shutdown),
            LoopEvent::Intent(Intent::Close) => (false, Action::Shutdown),
            LoopEvent::Intent(Intent::Minimize) => (true, Action::Minimize),
            LoopEvent::Intent(Intent::Maximize) => (true, Action::SetMaximized(!live_maximized)),
            LoopEvent::Intent(Intent::StartResize(d)) => (true, native_resize(d)),
        }
    }
}

/// The maximized state of the window after `a` was performed on a window
/// whose maximized state was `maximized`.
pub open spec fn maximized_after(a: Action, maximized: bool) -> bool {
    match a {
        Action::SetMaximized(m) => m,
        _ => maximized,
    }
}

impl Dispatcher {
    /// A loop that has not stopped yet.
    pub fn new() -> (r: Dispatcher)
        ensures
            r.running,
    {
        Dispatcher { running: true }
    }

    /// Whether the loop still handles events.
    pub fn is_running(&self) -> (r: bool)
        ensures
            r == self.running,
    {
        self.running
    }

    /// Handles one event, given the window's maximized state queried just
    /// now, and returns the action to perform.
    pub fn handle(&mut self, event: LoopEvent, live_maximized: bool) -> (r: Action)
        ensures
            (final(self).running, r) == step(old(self).running, event, live_maximized),
    {
        if !self.running {
            return Action::Nothing;
        }
        match event {
            LoopEvent::CloseRequested => {
                self.running = false;
                Action::Shutdown
            },
            LoopEvent::Intent(Intent::Close) => {
                self.running = false;
                Action::Shutdown
            },
            LoopEvent::Intent(Intent::Minimize) => Action::Minimize,
            LoopEvent::Intent(Intent::Maximize) => Action::SetMaximized(!live_maximized),
            LoopEvent::Intent(Intent::StartResize(d)) => Action::NativeResize {
                message: WM_NCLBUTTONDOWN,
                wparam: d.code() as usize,
            },
        }
    }
}

/// Two maximize toggles in a row, each against the live state that the one
/// before left, bring the window back to its original maximized state; on a
/// running loop the first one inverts it.
pub proof fn lemma_maximize_toggle_self_inverse(running: bool, maximized: bool)
    ensures
        ({
            let (running1, a1) = step(running, LoopEvent::Intent(Intent::Maximize), maximized);
            let after1 = maximized_after(a1, maximized);
            let (running2, a2) = step(running1, LoopEvent::Intent(Intent::Maximize), after1);
            &&& running ==> after1 == !maximized
            &&& maximized_after(a2, after1) == maximized
        }),
{
}

/// Once the loop has stopped, every event is a no-op; in particular a
/// second close after a first one does nothing.
pub proof fn lemma_stopped_is_terminal(event: LoopEvent, live_maximized: bool)
    ensures
        step(false, event, live_maximized) == (false, Action::Nothing),
{
}

/// A close shuts a running loop down, and a second close right after it is a
/// no-op.
pub proof fn lemma_close_twice(live1: bool, live2: bool)
    ensures
        ({
            let (running1, a1) = step(true, LoopEvent::Intent(Intent::Close), live1);
            let (running2, a2) = step(running1, LoopEvent::Intent(Intent::Close), live2);
            &&& a1 == Action::Shutdown
            &&& !running1
            &&& a2 == Action::Nothing
            &&& !running2
        }),
{
}

/// A resize intent on a running loop always starts the native resize: no
/// input state takes part in the decision.
pub proof fn lemma_resize_always_starts(d: ResizeDirection, live_maximized: bool)
    ensures
        step(true, LoopEvent::Intent(Intent::StartResize(d)), live_maximized) == (
        true,
        native_resize(d),
        ),
{
}

} // verus!
