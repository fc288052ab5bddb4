use vstd::prelude::*;

verus! {

/// What the loop does next.
#[derive(Clone, Copy, Debug, PartialEq, Eq, Structural)]
pub enum Step {
    /// Draw a frame from the current state.
    Draw,
    /// Wait for the next event and dispatch it.
    NextEvent,
    /// Release the terminal.
    Teardown,
    /// Return to the caller.
    Exit,
}

/// The decisions of the render loop: draw, then take one event, until the
/// application stops; then release the terminal once and return.
#[derive(Clone, Copy, Debug, PartialEq, Eq, Structural)]
pub struct RenderLoop {
    /// A frame was drawn and its event is still to come.
    pub awaiting_event: bool,
    /// The terminal was released.
    pub torn_down: bool,
}

pub open spec fn step_of(l: RenderLoop, running: bool) -> Step {
    if l.torn_down {
        Step::Exit
    } else if !running {
        Step::Teardown
    } else if l.awaiting_event {
        Step::NextEvent
    } else {
        Step::Draw
    }
}

/// After a draw, successful or not, the loop waits for an event.
pub open spec fn after_draw(l: RenderLoop, drawn: bool) -> RenderLoop {
    RenderLoop { awaiting_event: true, torn_down: l.torn_down }
}

/// After an event was dispatched, the loop draws again.
pub open spec fn after_event(l: RenderLoop) -> RenderLoop {
    RenderLoop { awaiting_event: false, torn_down: l.torn_down }
}

pub open spec fn after_teardown(l: RenderLoop) -> RenderLoop {
    RenderLoop { awaiting_event: l.awaiting_event, torn_down: true }
}

impl RenderLoop {
    /// A loop about to draw its first frame.
    pub fn new() -> (r: RenderLoop)
        ensures
            !r.awaiting_event,
            !r.torn_down,
    {
        RenderLoop { awaiting_event: false, torn_down: false }
    }

    /// The next step, given whether the application still runs.
    pub fn next_step(&self, running: bool) -> (r: Step)
        ensures
            r == step_of(*self, running),
    {
        if self.torn_down {
            Step::Exit
        } else if !running {
            Step::Teardown
        } else if self.awaiting_event {
            Step::NextEvent
        } else {
            Step::Draw
        }
    }

    /// Records the outcome of a draw. A failed draw is not fatal: the loop
    /// goes on as after a good one.
    pub fn drawn(&mut self, ok: bool)
        ensures
            *final(self) == after_draw(*old(self), ok),
    {
        self.awaiting_event = true;
    }

    /// Records that an event was dispatched.
    pub fn dispatched(&mut self)
        ensures
            *final(self) == after_event(*old(self)),
    {
        self.awaiting_event = false;
    }

    /// Records that the terminal was released.
    pub fn torn_down(&mut self)
        ensures
            *final(self) == after_teardown(*old(self)),
    {
        self.torn_down = true;
    }
}

/// Quitting leads to exactly one teardown: while the terminal is held and
/// the application has stopped, the next step is the teardown, whether the
/// last draw failed or not; once it is done, every step is the exit, and
/// no later draw or event brings the teardown back.
pub proof fn lemma_quit_tears_down_once(l: RenderLoop, drawn: bool, running: bool)
    requires
        !l.torn_down,
    ensures
        step_of(l, false) == Step::Teardown,
        step_of(after_draw(l, drawn), false) == Step::Teardown,
        step_of(after_event(l), false) == Step::Teardown,
        step_of(after_teardown(l), running) == Step::Exit,
        step_of(after_draw(after_teardown(l), drawn), running) == Step::Exit,
        step_of(after_event(after_teardown(l)), running) == Step::Exit,
{
}

} // verus!
