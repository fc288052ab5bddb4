use vstd::prelude::*;

use crate::app::{decremented, incremented, App};
use crate::openmeteo::snapshot_after;

verus! {

/// A key of the keyboard, as far as the application tells keys apart.
#[derive(Clone, Copy, Debug, PartialEq, Eq, Structural)]
pub enum Key {
    Char(char),
    Esc,
    Left,
    Right,
    Up,
    Down,
    Enter,
    Other,
}

/// A key press, with whether Control was held.
#[derive(Clone, Copy, Debug, PartialEq, Eq, Structural)]
pub struct KeyPress {
    pub key: Key,
    pub ctrl: bool,
}

/// One event of the loop: a tick, a key press, mouse input, a new terminal
/// size, or the end of a background fetch with its body (`None` where the
/// transfer failed).
pub enum Event {
    Tick,
    Key(KeyPress),
    Mouse,
    Resize(u16, u16),
    Fetched(Option<String>),
}

/// What a key press asks of the application.
#[derive(Clone, Copy, Debug, PartialEq, Eq, Structural)]
pub enum KeyAction {
    Quit,
    Increment,
    Decrement,
    Ignore,
}

/// The bindings: `q`, Esc and Control-C quit; Right raises the counter and
/// Left lowers it; every other key is ignored.
pub open spec fn action_of(k: KeyPress) -> KeyAction {
    match k.key {
        Key::Esc => KeyAction::Quit,
        Key::Char(c) => if c == 'q' || (k.ctrl && (c == 'c' || c == 'C')) {
            KeyAction::Quit
        } else {
            KeyAction::Ignore
        },
        Key::Right => KeyAction::Increment,
        Key::Left => KeyAction::Decrement,
        _ => KeyAction::Ignore,
    }
}

/// The binding of a key press.
pub fn key_action(k: KeyPress) -> (r: KeyAction)
    ensures
        r == action_of(k),
{
    match k.key {
        Key::Esc => KeyAction::Quit,
        Key::Char(c) => if c == 'q' || (k.ctrl && (c == 'c' || c == 'C')) {
            KeyAction::Quit
        } else {
            KeyAction::Ignore
        },
        Key::Right => KeyAction::Increment,
        Key::Left => KeyAction::Decrement,
        _ => KeyAction::Ignore,
    }
}

/// Applies a key press to the application.
pub fn handle_key_events(key: KeyPress, app: &mut App)
    ensures
        final(app).running == (old(app).running && action_of(key) != KeyAction::Quit),
        final(app).counter == match action_of(key) {
            KeyAction::Increment => incremented(old(app).counter),
            KeyAction::Decrement => decremented(old(app).counter),
            _ => old(app).counter,
        },
        final(app).omc == old(app).omc,
{
    match key_action(key) {
        KeyAction::Quit => app.quit(),
        KeyAction::Increment => app.increment_counter(),
        KeyAction::Decrement => app.decrement_counter(),
        KeyAction::Ignore => {},
    }
}

/// Dispatches one event: key presses go to their bindings, ticks to the
/// tick hook, a finished fetch replaces the weather snapshot unless the
/// application has stopped, and the rest is ignored.
pub fn handle_event(event: Event, app: &mut App)
    ensures
        match event {
            Event::Key(k) => {
                &&& final(app).running == (old(app).running && action_of(k) != KeyAction::Quit)
                &&& final(app).counter == match action_of(k) {
                    KeyAction::Increment => incremented(old(app).counter),
                    KeyAction::Decrement => decremented(old(app).counter),
                    _ => old(app).counter,
                }
                &&& final(app).omc == old(app).omc
            },
            Event::Fetched(body) => {
                &&& final(app).running == old(app).running
                &&& final(app).counter == old(app).counter
                &&& final(app).omc.latitude == old(app).omc.latitude
                &&& final(app).omc.longitude == old(app).omc.longitude
                &&& final(app).omc.timezone == old(app).omc.timezone
                &&& final(app).omc.data == if old(app).running {
                    snapshot_after(
                        match body {
                            Some(b) => Some(b@),
                            None => None,
                        },
                    )
                } else {
                    old(app).omc.data
                }
            },
            _ => *final(app) == *old(app),
        },
{
    match event {
        Event::Tick => app.tick(),
        Event::Key(k) => handle_key_events(k, app),
        Event::Mouse => {},
        Event::Resize(_, _) => {},
        Event::Fetched(body) => {
            if app.running {
                match body {
                    Some(b) => app.omc.refresh(Some(b.as_str())),
                    None => app.omc.refresh(None),
                }
            }
        },
    }
}

/// The time source of the loop: the tick interval and when the last tick
/// was emitted, in milliseconds of a monotonic clock.
pub struct EventSource {
    pub tick_rate_ms: u64,
    pub last_tick_ms: u64,
}

/// The time since the last tick, zero where the clock reads earlier.
pub open spec fn elapsed(s: EventSource, now: u64) -> u64 {
    if now >= s.last_tick_ms {
        (now - s.last_tick_ms) as u64
    } else {
        0
    }
}

/// How long the next input poll may wait: until the next tick is due.
pub open spec fn timeout_of(s: EventSource, now: u64) -> u64 {
    if elapsed(s, now) >= s.tick_rate_ms {
        0
    } else {
        (s.tick_rate_ms - elapsed(s, now)) as u64
    }
}

/// Whether a tick is due.
pub open spec fn tick_due(s: EventSource, now: u64) -> bool {
    elapsed(s, now) >= s.tick_rate_ms
}

/// The events of one wake-up: the input that the poll returned, if any,
/// then a tick where one is due.
pub open spec fn wake_events(s: EventSource, now: u64, input: Option<Event>) -> Seq<Event> {
    let first: Seq<Event> = match input {
        Some(e) => seq![e],
        None => Seq::empty(),
    };
    if tick_due(s, now) {
        first.push(Event::Tick)
    } else {
        first
    }
}

impl EventSource {
    /// A source with the given tick interval whose first tick is due one
    /// interval after `now_ms`.
    pub fn new(tick_rate_ms: u64, now_ms: u64) -> (r: EventSource)
        ensures
            r.tick_rate_ms == tick_rate_ms,
            r.last_tick_ms == now_ms,
    {
        EventSource { tick_rate_ms, last_tick_ms: now_ms }
    }

    /// How long the input poll may block at `now_ms`: never past the next
    /// tick, and never longer than one interval.
    pub fn poll_timeout(&self, now_ms: u64) -> (r: u64)
        ensures
            r == timeout_of(*self, now_ms),
            r <= self.tick_rate_ms,
    {
        let elapsed = now_ms.saturating_sub(self.last_tick_ms);
        self.tick_rate_ms.saturating_sub(elapsed)
    }

    /// The events of a wake-up at `now_ms` after the poll returned `input`:
    /// the input first, then a tick where one is due, which restarts the
    /// interval.
    pub fn wake(&mut self, now_ms: u64, input: Option<Event>) -> (r: Vec<Event>)
        ensures
            r@ == wake_events(*old(self), now_ms, input),
            final(self).tick_rate_ms == old(self).tick_rate_ms,
            final(self).last_tick_ms == if tick_due(*old(self), now_ms) {
                now_ms
            } else {
                old(self).last_tick_ms
            },
    {
        let ghost s0 = *self;
        let mut r: Vec<Event> = Vec::new();
        match input {
            Some(e) => r.push(e),
            None => {},
        }
        let elapsed = now_ms.saturating_sub(self.last_tick_ms);
        if elapsed >= self.tick_rate_ms {
            r.push(Event::Tick);
            self.last_tick_ms = now_ms;
        }
        proof {
            assert(r@ =~= wake_events(s0, now_ms, input));
        }
        r
    }
}

/// A poll that waits out its whole timeout without input ends in a tick:
/// no more than one interval passes between ticks.
pub proof fn lemma_tick_within_interval(s: EventSource, now: u64, later: u64)
    requires
        s.last_tick_ms <= now,
        later >= now + timeout_of(s, now),
    ensures
        tick_due(s, later),
        wake_events(s, later, None) == seq![Event::Tick],
        timeout_of(s, now) <= s.tick_rate_ms,
{
    assert(wake_events(s, later, None) =~= seq![Event::Tick]);
}

} // verus!
