use vstd::prelude::*;

use crate::openmeteo::OpenMeteoClient;

verus! {

/// The state of the application: whether it runs, a demo counter, and the
/// weather client it shows.
pub struct App {
    pub running: bool,
    pub counter: u8,
    pub omc: OpenMeteoClient,
}

/// The counter after one increment: one more, held at the type's maximum.
pub open spec fn incremented(c: u8) -> u8 {
    if c < u8::MAX {
        (c + 1) as u8
    } else {
        c
    }
}

/// The counter after one decrement: one less, held at zero.
pub open spec fn decremented(c: u8) -> u8 {
    if c > 0 {
        (c - 1) as u8
    } else {
        c
    }
}

/// The counter after `n` increments.
pub open spec fn after_increments(c: u8, n: nat) -> u8
    decreases n,
{
    if n == 0 {
        c
    } else {
        incremented(after_increments(c, (n - 1) as nat))
    }
}

/// The counter after `n` decrements.
pub open spec fn after_decrements(c: u8, n: nat) -> u8
    decreases n,
{
    if n == 0 {
        c
    } else {
        decremented(after_decrements(c, (n - 1) as nat))
    }
}

/// Any number of increments stops at the type's maximum and never wraps:
/// `n` of them give `min(c + n, 255)`.
pub proof fn lemma_increments_saturate(c: u8, n: nat)
    ensures
        after_increments(c, n) as int == if c + n <= u8::MAX { c + n } else { u8::MAX as int },
    decreases n,
{
    if n > 0 {
        lemma_increments_saturate(c, (n - 1) as nat);
    }
}

/// Any number of decrements stops at zero and never wraps: `n` of them
/// give `max(c - n, 0)`.
pub proof fn lemma_decrements_saturate(c: u8, n: nat)
    ensures
        after_decrements(c, n) as int == if c >= n { c - n } else { 0 },
    decreases n,
{
    if n > 0 {
        lemma_decrements_saturate(c, (n - 1) as nat);
    }
}

impl App {
    /// A running application for the given place, counter at zero and no
    /// weather data yet.
    pub fn new(latitude: &str, longitude: &str, timezone: &str) -> (r: App)
        ensures
            r.running,
            r.counter == 0,
            r.omc.latitude@ == latitude@,
            r.omc.longitude@ == longitude@,
            r.omc.timezone@ == timezone@,
            r.omc.data is None,
    {
        App { running: true, counter: 0, omc: OpenMeteoClient::new(latitude, longitude, timezone) }
    }

    /// The periodic hook of the event loop; it does nothing yet.
    pub fn tick(&self) {
    }

    /// Stops the application.
    pub fn quit(&mut self)
        ensures
            !final(self).running,
            final(self).counter == old(self).counter,
            final(self).omc == old(self).omc,
    {
        self.running = false;
    }

    /// Adds one to the counter, unless it is at its maximum.
    pub fn increment_counter(&mut self)
        ensures
            final(self).counter == incremented(old(self).counter),
            final(self).running == old(self).running,
            final(self).omc == old(self).omc,
    {
        if let Some(res) = self.counter.checked_add(1) {
            self.counter = res;
        }
    }

    /// Takes one from the counter, unless it is zero.
    pub fn decrement_counter(&mut self)
        ensures
            final(self).counter == decremented(old(self).counter),
            final(self).running == old(self).running,
            final(self).omc == old(self).omc,
    {
        if let Some(res) = self.counter.checked_sub(1) {
            self.counter = res;
        }
    }
}

} // verus!
