//! A stopwatch over a millisecond counter: it can be started, stopped,
//! paused and resumed, and the time that it spends paused does not count.
//!
//! The stopwatch keeps no clock of its own. Who reads it, or changes it,
//! says what the counter shows at that moment.

use vstd::prelude::*;
use crate::event::Key;

verus! {

/// A stopwatch.
#[derive(Clone, Copy, Debug, PartialEq, Eq, Structural)]
pub struct LTimer {
    /// What the counter showed when the stopwatch was started, moved on by
    /// the time it has spent paused since. Zero while it is paused.
    pub start_ticks: u32,
    /// What the stopwatch showed when it was paused. Zero while it runs.
    pub paused_ticks: u32,
    /// Whether the stopwatch is paused.
    pub paused: bool,
    /// Whether the stopwatch has been started and not stopped since.
    pub started: bool,
}

impl LTimer {
    /// Whether the stopwatch counts: started and not paused.
    pub open spec fn running(self) -> bool {
        self.started && !self.paused
    }

    /// What the stopwatch shows when the counter shows `now`.
    pub open spec fn ticks_at(self, now: int) -> int {
        if self.started {
            if self.paused {
                self.paused_ticks as int
            } else {
                now - self.start_ticks
            }
        } else {
            0
        }
    }

    /// Whether the stopwatch can be read when the counter shows `now`: one
    /// that counts was not started later than that.
    pub open spec fn readable_at(self, now: u32) -> bool {
        self.running() ==> self.start_ticks <= now
    }

    /// Whether the stopwatch can be resumed when the counter shows `now`:
    /// what a paused one shows is no more than that.
    pub open spec fn resumable_at(self, now: u32) -> bool {
        self.started && self.paused ==> self.paused_ticks <= now
    }

    /// Whether the stopwatch can be read, or paused, when the counter shows
    /// `now`.
    pub fn is_readable_at(&self, now: u32) -> (ok: bool)
        ensures
            ok == self.readable_at(now),
    {
        !(self.started && !self.paused) || self.start_ticks <= now
    }

    /// Whether the stopwatch can be resumed when the counter shows `now`.
    pub fn is_resumable_at(&self, now: u32) -> (ok: bool)
        ensures
            ok == self.resumable_at(now),
    {
        !(self.started && self.paused) || self.paused_ticks <= now
    }

    /// A stopwatch that has not been started.
    pub fn new() -> (timer: LTimer)
        ensures
            timer == (LTimer { start_ticks: 0, paused_ticks: 0, paused: false, started: false }),
    {
        LTimer { start_ticks: 0, paused_ticks: 0, paused: false, started: false }
    }

    /// Starts the stopwatch from zero, whatever it did before.
    pub fn start(&mut self, now: u32)
        ensures
            *final(self) == (LTimer {
                start_ticks: now,
                paused_ticks: 0,
                paused: false,
                started: true,
            }),
    {
        self.started = true;
        self.paused = false;
        self.start_ticks = now;
        self.paused_ticks = 0;
    }

    /// Stops the stopwatch and clears it.
    pub fn stop(&mut self)
        ensures
            *final(self) == (LTimer {
                start_ticks: 0,
                paused_ticks: 0,
                paused: false,
                started: false,
            }),
    {
        self.started = false;
        self.paused = false;
        self.start_ticks = 0;
        self.paused_ticks = 0;
    }

    /// The stopwatch after [`LTimer::pause`].
    pub open spec fn pause_spec(self, now: u32) -> LTimer {
        if self.running() {
            LTimer {
                start_ticks: 0,
                paused_ticks: (now - self.start_ticks) as u32,
                paused: true,
                started: true,
            }
        } else {
            self
        }
    }

    /// Pauses a stopwatch that counts, keeping what it shows. Any other is
    /// left as it is.
    pub fn pause(&mut self, now: u32)
        requires
            old(self).readable_at(now),
        ensures
            *final(self) == old(self).pause_spec(now),
    {
        if self.started && !self.paused {
            self.paused = true;
            self.paused_ticks = now - self.start_ticks;
            self.start_ticks = 0;
        }
    }

    /// The stopwatch after [`LTimer::unpause`].
    pub open spec fn unpause_spec(self, now: u32) -> LTimer {
        if self.started && self.paused {
            LTimer {
                start_ticks: (now - self.paused_ticks) as u32,
                paused_ticks: 0,
                paused: false,
                started: true,
            }
        } else {
            self
        }
    }

    /// Lets a paused stopwatch count on from what it shows. Any other is
    /// left as it is.
    pub fn unpause(&mut self, now: u32)
        requires
            old(self).resumable_at(now),
        ensures
            *final(self) == old(self).unpause_spec(now),
    {
        if self.started && self.paused {
            self.paused = false;
            self.start_ticks = now - self.paused_ticks;
            self.paused_ticks = 0;
        }
    }

    /// What the stopwatch shows, in milliseconds, when the counter shows
    /// `now`: zero where it has not been started.
    pub fn get_ticks(&self, now: u32) -> (ticks: u32)
        requires
            self.readable_at(now),
        ensures
            ticks == self.ticks_at(now as int),
    {
        if self.started {
            return if self.paused {
                self.paused_ticks
            } else {
                now - self.start_ticks
            };
        }
        0
    }

    /// Whether the stopwatch has been started and not stopped since.
    pub fn is_started(&self) -> (started: bool)
        ensures
            started == self.started,
    {
        self.started
    }

    /// Whether the stopwatch is paused.
    pub fn is_paused(&self) -> (paused: bool)
        ensures
            paused == self.paused,
    {
        self.paused
    }

    /// The stopwatch after [`LTimer::handle_key`].
    pub open spec fn handle_key_spec(self, key: Key, now: u32) -> LTimer {
        match key {
            Key::S => if self.started {
                LTimer { start_ticks: 0, paused_ticks: 0, paused: false, started: false }
            } else {
                LTimer { start_ticks: now, paused_ticks: 0, paused: false, started: true }
            },
            Key::P => if self.paused {
                self.unpause_spec(now)
            } else {
                self.pause_spec(now)
            },
            _ => self,
        }
    }

    /// Works the stopwatch from the keyboard: `S` stops a started stopwatch
    /// and starts any other, `P` resumes a paused stopwatch and pauses any
    /// other. Other keys do nothing.
    pub fn handle_key(&mut self, key: Key, now: u32)
        requires
            key == Key::P ==> old(self).readable_at(now) && old(self).resumable_at(now),
        ensures
            *final(self) == old(self).handle_key_spec(key, now),
    {
        match key {
            Key::S => {
                if self.is_started() {
                    self.stop();
                } else {
                    self.start(now);
                }
            },
            Key::P => {
                if self.is_paused() {
                    self.unpause(now);
                } else {
                    self.pause(now);
                }
            },
            _ => {},
        }
    }
}

/// A started stopwatch shows the time since its start.
pub proof fn lemma_start_counts_from_zero(timer: LTimer, start: u32, now: u32)
    requires
        timer == (LTimer { start_ticks: start, paused_ticks: 0, paused: false, started: true }),
    ensures
        timer.ticks_at(now as int) == now - start,
        timer.ticks_at(start as int) == 0,
{
}

/// A paused stopwatch shows, at any later time, what it showed when it was
/// paused.
pub proof fn lemma_pause_holds_reading(timer: LTimer, paused_at: u32, now: u32)
    requires
        timer.running(),
        timer.readable_at(paused_at),
    ensures
        timer.pause_spec(paused_at).ticks_at(now as int) == timer.ticks_at(paused_at as int),
{
}

/// The time between a pause and the resume that follows it is left out of
/// what the stopwatch shows.
pub proof fn lemma_paused_time_not_counted(timer: LTimer, paused_at: u32, resumed_at: u32, now: u32)
    requires
        timer.running(),
        timer.readable_at(paused_at),
        paused_at <= resumed_at,
    ensures
        timer.pause_spec(paused_at).resumable_at(resumed_at),
        timer.pause_spec(paused_at).unpause_spec(resumed_at).ticks_at(now as int)
            == timer.ticks_at(now as int) - (resumed_at - paused_at),
{
}

} // verus!
