//! Conservative delivery permits for the desktop observed when a take stopped.
//!
//! A permit names one destination at one point of the observed history. Anything
//! that may have changed the destination, the lock state or the session moves the
//! history on, and an earlier permit never becomes valid again.

pub mod events;
pub mod laws;
pub mod parse;
pub mod safety_laws;

use vstd::prelude::*;

verus! {

/// Longest silence of the observer that still proves an unbroken history.
pub const OBSERVER_GAP: u64 = 250_000_000;

/// Jitter allowed between two readings of the suspended time.
pub const SUSPEND_JITTER: u64 = 10_000_000;

/// Time between two samples that were asked for.
pub const REFRESH_INTERVAL: u64 = 250_000_000;

/// First delay before the observer reconnects.
pub const RECONNECT_DELAY: u64 = 100_000_000;

/// Longest delay before the observer reconnects.
pub const RECONNECT_LIMIT: u64 = 1_000_000_000;

/// Why text is not sent.
#[derive(Clone, Copy, Debug, PartialEq, Eq, Structural)]
pub enum SafetyError {
    /// Nothing is known of the desktop.
    Unknown,
    /// The destination, the lock state or the session has changed.
    Changed,
    /// The desktop is locked, or may be.
    Locked,
    /// The compositor is no desktop of its own.
    Nested,
    /// The compositor does not tell of its layers.
    NoLayerMetadata,
    /// The compositor's configuration has errors that a query would clear.
    ConfigErrors,
    /// A layer takes the keyboard.
    LayerOpen,
    /// The focused window is one of Cantrip's own.
    OwnWindow,
    /// No window takes text.
    NoDestination,
    /// The session is not active, local and unlocked.
    SessionInactive,
    /// The system is about to sleep.
    Sleeping,
}

impl SafetyError {
    /// What is told of the error.
    pub open spec fn words(self) -> Seq<char> {
        match self {
            SafetyError::Unknown => "Desktop safety is unavailable; text was not sent. Use Copy from recordings."@,
            SafetyError::Changed => "The destination, lock state, or session changed since stop; text was not sent."@,
            SafetyError::Locked => "The desktop is locked or lock safety is unknown; text was not sent."@,
            SafetyError::Nested => "Nested or unknown desktops cannot verify parent focus and lock state; use Copy from recordings."@,
            SafetyError::NoLayerMetadata => "This desktop cannot provide the layer metadata required for safe delivery; use Copy from recordings."@,
            SafetyError::ConfigErrors => "Desktop configuration has errors; focus safety cannot be checked without clearing them."@,
            SafetyError::LayerOpen => "A keyboard-interactive desktop layer is open; text was not sent."@,
            SafetyError::OwnWindow => "Cantrip's own window is focused; text was saved instead of sent."@,
            SafetyError::NoDestination => "There is no verified text destination; text was not sent."@,
            SafetyError::SessionInactive => "The local Wayland session is inactive, locked, or unknown; text was not sent."@,
            SafetyError::Sleeping => "The system is preparing to sleep; text was not sent."@,
        }
    }

    /// What is told of the error.
    pub fn message(self) -> (result: &'static str)
        ensures
            result@ == self.words(),
    {
        match self {
            SafetyError::Unknown => "Desktop safety is unavailable; text was not sent. Use Copy from recordings.",
            SafetyError::Changed => "The destination, lock state, or session changed since stop; text was not sent.",
            SafetyError::Locked => "The desktop is locked or lock safety is unknown; text was not sent.",
            SafetyError::Nested => "Nested or unknown desktops cannot verify parent focus and lock state; use Copy from recordings.",
            SafetyError::NoLayerMetadata => "This desktop cannot provide the layer metadata required for safe delivery; use Copy from recordings.",
            SafetyError::ConfigErrors => "Desktop configuration has errors; focus safety cannot be checked without clearing them.",
            SafetyError::LayerOpen => "A keyboard-interactive desktop layer is open; text was not sent.",
            SafetyError::OwnWindow => "Cantrip's own window is focused; text was saved instead of sent.",
            SafetyError::NoDestination => "There is no verified text destination; text was not sent.",
            SafetyError::SessionInactive => "The local Wayland session is inactive, locked, or unknown; text was not sent.",
            SafetyError::Sleeping => "The system is preparing to sleep; text was not sent.",
        }
    }
}

/// A window that takes text. A reused address has another stable identity.
#[derive(Clone, Copy, Debug, PartialEq, Eq, Structural)]
pub struct Focus {
    pub address: u64,
    pub stable_id: u64,
    pub pid: u32,
}

/// A destination at a point of the observed history.
#[derive(Clone, Copy, Debug, PartialEq, Eq, Structural)]
pub struct Stamp {
    pub focus: Focus,
    pub generation: u64,
    pub suspend_offset: u64,
    pub compositor: i32,
}

/// The observed history of the desktop.
#[derive(Clone, Copy, Debug, PartialEq, Eq)]
pub struct History {
    /// Moves on whenever anything may have changed.
    pub generation: u64,
    /// The observer is connected.
    pub alive: bool,
    /// When the observer last looked; zero where it never did.
    pub last_poll: u64,
    /// The last sample.
    pub cached: Result<Stamp, SafetyError>,
    /// A capture failed for want of a sample.
    pub refresh_requested: bool,
}

/// Distance of two numbers.
pub open spec fn distance(a: u64, b: u64) -> int {
    if a >= b {
        a - b
    } else {
        b - a
    }
}

fn distance_of(a: u64, b: u64) -> (result: u64)
    ensures
        result == distance(a, b),
{
    if a >= b {
        a - b
    } else {
        b - a
    }
}

/// The generation after a number of changes.
pub open spec fn moved_on(generation: u64, changes: nat) -> u64 {
    ((generation + changes) % 0x1_0000_0000_0000_0000) as u64
}

impl History {
    /// A history that nobody has observed.
    pub fn new() -> (result: Self)
        ensures
            result == (History {
                generation: 0,
                alive: false,
                last_poll: 0,
                cached: Err(SafetyError::Unknown),
                refresh_requested: false,
            }),
    {
        History {
            generation: 0,
            alive: false,
            last_poll: 0,
            cached: Err(SafetyError::Unknown),
            refresh_requested: false,
        }
    }

    /// Whether a permit still holds: the observer has seen everything since, and
    /// nothing that it saw, and no suspend, lies between.
    pub open spec fn permit(
        self,
        stamp: Stamp,
        now: Option<u64>,
        suspended: Option<u64>,
    ) -> Result<(), SafetyError> {
        if !self.alive || now is None || now->0 - self.last_poll > OBSERVER_GAP {
            Err(SafetyError::Unknown)
        } else if self.generation != stamp.generation {
            Err(SafetyError::Changed)
        } else if suspended is None {
            Err(SafetyError::Unknown)
        } else if distance(suspended->0, stamp.suspend_offset) > SUSPEND_JITTER {
            Err(SafetyError::Changed)
        } else {
            Ok(())
        }
    }

    /// Check a permit, given the clock and the time spent suspended.
    pub fn check_stamp(&self, stamp: Stamp, now: Option<u64>, suspended: Option<u64>) -> (result:
        Result<(), SafetyError>)
        ensures
            result == self.permit(stamp, now, suspended),
    {
        let Some(now) = now else {
            return Err(SafetyError::Unknown);
        };
        if !self.alive || (now > self.last_poll && now - self.last_poll > OBSERVER_GAP) {
            return Err(SafetyError::Unknown);
        }
        if self.generation != stamp.generation {
            return Err(SafetyError::Changed);
        }
        let Some(suspended) = suspended else {
            return Err(SafetyError::Unknown);
        };
        if distance_of(suspended, stamp.suspend_offset) > SUSPEND_JITTER {
            return Err(SafetyError::Changed);
        }
        Ok(())
    }

    /// The sample that a capture may use, where one can be read and still holds.
    pub open spec fn capture(
        self,
        readable: bool,
        now: Option<u64>,
        suspended: Option<u64>,
    ) -> Result<Stamp, SafetyError> {
        if !readable {
            Err(SafetyError::Unknown)
        } else {
            match self.cached {
                Err(error) => Err(error),
                Ok(stamp) => match self.permit(stamp, now, suspended) {
                    Ok(()) => Ok(stamp),
                    Err(error) => Err(error),
                },
            }
        }
    }

    /// The sample that a capture may use. It never waits: where a sample is just
    /// being published it is not readable. A failure asks for a new one.
    pub fn cached_stamp(
        &mut self,
        readable: bool,
        now: Option<u64>,
        suspended: Option<u64>,
    ) -> (result: Result<Stamp, SafetyError>)
        ensures
            result == old(self).capture(readable, now, suspended),
            *final(self) == (History {
                refresh_requested: old(self).refresh_requested || result is Err,
                ..*old(self)
            }),
    {
        let result = if !readable {
            Err(SafetyError::Unknown)
        } else {
            match self.cached {
                Err(error) => Err(error),
                Ok(stamp) => match self.check_stamp(stamp, now, suspended) {
                    Ok(()) => Ok(stamp),
                    Err(error) => Err(error),
                },
            }
        };
        if result.is_err() {
            self.refresh_requested = true;
        }
        result
    }

    /// Something may have changed.
    pub fn move_on(&mut self)
        ensures
            *final(self) == (History {
                generation: moved_on(old(self).generation, 1),
                ..*old(self)
            }),
    {
        self.generation = self.generation.wrapping_add(1);
    }

    /// The observer is gone.
    pub open spec fn invalidated(self) -> History {
        History {
            alive: false,
            generation: moved_on(self.generation, 1),
            last_poll: 0,
            ..self
        }
    }

    /// The observer is gone: nothing that was seen before proves anything after.
    pub fn invalidate_history(&mut self)
        ensures
            *final(self) == old(self).invalidated(),
    {
        self.alive = false;
        self.move_on();
        self.last_poll = 0;
    }

    /// With the observer connected.
    pub open spec fn reconnected(self, now: u64) -> History {
        History { alive: true, last_poll: now, ..self }
    }

    /// The observer is connected and has seen all that was queued.
    pub fn connected(&mut self, now: u64)
        ensures
            *final(self) == old(self).reconnected(now),
    {
        self.last_poll = now;
        self.alive = true;
    }

    /// Changes that a look at the clocks reveals: a gap in the observation, and a
    /// suspend since the last one.
    pub open spec fn clock_changes(self, now: u64, suspended: u64, last_suspended: u64) -> nat {
        (if self.last_poll != 0 && now - self.last_poll > OBSERVER_GAP {
            1nat
        } else {
            0
        }) + (if distance(suspended, last_suspended) > SUSPEND_JITTER {
            1nat
        } else {
            0
        })
    }

    /// After a look at the clocks.
    pub open spec fn ticked(self, now: u64, suspended: u64, last_suspended: u64) -> History {
        History {
            generation: moved_on(
                self.generation,
                self.clock_changes(now, suspended, last_suspended),
            ),
            last_poll: now,
            ..self
        }
    }

    /// Look at the clocks. Returns the suspended time to compare with next.
    pub fn tick(&mut self, now: u64, suspended: u64, last_suspended: u64) -> (result: u64)
        ensures
            *final(self) == old(self).ticked(now, suspended, last_suspended),
            result == if distance(suspended, last_suspended) > SUSPEND_JITTER {
                suspended
            } else {
                last_suspended
            },
    {
        let previous: u64 = self.last_poll;
        self.last_poll = now;
        if previous != 0 && now > previous && now - previous > OBSERVER_GAP {
            self.move_on();
        }
        if distance_of(suspended, last_suspended) > SUSPEND_JITTER {
            self.move_on();
            return suspended;
        }
        last_suspended
    }

    /// Whether a new sample is wanted.
    pub open spec fn due(self, sampled: Option<u64>, now: u64, refresh_after: u64) -> bool {
        sampled != Some(self.generation) || (self.refresh_requested && now >= refresh_after)
    }

    /// Whether a sample is due: the history has moved on since the last one, or one
    /// was asked for and the last one is old enough. A due sample answers the request.
    pub fn sample_due(&mut self, sampled: Option<u64>, now: u64, refresh_after: u64) -> (result:
        bool)
        ensures
            result == old(self).due(sampled, now, refresh_after),
            *final(self) == (History {
                refresh_requested: old(self).refresh_requested && !result,
                ..*old(self)
            }),
    {
        let unseen = match sampled {
            Some(generation) => generation != self.generation,
            None => true,
        };
        let due = unseen || (self.refresh_requested && now >= refresh_after);
        if due {
            self.refresh_requested = false;
        }
        due
    }

    /// With a new sample; one that failed counts as a change.
    pub open spec fn published(self, sample: Result<Stamp, SafetyError>) -> History {
        History {
            generation: moved_on(
                self.generation,
                if sample is Err {
                    1
                } else {
                    0
                },
            ),
            cached: sample,
            ..self
        }
    }

    /// Publish a sample. A failed one is a break in authority, not just a miss: a
    /// mapped layer can take the keyboard without any event.
    pub fn publish(&mut self, sample: Result<Stamp, SafetyError>)
        ensures
            *final(self) == old(self).published(sample),
    {
        if sample.is_err() {
            self.move_on();
        }
        self.cached = sample;
    }

    /// What a request is made for.
    pub open spec fn requested(self) -> Result<u64, SafetyError> {
        if self.alive {
            Ok(self.generation)
        } else {
            Err(SafetyError::Unknown)
        }
    }

    /// A delivery asks for a sample: the generation that it must have.
    pub fn request(&self) -> (result: Result<u64, SafetyError>)
        ensures
            result == self.requested(),
    {
        if self.alive {
            Ok(self.generation)
        } else {
            Err(SafetyError::Unknown)
        }
    }
}

/// What a request is answered.
pub open spec fn answered(generation: u64, sample: Result<Stamp, SafetyError>) -> Result<
    Stamp,
    SafetyError,
> {
    match sample {
        Ok(stamp) => if stamp.generation == generation {
            Ok(stamp)
        } else {
            Err(SafetyError::Changed)
        },
        Err(error) => Err(error),
    }
}

/// A sample as a request gets it: only one of the generation asked for.
pub fn answer_request(generation: u64, sample: Result<Stamp, SafetyError>) -> (result: Result<
    Stamp,
    SafetyError,
>)
    ensures
        result == answered(generation, sample),
{
    match sample {
        Ok(stamp) => {
            if stamp.generation == generation {
                Ok(stamp)
            } else {
                Err(SafetyError::Changed)
            }
        },
        Err(error) => Err(error),
    }
}

/// A permit as a take holds it: none where there is no observer at all.
#[derive(Clone, Copy, Debug, PartialEq, Eq)]
pub struct Guard {
    pub observed: bool,
    pub stamp: Result<Stamp, SafetyError>,
}

impl Guard {
    /// Whether the permit still holds.
    pub open spec fn holds(
        self,
        history: History,
        now: Option<u64>,
        suspended: Option<u64>,
    ) -> Result<(), SafetyError> {
        if !self.observed {
            Err(SafetyError::Unknown)
        } else {
            match self.stamp {
                Err(error) => Err(error),
                Ok(stamp) => history.permit(stamp, now, suspended),
            }
        }
    }

    /// Take a permit.
    pub fn capture(
        history: Option<&mut History>,
        readable: bool,
        now: Option<u64>,
        suspended: Option<u64>,
    ) -> (result: Self)
        ensures
            match history {
                Some(history) => result.observed && result.stamp == history.capture(
                    readable,
                    now,
                    suspended,
                ) && *final(history) == (History {
                    refresh_requested: history.refresh_requested || result.stamp is Err,
                    ..*history
                }),
                None => result == (Guard { observed: false, stamp: Err(SafetyError::Unknown) }),
            },
    {
        match history {
            Some(history) => Guard {
                observed: true,
                stamp: history.cached_stamp(readable, now, suspended),
            },
            None => Guard { observed: false, stamp: Err(SafetyError::Unknown) },
        }
    }

    /// Check that nothing has changed since the permit was taken.
    pub fn check_history(
        &self,
        history: &History,
        now: Option<u64>,
        suspended: Option<u64>,
    ) -> (result: Result<(), SafetyError>)
        ensures
            result == self.holds(*history, now, suspended),
    {
        if !self.observed {
            return Err(SafetyError::Unknown);
        }
        match self.stamp {
            Err(error) => Err(error),
            Ok(stamp) => history.check_stamp(stamp, now, suspended),
        }
    }

    /// Whether a later sample shows the same destination.
    pub open spec fn confirmed(self, current: Result<Stamp, SafetyError>) -> Result<
        (),
        SafetyError,
    > {
        match (self.stamp, current) {
            (Err(error), _) => Err(error),
            (Ok(_), Err(error)) => Err(error),
            (Ok(initial), Ok(current)) => if current.focus == initial.focus
                && current.generation == initial.generation {
                Ok(())
            } else {
                Err(SafetyError::Changed)
            },
        }
    }

    /// Hold a fresh sample against the permit.
    pub fn confirm(&self, current: Result<Stamp, SafetyError>) -> (result: Result<(), SafetyError>)
        ensures
            result == self.confirmed(current),
    {
        let initial = match self.stamp {
            Ok(stamp) => stamp,
            Err(error) => return Err(error),
        };
        let current = match current {
            Ok(stamp) => stamp,
            Err(error) => return Err(error),
        };
        if current.focus == initial.focus && current.generation == initial.generation {
            Ok(())
        } else {
            Err(SafetyError::Changed)
        }
    }

    /// The compositor that the permit is for.
    pub fn compositor(&self) -> (result: Result<i32, SafetyError>)
        ensures
            result == match self.stamp {
                Ok(stamp) => Ok(stamp.compositor),
                Err(error) => Err(error),
            },
    {
        match self.stamp {
            Ok(stamp) => Ok(stamp.compositor),
            Err(error) => Err(error),
        }
    }
}

/// A sample under way: what was known before the desktop was asked.
#[derive(Clone, Copy, Debug, PartialEq, Eq, Structural)]
pub struct Sample {
    pub generation: u64,
    pub suspend_offset: u64,
    pub compositor: i32,
}

impl Sample {
    /// A sample that may be taken now.
    pub open spec fn begun(
        pending: bool,
        generation: u64,
        suspended: Option<u64>,
        compositor: i32,
    ) -> Result<Sample, SafetyError> {
        if pending || suspended is None {
            Err(SafetyError::Unknown)
        } else {
            Ok(Sample { generation, suspend_offset: suspended->0, compositor })
        }
    }

    /// Begin a sample. An event of which only a part has arrived hides the history.
    pub fn begin(
        pending: bool,
        generation: u64,
        suspended: Option<u64>,
        compositor: i32,
    ) -> (result: Result<Self, SafetyError>)
        ensures
            result == Sample::begun(pending, generation, suspended, compositor),
    {
        if pending {
            return Err(SafetyError::Unknown);
        }
        match suspended {
            Some(suspend_offset) => Ok(Sample { generation, suspend_offset, compositor }),
            None => Err(SafetyError::Unknown),
        }
    }

    /// The stamp that a sample comes to, where nothing happened meanwhile.
    pub open spec fn outcome(
        self,
        focus: Focus,
        pending: bool,
        generation: u64,
        suspended: Option<u64>,
    ) -> Result<Stamp, SafetyError> {
        if pending || generation != self.generation {
            Err(SafetyError::Changed)
        } else if suspended is None {
            Err(SafetyError::Unknown)
        } else if distance(self.suspend_offset, suspended->0) > SUSPEND_JITTER {
            Err(SafetyError::Changed)
        } else {
            Ok(
                Stamp {
                    focus,
                    generation: self.generation,
                    suspend_offset: self.suspend_offset,
                    compositor: self.compositor,
                },
            )
        }
    }

    /// Finish a sample once the desktop has been asked and its events are read.
    pub fn finish(
        self,
        focus: Focus,
        pending: bool,
        generation: u64,
        suspended: Option<u64>,
    ) -> (result: Result<Stamp, SafetyError>)
        ensures
            result == self.outcome(focus, pending, generation, suspended),
    {
        if pending || generation != self.generation {
            return Err(SafetyError::Changed);
        }
        let Some(suspended) = suspended else {
            return Err(SafetyError::Unknown);
        };
        if distance_of(self.suspend_offset, suspended) > SUSPEND_JITTER {
            return Err(SafetyError::Changed);
        }
        Ok(
            Stamp {
                focus,
                generation: self.generation,
                suspend_offset: self.suspend_offset,
                compositor: self.compositor,
            },
        )
    }
}

/// How long the observer waits before it reconnects, and the delay after that: a
/// connection that lived starts again from the shortest delay.
pub fn reconnect_delay(delay: u64, was_alive: bool) -> (result: (u64, u64))
    requires
        delay <= RECONNECT_LIMIT,
    ensures
        result.0 == if was_alive {
            RECONNECT_DELAY
        } else {
            delay
        },
        result.1 == if result.0 * 2 < RECONNECT_LIMIT {
            result.0 * 2
        } else {
            RECONNECT_LIMIT as int
        },
{
    let wait: u64 = if was_alive {
        RECONNECT_DELAY
    } else {
        delay
    };
    let next: u64 = if wait * 2 < RECONNECT_LIMIT {
        wait * 2
    } else {
        RECONNECT_LIMIT
    };
    (wait, next)
}

/// A clock's reading in nanoseconds; one that does not fit counts as the last one
/// that does.
pub fn clock_ns(seconds: u64, nanoseconds: u64) -> (result: u64)
    ensures
        result == if seconds * 1_000_000_000 + nanoseconds <= u64::MAX {
            (seconds * 1_000_000_000 + nanoseconds) as u64
        } else {
            u64::MAX
        },
{
    let wide: u128 = (seconds as u128) * 1_000_000_000 + nanoseconds as u128;
    if wide <= u64::MAX as u128 {
        wide as u64
    } else {
        u64::MAX
    }
}

/// How long the system has been suspended.
pub open spec fn time_suspended(boot: Option<u64>, monotonic: Option<u64>) -> Option<u64> {
    match (boot, monotonic) {
        (Some(boot), Some(monotonic)) => Some(
            if boot >= monotonic {
                (boot - monotonic) as u64
            } else {
                0
            },
        ),
        _ => None,
    }
}

/// Time spent suspended: the clock that counts it less the one that does not.
pub fn suspend_offset(boot: Option<u64>, monotonic: Option<u64>) -> (result: Option<u64>)
    ensures
        result == time_suspended(boot, monotonic),
{
    match (boot, monotonic) {
        (Some(boot), Some(monotonic)) => {
            if boot >= monotonic {
                Some(boot - monotonic)
            } else {
                Some(0)
            }
        },
        _ => None,
    }
}

} // verus!
