//! The persisted game record and its time progression: the per-tick
//! update rule and the catch-up replay that accounts for real time spent
//! while the program was closed.

use vstd::prelude::*;
use crate::vitals::{Vitals, VitalsView, FULL_HEALTH};

verus! {

/// Number of elapsed real-time seconds that make up one game tick: one
/// hour of real time is one unit of game time.
pub const SECS_PER_TICK: u64 = 3600;

/// Mathematical view of [`State`]: the whole record as plain values,
/// with the last-save instant as seconds since the epoch.
pub struct StateView {
    pub time_alive: u64,
    pub mess: bool,
    pub vitals: VitalsView,
    pub last_save: Option<u64>,
}

impl StateView {
    /// The record after one tick of game time.
    ///
    /// A dead pet is frozen: the tick changes nothing. Otherwise the tick
    /// ages the pet, raises hunger (gated by crankiness), lowers comfort
    /// and happiness, regenerates or degenerates health by whether the
    /// pet is sick after those changes, and finally checks for an
    /// accident against the comfort value left by this tick's decrement.
    pub open spec fn after_tick(self) -> StateView {
        if !self.vitals.is_alive() {
            self
        } else {
            let aged = if self.time_alive < u64::MAX {
                (self.time_alive + 1) as u64
            } else {
                self.time_alive
            };
            let worn = self.vitals
                .with_hunger_modified(2i8)
                .with_comfort_modified(-1i8)
                .with_happiness_modified(-1i8);
            let treated = if worn.hp < FULL_HEALTH && !worn.is_sick() {
                worn.with_hp_modified(1i8)
            } else if worn.is_sick() {
                worn.with_hp_modified(-1i8)
            } else {
                worn
            };
            if treated.is_poop() {
                StateView {
                    time_alive: aged,
                    mess: true,
                    vitals: treated.with_comfort_modified(i8::MAX),
                    ..self
                }
            } else {
                StateView { time_alive: aged, vitals: treated, ..self }
            }
        }
    }

    /// The record after `n` ticks applied one at a time, in order.
    pub open spec fn after_ticks(self, n: nat) -> StateView
        decreases n,
    {
        if n == 0 {
            self
        } else {
            self.after_ticks((n - 1) as nat).after_tick()
        }
    }
}

/// Real-time seconds elapsed between the recorded last save and `now`.
/// A missing record or a clock that reads before the save both count as
/// zero: elapsed time is never negative.
pub open spec fn elapsed_secs(last_save: Option<u64>, now: u64) -> u64 {
    match last_save {
        Option::Some(t) => if now >= t {
            (now - t) as u64
        } else {
            0u64
        },
        Option::None => 0u64,
    }
}

/// Number of whole game ticks missed between the last save and `now`.
pub open spec fn missed_ticks(last_save: Option<u64>, now: u64) -> u64 {
    elapsed_secs(last_save, now) / SECS_PER_TICK
}

/// The whole persisted record: ticks survived, whether an unattended
/// mess is on the floor, the pet's vitals, and the instant of the most
/// recent save (seconds since the epoch; absent before the first save).
#[derive(Debug, Clone, Copy, PartialEq, Eq)]
pub struct State {
    pub time_alive: u64,
    pub mess: bool,
    pub vitals: Vitals,
    pub last_save: Option<u64>,
}

impl View for State {
    type V = StateView;

    open spec fn view(&self) -> StateView {
        StateView {
            time_alive: self.time_alive,
            mess: self.mess,
            vitals: self.vitals@,
            last_save: self.last_save,
        }
    }
}

impl Default for State {
    /// The record of a brand-new pet that has never been saved.
    fn default() -> (r: State)
        ensures
            r@ == (StateView {
                time_alive: 0u64,
                mess: false,
                vitals: VitalsView { hp: 100u8, hunger: 50u8, happiness: 100u8, comfort: 100u8 },
                last_save: Option::<u64>::None,
            }),
    {
        State { time_alive: 0, mess: false, vitals: Vitals::default(), last_save: None }
    }
}

impl State {
    /// Advances game time by exactly one unit, as [`StateView::after_tick`]
    /// describes. Total: no input makes it fail.
    pub fn tick(&mut self)
        ensures
            final(self)@ == old(self)@.after_tick(),
    {
        if self.vitals.is_alive() {
            if self.time_alive < u64::MAX {
                self.time_alive = self.time_alive + 1;
            }
            self.vitals.modify_hunger(2);
            self.vitals.modify_comfort(-1);
            self.vitals.modify_happiness(-1);

            // health regen or degen
            if self.vitals.hp() < FULL_HEALTH && !self.vitals.is_sick() {
                self.vitals.modify_hp(1);
            } else if self.vitals.is_sick() {
                self.vitals.modify_hp(-1);
            }

            // poo incoming!
            if self.vitals.is_poop() {
                self.mess = true;
                self.vitals.modify_comfort(i8::MAX);
            }
        }
    }

    /// Calculates the passing of time on loading of the record: replays
    /// one tick for every whole `SECS_PER_TICK` of real time elapsed
    /// since the last save, in order, and returns the elapsed seconds.
    ///
    /// A record that was never saved, or a clock that reads before the
    /// save, yields zero elapsed time and leaves the record unchanged.
    pub fn pass_time(&mut self, now: u64) -> (elapsed: u64)
        ensures
            elapsed == elapsed_secs(old(self)@.last_save, now),
            final(self)@ == old(self)@.after_ticks(missed_ticks(old(self)@.last_save, now) as nat),
    {
        let secs: u64 = match self.last_save {
            Some(t) => if now >= t {
                now - t
            } else {
                0
            },
            None => 0,
        };
        let ticks: u64 = secs / SECS_PER_TICK;
        let ghost start = self@;
        let mut i: u64 = 0;
        while i < ticks
            invariant
                i <= ticks,
                start == old(self)@,
                secs == elapsed_secs(start.last_save, now),
                ticks == missed_ticks(start.last_save, now),
                self@ == start.after_ticks(i as nat),
            decreases ticks - i,
        {
            self.tick();
            i = i + 1;
        }
        secs
    }
}

/// Tick freezing: once the pet is dead, any number of further ticks
/// leaves the whole record — ticks survived, vitals and mess alike —
/// exactly as it is.
pub proof fn lemma_dead_ticks_frozen(s: StateView, n: nat)
    requires
        !s.vitals.is_alive(),
    ensures
        s.after_ticks(n) == s,
    decreases n,
{
    if n > 0 {
        lemma_dead_ticks_frozen(s, (n - 1) as nat);
    }
}

/// Reconciliation determinism: replaying `m + n` ticks in one pass ends
/// in the same record as replaying `m` ticks and then `n` more, so any
/// batched catch-up agrees with repeated single ticks.
pub proof fn lemma_after_ticks_adds(s: StateView, m: nat, n: nat)
    ensures
        s.after_ticks(m + n) == s.after_ticks(m).after_ticks(n),
    decreases n,
{
    if n > 0 {
        lemma_after_ticks_adds(s, m, (n - 1) as nat);
    }
}

} // verus!
