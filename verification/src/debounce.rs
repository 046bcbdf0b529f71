//! Per-switch debouncing by run length of raw samples.
//!
//! Every scan cycle hands the debouncer one raw level per switch. The debouncer
//! keeps, for each switch, the level it saw last and for how many cycles in a
//! row it has seen it. A level that differs from the confirmed state of the key
//! becomes a transition once it has lasted for the debounce threshold; every
//! flip of the raw level starts the count again.

use vstd::prelude::*;
use crate::matrix::KeyState;

verus! {

/// Scan cycles a raw level has to last before it counts as a transition.
pub const DEBOUNCE_THRESHOLD: u32 = 10;

/// Scan cycles a pressed level has to last before the key counts as held.
pub const HOLD_THRESHOLD: u32 = 300;

/// What one raw sample means for a switch.
#[derive(Clone, Copy, Debug, PartialEq, Eq)]
pub enum DebounceState {
    /// The raw level has lasted for the debounce threshold and differs from
    /// the confirmed state of the key: a transition.
    Debounced,
    /// The key is pressed and its raw level has stayed pressed for the hold
    /// threshold.
    HeldHigh,
    /// Neither threshold is met.
    NoChange,
}

/// The two thresholds of a debouncer, in scan cycles.
#[derive(Clone, Copy, Debug, PartialEq, Eq)]
pub struct DebounceConfig {
    pub debounce_threshold: u32,
    pub hold_threshold: u32,
}

/// Run length of the raw level of one switch.
#[derive(Clone, Copy, Debug, PartialEq, Eq)]
pub struct DebounceCounter {
    /// Raw level of the latest sample.
    pub level: bool,
    /// Number of samples in a row that had this level; it stops counting at
    /// `u32::MAX`.
    pub run: u32,
}

impl DebounceCounter {
    /// The counter of a switch that has not been sampled: released, no run.
    pub open spec fn initial() -> DebounceCounter {
        DebounceCounter { level: false, run: 0 }
    }

    /// The counter after one more sample: the run grows while the level
    /// repeats and starts again at one when the level flips.
    pub open spec fn observe(self, pin_state: bool) -> DebounceCounter {
        if pin_state == self.level {
            DebounceCounter {
                level: pin_state,
                run: if self.run < u32::MAX { (self.run + 1) as u32 } else { u32::MAX },
            }
        } else {
            DebounceCounter { level: pin_state, run: 1 }
        }
    }

    pub fn new() -> (counter: Self)
        ensures
            counter == Self::initial(),
    {
        DebounceCounter { level: false, run: 0 }
    }

    /// Takes one raw sample into the run length.
    pub fn record(&mut self, pin_state: bool)
        ensures
            *final(self) == old(self).observe(pin_state),
    {
        if pin_state == self.level {
            if self.run < u32::MAX {
                self.run = self.run + 1;
            }
        } else {
            self.level = pin_state;
            self.run = 1;
        }
    }
}

/// The meaning of a sample, given the counter that already holds it and the
/// confirmed state of the key.
pub open spec fn verdict(
    config: DebounceConfig,
    counter: DebounceCounter,
    pin_state: bool,
    pressed: bool,
) -> DebounceState {
    if pin_state != pressed && counter.run >= config.debounce_threshold {
        DebounceState::Debounced
    } else if pin_state && pressed && counter.run >= config.hold_threshold {
        DebounceState::HeldHigh
    } else {
        DebounceState::NoChange
    }
}

/// Debounce state of every switch of a matrix, addressed by output line and
/// input line.
pub struct Debouncer<const INPUT_PIN_NUM: usize, const OUTPUT_PIN_NUM: usize> {
    config: DebounceConfig,
    debounce_counter: [[DebounceCounter; INPUT_PIN_NUM]; OUTPUT_PIN_NUM],
}

impl<const INPUT_PIN_NUM: usize, const OUTPUT_PIN_NUM: usize> Debouncer<
    INPUT_PIN_NUM,
    OUTPUT_PIN_NUM,
> {
    /// The thresholds this debouncer was made with.
    pub closed spec fn config(&self) -> DebounceConfig {
        self.config
    }

    /// The counter of the switch at `(out_idx, in_idx)`.
    pub closed spec fn counter(&self, out_idx: int, in_idx: int) -> DebounceCounter {
        self.debounce_counter[out_idx][in_idx]
    }

    /// A debouncer with the default thresholds.
    pub fn new() -> (debouncer: Self)
        ensures
            debouncer.config().debounce_threshold == DEBOUNCE_THRESHOLD,
            debouncer.config().hold_threshold == HOLD_THRESHOLD,
            forall|o: int, i: int|
                0 <= o < OUTPUT_PIN_NUM && 0 <= i < INPUT_PIN_NUM
                    ==> #[trigger] debouncer.counter(o, i) == DebounceCounter::initial(),
    {
        Self::with_thresholds(DEBOUNCE_THRESHOLD, HOLD_THRESHOLD)
    }

    /// A debouncer with the given thresholds, both in scan cycles.
    pub fn with_thresholds(debounce_threshold: u32, hold_threshold: u32) -> (debouncer: Self)
        ensures
            debouncer.config().debounce_threshold == debounce_threshold,
            debouncer.config().hold_threshold == hold_threshold,
            forall|o: int, i: int|
                0 <= o < OUTPUT_PIN_NUM && 0 <= i < INPUT_PIN_NUM
                    ==> #[trigger] debouncer.counter(o, i) == DebounceCounter::initial(),
    {
        Debouncer {
            config: DebounceConfig { debounce_threshold, hold_threshold },
            debounce_counter: [[DebounceCounter { level: false, run: 0 }; INPUT_PIN_NUM];
                OUTPUT_PIN_NUM],
        }
    }

    /// Takes the raw level of one switch for this scan cycle and says what it
    /// means for the key.
    pub fn detect_change_with_debounce(
        &mut self,
        in_idx: usize,
        out_idx: usize,
        pin_state: bool,
        key_state: &KeyState,
    ) -> (state: DebounceState)
        requires
            in_idx < INPUT_PIN_NUM,
            out_idx < OUTPUT_PIN_NUM,
        ensures
            final(self).config() == old(self).config(),
            final(self).counter(out_idx as int, in_idx as int) == old(self).counter(
                out_idx as int,
                in_idx as int,
            ).observe(pin_state),
            forall|o: int, i: int|
                0 <= o < OUTPUT_PIN_NUM && 0 <= i < INPUT_PIN_NUM && !(o == out_idx && i == in_idx)
                    ==> #[trigger] final(self).counter(o, i) == old(self).counter(o, i),
            state == verdict(
                old(self).config(),
                old(self).counter(out_idx as int, in_idx as int).observe(pin_state),
                pin_state,
                key_state.pressed,
            ),
    {
        let mut counter: DebounceCounter = self.debounce_counter[out_idx][in_idx];
        counter.record(pin_state);
        self.debounce_counter[out_idx][in_idx] = counter;
        if pin_state != key_state.pressed && counter.run >= self.config.debounce_threshold {
            DebounceState::Debounced
        } else if pin_state && key_state.pressed && counter.run >= self.config.hold_threshold {
            DebounceState::HeldHigh
        } else {
            DebounceState::NoChange
        }
    }
}

} // verus!
