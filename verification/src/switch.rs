//! One switch over time.
//!
//! A switch is a debounce counter together with a key state. This module says
//! what a run of raw samples does to a switch and proves what the scan
//! promises of every switch: bounce is ignored, a clean change is reported
//! once, and a hold lasts until the release.

use vstd::prelude::*;
use crate::debounce::{verdict, DebounceConfig, DebounceCounter};
use crate::matrix::KeyState;

verus! {

/// Everything the matrix keeps for one switch: the run length of its raw
/// level and the state of its key.
pub struct CellState {
    pub counter: DebounceCounter,
    pub key: KeyState,
}

impl CellState {
    /// A switch that has not been sampled.
    pub open spec fn initial() -> CellState {
        CellState { counter: DebounceCounter::initial(), key: KeyState::initial() }
    }

    /// Whether the raw level seen last agrees with the confirmed state of the
    /// key, so that no transition is under way.
    pub open spec fn settled(self) -> bool {
        self.counter.level == self.key.pressed
    }

    /// The switch after a scan cycle in which its raw level was `pin_state`.
    pub open spec fn step(self, config: DebounceConfig, pin_state: bool) -> CellState {
        let counter = self.counter.observe(pin_state);
        CellState {
            counter,
            key: self.key.apply(verdict(config, counter, pin_state, self.key.pressed)),
        }
    }

    /// The switch after one scan cycle for each of `samples`, in order.
    pub open spec fn run(self, config: DebounceConfig, samples: Seq<bool>) -> CellState
        decreases samples.len(),
    {
        if samples.len() == 0 {
            self
        } else {
            self.run(config, samples.drop_last()).step(config, samples.last())
        }
    }

    /// The number of scan cycles, over `samples`, that end with `changed` set.
    pub open spec fn edges(self, config: DebounceConfig, samples: Seq<bool>) -> nat
        decreases samples.len(),
    {
        if samples.len() == 0 {
            0
        } else {
            self.edges(config, samples.drop_last()) + if self.run(config, samples).key.changed {
                1nat
            } else {
                0nat
            }
        }
    }
}

/// Whether every sample of `samples` is `level`.
pub open spec fn all_at(samples: Seq<bool>, level: bool) -> bool {
    forall|k: int| 0 <= k < samples.len() ==> samples[k] == level
}

/// After any scan cycle a key reports a fresh edge or a hold, never both.
pub proof fn lemma_edge_excludes_hold(cell: CellState, config: DebounceConfig, pin_state: bool)
    ensures
        !(cell.step(config, pin_state).key.changed && cell.step(config, pin_state).key.held),
{
}

/// `changed` is set by exactly the scan cycles that toggle `pressed`: it marks
/// the cycle that confirmed a transition and no other.
pub proof fn lemma_changed_marks_transition(
    cell: CellState,
    config: DebounceConfig,
    pin_state: bool,
)
    ensures
        cell.step(config, pin_state).key.changed <==> cell.step(config, pin_state).key.pressed
            != cell.key.pressed,
{
}

/// With a debounce threshold of two cycles or more, no two scan cycles in a
/// row end with `changed` set.
pub proof fn lemma_no_double_report(
    cell: CellState,
    config: DebounceConfig,
    first: bool,
    second: bool,
)
    requires
        config.debounce_threshold >= 2,
    ensures
        !(cell.step(config, first).key.changed && cell.step(config, first).step(
            config,
            second,
        ).key.changed),
{
}

/// `held` is dropped only by a scan cycle that confirms a transition.
pub proof fn lemma_held_until_transition(cell: CellState, config: DebounceConfig, pin_state: bool)
    requires
        cell.key.held,
    ensures
        cell.step(config, pin_state).key.held || cell.step(config, pin_state).key.changed,
{
}

/// Running `first + second` is running `first` and then `second`, and the
/// edges add up.
pub proof fn lemma_run_concat(
    cell: CellState,
    config: DebounceConfig,
    first: Seq<bool>,
    second: Seq<bool>,
)
    ensures
        cell.run(config, first + second) == cell.run(config, first).run(config, second),
        cell.edges(config, first + second) == cell.edges(config, first) + cell.run(
            config,
            first,
        ).edges(config, second),
    decreases second.len(),
{
    if second.len() == 0 {
        assert(first + second =~= first);
    } else {
        assert((first + second).drop_last() =~= first + second.drop_last());
        assert((first + second).last() == second.last());
        lemma_run_concat(cell, config, first, second.drop_last());
    }
}

/// Samples at the confirmed level of the key raise no edge and leave
/// `pressed` as it is; after the first of them the switch is settled.
pub proof fn lemma_quiet_samples_no_edge(
    cell: CellState,
    config: DebounceConfig,
    samples: Seq<bool>,
)
    requires
        all_at(samples, cell.key.pressed),
    ensures
        cell.edges(config, samples) == 0,
        cell.run(config, samples).key.pressed == cell.key.pressed,
        samples.len() > 0 ==> cell.run(config, samples).settled(),
    decreases samples.len(),
{
    if samples.len() > 0 {
        lemma_quiet_samples_no_edge(cell, config, samples.drop_last());
    }
}

/// From a settled switch, fewer samples than the debounce threshold raise no
/// edge whatever their levels, and whatever run against the key they leave
/// behind is no longer than they are.
proof fn lemma_burst_no_edge(cell: CellState, config: DebounceConfig, burst: Seq<bool>)
    requires
        cell.settled(),
        burst.len() < config.debounce_threshold,
    ensures
        cell.edges(config, burst) == 0,
        cell.run(config, burst).key.pressed == cell.key.pressed,
        !cell.run(config, burst).settled() ==> cell.run(config, burst).counter.run <= burst.len(),
    decreases burst.len(),
{
    if burst.len() > 0 {
        lemma_burst_no_edge(cell, config, burst.drop_last());
    }
}

/// A single bounce burst shorter than the debounce threshold raises no edge:
/// from a settled switch, fewer than `debounce_threshold` samples of any
/// levels, followed by any number of samples at the confirmed level, end no
/// scan cycle with `changed` set and leave `pressed` as it was.
pub proof fn lemma_short_burst_ignored(
    cell: CellState,
    config: DebounceConfig,
    burst: Seq<bool>,
    rest: Seq<bool>,
)
    requires
        cell.settled(),
        burst.len() < config.debounce_threshold,
        all_at(rest, cell.key.pressed),
    ensures
        cell.edges(config, burst + rest) == 0,
        cell.run(config, burst + rest).key.pressed == cell.key.pressed,
{
    lemma_burst_no_edge(cell, config, burst);
    lemma_quiet_samples_no_edge(cell.run(config, burst), config, rest);
    lemma_run_concat(cell, config, burst, rest);
}

/// From a settled switch, samples that all differ from the confirmed level
/// count up until the threshold is met, which raises the one edge.
proof fn lemma_change_progress(cell: CellState, config: DebounceConfig, samples: Seq<bool>)
    requires
        cell.settled(),
        all_at(samples, !cell.key.pressed),
        samples.len() > 0,
    ensures
        samples.len() < config.debounce_threshold ==> {
            &&& cell.edges(config, samples) == 0
            &&& cell.run(config, samples).key.pressed == cell.key.pressed
            &&& cell.run(config, samples).counter.level == !cell.key.pressed
            &&& cell.run(config, samples).counter.run == samples.len()
        },
        samples.len() >= config.debounce_threshold ==> {
            &&& cell.edges(config, samples) == 1
            &&& cell.run(config, samples).key.pressed == !cell.key.pressed
            &&& cell.run(config, samples).settled()
        },
    decreases samples.len(),
{
    let before = samples.drop_last();
    if before.len() > 0 {
        lemma_change_progress(cell, config, before);
    } else {
        assert(cell.run(config, before) == cell);
        assert(cell.edges(config, before) == 0);
    }
}

/// A clean level change held for the debounce threshold raises exactly one
/// edge: from a settled switch, at least `debounce_threshold` samples (and at
/// least one) that all differ from the confirmed level end exactly one scan
/// cycle with `changed` set, and leave `pressed` toggled.
pub proof fn lemma_clean_change_one_edge(
    cell: CellState,
    config: DebounceConfig,
    samples: Seq<bool>,
)
    requires
        cell.settled(),
        all_at(samples, !cell.key.pressed),
        samples.len() >= config.debounce_threshold,
        samples.len() >= 1,
    ensures
        cell.edges(config, samples) == 1,
        cell.run(config, samples).key.pressed == !cell.key.pressed,
{
    lemma_change_progress(cell, config, samples);
}

/// The run of pressed samples that a switch has behind it.
pub open spec fn pressed_run(cell: CellState) -> int {
    if cell.counter.level {
        cell.counter.run as int
    } else {
        0
    }
}

/// A pressed key under pressed samples: the key stays pressed, the latest
/// cycle raised no edge, a hold that has begun goes on, and the hold begins
/// once the run of pressed samples has met the threshold.
proof fn lemma_hold_progress(cell: CellState, config: DebounceConfig, samples: Seq<bool>)
    requires
        cell.key.pressed,
        all_at(samples, true),
        samples.len() > 0,
    ensures
        cell.run(config, samples).key.pressed,
        !cell.run(config, samples).key.changed,
        cell.run(config, samples).counter.level,
        cell.run(config, samples).counter.run == u32::MAX || cell.run(
            config,
            samples,
        ).counter.run >= pressed_run(cell) + samples.len(),
        cell.key.held ==> cell.run(config, samples).key.held,
        pressed_run(cell) + samples.len() >= config.hold_threshold ==> cell.run(
            config,
            samples,
        ).key.held,
    decreases samples.len(),
{
    let before = samples.drop_last();
    if before.len() > 0 {
        lemma_hold_progress(cell, config, before);
    } else {
        assert(cell.run(config, before) == cell);
    }
}

/// A key that stays pressed becomes held and stays held: while a pressed key
/// sees pressed samples, no scan cycle ends with `changed` set, `held` once
/// set stays set, and `held` is set from the cycle on in which the run of
/// pressed samples meets the hold threshold.
pub proof fn lemma_hold_persists(cell: CellState, config: DebounceConfig, samples: Seq<bool>)
    requires
        cell.key.pressed,
        all_at(samples, true),
    ensures
        cell.edges(config, samples) == 0,
        forall|k: int|
            1 <= k <= samples.len() ==> {
                let at = #[trigger] cell.run(config, samples.take(k));
                &&& at.key.pressed
                &&& !at.key.changed
                &&& (cell.key.held ==> at.key.held)
                &&& (pressed_run(cell) + k >= config.hold_threshold ==> at.key.held)
            },
{
    lemma_quiet_samples_no_edge(cell, config, samples);
    assert forall|k: int| 1 <= k <= samples.len() implies {
        let at = #[trigger] cell.run(config, samples.take(k));
        &&& at.key.pressed
        &&& !at.key.changed
        &&& (cell.key.held ==> at.key.held)
        &&& (pressed_run(cell) + k >= config.hold_threshold ==> at.key.held)
    } by {
        lemma_hold_progress(cell, config, samples.take(k));
    }
}

} // verus!
