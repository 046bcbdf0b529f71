//! Key states and the scan of the switch matrix.
//!
//! The matrix owns one [`KeyState`] and one debounce counter per crossing of
//! an output line and an input line. A scan cycle hands it the raw level of
//! every crossing; the pins themselves are driven and read by the caller.

use vstd::prelude::*;
use crate::debounce::{
    verdict, DebounceConfig, DebounceState, Debouncer, DEBOUNCE_THRESHOLD, HOLD_THRESHOLD,
};
use crate::switch::CellState;

verus! {

/// Reads the clock with `embassy_time::Instant::now` and gives the instant as
/// ticks since start. Nothing is claimed of the value.
#[verifier::external_body]
fn now_ticks() -> (ticks: u64) {
    embassy_time::Instant::now().as_ticks()
}

/// `embassy_time::Instant::checked_duration_since` on two instants given as
/// ticks: the ticks from `earlier` to `later`, and nothing where `earlier`
/// lies after `later`.
#[verifier::external_body]
fn checked_ticks_since(later: u64, earlier: u64) -> (elapsed: Option<u64>)
    ensures
        later >= earlier ==> elapsed == Some((later - earlier) as u64),
        later < earlier ==> elapsed.is_none(),
{
    let later = embassy_time::Instant::from_ticks(later);
    let earlier = embassy_time::Instant::from_ticks(earlier);
    match later.checked_duration_since(earlier) {
        Some(duration) => Some(duration.as_ticks()),
        None => None,
    }
}

/// State of the key at one crossing of the matrix.
#[derive(Clone, Copy, Debug, PartialEq, Eq)]
pub struct KeyState {
    /// Confirmed level of the key.
    pub pressed: bool,
    /// Whether the latest scan cycle confirmed a transition of this key.
    pub changed: bool,
    /// Whether the key has stayed pressed for the hold threshold.
    pub held: bool,
    /// Clock ticks at which the hold timer was started, while it runs.
    pub hold_start: Option<u64>,
}

impl KeyState {
    /// A released key with no timer running.
    pub open spec fn initial() -> KeyState {
        KeyState { pressed: false, changed: false, held: false, hold_start: None }
    }

    /// This key with its hold timer started at `now`.
    pub open spec fn timer_started(self, now: u64) -> KeyState {
        KeyState { hold_start: Some(now), ..self }
    }

    /// Ticks from the start of the hold timer to `now`: nothing while no timer
    /// runs, and nothing where the timer was started after `now`.
    pub open spec fn elapsed_since(self, now: u64) -> Option<u64> {
        match self.hold_start {
            Some(start) => if now >= start {
                Some((now - start) as u64)
            } else {
                None
            },
            None => None,
        }
    }

    /// This key after a scan cycle with the given verdict. A transition
    /// toggles `pressed`, raises `changed` and drops `held`, and a release
    /// stops the hold timer; a hold raises `held` and drops `changed`;
    /// anything else only drops `changed`.
    pub open spec fn apply(self, state: DebounceState) -> KeyState {
        match state {
            DebounceState::Debounced => KeyState {
                pressed: !self.pressed,
                changed: true,
                held: false,
                hold_start: if self.pressed { None } else { self.hold_start },
            },
            DebounceState::HeldHigh => KeyState { held: true, changed: false, ..self },
            DebounceState::NoChange => KeyState { changed: false, ..self },
        }
    }

    pub fn new() -> (state: Self)
        ensures
            state == Self::initial(),
    {
        KeyState { pressed: false, changed: false, held: false, hold_start: None }
    }

    /// Starts the hold timer at the current reading of the clock.
    pub fn start_timer(&mut self)
        ensures
            exists|now: u64| *final(self) == old(self).timer_started(now),
    {
        let now: u64 = now_ticks();
        self.start_timer_at(now);
    }

    /// Starts the hold timer at `now`, in clock ticks.
    pub fn start_timer_at(&mut self, now: u64)
        ensures
            *final(self) == old(self).timer_started(now),
    {
        self.hold_start = Some(now);
    }

    /// Ticks since the hold timer was started, by the current reading of the
    /// clock.
    pub fn elapsed(&self) -> (elapsed: Option<u64>)
        ensures
            exists|now: u64| elapsed == self.elapsed_since(now),
    {
        let now: u64 = now_ticks();
        self.elapsed_at(now)
    }

    /// Ticks from the start of the hold timer to `now`.
    pub fn elapsed_at(&self, now: u64) -> (elapsed: Option<u64>)
        ensures
            elapsed == self.elapsed_since(now),
    {
        match self.hold_start {
            Some(start) => checked_ticks_since(now, start),
            None => None,
        }
    }

    /// Stops the hold timer.
    pub fn clear_timer(&mut self)
        ensures
            *final(self) == (KeyState { hold_start: None, ..*old(self) }),
    {
        self.hold_start = None;
    }

    pub fn toggle_pressed(&mut self)
        ensures
            *final(self) == (KeyState { pressed: !old(self).pressed, ..*old(self) }),
    {
        self.pressed = !self.pressed;
    }

    /// Takes the verdict of a scan cycle into the key state.
    pub fn update(&mut self, state: DebounceState)
        ensures
            *final(self) == old(self).apply(state),
    {
        match state {
            DebounceState::Debounced => {
                self.toggle_pressed();
                self.changed = true;
                self.held = false;
                if !self.pressed {
                    self.clear_timer();
                }
            },
            DebounceState::HeldHigh => {
                self.held = true;
                self.changed = false;
            },
            DebounceState::NoChange => {
                self.changed = false;
            },
        }
    }
}

impl Default for KeyState {
    fn default() -> (state: Self)
        ensures
            state == KeyState::initial(),
    {
        Self::new()
    }
}

/// Microseconds a driven output line is given to settle before the input
/// lines are read.
pub const SETTLE_DELAY_US: u64 = 1;

/// Where a pass over the matrix stands: what the caller has to do next with
/// the pins.
#[derive(Clone, Copy, Debug, PartialEq, Eq)]
pub enum ScanStep {
    /// Drive this output line high.
    DriveHigh(usize),
    /// Wait `SETTLE_DELAY_US` for this output line to settle.
    Settle(usize),
    /// Read, while this output line is high, this input line.
    ReadInput(usize, usize),
    /// Drive this output line low.
    DriveLow(usize),
    /// The pass is complete.
    Done,
    /// The pass was given up.
    Failed,
}

/// How the caller fared with a step of a pass.
#[derive(Clone, Copy, Debug, PartialEq, Eq)]
pub enum PinOutcome {
    /// The line was driven, or the delay is over.
    Completed,
    /// The input line was read and showed this level.
    Level(bool),
    /// The pin reported an error.
    Fault,
}

/// The key matrix of the keyboard: `OUTPUT_PIN_NUM` driven lines crossed with
/// `INPUT_PIN_NUM` sampled lines.
///
/// `COL2ROW` fixes the wiring for the device. Where it is true the input lines
/// are the rows and the output lines the columns; where it is false the input
/// lines are the columns and the output lines the rows.
pub struct Matrix<const INPUT_PIN_NUM: usize, const OUTPUT_PIN_NUM: usize, const COL2ROW: bool> {
    /// Debouncer
    debouncer: Debouncer<INPUT_PIN_NUM, OUTPUT_PIN_NUM>,
    /// Key state matrix
    key_states: [[KeyState; INPUT_PIN_NUM]; OUTPUT_PIN_NUM],
}

impl<const INPUT_PIN_NUM: usize, const OUTPUT_PIN_NUM: usize, const COL2ROW: bool> Matrix<
    INPUT_PIN_NUM,
    OUTPUT_PIN_NUM,
    COL2ROW,
> {
    /// The thresholds of the debouncer.
    pub closed spec fn config(&self) -> DebounceConfig {
        self.debouncer.config()
    }

    /// The switch at output line `out_idx` and input line `in_idx`.
    pub closed spec fn cell(&self, out_idx: int, in_idx: int) -> CellState {
        CellState {
            counter: self.debouncer.counter(out_idx, in_idx),
            key: self.key_states[out_idx][in_idx],
        }
    }

    /// The output line of the key at `(row, col)`.
    pub open spec fn out_index(row: int, col: int) -> int {
        if COL2ROW {
            col
        } else {
            row
        }
    }

    /// The input line of the key at `(row, col)`.
    pub open spec fn in_index(row: int, col: int) -> int {
        if COL2ROW {
            row
        } else {
            col
        }
    }

    /// Whether `(row, col)` is a key of this matrix.
    pub open spec fn has_key(row: int, col: int) -> bool {
        &&& 0 <= Self::out_index(row, col) < OUTPUT_PIN_NUM
        &&& 0 <= Self::in_index(row, col) < INPUT_PIN_NUM
    }

    /// The state of the key at `(row, col)`.
    pub open spec fn key_at(&self, row: int, col: int) -> KeyState {
        self.cell(Self::out_index(row, col), Self::in_index(row, col)).key
    }

    /// Whether every switch but the one at `(out_idx, in_idx)` is in `self`
    /// as it is in `other`.
    pub open spec fn same_but(&self, other: &Self, out_idx: int, in_idx: int) -> bool {
        forall|o: int, i: int|
            0 <= o < OUTPUT_PIN_NUM && 0 <= i < INPUT_PIN_NUM && !(o == out_idx && i == in_idx)
                ==> #[trigger] self.cell(o, i) == other.cell(o, i)
    }

    /// A matrix of unsampled switches with the default thresholds.
    pub fn new() -> (matrix: Self)
        ensures
            matrix.config().debounce_threshold == DEBOUNCE_THRESHOLD,
            matrix.config().hold_threshold == HOLD_THRESHOLD,
            forall|o: int, i: int|
                0 <= o < OUTPUT_PIN_NUM && 0 <= i < INPUT_PIN_NUM ==> #[trigger] matrix.cell(o, i)
                    == CellState::initial(),
    {
        Self::with_thresholds(DEBOUNCE_THRESHOLD, HOLD_THRESHOLD)
    }

    /// A matrix of unsampled switches with the given thresholds, both in scan
    /// cycles.
    pub fn with_thresholds(debounce_threshold: u32, hold_threshold: u32) -> (matrix: Self)
        ensures
            matrix.config().debounce_threshold == debounce_threshold,
            matrix.config().hold_threshold == hold_threshold,
            forall|o: int, i: int|
                0 <= o < OUTPUT_PIN_NUM && 0 <= i < INPUT_PIN_NUM ==> #[trigger] matrix.cell(o, i)
                    == CellState::initial(),
    {
        Matrix {
            debouncer: Debouncer::with_thresholds(debounce_threshold, hold_threshold),
            key_states: [[KeyState {
                pressed: false,
                changed: false,
                held: false,
                hold_start: None,
            }; INPUT_PIN_NUM]; OUTPUT_PIN_NUM],
        }
    }

    /// Takes the raw level of one switch for this scan cycle: debounces it and
    /// brings the key state up to date. No other switch is touched.
    pub fn scan_key(&mut self, out_idx: usize, in_idx: usize, pin_state: bool) -> (state:
        DebounceState)
        requires
            out_idx < OUTPUT_PIN_NUM,
            in_idx < INPUT_PIN_NUM,
        ensures
            final(self).config() == old(self).config(),
            final(self).cell(out_idx as int, in_idx as int) == old(self).cell(
                out_idx as int,
                in_idx as int,
            ).step(old(self).config(), pin_state),
            final(self).same_but(old(self), out_idx as int, in_idx as int),
            state == verdict(
                old(self).config(),
                old(self).cell(out_idx as int, in_idx as int).counter.observe(pin_state),
                pin_state,
                old(self).cell(out_idx as int, in_idx as int).key.pressed,
            ),
    {
        let mut key_state: KeyState = self.key_states[out_idx][in_idx];
        let state = self.debouncer.detect_change_with_debounce(
            in_idx,
            out_idx,
            pin_state,
            &key_state,
        );
        key_state.update(state);
        self.key_states[out_idx][in_idx] = key_state;
        state
    }

    /// The first step of a pass: the first output line is driven, and a
    /// matrix without output lines is done at once.
    pub open spec fn first_step() -> ScanStep {
        if OUTPUT_PIN_NUM > 0 {
            ScanStep::DriveHigh(0)
        } else {
            ScanStep::Done
        }
    }

    /// The order of a pass. Each output line in turn is driven high, given
    /// time to settle, has every input line read in order, and is driven low
    /// before the next one is driven high. A pin fault gives the pass up, and
    /// so does an outcome that does not answer the step, or a step that names
    /// a line the matrix does not have. A pass that is done or given up stays
    /// so.
    pub open spec fn next_step(step: ScanStep, outcome: PinOutcome) -> ScanStep {
        match (step, outcome) {
            (ScanStep::Done, _) => ScanStep::Done,
            (ScanStep::DriveHigh(out_idx), PinOutcome::Completed) => if out_idx < OUTPUT_PIN_NUM {
                ScanStep::Settle(out_idx)
            } else {
                ScanStep::Failed
            },
            (ScanStep::Settle(out_idx), PinOutcome::Completed) => if out_idx < OUTPUT_PIN_NUM {
                if INPUT_PIN_NUM > 0 {
                    ScanStep::ReadInput(out_idx, 0)
                } else {
                    ScanStep::DriveLow(out_idx)
                }
            } else {
                ScanStep::Failed
            },
            (ScanStep::ReadInput(out_idx, in_idx), PinOutcome::Level(_)) => if out_idx
                < OUTPUT_PIN_NUM && in_idx < INPUT_PIN_NUM {
                if in_idx + 1 < INPUT_PIN_NUM {
                    ScanStep::ReadInput(out_idx, (in_idx + 1) as usize)
                } else {
                    ScanStep::DriveLow(out_idx)
                }
            } else {
                ScanStep::Failed
            },
            (ScanStep::DriveLow(out_idx), PinOutcome::Completed) => if out_idx < OUTPUT_PIN_NUM {
                if out_idx + 1 < OUTPUT_PIN_NUM {
                    ScanStep::DriveHigh((out_idx + 1) as usize)
                } else {
                    ScanStep::Done
                }
            } else {
                ScanStep::Failed
            },
            _ => ScanStep::Failed,
        }
    }

    /// Whether `outcome` is a level read from a switch of the matrix in answer
    /// to `step`: the one kind of step that changes the matrix.
    pub open spec fn takes_sample(step: ScanStep, outcome: PinOutcome) -> bool {
        &&& step matches ScanStep::ReadInput(out_idx, in_idx)
        &&& out_idx < OUTPUT_PIN_NUM
        &&& in_idx < INPUT_PIN_NUM
        &&& outcome is Level
    }

    /// Begins a pass over the matrix.
    pub fn begin_scan(&self) -> (step: ScanStep)
        ensures
            step == Self::first_step(),
    {
        if OUTPUT_PIN_NUM > 0 {
            ScanStep::DriveHigh(0)
        } else {
            ScanStep::Done
        }
    }

    /// Takes the outcome of a step of a pass and says what to do next. A
    /// level read from a switch takes that switch through one scan cycle;
    /// nothing else changes the matrix.
    pub fn advance(&mut self, step: ScanStep, outcome: PinOutcome) -> (next: ScanStep)
        ensures
            next == Self::next_step(step, outcome),
            final(self).config() == old(self).config(),
            Self::takes_sample(step, outcome) ==> {
                let out_idx = step->ReadInput_0 as int;
                let in_idx = step->ReadInput_1 as int;
                &&& final(self).cell(out_idx, in_idx) == old(self).cell(out_idx, in_idx).step(
                    old(self).config(),
                    outcome->Level_0,
                )
                &&& final(self).same_but(old(self), out_idx, in_idx)
            },
            !Self::takes_sample(step, outcome) ==> *final(self) == *old(self),
    {
        match step {
            ScanStep::Done => ScanStep::Done,
            ScanStep::Failed => ScanStep::Failed,
            ScanStep::DriveHigh(out_idx) => match outcome {
                PinOutcome::Completed => if out_idx < OUTPUT_PIN_NUM {
                    ScanStep::Settle(out_idx)
                } else {
                    ScanStep::Failed
                },
                _ => ScanStep::Failed,
            },
            ScanStep::Settle(out_idx) => match outcome {
                PinOutcome::Completed => if out_idx < OUTPUT_PIN_NUM {
                    if INPUT_PIN_NUM > 0 {
                        ScanStep::ReadInput(out_idx, 0)
                    } else {
                        ScanStep::DriveLow(out_idx)
                    }
                } else {
                    ScanStep::Failed
                },
                _ => ScanStep::Failed,
            },
            ScanStep::ReadInput(out_idx, in_idx) => match outcome {
                PinOutcome::Level(pin_state) => if out_idx < OUTPUT_PIN_NUM && in_idx
                    < INPUT_PIN_NUM {
                    self.scan_key(out_idx, in_idx, pin_state);
                    if in_idx + 1 < INPUT_PIN_NUM {
                        ScanStep::ReadInput(out_idx, in_idx + 1)
                    } else {
                        ScanStep::DriveLow(out_idx)
                    }
                } else {
                    ScanStep::Failed
                },
                _ => ScanStep::Failed,
            },
            ScanStep::DriveLow(out_idx) => match outcome {
                PinOutcome::Completed => if out_idx < OUTPUT_PIN_NUM {
                    if out_idx + 1 < OUTPUT_PIN_NUM {
                        ScanStep::DriveHigh(out_idx + 1)
                    } else {
                        ScanStep::Done
                    }
                } else {
                    ScanStep::Failed
                },
                _ => ScanStep::Failed,
            },
        }
    }

    /// Whether a pass that stands at `step` has sampled the switch at
    /// `(out_idx, in_idx)`.
    spec fn sampled_before(step: ScanStep, out_idx: int, in_idx: int) -> bool {
        match step {
            ScanStep::DriveHigh(at) => out_idx < at,
            ScanStep::Settle(at) => out_idx < at,
            ScanStep::ReadInput(at, input) => out_idx < at || (out_idx == at && in_idx < input),
            ScanStep::DriveLow(at) => out_idx <= at,
            ScanStep::Done => true,
            ScanStep::Failed => false,
        }
    }

    /// Whether `step` is a step of a pass that has not been given up and names
    /// lines of the matrix.
    pub open spec fn on_track(step: ScanStep) -> bool {
        match step {
            ScanStep::DriveHigh(at) => at < OUTPUT_PIN_NUM,
            ScanStep::Settle(at) => at < OUTPUT_PIN_NUM,
            ScanStep::ReadInput(at, input) => at < OUTPUT_PIN_NUM && input < INPUT_PIN_NUM,
            ScanStep::DriveLow(at) => at < OUTPUT_PIN_NUM,
            ScanStep::Done => true,
            ScanStep::Failed => false,
        }
    }

    /// Whether `outcome` is what `step` asks for: a level for a read, and
    /// completion for everything else that is to be done.
    pub open spec fn answers(step: ScanStep, outcome: PinOutcome) -> bool {
        match step {
            ScanStep::DriveHigh(_) | ScanStep::Settle(_) | ScanStep::DriveLow(_) => outcome
                is Completed,
            ScanStep::ReadInput(_, _) => outcome is Level,
            ScanStep::Done | ScanStep::Failed => false,
        }
    }

    /// The number of steps a pass at `step` has before it, if no pin fails:
    /// each output line takes a drive, a delay, one read per input line and a
    /// release.
    pub open spec fn steps_left(step: ScanStep) -> int {
        match step {
            ScanStep::DriveHigh(at) => (OUTPUT_PIN_NUM - at) * (INPUT_PIN_NUM + 3),
            ScanStep::Settle(at) => (OUTPUT_PIN_NUM - at) * (INPUT_PIN_NUM + 3) - 1,
            ScanStep::ReadInput(at, input) => (OUTPUT_PIN_NUM - at) * (INPUT_PIN_NUM + 3) - 2
                - input,
            ScanStep::DriveLow(at) => (OUTPUT_PIN_NUM - at) * (INPUT_PIN_NUM + 3) - 2
                - INPUT_PIN_NUM,
            ScanStep::Done | ScanStep::Failed => 0,
        }
    }

    /// A step of a pass that is not done has at least itself before it.
    proof fn lemma_steps_left_positive(step: ScanStep)
        requires
            Self::on_track(step),
            !(step is Done),
        ensures
            Self::steps_left(step) >= 1,
    {
        match step {
            ScanStep::DriveHigh(at) | ScanStep::Settle(at) | ScanStep::ReadInput(at, _)
            | ScanStep::DriveLow(at) => {
                assert((OUTPUT_PIN_NUM - at) * (INPUT_PIN_NUM + 3) >= INPUT_PIN_NUM + 3)
                    by (nonlinear_arith)
                    requires
                        OUTPUT_PIN_NUM - at >= 1,
                        INPUT_PIN_NUM + 3 >= 0,
                ;
            },
            _ => {},
        }
    }

    /// A pass begins with `OUTPUT_PIN_NUM * (INPUT_PIN_NUM + 3)` steps before
    /// it: for each output line a drive, a delay, one read per input line and
    /// a release.
    pub proof fn lemma_pass_length()
        ensures
            Self::on_track(Self::first_step()),
            Self::steps_left(Self::first_step()) == OUTPUT_PIN_NUM * (INPUT_PIN_NUM + 3),
    {
        assert(0 * (INPUT_PIN_NUM + 3) == 0);
    }

    /// A pass without a pin fault comes to its end: every step that is
    /// answered leaves one step fewer before the pass, and the pass is done
    /// when none is left. Of those steps only the delays, one per output
    /// line, wait.
    pub proof fn lemma_pass_advances(step: ScanStep, outcome: PinOutcome)
        requires
            Self::on_track(step),
            Self::answers(step, outcome),
        ensures
            Self::on_track(Self::next_step(step, outcome)),
            Self::steps_left(Self::next_step(step, outcome)) == Self::steps_left(step) - 1,
            Self::steps_left(Self::next_step(step, outcome)) >= 0,
            Self::steps_left(Self::next_step(step, outcome)) == 0 <==> Self::next_step(
                step,
                outcome,
            ) is Done,
    {
        let per_line = INPUT_PIN_NUM + 3;
        match step {
            ScanStep::DriveHigh(at) | ScanStep::Settle(at) | ScanStep::ReadInput(at, _)
            | ScanStep::DriveLow(at) => {
                let rest = OUTPUT_PIN_NUM - at - 1;
                assert((OUTPUT_PIN_NUM - at) * per_line == rest * per_line + per_line)
                    by (nonlinear_arith)
                    requires
                        rest == OUTPUT_PIN_NUM - at - 1,
                ;
                assert(rest == 0 ==> rest * per_line == 0) by (nonlinear_arith);
                assert((OUTPUT_PIN_NUM - (at + 1)) * per_line == rest * per_line);
            },
            _ => {},
        }
        let next = Self::next_step(step, outcome);
        if !(next is Done) {
            Self::lemma_steps_left_positive(next);
        }
    }

    /// One full pass over the matrix without a pin fault: `levels[o][i]` is
    /// the raw level that input line `i` shows while output line `o` is
    /// driven. The pass goes step by step in the order of [`Self::next_step`]
    /// and takes every switch through exactly one scan cycle. After it, a key
    /// has `changed` set if and only if the pass toggled its `pressed`, and no
    /// key has both `changed` and `held` set.
    pub fn scan(&mut self, levels: &[[bool; INPUT_PIN_NUM]; OUTPUT_PIN_NUM])
        ensures
            final(self).config() == old(self).config(),
            forall|o: int, i: int|
                0 <= o < OUTPUT_PIN_NUM && 0 <= i < INPUT_PIN_NUM ==> #[trigger] final(self).cell(
                    o,
                    i,
                ) == old(self).cell(o, i).step(old(self).config(), levels[o][i]),
            forall|o: int, i: int|
                0 <= o < OUTPUT_PIN_NUM && 0 <= i < INPUT_PIN_NUM ==> {
                    let after = #[trigger] final(self).cell(o, i).key;
                    &&& after.changed <==> after.pressed != old(self).cell(o, i).key.pressed
                    &&& !(after.changed && after.held)
                },
    {
        let mut step = self.begin_scan();
        proof {
            Self::lemma_pass_length();
        }
        while !matches!(step, ScanStep::Done | ScanStep::Failed)
            invariant
                Self::on_track(step),
                self.config() == old(self).config(),
                forall|o: int, i: int|
                    0 <= o < OUTPUT_PIN_NUM && 0 <= i < INPUT_PIN_NUM ==> #[trigger] self.cell(o, i)
                        == if Self::sampled_before(step, o, i) {
                        old(self).cell(o, i).step(old(self).config(), levels[o][i])
                    } else {
                        old(self).cell(o, i)
                    },
            decreases Self::steps_left(step),
        {
            let outcome = match step {
                ScanStep::ReadInput(out_idx, in_idx) => PinOutcome::Level(levels[out_idx][in_idx]),
                _ => PinOutcome::Completed,
            };
            proof {
                Self::lemma_pass_advances(step, outcome);
            }
            step = self.advance(step, outcome);
        }
    }

    /// A pin fault gives the pass up at once, and a pass given up stays given
    /// up: no step is asked for after the first fault.
    pub proof fn lemma_fault_aborts_pass(step: ScanStep, outcome: PinOutcome)
        ensures
            !(step is Done) ==> Self::next_step(step, PinOutcome::Fault) is Failed,
            Self::next_step(ScanStep::Failed, outcome) is Failed,
            !Self::takes_sample(step, PinOutcome::Fault),
            !Self::takes_sample(ScanStep::Failed, outcome),
    {
    }

    /// An output line is driven high only as the first step of the pass or
    /// after the line before it was driven low.
    pub proof fn lemma_line_released_before_next(step: ScanStep, outcome: PinOutcome)
        requires
            Self::next_step(step, outcome) is DriveHigh,
        ensures
            step matches ScanStep::DriveLow(out_idx) && outcome is Completed && Self::next_step(
                step,
                outcome,
            ) == ScanStep::DriveHigh((out_idx + 1) as usize),
    {
    }

    /// An input line is read only while its output line is high and has had
    /// its time to settle: the first one right after the delay, each other
    /// one right after the one before it.
    pub proof fn lemma_sampled_after_settling(step: ScanStep, outcome: PinOutcome)
        requires
            Self::next_step(step, outcome) is ReadInput,
        ensures
            ({
                let next = Self::next_step(step, outcome);
                ||| step == ScanStep::Settle(next->ReadInput_0) && next->ReadInput_1 == 0
                ||| step == ScanStep::ReadInput(next->ReadInput_0, (next->ReadInput_1 - 1) as usize)
                    && next->ReadInput_1 > 0 && outcome is Level
            }),
    {
    }

    /// Starts the hold timer of the key at `(row, col)` at the current reading
    /// of the clock. The consumer calls this when a scan reports a fresh press.
    pub fn key_pressed(&mut self, row: usize, col: usize)
        requires
            Self::has_key(row as int, col as int),
        ensures
            final(self).config() == old(self).config(),
            exists|now: u64|
                final(self).key_at(row as int, col as int) == old(self).key_at(
                    row as int,
                    col as int,
                ).timer_started(now),
            final(self).cell(
                Self::out_index(row as int, col as int),
                Self::in_index(row as int, col as int),
            ).counter == old(self).cell(
                Self::out_index(row as int, col as int),
                Self::in_index(row as int, col as int),
            ).counter,
            final(self).same_but(
                old(self),
                Self::out_index(row as int, col as int),
                Self::in_index(row as int, col as int),
            ),
    {
        let now: u64 = now_ticks();
        self.key_pressed_at(row, col, now);
    }

    /// Starts the hold timer of the key at `(row, col)` at `now`, in clock
    /// ticks. Nothing else changes.
    pub fn key_pressed_at(&mut self, row: usize, col: usize, now: u64)
        requires
            Self::has_key(row as int, col as int),
        ensures
            final(self).config() == old(self).config(),
            final(self).key_at(row as int, col as int) == old(self).key_at(
                row as int,
                col as int,
            ).timer_started(now),
            final(self).cell(
                Self::out_index(row as int, col as int),
                Self::in_index(row as int, col as int),
            ).counter == old(self).cell(
                Self::out_index(row as int, col as int),
                Self::in_index(row as int, col as int),
            ).counter,
            final(self).same_but(
                old(self),
                Self::out_index(row as int, col as int),
                Self::in_index(row as int, col as int),
            ),
    {
        if COL2ROW {
            let mut key_state: KeyState = self.key_states[col][row];
            key_state.start_timer_at(now);
            self.key_states[col][row] = key_state;
        } else {
            let mut key_state: KeyState = self.key_states[row][col];
            key_state.start_timer_at(now);
            self.key_states[row][col] = key_state;
        }
    }

    /// A copy of the state of the key at `(row, col)`. The matrix stays as it
    /// is.
    pub fn get_key_state(&mut self, row: usize, col: usize) -> (state: KeyState)
        requires
            Self::has_key(row as int, col as int),
        ensures
            state == old(self).key_at(row as int, col as int),
            *final(self) == *old(self),
    {
        if COL2ROW {
            self.key_states[col][row]
        } else {
            self.key_states[row][col]
        }
    }
}

} // verus!
