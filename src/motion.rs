//! The closed-loop droplet move: a state machine that sequences electrode
//! commands with sensor acknowledgements and capacitance thresholds, and the
//! open-loop move used on backends without capacitance feedback.
//!
//! The caller performs each action the machine asks for (subscribe to the
//! sensor stream, enable the electrodes of a rectangle, wait for the next
//! sensor event with a bound, sleep) and hands back what came of it, with the
//! time on a monotonic clock in milliseconds.
use vstd::prelude::*;

use crate::driver::{CapacitanceEvent, Driver};
use crate::location::{fits_i32, step_of, Direction, Location, Rectangle};

verus! {

/// Bound on each wait for a command acknowledgement; its loss is not fatal.
pub const ACK_TIMEOUT_MS: u64 = 200;

/// Bound on the wait for the pre-move capacitance; its loss fails the move.
pub const BASELINE_TIMEOUT_MS: u64 = 200;

/// Length of the monitoring window after the destination is enabled.
pub const MONITOR_WINDOW_MS: u64 = 3000;

/// Bound on each wait for a measurement while monitoring.
pub const SAMPLE_TIMEOUT_MS: u64 = 100;

/// Nominal interval between two recorded measurements.
pub const SAMPLE_INTERVAL_MS: u64 = 2;

/// Number of consecutive measurements above the threshold that ends
/// monitoring early.
pub const TRAILING_SAMPLES: usize = 500;

/// Time given to an open-loop move to settle.
pub const SETTLE_MS: u64 = 1000;

/// `x` exceeds 80% of `baseline`.
pub open spec fn above_threshold(x: i32, baseline: i32) -> bool {
    5 * x > 4 * baseline
}

fn exceeds_threshold(x: i32, baseline: i32) -> (r: bool)
    ensures
        r == above_threshold(x, baseline),
{
    5 * (x as i64) > 4 * (baseline as i64)
}

/// Time from `start` to `now`, or zero where the clock went back.
pub open spec fn elapsed(start: u64, now: u64) -> int {
    if now >= start {
        now - start
    } else {
        0
    }
}

fn elapsed_ms(start: u64, now: u64) -> (r: u64)
    ensures
        r == elapsed(start, now),
{
    if now >= start {
        now - start
    } else {
        0
    }
}

/// What was recorded during a closed-loop move.
#[derive(Debug)]
pub struct MoveDropClosedLoopResult {
    pub pre_capacitance: i32,
    pub post_capacitance: i32,
    /// Synthetic sample times in milliseconds, one per recorded measurement.
    pub time_series: Vec<u64>,
    pub capacitance_series: Vec<i32>,
}

/// The outcome of one move.
#[derive(Debug)]
pub struct MoveDropResult {
    pub success: bool,
    pub closed_loop: bool,
    pub closed_loop_result: Option<MoveDropClosedLoopResult>,
}

/// The last recorded capacitance, or zero where nothing was recorded.
pub open spec fn final_capacitance(caps: Seq<i32>) -> i32 {
    if caps.len() > 0 {
        caps.last()
    } else {
        0
    }
}

/// `r` reports a closed-loop move with pre-move capacitance `baseline` and the
/// recorded measurements `caps` at the times `times`; it succeeds only where
/// the last recorded measurement exceeds 80% of the baseline.
pub open spec fn is_closed_loop_result(
    r: MoveDropResult,
    baseline: i32,
    caps: Seq<i32>,
    times: Seq<u64>,
) -> bool {
    &&& r.closed_loop
    &&& r.success == (caps.len() > 0 && above_threshold(caps.last(), baseline))
    &&& r.closed_loop_result matches Some(d) && d.pre_capacitance == baseline
        && d.post_capacitance == final_capacitance(caps) && d.capacitance_series@ == caps
        && d.time_series@ == times
}

/// `r` reports a successful open-loop move.
pub open spec fn is_open_loop_result(r: MoveDropResult) -> bool {
    r.success && !r.closed_loop && r.closed_loop_result is None
}

/// The steps of a move.
#[derive(Clone, Copy, Debug, PartialEq, Eq, Structural)]
pub enum MovePhase {
    Idle,
    Subscribing,
    EnablingSource,
    AwaitInitialAck,
    AwaitInitialMeasurement,
    EnablingDestination,
    AwaitFinalAck,
    Monitoring,
    Moving,
    Settling,
    Done,
}

/// What came of the last action: it was carried out (`Ready`), a sensor event
/// arrived, the wait ran out, or the sensor stream failed.
#[derive(Clone, Copy, Debug, PartialEq, Eq, Structural)]
pub enum MoveInput {
    Ready,
    Event(CapacitanceEvent),
    TimedOut,
    RecvError,
}

/// Why a move failed.
#[derive(Clone, Copy, Debug, PartialEq, Eq, Structural)]
pub enum MoveError {
    /// No pre-move measurement arrived in time.
    BaselineTimeout,
    /// The sensor stream failed before the pre-move measurement.
    FeedbackLost,
    /// The move had already ended.
    Finished,
}

/// What the caller is asked to do next.
#[derive(Debug)]
pub enum MoveAction {
    /// Subscribe to the sensor stream.
    Subscribe,
    /// Enable exactly the electrodes of the rectangle.
    Output(Rectangle),
    /// Wait at most `timeout_ms` for the next sensor event.
    Receive { timeout_ms: u64 },
    /// Sleep for `ms`.
    Sleep { ms: u64 },
    /// The move is over with this result.
    Finish(MoveDropResult),
    /// The move failed.
    Fail(MoveError),
}

/// The abstract state of a move.
pub struct MoveModel {
    pub phase: MovePhase,
    pub closed_loop: bool,
    pub source: Rectangle,
    pub destination: Rectangle,
    pub phase_start: u64,
    pub baseline: i32,
    pub capacitances: Seq<i32>,
    pub times: Seq<u64>,
    pub trailing: nat,
}

/// The state of one move.
pub struct MoveController {
    phase: MovePhase,
    closed_loop: bool,
    source: Rectangle,
    destination: Rectangle,
    phase_start: u64,
    baseline: i32,
    capacitance_series: Vec<i32>,
    time_series: Vec<u64>,
    trailing: usize,
}

impl View for MoveController {
    type V = MoveModel;

    closed spec fn view(&self) -> MoveModel {
        MoveModel {
            phase: self.phase,
            closed_loop: self.closed_loop,
            source: self.source,
            destination: self.destination,
            phase_start: self.phase_start,
            baseline: self.baseline,
            capacitances: self.capacitance_series@,
            times: self.time_series@,
            trailing: self.trailing as nat,
        }
    }
}

/// The phases an open-loop move passes through.
pub open spec fn open_loop_phase(p: MovePhase) -> bool {
    p is Idle || p is Moving || p is Settling || p is Done
}

/// The state after the sensor wait of phase `next` has begun at `now`, and the
/// wait it asks for.
pub open spec fn enters_wait(
    m: MoveModel,
    n: MoveModel,
    action: MoveAction,
    next: MovePhase,
    timeout: u64,
    now: u64,
) -> bool {
    n == (MoveModel { phase: next, phase_start: now, ..m }) && (action matches MoveAction::Receive {
        timeout_ms,
    } && timeout_ms == timeout)
}

/// The state and action of an acknowledgement wait: it ends on the
/// acknowledgement, on a failure of the stream or once its bound has run out,
/// and then the wait of phase `next` begins.
pub open spec fn ack_wait_step(
    m: MoveModel,
    n: MoveModel,
    input: MoveInput,
    now: u64,
    action: MoveAction,
    next: MovePhase,
    next_timeout: u64,
) -> bool {
    let t = elapsed(m.phase_start, now);
    if input == MoveInput::Event(CapacitanceEvent::Ack) || input is TimedOut || input is RecvError
        || t >= ACK_TIMEOUT_MS {
        enters_wait(m, n, action, next, next_timeout, now)
    } else {
        n == m && (action matches MoveAction::Receive { timeout_ms } && timeout_ms == ACK_TIMEOUT_MS
            - t)
    }
}

/// The state and action once the move has ended with the measurements of `m`.
pub open spec fn finishes_closed(m: MoveModel, n: MoveModel, action: MoveAction) -> bool {
    n == (MoveModel { phase: MovePhase::Done, ..m }) && (action matches MoveAction::Finish(r)
        && is_closed_loop_result(r, m.baseline, m.capacitances, m.times))
}

/// The state and action of a monitoring step.
pub open spec fn monitor_step(
    m: MoveModel,
    n: MoveModel,
    input: MoveInput,
    now: u64,
    action: MoveAction,
) -> bool {
    let t = elapsed(m.phase_start, now);
    match input {
        MoveInput::Event(CapacitanceEvent::Measurement(x)) => {
            if SAMPLE_INTERVAL_MS * m.capacitances.len() <= u64::MAX {
                let rec = MoveModel {
                    capacitances: m.capacitances.push(x),
                    times: m.times.push((SAMPLE_INTERVAL_MS * m.capacitances.len()) as u64),
                    trailing: if above_threshold(x, m.baseline) {
                        m.trailing + 1
                    } else {
                        0
                    },
                    ..m
                };
                if rec.trailing >= TRAILING_SAMPLES || t > MONITOR_WINDOW_MS {
                    finishes_closed(rec, n, action)
                } else {
                    n == rec && (action matches MoveAction::Receive { timeout_ms } && timeout_ms
                        == SAMPLE_TIMEOUT_MS)
                }
            } else {
                finishes_closed(m, n, action)
            }
        },
        MoveInput::RecvError => finishes_closed(m, n, action),
        _ => {
            if t > MONITOR_WINDOW_MS {
                finishes_closed(m, n, action)
            } else {
                n == m && (action matches MoveAction::Receive { timeout_ms } && timeout_ms
                    == SAMPLE_TIMEOUT_MS)
            }
        },
    }
}

/// The state and action of one step of a move from state `m` on `input` at
/// time `now`.
pub open spec fn move_step(
    m: MoveModel,
    n: MoveModel,
    input: MoveInput,
    now: u64,
    action: MoveAction,
) -> bool {
    let t = elapsed(m.phase_start, now);
    match m.phase {
        MovePhase::Idle => if m.closed_loop {
            n == (MoveModel { phase: MovePhase::Subscribing, ..m }) && action is Subscribe
        } else {
            n == (MoveModel { phase: MovePhase::Moving, ..m }) && action == MoveAction::Output(
                m.destination,
            )
        },
        MovePhase::Subscribing => n == (MoveModel { phase: MovePhase::EnablingSource, ..m })
            && action == MoveAction::Output(m.source),
        MovePhase::EnablingSource => enters_wait(
            m,
            n,
            action,
            MovePhase::AwaitInitialAck,
            ACK_TIMEOUT_MS,
            now,
        ),
        MovePhase::AwaitInitialAck => ack_wait_step(
            m,
            n,
            input,
            now,
            action,
            MovePhase::AwaitInitialMeasurement,
            BASELINE_TIMEOUT_MS,
        ),
        MovePhase::AwaitInitialMeasurement => match input {
            MoveInput::Event(CapacitanceEvent::Measurement(x)) => n == (MoveModel {
                phase: MovePhase::EnablingDestination,
                baseline: x,
                ..m
            }) && action == MoveAction::Output(m.destination),
            MoveInput::RecvError => n == (MoveModel { phase: MovePhase::Done, ..m }) && action
                == MoveAction::Fail(MoveError::FeedbackLost),
            _ => if input is TimedOut || t >= BASELINE_TIMEOUT_MS {
                n == (MoveModel { phase: MovePhase::Done, ..m }) && action == MoveAction::Fail(
                    MoveError::BaselineTimeout,
                )
            } else {
                n == m && (action matches MoveAction::Receive { timeout_ms } && timeout_ms
                    == BASELINE_TIMEOUT_MS - t)
            },
        },
        MovePhase::EnablingDestination => enters_wait(
            m,
            n,
            action,
            MovePhase::AwaitFinalAck,
            ACK_TIMEOUT_MS,
            now,
        ),
        MovePhase::AwaitFinalAck => ack_wait_step(
            m,
            n,
            input,
            now,
            action,
            MovePhase::Monitoring,
            SAMPLE_TIMEOUT_MS,
        ),
        MovePhase::Monitoring => monitor_step(m, n, input, now, action),
        MovePhase::Moving => n == (MoveModel { phase: MovePhase::Settling, ..m }) && (action
            matches MoveAction::Sleep { ms } && ms == SETTLE_MS),
        MovePhase::Settling => n == (MoveModel { phase: MovePhase::Done, ..m }) && (action matches MoveAction::Finish(r)
            && is_open_loop_result(r)),
        MovePhase::Done => n == m && action == MoveAction::Fail(MoveError::Finished),
    }
}

/// An open-loop move, whatever inputs it is handed, stays open-loop, never
/// waits on the sensor stream, and finishes only from settling, which it
/// enters by sleeping `SETTLE_MS`; it then reports success without feedback.
pub proof fn lemma_open_loop_always_succeeds(
    m: MoveModel,
    n: MoveModel,
    input: MoveInput,
    now: u64,
    action: MoveAction,
)
    requires
        !m.closed_loop,
        open_loop_phase(m.phase),
        move_step(m, n, input, now, action),
    ensures
        !n.closed_loop,
        open_loop_phase(n.phase),
        !(action is Receive) && !(action is Subscribe),
        action matches MoveAction::Finish(r) ==> is_open_loop_result(r) && m.phase is Settling,
        n.phase is Settling && !(m.phase is Settling) ==> (action matches MoveAction::Sleep { ms }
            && ms == SETTLE_MS),
{
}

/// `states` and `actions` are what a move passes through from `states[0]`
/// when it is handed `inputs`, each with the time at which it came.
pub open spec fn is_run(
    states: Seq<MoveModel>,
    inputs: Seq<(MoveInput, u64)>,
    actions: Seq<MoveAction>,
) -> bool {
    &&& states.len() == inputs.len() + 1
    &&& actions.len() == inputs.len()
    &&& forall|i: int|
        #![trigger actions[i]]
        0 <= i < inputs.len() ==> move_step(states[i], states[i + 1], inputs[i].0, inputs[i].1, actions[i])
}

proof fn lemma_open_loop_done(
    states: Seq<MoveModel>,
    inputs: Seq<(MoveInput, u64)>,
    actions: Seq<MoveAction>,
    k: int,
)
    requires
        is_run(states, inputs, actions),
        3 <= k < states.len(),
        states[3].phase is Done,
    ensures
        states[k].phase is Done,
        k < actions.len() ==> actions[k] == MoveAction::Fail(MoveError::Finished),
    decreases k,
{
    if k > 3 {
        lemma_open_loop_done(states, inputs, actions, k - 1);
        assert(move_step(states[k - 1], states[k], inputs[k - 1].0, inputs[k - 1].1, actions[k - 1]));
    }
    if k < actions.len() {
        assert(move_step(states[k], states[k + 1], inputs[k].0, inputs[k].1, actions[k]));
    }
}

/// Whatever inputs an open-loop move is handed, it enables the destination,
/// sleeps `SETTLE_MS`, and then reports success without feedback; it never
/// subscribes to or waits on the sensor stream, and after that it only
/// answers that it has finished.
pub proof fn lemma_open_loop_run(
    states: Seq<MoveModel>,
    inputs: Seq<(MoveInput, u64)>,
    actions: Seq<MoveAction>,
)
    requires
        is_run(states, inputs, actions),
        !states[0].closed_loop,
        states[0].phase is Idle,
    ensures
        actions.len() > 0 ==> actions[0] == MoveAction::Output(states[0].destination),
        actions.len() > 1 ==> (actions[1] matches MoveAction::Sleep { ms } && ms == SETTLE_MS),
        actions.len() > 2 ==> (actions[2] matches MoveAction::Finish(r) && is_open_loop_result(r)),
        forall|i: int|
            3 <= i < actions.len() ==> #[trigger] actions[i] == MoveAction::Fail(MoveError::Finished),
{
    if actions.len() > 0 {
        assert(move_step(states[0], states[1], inputs[0].0, inputs[0].1, actions[0]));
    }
    if actions.len() > 1 {
        assert(move_step(states[1], states[2], inputs[1].0, inputs[1].1, actions[1]));
    }
    if actions.len() > 2 {
        assert(move_step(states[2], states[3], inputs[2].0, inputs[2].1, actions[2]));
        assert forall|i: int| 3 <= i < actions.len() implies #[trigger] actions[i]
            == MoveAction::Fail(MoveError::Finished) by {
            lemma_open_loop_done(states, inputs, actions, i);
        }
    }
}

/// The phases of a closed-loop move before its baseline is taken, and the
/// end of a move.
pub open spec fn before_baseline(p: MovePhase) -> bool {
    p is Idle || p is Subscribing || p is EnablingSource || p is AwaitInitialAck
        || p is AwaitInitialMeasurement || p is Done
}

/// `input` is a capacitance measurement.
pub open spec fn is_measurement(input: MoveInput) -> bool {
    input matches MoveInput::Event(CapacitanceEvent::Measurement(_))
}

proof fn lemma_no_baseline_phases(
    states: Seq<MoveModel>,
    inputs: Seq<(MoveInput, u64)>,
    actions: Seq<MoveAction>,
    k: int,
)
    requires
        is_run(states, inputs, actions),
        states[0].closed_loop,
        states[0].phase is Idle,
        forall|i: int| 0 <= i < inputs.len() ==> !is_measurement(#[trigger] inputs[i].0),
        0 <= k < states.len(),
    ensures
        before_baseline(states[k].phase),
        states[k].closed_loop,
    decreases k,
{
    if k > 0 {
        lemma_no_baseline_phases(states, inputs, actions, k - 1);
        assert(move_step(states[k - 1], states[k], inputs[k - 1].0, inputs[k - 1].1, actions[k - 1]));
        assert(!is_measurement(inputs[k - 1].0));
    }
}

/// A closed-loop move that is handed no measurement never reports a result.
/// While it waits for the baseline, running out of time, or being handed
/// anything once `BASELINE_TIMEOUT_MS` have passed, fails it with
/// `BaselineTimeout`.
pub proof fn lemma_no_baseline_fails(
    states: Seq<MoveModel>,
    inputs: Seq<(MoveInput, u64)>,
    actions: Seq<MoveAction>,
)
    requires
        is_run(states, inputs, actions),
        states[0].closed_loop,
        states[0].phase is Idle,
        forall|i: int| 0 <= i < inputs.len() ==> !is_measurement(#[trigger] inputs[i].0),
    ensures
        forall|i: int| 0 <= i < actions.len() ==> !(#[trigger] actions[i] is Finish),
        forall|i: int|
            0 <= i < actions.len() && states[i].phase is AwaitInitialMeasurement && !(inputs[i].0 is RecvError)
                && (inputs[i].0 is TimedOut || elapsed(states[i].phase_start, inputs[i].1)
                >= BASELINE_TIMEOUT_MS) ==> #[trigger] actions[i] == MoveAction::Fail(
                MoveError::BaselineTimeout,
            ),
{
    assert forall|i: int| 0 <= i < actions.len() implies !(#[trigger] actions[i] is Finish) by {
        lemma_no_baseline_phases(states, inputs, actions, i);
        assert(!is_measurement(inputs[i].0));
    }
    assert forall|i: int|
        0 <= i < actions.len() && states[i].phase is AwaitInitialMeasurement && !(inputs[i].0 is RecvError)
            && (inputs[i].0 is TimedOut || elapsed(states[i].phase_start, inputs[i].1)
            >= BASELINE_TIMEOUT_MS) implies #[trigger] actions[i] == MoveAction::Fail(
        MoveError::BaselineTimeout,
    ) by {
        assert(!is_measurement(inputs[i].0));
    }
}

/// No measurement of `caps` exceeds 80% of `baseline`.
pub open spec fn all_low(caps: Seq<i32>, baseline: i32) -> bool {
    forall|j: int| 0 <= j < caps.len() ==> !above_threshold(#[trigger] caps[j], baseline)
}

/// `input` is a measurement that does not exceed 80% of `baseline`.
pub open spec fn low_measurement(input: MoveInput, baseline: i32) -> bool {
    input matches MoveInput::Event(CapacitanceEvent::Measurement(x)) && !above_threshold(x, baseline)
}

proof fn lemma_low_monitoring(
    states: Seq<MoveModel>,
    inputs: Seq<(MoveInput, u64)>,
    actions: Seq<MoveAction>,
    k: int,
)
    requires
        is_run(states, inputs, actions),
        states[0].closed_loop,
        states[0].phase is Monitoring,
        all_low(states[0].capacitances, states[0].baseline),
        forall|i: int| 0 <= i < inputs.len() ==> low_measurement(#[trigger] inputs[i].0, states[0].baseline),
        0 <= k < states.len(),
    ensures
        states[k].phase is Monitoring || states[k].phase is Done,
        states[k].closed_loop,
        states[k].baseline == states[0].baseline,
        states[k].phase_start == states[0].phase_start,
        all_low(states[k].capacitances, states[0].baseline),
    decreases k,
{
    if k > 0 {
        lemma_low_monitoring(states, inputs, actions, k - 1);
        let m = states[k - 1];
        assert(move_step(m, states[k], inputs[k - 1].0, inputs[k - 1].1, actions[k - 1]));
        assert(low_measurement(inputs[k - 1].0, states[0].baseline));
        if m.phase is Monitoring {
            if let MoveInput::Event(CapacitanceEvent::Measurement(x)) = inputs[k - 1].0 {
                assert(all_low(m.capacitances.push(x), m.baseline)) by {
                    assert forall|j: int| 0 <= j < m.capacitances.len() + 1 implies !above_threshold(
                        #[trigger] m.capacitances.push(x)[j],
                        m.baseline,
                    ) by {
                        if j < m.capacitances.len() {
                            assert(m.capacitances.push(x)[j] == m.capacitances[j]);
                        }
                    }
                }
            }
        }
    }
}

/// While every input of a closed-loop move in monitoring is a measurement at
/// or below 80% of the baseline, and nothing recorded before exceeds it, the
/// move keeps waiting until the monitoring window has passed (or the synthetic
/// clock is exhausted), and when it reports a result, that is a failure.
pub proof fn lemma_low_capacitance_fails(
    states: Seq<MoveModel>,
    inputs: Seq<(MoveInput, u64)>,
    actions: Seq<MoveAction>,
)
    requires
        is_run(states, inputs, actions),
        states[0].closed_loop,
        states[0].phase is Monitoring,
        all_low(states[0].capacitances, states[0].baseline),
        forall|i: int| 0 <= i < inputs.len() ==> low_measurement(#[trigger] inputs[i].0, states[0].baseline),
    ensures
        forall|i: int|
            0 <= i < actions.len() ==> (#[trigger] actions[i] matches MoveAction::Finish(r) ==> !r.success
                && r.closed_loop),
        forall|i: int|
            0 <= i < actions.len() && states[i].phase is Monitoring && elapsed(
                states[0].phase_start,
                inputs[i].1,
            ) <= MONITOR_WINDOW_MS && SAMPLE_INTERVAL_MS * states[i].capacitances.len() <= u64::MAX
                ==> #[trigger] actions[i] is Receive,
{
    assert forall|i: int| 0 <= i < actions.len() implies (#[trigger] actions[i] matches MoveAction::Finish(r)
        ==> !r.success && r.closed_loop) by {
        lemma_low_monitoring(states, inputs, actions, i);
        lemma_low_monitoring(states, inputs, actions, i + 1);
        assert(low_measurement(inputs[i].0, states[0].baseline));
        let caps = states[i + 1].capacitances;
        if caps.len() > 0 {
            assert(caps.last() == caps[caps.len() - 1]);
        }
    }
    assert forall|i: int|
        0 <= i < actions.len() && states[i].phase is Monitoring && elapsed(
            states[0].phase_start,
            inputs[i].1,
        ) <= MONITOR_WINDOW_MS && SAMPLE_INTERVAL_MS * states[i].capacitances.len() <= u64::MAX
            implies #[trigger] actions[i] is Receive by {
        lemma_low_monitoring(states, inputs, actions, i);
        assert(low_measurement(inputs[i].0, states[0].baseline));
    }
}

/// `input` is a measurement that exceeds 80% of `baseline`.
pub open spec fn high_measurement(input: MoveInput, baseline: i32) -> bool {
    input matches MoveInput::Event(CapacitanceEvent::Measurement(x)) && above_threshold(x, baseline)
}

/// The conditions of a run of high measurements within the monitoring window.
pub open spec fn high_run(
    states: Seq<MoveModel>,
    inputs: Seq<(MoveInput, u64)>,
    actions: Seq<MoveAction>,
) -> bool {
    &&& is_run(states, inputs, actions)
    &&& states[0].closed_loop
    &&& states[0].phase is Monitoring
    &&& states[0].trailing < TRAILING_SAMPLES
    &&& inputs.len() == TRAILING_SAMPLES - states[0].trailing
    &&& SAMPLE_INTERVAL_MS * (states[0].capacitances.len() + inputs.len()) <= u64::MAX
    &&& forall|i: int|
        0 <= i < inputs.len() ==> high_measurement(#[trigger] inputs[i].0, states[0].baseline)
            && elapsed(states[0].phase_start, inputs[i].1) <= MONITOR_WINDOW_MS
}

proof fn lemma_high_monitoring(
    states: Seq<MoveModel>,
    inputs: Seq<(MoveInput, u64)>,
    actions: Seq<MoveAction>,
    k: int,
)
    requires
        high_run(states, inputs, actions),
        0 <= k < inputs.len(),
    ensures
        states[k].phase is Monitoring,
        states[k].closed_loop,
        states[k].baseline == states[0].baseline,
        states[k].phase_start == states[0].phase_start,
        states[k].trailing == states[0].trailing + k,
        states[k].capacitances.len() == states[0].capacitances.len() + k,
        k > 0 ==> (actions[k - 1] matches MoveAction::Receive { timeout_ms } && timeout_ms
            == SAMPLE_TIMEOUT_MS),
    decreases k,
{
    if k > 0 {
        lemma_high_monitoring(states, inputs, actions, k - 1);
        assert(move_step(states[k - 1], states[k], inputs[k - 1].0, inputs[k - 1].1, actions[k - 1]));
        assert(high_measurement(inputs[k - 1].0, states[0].baseline));
    }
}

/// A closed-loop move in monitoring that is handed, within the monitoring
/// window, as many measurements above 80% of the baseline as make the
/// trailing count reach `TRAILING_SAMPLES`, waits after each of them but the
/// last, and after the last reports success with that measurement as its
/// final capacitance.
pub proof fn lemma_high_capacitance_succeeds(
    states: Seq<MoveModel>,
    inputs: Seq<(MoveInput, u64)>,
    actions: Seq<MoveAction>,
)
    requires
        high_run(states, inputs, actions),
    ensures
        forall|i: int| 0 <= i < actions.len() - 1 ==> #[trigger] actions[i] is Receive,
        actions.last() matches MoveAction::Finish(r) && r.success && r.closed_loop && (
        r.closed_loop_result matches Some(d) && d.pre_capacitance == states[0].baseline
            && inputs.last().0 == MoveInput::Event(CapacitanceEvent::Measurement(d.post_capacitance))),
{
    assert forall|i: int| 0 <= i < actions.len() - 1 implies #[trigger] actions[i] is Receive by {
        lemma_high_monitoring(states, inputs, actions, i + 1);
    }
    let n = inputs.len() - 1;
    lemma_high_monitoring(states, inputs, actions, n);
    assert(move_step(states[n], states[n + 1], inputs[n].0, inputs[n].1, actions[n]));
    assert(high_measurement(inputs[n].0, states[0].baseline));
}

impl MoveController {
    pub open spec fn wf(&self) -> bool {
        let m = self@;
        &&& self.series_wf()
        &&& m.phase is Monitoring ==> m.trailing < TRAILING_SAMPLES
        &&& !(m.phase is Monitoring || m.phase is Done) ==> m.trailing == 0
    }

    /// The recorded times are the synthetic clock of the recorded
    /// measurements, and the phase belongs to the kind of move.
    pub open spec fn series_wf(&self) -> bool {
        let m = self@;
        &&& m.times.len() == m.capacitances.len()
        &&& forall|i: int| 0 <= i < m.times.len() ==> #[trigger] m.times[i] == SAMPLE_INTERVAL_MS * i
        &&& m.closed_loop ==> !(m.phase is Moving || m.phase is Settling)
        &&& !m.closed_loop ==> open_loop_phase(m.phase)
    }

    /// A move of the droplet whose footprint has its corner at `start` and the
    /// size `size`, one step in `dir`; closed-loop where the backend reports
    /// capacitance feedback. `None` where the destination leaves the range of
    /// the coordinates.
    pub fn new(start: Location, size: Location, dir: Direction, closed_loop: bool) -> (r: Option<
        MoveController,
    >)
        ensures
            r is Some <==> fits_i32(start.x + step_of(dir).0) && fits_i32(start.y + step_of(dir).1),
            r matches Some(c) ==> {
                &&& c.wf()
                &&& c@.phase == MovePhase::Idle
                &&& c@.closed_loop == closed_loop
                &&& c@.source == (Rectangle { location: start, dimensions: size })
                &&& c@.destination.dimensions == size
                &&& c@.destination.location.x == start.x + step_of(dir).0
                &&& c@.destination.location.y == start.y + step_of(dir).1
                &&& c@.capacitances.len() == 0
                &&& c@.trailing == 0
            },
    {
        match start.move_one(dir) {
            Some(moved) => Some(
                MoveController {
                    phase: MovePhase::Idle,
                    closed_loop,
                    source: Rectangle { location: start, dimensions: size },
                    destination: Rectangle { location: moved, dimensions: size },
                    phase_start: 0,
                    baseline: 0,
                    capacitance_series: Vec::new(),
                    time_series: Vec::new(),
                    trailing: 0,
                },
            ),
            None => None,
        }
    }

    /// A move as `new` makes it, closed-loop exactly where `driver` reports
    /// capacitance feedback.
    pub fn for_driver<D: Driver>(driver: &D, start: Location, size: Location, dir: Direction) -> (r:
        Option<MoveController>)
        ensures
            r is Some <==> fits_i32(start.x + step_of(dir).0) && fits_i32(start.y + step_of(dir).1),
            r matches Some(c) ==> {
                &&& c.wf()
                &&& c@.phase == MovePhase::Idle
                &&& c@.closed_loop == driver.feedback()
                &&& c@.source == (Rectangle { location: start, dimensions: size })
                &&& c@.destination.dimensions == size
                &&& c@.destination.location.x == start.x + step_of(dir).0
                &&& c@.destination.location.y == start.y + step_of(dir).1
                &&& c@.capacitances.len() == 0
                &&& c@.trailing == 0
            },
    {
        MoveController::new(start, size, dir, driver.has_capacitance_feedback())
    }

    /// The current phase.
    pub fn phase(&self) -> (p: MovePhase)
        ensures
            p == self@.phase,
    {
        self.phase
    }

    fn enter_wait(&mut self, next: MovePhase, timeout: u64, now: u64) -> (action: MoveAction)
        requires
            old(self).wf(),
            old(self)@.closed_loop,
            !(old(self)@.phase is Monitoring || old(self)@.phase is Done),
            !(next is Moving || next is Settling || next is Done),
        ensures
            final(self).wf(),
            enters_wait(old(self)@, final(self)@, action, next, timeout, now),
    {
        self.phase = next;
        self.phase_start = now;
        MoveAction::Receive { timeout_ms: timeout }
    }

    fn finish_closed(&mut self) -> (action: MoveAction)
        requires
            old(self).series_wf(),
            old(self)@.closed_loop,
        ensures
            final(self).wf(),
            finishes_closed(old(self)@, final(self)@, action),
    {
        self.phase = MovePhase::Done;
        let n = self.capacitance_series.len();
        let post: i32 = if n > 0 {
            self.capacitance_series[n - 1]
        } else {
            0
        };
        let success = n > 0 && exceeds_threshold(post, self.baseline);
        let capacitance_series = self.capacitance_series.clone();
        let time_series = self.time_series.clone();
        assert(capacitance_series@ =~= self.capacitance_series@);
        assert(time_series@ =~= self.time_series@);
        MoveAction::Finish(
            MoveDropResult {
                success,
                closed_loop: true,
                closed_loop_result: Some(
                    MoveDropClosedLoopResult {
                        pre_capacitance: self.baseline,
                        post_capacitance: post,
                        time_series,
                        capacitance_series,
                    },
                ),
            },
        )
    }

    fn monitor(&mut self, input: MoveInput, now: u64) -> (action: MoveAction)
        requires
            old(self).wf(),
            old(self)@.closed_loop,
            old(self)@.phase is Monitoring,
        ensures
            final(self).wf(),
            monitor_step(old(self)@, final(self)@, input, now, action),
    {
        let t = elapsed_ms(self.phase_start, now);
        match input {
            MoveInput::Event(CapacitanceEvent::Measurement(x)) => {
                let n = self.capacitance_series.len();
                if n as u64 <= u64::MAX / SAMPLE_INTERVAL_MS {
                    let ghost times = self.time_series@;
                    self.capacitance_series.push(x);
                    self.time_series.push(SAMPLE_INTERVAL_MS * n as u64);
                    assert forall|i: int| 0 <= i < self.time_series@.len() implies #[trigger] self.time_series@[i]
                        == SAMPLE_INTERVAL_MS * i by {
                        if i < n {
                            assert(self.time_series@[i] == times[i]);
                        }
                    }
                    if exceeds_threshold(x, self.baseline) {
                        self.trailing = self.trailing + 1;
                    } else {
                        self.trailing = 0;
                    }
                    if self.trailing >= TRAILING_SAMPLES || t > MONITOR_WINDOW_MS {
                        self.finish_closed()
                    } else {
                        MoveAction::Receive { timeout_ms: SAMPLE_TIMEOUT_MS }
                    }
                } else {
                    self.finish_closed()
                }
            },
            MoveInput::RecvError => self.finish_closed(),
            _ => {
                if t > MONITOR_WINDOW_MS {
                    self.finish_closed()
                } else {
                    MoveAction::Receive { timeout_ms: SAMPLE_TIMEOUT_MS }
                }
            },
        }
    }

    /// Advances the move on what came of the last action, at time `now`, and
    /// returns the next action.
    pub fn step(&mut self, input: MoveInput, now: u64) -> (action: MoveAction)
        requires
            old(self).wf(),
        ensures
            final(self).wf(),
            move_step(old(self)@, final(self)@, input, now, action),
            !old(self)@.closed_loop ==> (action matches MoveAction::Finish(r) ==> is_open_loop_result(r)),
            !old(self)@.closed_loop ==> !(action is Receive) && !(action is Subscribe),
    {
        let t = elapsed_ms(self.phase_start, now);
        match self.phase {
            MovePhase::Idle => {
                if self.closed_loop {
                    self.phase = MovePhase::Subscribing;
                    MoveAction::Subscribe
                } else {
                    self.phase = MovePhase::Moving;
                    MoveAction::Output(self.destination)
                }
            },
            MovePhase::Subscribing => {
                self.phase = MovePhase::EnablingSource;
                MoveAction::Output(self.source)
            },
            MovePhase::EnablingSource => self.enter_wait(MovePhase::AwaitInitialAck, ACK_TIMEOUT_MS, now),
            MovePhase::AwaitInitialAck => {
                if input == MoveInput::Event(CapacitanceEvent::Ack) || input == MoveInput::TimedOut
                    || input == MoveInput::RecvError || t >= ACK_TIMEOUT_MS {
                    self.enter_wait(MovePhase::AwaitInitialMeasurement, BASELINE_TIMEOUT_MS, now)
                } else {
                    MoveAction::Receive { timeout_ms: ACK_TIMEOUT_MS - t }
                }
            },
            MovePhase::AwaitInitialMeasurement => match input {
                MoveInput::Event(CapacitanceEvent::Measurement(x)) => {
                    self.baseline = x;
                    self.phase = MovePhase::EnablingDestination;
                    MoveAction::Output(self.destination)
                },
                MoveInput::RecvError => {
                    self.phase = MovePhase::Done;
                    MoveAction::Fail(MoveError::FeedbackLost)
                },
                _ => {
                    if input == MoveInput::TimedOut || t >= BASELINE_TIMEOUT_MS {
                        self.phase = MovePhase::Done;
                        MoveAction::Fail(MoveError::BaselineTimeout)
                    } else {
                        MoveAction::Receive { timeout_ms: BASELINE_TIMEOUT_MS - t }
                    }
                },
            },
            MovePhase::EnablingDestination => self.enter_wait(MovePhase::AwaitFinalAck, ACK_TIMEOUT_MS, now),
            MovePhase::AwaitFinalAck => {
                if input == MoveInput::Event(CapacitanceEvent::Ack) || input == MoveInput::TimedOut
                    || input == MoveInput::RecvError || t >= ACK_TIMEOUT_MS {
                    self.enter_wait(MovePhase::Monitoring, SAMPLE_TIMEOUT_MS, now)
                } else {
                    MoveAction::Receive { timeout_ms: ACK_TIMEOUT_MS - t }
                }
            },
            MovePhase::Monitoring => self.monitor(input, now),
            MovePhase::Moving => {
                self.phase = MovePhase::Settling;
                MoveAction::Sleep { ms: SETTLE_MS }
            },
            MovePhase::Settling => {
                self.phase = MovePhase::Done;
                MoveAction::Finish(
                    MoveDropResult { success: true, closed_loop: false, closed_loop_result: None },
                )
            },
            MovePhase::Done => MoveAction::Fail(MoveError::Finished),
        }
    }
}

} // verus!
