//! The decisions of the feedback loop: what each poll of the sensor does to
//! the tracker, the lights and the diagnostic output.
//!
//! The loop itself (polling, writing the lights, printing, sleeping) runs
//! outside; it hands each outcome to [`Controller::handle`] and performs the
//! returned [`Step`]. Any fault of the sensor or its bus, at start-up or
//! later, halts the loop for good.

use vstd::prelude::*;
use crate::indicator::{pattern_of, update_leds_orientation, IndicatorPattern};
use crate::orientation::{
    classify_estimate, estimate_in_range, next_estimate, Estimate, Orientation,
    OrientationTracker, RawSample,
};

verus! {

/// With a fresh sample, one diagnostic line every this many iterations.
pub const REPORT_PERIOD_WITH_DATA: u32 = 50;

/// Without a sample, one diagnostic line every this many iterations.
pub const REPORT_PERIOD_WITHOUT_DATA: u32 = 100;

/// Milliseconds to wait after each iteration.
pub const POLL_INTERVAL_MS: u32 = 20;

/// Where the loop stands.
#[derive(Clone, Copy, Debug, PartialEq, Eq, Structural)]
pub enum Phase {
    /// The hardware is being brought up; no iteration has run.
    Starting,
    /// The sensor was set up and identified; iterations run.
    Running,
    /// A fault stopped the loop; nothing more happens until reset.
    Halted,
}

/// The outcome of one attempt to bring up or poll the sensor.
#[derive(Clone, Copy, Debug, PartialEq, Eq, Structural)]
pub enum Event {
    /// Bus and sensor were set up and the sensor identified itself.
    InitSucceeded,
    /// Bringing up the bus or the sensor failed.
    InitFailed,
    /// A new sample was ready and was read.
    Sample(RawSample),
    /// No new sample was ready.
    NoData,
    /// Asking for or reading a sample failed on the bus.
    BusFault,
}

/// The diagnostic line, if any, that an iteration emits.
#[derive(Clone, Copy, Debug, PartialEq, Eq, Structural)]
pub enum Report {
    Silent,
    /// The sample just read and the attitude it led to.
    Reading { sample: RawSample, orientation: Orientation },
    /// No sample was ready at this iteration count.
    NoData { counter: u32 },
}

/// What the loop must do after an event.
#[derive(Clone, Copy, Debug, PartialEq, Eq, Structural)]
pub struct Step {
    /// The pattern to show on the lights, if they are to be written.
    pub leds: Option<IndicatorPattern>,
    pub report: Report,
    /// How long to wait before the next poll.
    pub delay_ms: u32,
}

/// The controller's state as a mathematical value.
pub struct ControllerState {
    pub phase: Phase,
    pub estimate: Estimate,
    pub counter: int,
}

/// A step that does nothing.
pub open spec fn idle() -> Step {
    Step { leds: None, report: Report::Silent, delay_ms: 0 }
}

/// The counter after one more iteration; it wraps at the top of `u32`.
pub open spec fn bump(counter: int) -> int {
    if counter == u32::MAX {
        0
    } else {
        counter + 1
    }
}

pub open spec fn report_period(ev: Event) -> int {
    if ev is Sample {
        REPORT_PERIOD_WITH_DATA as int
    } else {
        REPORT_PERIOD_WITHOUT_DATA as int
    }
}

/// The new state and the step that one event gives.
pub open spec fn next(s: ControllerState, ev: Event) -> (ControllerState, Step) {
    match s.phase {
        Phase::Starting => match ev {
            Event::InitSucceeded => (ControllerState { phase: Phase::Running, ..s }, idle()),
            Event::InitFailed | Event::BusFault => (
                ControllerState { phase: Phase::Halted, ..s },
                idle(),
            ),
            _ => (s, idle()),
        },
        Phase::Running => match ev {
            Event::Sample(sample) => {
                let e = next_estimate(s.estimate, sample);
                let o = classify_estimate(e);
                let report = if s.counter % (REPORT_PERIOD_WITH_DATA as int) == 0 {
                    Report::Reading { sample, orientation: o }
                } else {
                    Report::Silent
                };
                (
                    ControllerState { phase: Phase::Running, estimate: e, counter: bump(s.counter) },
                    Step { leds: Some(pattern_of(o)), report, delay_ms: POLL_INTERVAL_MS },
                )
            },
            Event::NoData => {
                let report = if s.counter % (REPORT_PERIOD_WITHOUT_DATA as int) == 0 {
                    Report::NoData { counter: s.counter as u32 }
                } else {
                    Report::Silent
                };
                (
                    ControllerState { counter: bump(s.counter), ..s },
                    Step { leds: None, report, delay_ms: POLL_INTERVAL_MS },
                )
            },
            Event::BusFault => (ControllerState { phase: Phase::Halted, ..s }, idle()),
            _ => (s, idle()),
        },
        Phase::Halted => (s, idle()),
    }
}

/// The state after every event of `evs`, first to last.
pub open spec fn run(s: ControllerState, evs: Seq<Event>) -> ControllerState
    decreases evs.len(),
{
    if evs.len() == 0 {
        s
    } else {
        next(run(s, evs.drop_last()), evs.last()).0
    }
}

/// The step that the event at index `i` of `evs` gives.
pub open spec fn step_at(s: ControllerState, evs: Seq<Event>, i: int) -> Step {
    next(run(s, evs.take(i)), evs[i]).1
}

/// Owns the tracker and the iteration counter, and decides each step of the
/// loop.
pub struct Controller {
    phase: Phase,
    tracker: OrientationTracker,
    counter: u32,
}

impl View for Controller {
    type V = ControllerState;

    closed spec fn view(&self) -> ControllerState {
        ControllerState { phase: self.phase, estimate: self.tracker@, counter: self.counter as int }
    }
}

impl Controller {
    pub open spec fn wf(&self) -> bool {
        estimate_in_range(self@.estimate) && 0 <= self@.counter <= u32::MAX
    }

    /// The state before any event: starting, zero estimate, zero count.
    pub open spec fn initial() -> ControllerState {
        ControllerState {
            phase: Phase::Starting,
            estimate: OrientationTracker::new_view(),
            counter: 0,
        }
    }

    pub fn new() -> (r: Self)
        ensures
            r.wf(),
            r@ == Self::initial(),
    {
        Controller { phase: Phase::Starting, tracker: OrientationTracker::new(), counter: 0 }
    }

    pub fn phase(&self) -> (r: Phase)
        ensures
            r == self@.phase,
    {
        self.phase
    }

    /// Iterations run so far, modulo 2^32.
    pub fn counter(&self) -> (r: u32)
        ensures
            r == self@.counter,
    {
        self.counter
    }

    /// The attitude that the current estimate stands for.
    pub fn orientation(&self) -> (r: Orientation)
        requires
            self.wf(),
        ensures
            r == classify_estimate(self@.estimate),
    {
        proof {
            self.lemma_tracker_wf();
        }
        self.tracker.orientation()
    }

    proof fn lemma_tracker_wf(&self)
        requires
            self.wf(),
        ensures
            self.tracker.wf(),
    {
    }

    fn tick(&mut self)
        ensures
            final(self)@ == (ControllerState { counter: bump(old(self)@.counter), ..old(self)@ }),
    {
        self.counter = if self.counter == u32::MAX {
            0
        } else {
            self.counter + 1
        };
    }

    /// Takes one event and returns what the loop must do. Over many events,
    /// `lemma_report_cadence` gives when diagnostic lines come, and
    /// `lemma_failed_start_halts` that a failed start-up never runs an
    /// iteration or writes the lights.
    pub fn handle(&mut self, ev: Event) -> (r: Step)
        requires
            old(self).wf(),
        ensures
            final(self).wf(),
            (final(self)@, r) == next(old(self)@, ev),
    {
        proof {
            self.lemma_tracker_wf();
        }
        match self.phase {
            Phase::Starting => {
                match ev {
                    Event::InitSucceeded => self.phase = Phase::Running,
                    Event::InitFailed | Event::BusFault => self.phase = Phase::Halted,
                    _ => {},
                }
                Step { leds: None, report: Report::Silent, delay_ms: 0 }
            },
            Phase::Running => match ev {
                Event::Sample(sample) => {
                    self.tracker.update(sample);
                    let o = self.tracker.orientation();
                    let mut leds = IndicatorPattern::new();
                    update_leds_orientation(&mut leds, o);
                    let report = if self.counter % REPORT_PERIOD_WITH_DATA == 0 {
                        Report::Reading { sample, orientation: o }
                    } else {
                        Report::Silent
                    };
                    self.tick();
                    Step { leds: Some(leds), report, delay_ms: POLL_INTERVAL_MS }
                },
                Event::NoData => {
                    let report = if self.counter % REPORT_PERIOD_WITHOUT_DATA == 0 {
                        Report::NoData { counter: self.counter }
                    } else {
                        Report::Silent
                    };
                    self.tick();
                    Step { leds: None, report, delay_ms: POLL_INTERVAL_MS }
                },
                Event::BusFault => {
                    self.phase = Phase::Halted;
                    Step { leds: None, report: Report::Silent, delay_ms: 0 }
                },
                _ => Step { leds: None, report: Report::Silent, delay_ms: 0 },
            },
            Phase::Halted => Step { leds: None, report: Report::Silent, delay_ms: 0 },
        }
    }
}

/// A poll that completed: a sample or its absence.
pub open spec fn is_poll(ev: Event) -> bool {
    ev is Sample || ev is NoData
}

proof fn lemma_polls_count(s: ControllerState, evs: Seq<Event>)
    requires
        s.phase == Phase::Running,
        s.counter == 0,
        evs.len() <= u32::MAX,
        forall|i: int| 0 <= i < evs.len() ==> is_poll(#[trigger] evs[i]),
    ensures
        run(s, evs).phase == Phase::Running,
        run(s, evs).counter == evs.len(),
    decreases evs.len(),
{
    if evs.len() > 0 {
        let prev = evs.drop_last();
        assert forall|i: int| 0 <= i < prev.len() implies is_poll(#[trigger] prev[i]) by {
            assert(prev[i] == evs[i]);
        }
        lemma_polls_count(s, prev);
        assert(is_poll(evs[evs.len() - 1]));
    }
}

/// Counting iterations from zero, with every poll completing, the iteration
/// at index `i` emits a diagnostic line exactly when `i` is a multiple of the
/// period for its case: 50 with a sample, 100 without.
pub proof fn lemma_report_cadence(s: ControllerState, evs: Seq<Event>)
    requires
        s.phase == Phase::Running,
        s.counter == 0,
        evs.len() <= u32::MAX + 1,
        forall|i: int| 0 <= i < evs.len() ==> is_poll(#[trigger] evs[i]),
    ensures
        forall|i: int|
            0 <= i < evs.len() ==> ((#[trigger] step_at(s, evs, i)).report != Report::Silent <==> i
                % report_period(evs[i]) == 0),
{
    assert forall|i: int| 0 <= i < evs.len() implies ((#[trigger] step_at(s, evs, i)).report
        != Report::Silent <==> i % report_period(evs[i]) == 0) by {
        let pre = evs.take(i);
        assert forall|j: int| 0 <= j < pre.len() implies is_poll(#[trigger] pre[j]) by {
            assert(pre[j] == evs[j]);
        }
        lemma_polls_count(s, pre);
        assert(is_poll(evs[i]));
    }
}

proof fn lemma_halted_stays(s: ControllerState, evs: Seq<Event>)
    requires
        s.phase == Phase::Halted,
    ensures
        run(s, evs) == s,
    decreases evs.len(),
{
    if evs.len() > 0 {
        lemma_halted_stays(s, evs.drop_last());
    }
}

/// A failed start-up halts the controller before any iteration: whatever
/// events follow, no step writes the lights, reports or waits, and the
/// state no longer changes.
pub proof fn lemma_failed_start_halts(evs: Seq<Event>)
    ensures
        next(Controller::initial(), Event::InitFailed).0.phase == Phase::Halted,
        next(Controller::initial(), Event::InitFailed).1 == idle(),
        run(next(Controller::initial(), Event::InitFailed).0, evs) == next(
            Controller::initial(),
            Event::InitFailed,
        ).0,
        forall|i: int|
            0 <= i < evs.len() ==> #[trigger] step_at(
                next(Controller::initial(), Event::InitFailed).0,
                evs,
                i,
            ) == idle(),
{
    let h = next(Controller::initial(), Event::InitFailed).0;
    lemma_halted_stays(h, evs);
    assert forall|i: int| 0 <= i < evs.len() implies #[trigger] step_at(h, evs, i) == idle() by {
        lemma_halted_stays(h, evs.take(i));
    }
}

} // verus!
