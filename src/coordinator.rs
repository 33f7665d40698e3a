//! The tick coordinator as a pure state machine: it is told what happened
//! (an event) and answers with what to do next (an action). The driver that
//! talks to the simulator and the broker performs the actions and reports
//! their outcome back as events.
use vstd::prelude::*;
use vstd::arithmetic::div_mod::lemma_fundamental_div_mod;
use vstd::arithmetic::div_mod::lemma_fundamental_div_mod_converse;
use crate::config::CoordinatorConfig;
use crate::weather::OscillatorView;
use crate::weather::WeatherOscillator;
use crate::weather::initial_view;
use crate::weather::step_view;
use crate::weather::view_after;
use crate::weather::triangle_wave;
use crate::weather::view_wf;
use crate::weather::lemma_oscillator_follows_wave;

verus! {

/// Mode of the simulation clock.
#[derive(Clone, Copy, Debug, PartialEq, Eq, Structural)]
pub enum ClockMode {
    /// The simulation advances only when stepped.
    Synchronous,
    /// The simulation runs at its own pace.
    FreeRunning,
}

/// Life cycle of the coordinator.
#[derive(Clone, Copy, Debug, PartialEq, Eq, Structural)]
pub enum Phase {
    Running,
    Draining,
    Stopped,
}

/// Where a running coordinator stands within one iteration.
#[derive(Clone, Copy, Debug, PartialEq, Eq, Structural)]
pub enum Stage {
    /// Between iterations: waiting for the cancellation flag to be read.
    AwaitPoll,
    /// The world step has been asked for.
    AwaitWorldStep,
    /// The traffic-control step has been asked for.
    AwaitTrafficStep,
}

/// What the driver observed.
#[derive(Clone, Copy, Debug, PartialEq, Eq, Structural)]
pub enum Event {
    /// The cancellation flag was read.
    Poll { cancelled: bool },
    /// The world step returned.
    WorldStepped { ok: bool },
    /// The traffic-control step returned.
    TrafficStepped { ok: bool },
    /// The clock was put back into free-running mode and the sensor released.
    ClockRestored,
}

/// What the driver has to do next.
#[derive(Clone, Copy, Debug, PartialEq, Eq, Structural)]
pub enum Action {
    /// Read the cancellation flag and report it with `Event::Poll`.
    Poll,
    /// Take a telemetry sample, apply `wetness` to the weather, fan the
    /// sample out without waiting, pause for the throttle, then step the
    /// world and report it with `Event::WorldStepped`.
    SampleThenStep { wetness: i32 },
    /// Pause for the throttle, then step the world and report it with
    /// `Event::WorldStepped`.
    StepWorld,
    /// Step the traffic control and report it with `Event::TrafficStepped`.
    StepTraffic,
    /// Release the sensor, put the clock back into free-running mode and
    /// report it with `Event::ClockRestored`.
    RestoreClock,
    /// Return from the run.
    Finish,
    /// The event was not one this state waits for: nothing to do.
    Idle,
}

/// Why a run ended without being cancelled.
#[derive(Clone, Copy, Debug, PartialEq, Eq, Structural)]
pub enum Fault {
    /// The simulator did not complete a world step.
    WorldStepFailed,
    /// The tick counter reached its largest value.
    TickLimitReached,
}

/// Abstract state of the coordinator.
pub struct CoordinatorView {
    pub phase: Phase,
    pub stage: Stage,
    pub tick: nat,
    pub batches: nat,
    pub every_n: nat,
    pub weather: OscillatorView,
    pub clock: ClockMode,
    pub fault: Option<Fault>,
}

/// The state a run starts in, with the clock already synchronous.
pub open spec fn start_view(every_n: nat) -> CoordinatorView {
    CoordinatorView {
        phase: Phase::Running,
        stage: Stage::AwaitPoll,
        tick: 0,
        batches: 0,
        every_n,
        weather: initial_view(),
        clock: ClockMode::Synchronous,
        fault: None,
    }
}

/// Well-formed states: one batch per completed sampling period, the
/// weather moved once per batch, and the clock synchronous exactly while
/// running and free-running once stopped.
pub open spec fn coordinator_wf(s: CoordinatorView) -> bool {
    &&& s.every_n > 0
    &&& s.tick <= u64::MAX
    &&& s.batches == s.tick / s.every_n
    &&& s.weather == view_after(s.batches)
    &&& s.phase == Phase::Running ==> s.clock == ClockMode::Synchronous
    &&& s.phase == Phase::Stopped ==> s.clock == ClockMode::FreeRunning
}

/// Leaves the loop for the clean-up, after a cancellation (`None`) or a
/// fault.
pub open spec fn drain(s: CoordinatorView, fault: Option<Fault>) -> (CoordinatorView, Action) {
    (CoordinatorView { phase: Phase::Draining, fault, ..s }, Action::RestoreClock)
}

/// Starts a new tick: counts it and, on a multiple of the sampling period,
/// moves the weather and asks for a sample.
pub open spec fn begin_tick(s: CoordinatorView) -> (CoordinatorView, Action) {
    let t = s.tick + 1;
    if t % s.every_n == 0 {
        let w = step_view(s.weather);
        (
            CoordinatorView {
                stage: Stage::AwaitWorldStep,
                tick: t,
                batches: s.batches + 1,
                weather: w,
                ..s
            },
            Action::SampleThenStep { wetness: w.cnt as i32 },
        )
    } else {
        (CoordinatorView { stage: Stage::AwaitWorldStep, tick: t, ..s }, Action::StepWorld)
    }
}

/// The transition function. A running coordinator reads the cancellation
/// flag only between iterations; a failed world step is fatal, a failed
/// traffic-control step is ignored. The tick counter cannot pass
/// `u64::MAX`: a poll there ends the run as a fault.
pub open spec fn next(s: CoordinatorView, ev: Event) -> (CoordinatorView, Action) {
    match s.phase {
        Phase::Running => match (s.stage, ev) {
            (Stage::AwaitPoll, Event::Poll { cancelled }) => {
                if cancelled {
                    drain(s, None)
                } else if s.tick >= u64::MAX {
                    drain(s, Some(Fault::TickLimitReached))
                } else {
                    begin_tick(s)
                }
            },
            (Stage::AwaitWorldStep, Event::WorldStepped { ok }) => {
                if ok {
                    (CoordinatorView { stage: Stage::AwaitTrafficStep, ..s }, Action::StepTraffic)
                } else {
                    drain(s, Some(Fault::WorldStepFailed))
                }
            },
            (Stage::AwaitTrafficStep, Event::TrafficStepped { ok: _ }) => {
                (CoordinatorView { stage: Stage::AwaitPoll, ..s }, Action::Poll)
            },
            _ => (s, Action::Idle),
        },
        Phase::Draining => match ev {
            Event::ClockRestored => (
                CoordinatorView { phase: Phase::Stopped, clock: ClockMode::FreeRunning, ..s },
                Action::Finish,
            ),
            _ => (s, Action::Idle),
        },
        Phase::Stopped => (s, Action::Idle),
    }
}

/// One full iteration without cancellation and with a successful world
/// step; `traffic_ok` is what the traffic-control step returned.
pub open spec fn iterate(s: CoordinatorView, traffic_ok: bool) -> CoordinatorView {
    let s1 = next(s, Event::Poll { cancelled: false }).0;
    let s2 = next(s1, Event::WorldStepped { ok: true }).0;
    next(s2, Event::TrafficStepped { ok: traffic_ok }).0
}

/// Iterations in a row, one per entry of `traffic`.
pub open spec fn iterate_all(s: CoordinatorView, traffic: Seq<bool>) -> CoordinatorView
    decreases traffic.len(),
{
    if traffic.len() == 0 {
        s
    } else {
        iterate(iterate_all(s, traffic.drop_last()), traffic.last())
    }
}

proof fn lemma_quotient_of_successor(t: int, n: int)
    requires
        t >= 0,
        n > 0,
    ensures
        (t + 1) / n == t / n + (if (t + 1) % n == 0 { 1int } else { 0int }),
{
    lemma_fundamental_div_mod(t, n);
    let q = t / n;
    let r = t % n;
    assert(0 <= r < n);
    if r == n - 1 {
        assert(t + 1 == (q + 1) * n + 0) by (nonlinear_arith)
            requires
                t == n * q + r,
                r == n - 1,
        ;
        lemma_fundamental_div_mod_converse(t + 1, n, q + 1, 0);
    } else {
        assert(t + 1 == q * n + (r + 1)) by (nonlinear_arith)
            requires
                t == n * q + r,
        ;
        lemma_fundamental_div_mod_converse(t + 1, n, q, r + 1);
    }
}

/// Every transition keeps a well-formed state well-formed.
pub proof fn lemma_next_preserves_wf(s: CoordinatorView, ev: Event)
    requires
        coordinator_wf(s),
    ensures
        coordinator_wf(next(s, ev).0),
{
    if s.phase == Phase::Running && s.stage == Stage::AwaitPoll && ev is Poll && !ev->cancelled
        && s.tick < u64::MAX {
        lemma_quotient_of_successor(s.tick as int, s.every_n as int);
    }
}

/// Events fed one after the other.
pub open spec fn feed_all(s: CoordinatorView, evs: Seq<Event>) -> CoordinatorView
    decreases evs.len(),
{
    if evs.len() == 0 {
        s
    } else {
        next(feed_all(s, evs.drop_last()), evs.last()).0
    }
}

/// After `k` uncancelled iterations from the start, whatever the traffic
/// control returned, the coordinator is back between iterations, has counted
/// `k` ticks and has triggered exactly `k / every_n` sample batches.
pub proof fn lemma_batches_follow_ticks(every_n: nat, traffic: Seq<bool>)
    requires
        every_n > 0,
        traffic.len() <= u64::MAX,
    ensures
        coordinator_wf(iterate_all(start_view(every_n), traffic)),
        iterate_all(start_view(every_n), traffic).phase == Phase::Running,
        iterate_all(start_view(every_n), traffic).stage == Stage::AwaitPoll,
        iterate_all(start_view(every_n), traffic).tick == traffic.len(),
        iterate_all(start_view(every_n), traffic).every_n == every_n,
        iterate_all(start_view(every_n), traffic).batches == traffic.len() / every_n,
    decreases traffic.len(),
{
    if traffic.len() > 0 {
        let prev = traffic.drop_last();
        lemma_batches_follow_ticks(every_n, prev);
        let s0 = iterate_all(start_view(every_n), prev);
        let s1 = next(s0, Event::Poll { cancelled: false }).0;
        let s2 = next(s1, Event::WorldStepped { ok: true }).0;
        lemma_next_preserves_wf(s0, Event::Poll { cancelled: false });
        lemma_next_preserves_wf(s1, Event::WorldStepped { ok: true });
        lemma_next_preserves_wf(s2, Event::TrafficStepped { ok: traffic.last() });
    } else {
        lemma_start_wf(every_n);
    }
}

/// The start state is well-formed.
pub proof fn lemma_start_wf(every_n: nat)
    requires
        every_n > 0,
    ensures
        coordinator_wf(start_view(every_n)),
{
    assert(0nat / every_n == 0) by (nonlinear_arith)
        requires
            every_n > 0,
    ;
}

/// A failed traffic-control step has exactly the effect of a successful
/// one, in every state.
pub proof fn lemma_traffic_failure_ignored(s: CoordinatorView)
    ensures
        next(s, Event::TrafficStepped { ok: false }) == next(s, Event::TrafficStepped { ok: true }),
{
}

/// Runs of iterations that differ only in what the traffic control returned
/// end in the same state: failures there neither stop the loop nor change
/// the tick count.
pub proof fn lemma_traffic_outcomes_irrelevant(s: CoordinatorView, a: Seq<bool>, b: Seq<bool>)
    requires
        a.len() == b.len(),
    ensures
        iterate_all(s, a) == iterate_all(s, b),
    decreases a.len(),
{
    if a.len() > 0 {
        lemma_traffic_outcomes_irrelevant(s, a.drop_last(), b.drop_last());
    }
}

/// The tick counter moves only on an uncancelled poll between iterations,
/// and then by exactly one.
pub proof fn lemma_tick_moves_only_on_uncancelled_poll(s: CoordinatorView, ev: Event)
    ensures
        next(s, ev).0.tick == s.tick + if s.phase == Phase::Running && s.stage == Stage::AwaitPoll
            && ev == (Event::Poll { cancelled: false }) && s.tick < u64::MAX {
            1nat
        } else {
            0nat
        },
{
}

/// Once the cancellation flag is set, so that every later poll reports it,
/// no further tick starts, whatever else happens.
pub proof fn lemma_no_tick_after_cancellation(s: CoordinatorView, evs: Seq<Event>)
    requires
        forall|i: int| 0 <= i < evs.len() && (#[trigger] evs[i]) is Poll ==> evs[i]->cancelled,
    ensures
        feed_all(s, evs).tick == s.tick,
    decreases evs.len(),
{
    if evs.len() > 0 {
        let prev = evs.drop_last();
        assert forall|i: int| 0 <= i < prev.len() && (#[trigger] prev[i]) is Poll implies prev[i]->cancelled by {
            assert(prev[i] == evs[i]);
        }
        lemma_no_tick_after_cancellation(s, prev);
        assert(evs.last() == evs[evs.len() - 1]);
        lemma_tick_moves_only_on_uncancelled_poll(feed_all(s, prev), evs.last());
    }
}

/// A running coordinator between iterations that reads a set cancellation
/// flag drains at once, with no further tick, and asks for the clock to be
/// restored.
pub proof fn lemma_cancellation_drains(s: CoordinatorView)
    requires
        s.phase == Phase::Running,
        s.stage == Stage::AwaitPoll,
    ensures
        next(s, Event::Poll { cancelled: true }).0.phase == Phase::Draining,
        next(s, Event::Poll { cancelled: true }).0.tick == s.tick,
        next(s, Event::Poll { cancelled: true }).0.fault == None::<Fault>,
        next(s, Event::Poll { cancelled: true }).1 == Action::RestoreClock,
{
}

/// While draining, nothing but the restored clock is acted upon, and that
/// stops the coordinator with the clock free-running.
pub proof fn lemma_draining_waits_for_clock(s: CoordinatorView, ev: Event)
    requires
        s.phase == Phase::Draining,
    ensures
        ev != Event::ClockRestored ==> next(s, ev) == (s, Action::Idle),
        ev == Event::ClockRestored ==> next(s, ev).0.phase == Phase::Stopped,
        ev == Event::ClockRestored ==> next(s, ev).0.clock == ClockMode::FreeRunning,
        ev == Event::ClockRestored ==> next(s, ev).1 == Action::Finish,
{
}

/// The run is told to return only together with the move to `Stopped`,
/// and from a well-formed state the clock is then free-running.
pub proof fn lemma_finish_leaves_clock_free_running(s: CoordinatorView, ev: Event)
    requires
        coordinator_wf(s),
    ensures
        next(s, ev).1 == Action::Finish ==> next(s, ev).0.phase == Phase::Stopped
            && next(s, ev).0.clock == ClockMode::FreeRunning,
        next(s, ev).0.phase == Phase::Stopped ==> next(s, ev).0.clock == ClockMode::FreeRunning,
{
    lemma_next_preserves_wf(s, ev);
}

/// In every well-formed state the weather has moved once per sample batch:
/// the wetness of the latest batch is the triangular wave at the batch count,
/// and it stays in range.
pub proof fn lemma_sampled_wetness_follows_wave(s: CoordinatorView)
    requires
        coordinator_wf(s),
    ensures
        view_wf(s.weather),
        s.weather.cnt == triangle_wave(s.batches),
{
    lemma_oscillator_follows_wave(s.batches);
}

/// The tick coordinator.
pub struct TickCoordinator {
    phase: Phase,
    stage: Stage,
    tick: u64,
    batches: u64,
    every_n: u64,
    weather: WeatherOscillator,
    clock: ClockMode,
    fault: Option<Fault>,
}

impl TickCoordinator {
    pub closed spec fn view(&self) -> CoordinatorView {
        CoordinatorView {
            phase: self.phase,
            stage: self.stage,
            tick: self.tick as nat,
            batches: self.batches as nat,
            every_n: self.every_n as nat,
            weather: self.weather.view(),
            clock: self.clock,
            fault: self.fault,
        }
    }

    #[verifier::type_invariant]
    closed spec fn inv(self) -> bool {
        coordinator_wf(self.view())
    }

    /// A coordinator for a run whose clock has just been made synchronous.
    pub fn new(config: &CoordinatorConfig) -> (r: Self)
        ensures
            r.view() == start_view(config.sample_every_n_ticks_spec()),
    {
        let every_n = config.sample_every_n_ticks();
        TickCoordinator {
            phase: Phase::Running,
            stage: Stage::AwaitPoll,
            tick: 0,
            batches: 0,
            every_n,
            weather: WeatherOscillator::new(),
            clock: ClockMode::Synchronous,
            fault: None,
        }
    }

    /// Feeds one event to the machine and returns the action to perform.
    pub fn on_event(&mut self, ev: Event) -> (a: Action)
        ensures
            (final(self).view(), a) == next(old(self).view(), ev),
    {
        proof {
            use_type_invariant(&*self);
            lemma_next_preserves_wf(self.view(), ev);
        }
        match self.phase {
            Phase::Running => match (self.stage, ev) {
                (Stage::AwaitPoll, Event::Poll { cancelled }) => {
                    if cancelled {
                        self.enter_draining(None)
                    } else if self.tick == u64::MAX {
                        self.enter_draining(Some(Fault::TickLimitReached))
                    } else {
                        self.begin_tick()
                    }
                },
                (Stage::AwaitWorldStep, Event::WorldStepped { ok }) => {
                    if ok {
                        self.stage = Stage::AwaitTrafficStep;
                        Action::StepTraffic
                    } else {
                        self.enter_draining(Some(Fault::WorldStepFailed))
                    }
                },
                (Stage::AwaitTrafficStep, Event::TrafficStepped { ok: _ }) => {
                    self.stage = Stage::AwaitPoll;
                    Action::Poll
                },
                _ => Action::Idle,
            },
            Phase::Draining => match ev {
                Event::ClockRestored => {
                    *self = TickCoordinator {
                        phase: Phase::Stopped,
                        clock: ClockMode::FreeRunning,
                        ..*self
                    };
                    Action::Finish
                },
                _ => Action::Idle,
            },
            Phase::Stopped => Action::Idle,
        }
    }

    /// Life-cycle phase.
    pub fn phase(&self) -> (r: Phase)
        ensures
            r == self.view().phase,
    {
        self.phase
    }

    /// Position within the current iteration.
    pub fn stage(&self) -> (r: Stage)
        ensures
            r == self.view().stage,
    {
        self.stage
    }

    /// Number of ticks started so far.
    pub fn tick(&self) -> (r: u64)
        ensures
            r == self.view().tick,
    {
        self.tick
    }

    /// Number of sample batches triggered so far.
    pub fn batches(&self) -> (r: u64)
        ensures
            r == self.view().batches,
            r == self.view().tick / self.view().every_n,
    {
        proof {
            use_type_invariant(self);
        }
        self.batches
    }

    /// The mode the simulation clock is in, as far as the coordinator has
    /// set it.
    pub fn clock(&self) -> (r: ClockMode)
        ensures
            r == self.view().clock,
    {
        self.clock
    }

    /// The fault that ended the run, if one did.
    pub fn fault(&self) -> (r: Option<Fault>)
        ensures
            r == self.view().fault,
    {
        self.fault
    }

    /// Result of the run once it has stopped: `Ok` after a cancellation,
    /// the fault otherwise; `None` while it has not stopped.
    pub fn outcome(&self) -> (r: Option<Result<(), Fault>>)
        ensures
            self.view().phase != Phase::Stopped ==> r == None::<Result<(), Fault>>,
            self.view().phase == Phase::Stopped ==> r == Some(
                match self.view().fault {
                    None => Ok::<(), Fault>(()),
                    Some(f) => Err(f),
                },
            ),
    {
        match self.phase {
            Phase::Stopped => match self.fault {
                None => Some(Ok(())),
                Some(f) => Some(Err(f)),
            },
            _ => None,
        }
    }

    /// Wetness of the last sample (zero before the first).
    pub fn wetness(&self) -> (r: i32)
        ensures
            r == self.view().weather.cnt,
    {
        self.weather.wetness()
    }

    /// Whether the coordinator has stopped.
    pub fn is_stopped(&self) -> (r: bool)
        ensures
            r == (self.view().phase == Phase::Stopped),
            r ==> self.view().clock == ClockMode::FreeRunning,
    {
        proof {
            use_type_invariant(self);
        }
        match self.phase {
            Phase::Stopped => true,
            _ => false,
        }
    }

    fn enter_draining(&mut self, fault: Option<Fault>) -> (a: Action)
        requires
            old(self).phase == Phase::Running,
        ensures
            (final(self).view(), a) == drain(old(self).view(), fault),
    {
        proof {
            use_type_invariant(&*self);
        }
        *self = TickCoordinator { phase: Phase::Draining, fault, ..*self };
        Action::RestoreClock
    }

    fn begin_tick(&mut self) -> (a: Action)
        requires
            old(self).phase == Phase::Running,
            old(self).stage == Stage::AwaitPoll,
            old(self).tick < u64::MAX,
        ensures
            (final(self).view(), a) == begin_tick(old(self).view()),
    {
        proof {
            use_type_invariant(&*self);
            lemma_quotient_of_successor(self.tick as int, self.every_n as int);
        }
        let t = self.tick + 1;
        if t % self.every_n == 0 {
            let mut weather = self.weather;
            let wetness = weather.advance();
            *self = TickCoordinator {
                stage: Stage::AwaitWorldStep,
                tick: t,
                batches: self.batches + 1,
                weather,
                ..*self
            };
            Action::SampleThenStep { wetness }
        } else {
            *self = TickCoordinator { stage: Stage::AwaitWorldStep, tick: t, ..*self };
            Action::StepWorld
        }
    }
}

} // verus!
