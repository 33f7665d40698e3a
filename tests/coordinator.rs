use carla_provider::config::ticks_per_second;
use carla_provider::config::ConfigError;
use carla_provider::config::CoordinatorConfig;
use carla_provider::coordinator::Action;
use carla_provider::coordinator::ClockMode;
use carla_provider::coordinator::Event;
use carla_provider::coordinator::Fault;
use carla_provider::coordinator::Phase;
use carla_provider::coordinator::Stage;
use carla_provider::coordinator::TickCoordinator;

fn config(step_ms: u64, every_n: u64) -> CoordinatorConfig {
    CoordinatorConfig::new(
        step_ms,
        every_n,
        "http://localhost:55555".to_string(),
        "localhost".to_string(),
        2000,
    )
    .unwrap()
}

/// Runs one uncancelled iteration and returns the action that started it.
fn iterate(c: &mut TickCoordinator, traffic_ok: bool) -> Action {
    let first = c.on_event(Event::Poll { cancelled: false });
    assert!(matches!(first, Action::StepWorld | Action::SampleThenStep { .. }));
    assert_eq!(c.on_event(Event::WorldStepped { ok: true }), Action::StepTraffic);
    assert_eq!(c.on_event(Event::TrafficStepped { ok: traffic_ok }), Action::Poll);
    first
}

fn count_samples(c: &mut TickCoordinator, ticks: u32) -> u32 {
    let mut n = 0;
    for _ in 0..ticks {
        if let Action::SampleThenStep { .. } = iterate(c, true) {
            n += 1;
        }
    }
    n
}

#[test]
fn coordinator_starts_running_synchronous() {
    let c = TickCoordinator::new(&config(50, 20));
    assert_eq!(c.phase(), Phase::Running);
    assert_eq!(c.stage(), Stage::AwaitPoll);
    assert_eq!(c.clock(), ClockMode::Synchronous);
    assert_eq!(c.tick(), 0);
    assert_eq!(c.batches(), 0);
    assert_eq!(c.outcome(), None);
}

#[test]
fn coordinator_one_batch_after_twenty_ticks() {
    let mut c = TickCoordinator::new(&config(50, 20));
    assert_eq!(count_samples(&mut c, 20), 1);
    assert_eq!(c.tick(), 20);
    assert_eq!(c.batches(), 1);
}

#[test]
fn coordinator_two_batches_after_forty_ticks() {
    let mut c = TickCoordinator::new(&config(50, 20));
    assert_eq!(count_samples(&mut c, 40), 2);
    assert_eq!(c.tick(), 40);
    assert_eq!(c.batches(), 2);
}

#[test]
fn coordinator_samples_on_multiples_of_the_period() {
    let mut c = TickCoordinator::new(&config(50, 20));
    for t in 1..=19 {
        assert_eq!(iterate(&mut c, true), Action::StepWorld, "tick {t}");
    }
    assert_eq!(iterate(&mut c, true), Action::SampleThenStep { wetness: 1 });
    for _ in 21..=39 {
        assert_eq!(iterate(&mut c, true), Action::StepWorld);
    }
    assert_eq!(iterate(&mut c, true), Action::SampleThenStep { wetness: 2 });
    assert_eq!(c.wetness(), 2);
}

#[test]
fn coordinator_wetness_follows_the_wave() {
    let mut c = TickCoordinator::new(&config(50, 1));
    let mut seen = Vec::new();
    for _ in 0..42 {
        if let Action::SampleThenStep { wetness } = iterate(&mut c, true) {
            seen.push(wetness);
        }
    }
    assert_eq!(seen.len(), 42);
    assert_eq!(seen[19], 20);
    assert_eq!(seen[20], 19);
    assert_eq!(seen[39], 0);
    assert_eq!(seen[40], 1);
}

#[test]
fn coordinator_cancellation_drains_and_frees_clock() {
    let mut c = TickCoordinator::new(&config(50, 20));
    count_samples(&mut c, 7);
    assert_eq!(c.on_event(Event::Poll { cancelled: true }), Action::RestoreClock);
    assert_eq!(c.phase(), Phase::Draining);
    assert_eq!(c.tick(), 7);
    assert_eq!(c.outcome(), None);
    assert_eq!(c.on_event(Event::ClockRestored), Action::Finish);
    assert_eq!(c.phase(), Phase::Stopped);
    assert!(c.is_stopped());
    assert_eq!(c.clock(), ClockMode::FreeRunning);
    assert_eq!(c.outcome(), Some(Ok(())));
}

#[test]
fn coordinator_cancellation_at_a_sampling_tick() {
    let mut c = TickCoordinator::new(&config(50, 20));
    count_samples(&mut c, 20);
    assert_eq!(c.on_event(Event::Poll { cancelled: true }), Action::RestoreClock);
    assert_eq!(c.on_event(Event::ClockRestored), Action::Finish);
    assert_eq!(c.clock(), ClockMode::FreeRunning);
    assert_eq!(c.tick(), 20);
    assert_eq!(c.batches(), 1);
}

#[test]
fn coordinator_flag_set_mid_iteration_finishes_that_iteration_only() {
    let mut c = TickCoordinator::new(&config(50, 20));
    count_samples(&mut c, 3);
    assert_eq!(c.on_event(Event::Poll { cancelled: false }), Action::StepWorld);
    // the flag is set now; the steps in flight complete
    assert_eq!(c.on_event(Event::WorldStepped { ok: true }), Action::StepTraffic);
    assert_eq!(c.on_event(Event::TrafficStepped { ok: true }), Action::Poll);
    assert_eq!(c.on_event(Event::Poll { cancelled: true }), Action::RestoreClock);
    assert_eq!(c.tick(), 4);
    assert_eq!(c.phase(), Phase::Draining);
}

#[test]
fn coordinator_draining_ignores_everything_but_restored_clock() {
    let mut c = TickCoordinator::new(&config(50, 20));
    c.on_event(Event::Poll { cancelled: true });
    assert_eq!(c.on_event(Event::Poll { cancelled: false }), Action::Idle);
    assert_eq!(c.on_event(Event::WorldStepped { ok: true }), Action::Idle);
    assert_eq!(c.on_event(Event::TrafficStepped { ok: true }), Action::Idle);
    assert_eq!(c.tick(), 0);
    assert_eq!(c.phase(), Phase::Draining);
    assert_eq!(c.on_event(Event::ClockRestored), Action::Finish);
    assert_eq!(c.on_event(Event::Poll { cancelled: false }), Action::Idle);
    assert_eq!(c.phase(), Phase::Stopped);
}

#[test]
fn coordinator_world_step_failure_is_fatal() {
    let mut c = TickCoordinator::new(&config(50, 20));
    assert_eq!(c.on_event(Event::Poll { cancelled: false }), Action::StepWorld);
    assert_eq!(c.on_event(Event::WorldStepped { ok: false }), Action::RestoreClock);
    assert_eq!(c.fault(), Some(Fault::WorldStepFailed));
    assert_eq!(c.on_event(Event::ClockRestored), Action::Finish);
    assert_eq!(c.clock(), ClockMode::FreeRunning);
    assert_eq!(c.outcome(), Some(Err(Fault::WorldStepFailed)));
}

#[test]
fn coordinator_traffic_failures_do_not_stop_the_loop() {
    let mut c = TickCoordinator::new(&config(50, 20));
    count_samples(&mut c, 10);
    for _ in 0..5 {
        iterate(&mut c, false);
    }
    assert_eq!(c.tick(), 15);
    assert_eq!(c.phase(), Phase::Running);
    assert_eq!(c.fault(), None);
    assert_eq!(count_samples(&mut c, 5), 1);
    assert_eq!(c.tick(), 20);
}

#[test]
fn coordinator_out_of_order_event_is_idle() {
    let mut c = TickCoordinator::new(&config(50, 20));
    assert_eq!(c.on_event(Event::WorldStepped { ok: true }), Action::Idle);
    assert_eq!(c.on_event(Event::TrafficStepped { ok: false }), Action::Idle);
    assert_eq!(c.on_event(Event::ClockRestored), Action::Idle);
    assert_eq!(c.stage(), Stage::AwaitPoll);
    assert_eq!(c.on_event(Event::Poll { cancelled: false }), Action::StepWorld);
    assert_eq!(c.on_event(Event::Poll { cancelled: false }), Action::Idle);
    assert_eq!(c.tick(), 1);
}

#[test]
fn config_rejects_zero_step() {
    let r = CoordinatorConfig::new(0, 20, String::new(), String::new(), 2000);
    assert_eq!(r.err(), Some(ConfigError::ZeroStepSize));
}

#[test]
fn config_rejects_zero_period() {
    let r = CoordinatorConfig::new(50, 0, String::new(), String::new(), 2000);
    assert_eq!(r.err(), Some(ConfigError::ZeroSamplingPeriod));
}

#[test]
fn config_keeps_its_values() {
    let c = config(50, 20);
    assert_eq!(c.step_size_ms(), 50);
    assert_eq!(c.sample_every_n_ticks(), 20);
    assert_eq!(c.broker_endpoint(), "http://localhost:55555");
    assert_eq!(c.simulator_host(), "localhost");
    assert_eq!(c.simulator_port(), 2000);
    assert_eq!(c.throttle_ms(), 25);
}

#[test]
fn ticks_per_second_rounds_to_nearest() {
    assert_eq!(ticks_per_second(50), 20);
    assert_eq!(ticks_per_second(1), 1000);
    assert_eq!(ticks_per_second(30), 33);
    assert_eq!(ticks_per_second(40), 25);
    assert_eq!(ticks_per_second(400), 3);
    assert_eq!(ticks_per_second(5000), 1);
}
