//! Explicit configuration of the coordinator: clock step, sampling cadence
//! and the two endpoints it talks to.
use vstd::prelude::*;

verus! {

/// Milliseconds in one simulated second.
pub const MILLIS_PER_SECOND: u64 = 1000;

/// Why a configuration was refused.
#[derive(Clone, Copy, Debug, PartialEq, Eq, Structural)]
pub enum ConfigError {
    /// A step of zero simulated time would never move the clock.
    ZeroStepSize,
    /// A sampling period of zero ticks is not a cadence.
    ZeroSamplingPeriod,
}

/// Number of ticks that is closest to one simulated second at the given step
/// size (at least one).
pub open spec fn ticks_per_second_spec(step_size_ms: nat) -> nat
    recommends
        step_size_ms > 0,
{
    let n = (MILLIS_PER_SECOND as int + step_size_ms as int / 2) / step_size_ms as int;
    if n <= 0 {
        1
    } else {
        n as nat
    }
}

/// Sampling period whose length in simulated time is closest to one second.
pub fn ticks_per_second(step_size_ms: u64) -> (r: u64)
    requires
        step_size_ms > 0,
    ensures
        r == ticks_per_second_spec(step_size_ms as nat),
        r >= 1,
{
    let half: u64 = step_size_ms / 2;
    let n: u64 = (MILLIS_PER_SECOND + half) / step_size_ms;
    if n == 0 {
        1
    } else {
        n
    }
}

/// Settings the coordinator is started with. Both durations are positive.
pub struct CoordinatorConfig {
    step_size_ms: u64,
    sample_every_n_ticks: u64,
    broker_endpoint: String,
    simulator_host: String,
    simulator_port: u16,
}

impl CoordinatorConfig {
    #[verifier::type_invariant]
    closed spec fn inv(self) -> bool {
        self.step_size_ms > 0 && self.sample_every_n_ticks > 0
    }

    pub closed spec fn step_size_ms_spec(&self) -> nat {
        self.step_size_ms as nat
    }

    pub closed spec fn sample_every_n_ticks_spec(&self) -> nat {
        self.sample_every_n_ticks as nat
    }

    pub closed spec fn broker_endpoint_spec(&self) -> Seq<char> {
        self.broker_endpoint@
    }

    pub closed spec fn simulator_host_spec(&self) -> Seq<char> {
        self.simulator_host@
    }

    pub closed spec fn simulator_port_spec(&self) -> u16 {
        self.simulator_port
    }

    /// Builds a configuration; a zero step size or a zero sampling period is
    /// refused (the step size is checked first).
    pub fn new(
        step_size_ms: u64,
        sample_every_n_ticks: u64,
        broker_endpoint: String,
        simulator_host: String,
        simulator_port: u16,
    ) -> (r: Result<Self, ConfigError>)
        ensures
            step_size_ms == 0 ==> r == Err::<Self, ConfigError>(ConfigError::ZeroStepSize),
            step_size_ms > 0 && sample_every_n_ticks == 0 ==> r == Err::<Self, ConfigError>(
                ConfigError::ZeroSamplingPeriod,
            ),
            step_size_ms > 0 && sample_every_n_ticks > 0 ==> (r matches Ok(c) && {
                &&& c.step_size_ms_spec() == step_size_ms
                &&& c.sample_every_n_ticks_spec() == sample_every_n_ticks
                &&& c.broker_endpoint_spec() == broker_endpoint@
                &&& c.simulator_host_spec() == simulator_host@
                &&& c.simulator_port_spec() == simulator_port
            }),
    {
        if step_size_ms == 0 {
            Err(ConfigError::ZeroStepSize)
        } else if sample_every_n_ticks == 0 {
            Err(ConfigError::ZeroSamplingPeriod)
        } else {
            Ok(CoordinatorConfig {
                step_size_ms,
                sample_every_n_ticks,
                broker_endpoint,
                simulator_host,
                simulator_port,
            })
        }
    }

    /// Simulated time per tick, in milliseconds (positive).
    pub fn step_size_ms(&self) -> (r: u64)
        ensures
            r == self.step_size_ms_spec(),
            r > 0,
    {
        proof {
            use_type_invariant(self);
        }
        self.step_size_ms
    }

    /// Number of ticks between two samples (positive).
    pub fn sample_every_n_ticks(&self) -> (r: u64)
        ensures
            r == self.sample_every_n_ticks_spec(),
            r > 0,
    {
        proof {
            use_type_invariant(self);
        }
        self.sample_every_n_ticks
    }

    /// Address of the signal broker.
    pub fn broker_endpoint(&self) -> (r: &str)
        ensures
            r@ == self.broker_endpoint_spec(),
    {
        self.broker_endpoint.as_str()
    }

    /// Host name of the simulator.
    pub fn simulator_host(&self) -> (r: &str)
        ensures
            r@ == self.simulator_host_spec(),
    {
        self.simulator_host.as_str()
    }

    /// Port of the simulator.
    pub fn simulator_port(&self) -> (r: u16)
        ensures
            r == self.simulator_port_spec(),
    {
        self.simulator_port
    }

    /// Real-time pause taken once per tick so that the loop does not spin:
    /// half a step, so that it stays well under the step size.
    pub fn throttle_ms(&self) -> (r: u64)
        ensures
            r == self.step_size_ms_spec() / 2,
            r < self.step_size_ms_spec(),
    {
        proof {
            use_type_invariant(self);
        }
        self.step_size_ms / 2
    }
}

} // verus!
