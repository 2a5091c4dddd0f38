//! Process-wide configuration: loaded once, read-shared afterwards.

use vstd::prelude::*;

verus! {

/// The strategy that turns a target into a measured value.
#[derive(Clone, Copy, Debug, PartialEq, Eq, Structural)]
pub enum Backend {
    /// A real actuator behind a serial link.
    Zaber,
    /// A simulated value that ramps towards its target.
    Ramp,
    /// The operator's value, passed through as it is.
    Manual,
}

/// The output limits of one process variable.
#[derive(Clone, Copy, Debug, PartialEq, Eq, Structural)]
pub struct Limits {
    /// Lowest admissible target, in micro-units.
    pub min: i64,
    /// Highest admissible target, in micro-units.
    pub max: i64,
    /// Highest speed, in micro-units per second.
    pub max_speed: u64,
}

impl Limits {
    /// `value` lies within the limits.
    pub open spec fn admits(self, value: int) -> bool {
        self.min <= value <= self.max
    }

    /// Tells whether `value` lies within the limits.
    pub fn contains(&self, value: i64) -> (r: bool)
        ensures
            r == self.admits(value as int),
    {
        self.min <= value && value <= self.max
    }
}

pub const DEFAULT_CYCLE_TIME_MS: u64 = 1000;

pub const DEFAULT_RESTART_TIMEOUT_MS: u64 = 10_000;

pub const DEFAULT_LIMIT_MIN: i64 = 0;

pub const DEFAULT_LIMIT_MAX: i64 = 64_000_000;

pub const DEFAULT_MAX_SPEED: u64 = 1_000_000;

/// The configuration of the control loop.
#[derive(Clone, Debug, PartialEq)]
pub struct Config {
    /// Duration of one control cycle, in milliseconds.
    pub cycle_time: u64,
    /// How long the loop waits in `Error` before it retries, in milliseconds.
    pub restart_timeout: u64,
    pub backend: Backend,
    /// One entry per process variable.
    pub limits: Vec<Limits>,
    /// Path of the serial device of the real actuator.
    pub serial_device: String,
    /// Path of the protocol server's own configuration.
    pub opcua_config_path: String,
}

/// The limits every variable has in the built-in configuration.
pub open spec fn builtin_limits() -> Limits {
    Limits { min: 0, max: 64_000_000, max_speed: 1_000_000 }
}

impl Config {
    /// The number of process variables.
    pub open spec fn axes(&self) -> nat {
        self.limits@.len()
    }

    /// This is the built-in configuration: a one-second cycle, a ten-second
    /// restart timeout, the simulated backend and two variables limited to
    /// 0 to 64 units at one unit per second.
    pub open spec fn is_builtin(&self) -> bool {
        &&& self.cycle_time == 1000
        &&& self.restart_timeout == 10_000
        &&& self.backend == Backend::Ramp
        &&& self.limits@ == seq![builtin_limits(), builtin_limits()]
        &&& self.serial_device@ == "/dev/ttyACM0"@
        &&& self.opcua_config_path@ == "opcua_config.conf"@
    }

    /// The configuration that was loaded, or the built-in one where loading
    /// gave nothing: the loop always gets a configuration to run with.
    pub fn resolve(loaded: Option<Config>) -> (c: Config)
        ensures
            match loaded {
                Some(given) => c == given,
                None => c.is_builtin(),
            },
    {
        match loaded {
            Some(given) => given,
            None => Config::default(),
        }
    }
}

impl Default for Config {
    fn default() -> (c: Config)
        ensures
            c.is_builtin(),
    {
        let axis = Limits {
            min: DEFAULT_LIMIT_MIN,
            max: DEFAULT_LIMIT_MAX,
            max_speed: DEFAULT_MAX_SPEED,
        };
        let mut limits: Vec<Limits> = Vec::new();
        limits.push(axis);
        limits.push(axis);
        assert(limits@ =~= seq![builtin_limits(), builtin_limits()]);
        Config {
            cycle_time: DEFAULT_CYCLE_TIME_MS,
            restart_timeout: DEFAULT_RESTART_TIMEOUT_MS,
            backend: Backend::Ramp,
            limits,
            serial_device: "/dev/ttyACM0".to_string(),
            opcua_config_path: "opcua_config.conf".to_string(),
        }
    }
}

} // verus!
