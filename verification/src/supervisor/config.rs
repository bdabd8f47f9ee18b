//! Settings of a supervisor and of the services it spawns.

use vstd::prelude::*;

use crate::supervisor::backoff::BackoffConfig;
use crate::time::{Duration, NANOS_PER_SEC};

verus! {

/// Settings of a supervisor.
#[derive(Clone, Copy, Debug, PartialEq, Eq, Structural)]
pub struct SupervisorConfig {
    /// Backoff of services that have none of their own.
    pub default_backoff: BackoffConfig,
    /// How long a shutdown waits for services to drain.
    pub shutdown_timeout: Duration,
    /// Whether to listen for termination signals.
    pub install_signal_handler: bool,
}

impl Default for SupervisorConfig {
    /// The default backoff, thirty seconds, and a signal handler.
    fn default() -> (r: Self)
        ensures
            r == (SupervisorConfig {
                default_backoff: BackoffConfig::spec_default(),
                shutdown_timeout: Duration { nanos: (30 * NANOS_PER_SEC) as u128 },
                install_signal_handler: true,
            }),
    {
        SupervisorConfig {
            default_backoff: BackoffConfig::default(),
            shutdown_timeout: Duration::from_secs(30),
            install_signal_handler: true,
        }
    }
}

impl SupervisorConfig {
    /// The settings with another drain timeout.
    pub fn with_shutdown_timeout(self, timeout: Duration) -> (r: Self)
        ensures
            r == (SupervisorConfig { shutdown_timeout: timeout, ..self }),
    {
        SupervisorConfig { shutdown_timeout: timeout, ..self }
    }

    /// The settings with another default backoff.
    pub fn with_default_backoff(self, backoff: BackoffConfig) -> (r: Self)
        ensures
            r == (SupervisorConfig { default_backoff: backoff, ..self }),
    {
        SupervisorConfig { default_backoff: backoff, ..self }
    }

    /// The settings without a signal handler; the host drives the shutdown.
    pub fn without_signal_handler(self) -> (r: Self)
        ensures
            r == (SupervisorConfig { install_signal_handler: false, ..self }),
    {
        SupervisorConfig { install_signal_handler: false, ..self }
    }

    /// The backoff of a service: its own, or the default.
    pub fn backoff_for(&self, options: &SpawnOptions) -> (r: BackoffConfig)
        ensures
            r == (match options.backoff {
                Some(own) => own,
                None => self.default_backoff,
            }),
    {
        match options.backoff {
            Some(own) => own,
            None => self.default_backoff,
        }
    }
}

/// Settings of one service.
#[derive(Clone, Copy, Debug, PartialEq, Eq, Structural)]
pub struct SpawnOptions {
    /// Backoff of the service; the supervisor's default if absent.
    pub backoff: Option<BackoffConfig>,
}

impl Default for SpawnOptions {
    fn default() -> (r: Self)
        ensures
            r == (SpawnOptions { backoff: None }),
    {
        SpawnOptions { backoff: None }
    }
}

impl SpawnOptions {
    /// Options with a backoff of the service's own.
    pub fn with_backoff(backoff: BackoffConfig) -> (r: Self)
        ensures
            r == (SpawnOptions { backoff: Some(backoff) }),
    {
        SpawnOptions { backoff: Some(backoff) }
    }
}

} // verus!
