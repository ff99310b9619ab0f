//! Configuration of a coordinator.

use vstd::prelude::*;
use std::time::Duration;
use crate::hook::AgentHook;
use crate::runtime::coordinator::{Coordinator, CoordinatorView};

verus! {

/// Number of threads that run the game loop when none is asked for.
pub const DEFAULT_CORE_THREADS: usize = 4;

/// Milliseconds between two rounds of the game loop when no interval is asked
/// for.
pub const DEFAULT_INTERVAL_MILLIS: u64 = 50;

/// What a coordinator is configured with. A setting that was not made is
/// left to its default.
#[derive(Debug)]
pub struct CoordinatorConfig {
    /// Time between two rounds of the game loop.
    pub interval: Option<Duration>,
    /// Number of threads that run the game loop.
    pub core_threads: usize,
}

impl Default for CoordinatorConfig {
    fn default() -> (config: Self)
        ensures
            config.interval is None,
            config.core_threads == DEFAULT_CORE_THREADS,
    {
        CoordinatorConfig { interval: None, core_threads: DEFAULT_CORE_THREADS }
    }
}

/// Builder interface to get a new [`Coordinator`].
#[derive(Debug)]
pub struct Builder {
    interval: Option<Duration>,
    core_threads: Option<usize>,
}

impl Builder {
    /// The interval that was asked for, if one was.
    pub closed spec fn spec_interval(&self) -> Option<Duration> {
        self.interval
    }

    /// The number of threads that was asked for, if one was.
    pub closed spec fn spec_core_threads(&self) -> Option<usize> {
        self.core_threads
    }

    /// New builder instance.
    pub fn new() -> (builder: Self)
        ensures
            builder.spec_interval() is None,
            builder.spec_core_threads() is None,
    {
        Builder { interval: None, core_threads: None }
    }

    /// Returns the new [`Coordinator`], configured with what was asked for
    /// and with the defaults for the rest. The builder state is reset after
    /// this call.
    pub fn build<A: AgentHook>(&mut self) -> (coordinator: Coordinator<A>)
        ensures
            coordinator@ == CoordinatorView::<A>::fresh(
                CoordinatorConfig {
                    interval: old(self).spec_interval(),
                    core_threads: match old(self).spec_core_threads() {
                        Some(n) => n,
                        None => DEFAULT_CORE_THREADS,
                    },
                },
            ),
            coordinator@.wf(),
            final(self).spec_interval() is None,
            final(self).spec_core_threads() is None,
    {
        let interval = self.interval.take();
        let core_threads = match self.core_threads.take() {
            Some(n) => n,
            None => DEFAULT_CORE_THREADS,
        };
        Coordinator::from_config(CoordinatorConfig { interval, core_threads })
    }

    /// Interval between game loops. Default value being 50ms.
    pub fn interval(&mut self, interval: Duration) -> (builder: &mut Self)
        ensures
            builder.spec_interval() == Some(interval),
            builder.spec_core_threads() == old(self).spec_core_threads(),
            *final(self) == *final(builder),
    {
        self.interval = Some(interval);
        self
    }

    /// Number of threads that run the game loop. Default value being 4.
    pub fn core_threads(&mut self, core_threads: usize) -> (builder: &mut Self)
        ensures
            builder.spec_core_threads() == Some(core_threads),
            builder.spec_interval() == old(self).spec_interval(),
            *final(self) == *final(builder),
    {
        self.core_threads = Some(core_threads);
        self
    }
}

} // verus!
