//! Core library of a small humanoid robot controller.
//!
//! The heart of the crate is the real-time joint-motion core in [`realtime`]:
//! it turns queued motion commands into per-joint trajectories and closed-loop
//! PID outputs at a fixed control rate, while enforcing kinematic limits and
//! an emergency-stop gate.  Continuous quantities (positions, velocities,
//! gains) are carried as fixed-point integers in thousandths of their
//! physical unit, so every step of the control law is verified exactly.
//!
//! Around the core sit the shared data structures ([`common`]), the validated
//! configuration tree ([`config`]), and the device-facing state tables
//! ([`hardware`]).  Periodic task plumbing, hardware I/O and serialization
//! live outside this crate.

use vstd::prelude::*;

pub mod common;
pub mod ai;
pub mod config;
pub mod constants;
pub mod hardware;
pub mod realtime;
pub mod vision;

verus! {

/// Basic identity of the whole system: a name and a version string.
#[derive(Debug, Clone)]
pub struct Config {
    pub name: String,
    pub version: String,
}

/// Errors surfaced by the system facade.
#[derive(Debug)]
pub enum ReachyMiniError {
    /// A configuration value was rejected; the payload describes it.
    Config(String),
    /// A lifecycle or runtime fault; the payload describes it.
    System(String),
}

/// Convenient result alias for the system facade.
pub type ReachyMiniResult<T> = Result<T, ReachyMiniError>;

/// Top-level lifecycle facade: holds the system identity and whether the
/// services have been started.
pub struct ReachyMiniSystem {
    config: Config,
    is_running: bool,
}

impl ReachyMiniSystem {
    /// Whether the system has been started (specification view).
    pub closed spec fn running(&self) -> bool {
        self.is_running
    }

    /// The system's identity (specification view).
    pub closed spec fn identity(&self) -> Config {
        self.config
    }

    /// A stopped system with the given identity.
    pub fn new(config: Config) -> (r: ReachyMiniResult<ReachyMiniSystem>)
        ensures
            r is Ok,
            !r->Ok_0.running(),
            r->Ok_0.identity() == config,
    {
        Ok(ReachyMiniSystem { config, is_running: false })
    }

    /// Marks the system running.  Calling it on a running system is a no-op,
    /// never an error.
    pub fn start(&mut self) -> (r: ReachyMiniResult<()>)
        ensures
            r is Ok,
            final(self).running(),
            final(self).identity() == old(self).identity(),
    {
        if self.is_running {
            return Ok(());
        }
        self.is_running = true;
        Ok(())
    }

    /// Marks the system stopped.  Idempotent, never an error.
    pub fn stop(&mut self) -> (r: ReachyMiniResult<()>)
        ensures
            r is Ok,
            !final(self).running(),
            final(self).identity() == old(self).identity(),
    {
        self.is_running = false;
        Ok(())
    }

    /// Whether the system is currently running.
    pub fn is_running(&self) -> (r: bool)
        ensures
            r == self.running(),
    {
        self.is_running
    }

    /// A snapshot of the system's identity and running state, stamped with
    /// the current time.
    pub fn get_status(&self) -> (r: ReachyMiniResult<SystemStatus>)
        ensures
            r is Ok,
            r->Ok_0.is_running == self.running(),
            r->Ok_0.name == self.identity().name,
            r->Ok_0.version == self.identity().version,
    {
        Ok(SystemStatus {
            is_running: self.is_running,
            name: self.config.name.clone(),
            version: self.config.version.clone(),
            timestamp: common::current_timestamp(),
        })
    }
}

impl common::LifecycleManager for ReachyMiniSystem {
    fn start(&mut self) -> Result<(), ReachyMiniError> {
        ReachyMiniSystem::start(self)
    }

    fn stop(&mut self) -> Result<(), ReachyMiniError> {
        ReachyMiniSystem::stop(self)
    }

    fn is_running(&self) -> bool {
        ReachyMiniSystem::is_running(self)
    }
}

impl common::StateManager for ReachyMiniSystem {
    type State = bool;

    fn get_state(&self) -> bool {
        self.is_running
    }

    fn set_state(&mut self, state: bool) {
        self.is_running = state;
    }
}

/// A point-in-time description of the system facade.
#[derive(Debug, Clone)]
pub struct SystemStatus {
    pub is_running: bool,
    pub name: String,
    pub version: String,
    pub timestamp: u64,
}

} // verus!
