//! Configuration shared between the client and the server.
//!
//! Both peers must agree on the tick rate and on how often the server
//! batches replicated state onto the wire; durations are carried as
//! integer microseconds and milliseconds.

use vstd::prelude::*;

verus! {

/// Fixed simulation rate, in steps per second.
pub const FIXED_TIMESTEP_HZ: u64 = 64;

/// How often the server sends batched replication updates, in
/// milliseconds. This may exceed the tick duration: several ticks'
/// worth of state then travel in one send.
pub const SERVER_REPLICATION_INTERVAL_MILLIS: u64 = 100;

/// Whether client and server run as separate processes or share one.
#[derive(Clone, Copy, Debug, PartialEq, Eq, Structural)]
pub enum SimulationMode {
    Separate,
    HostServer,
}

/// Tick-clock configuration.
#[derive(Clone, Copy, Debug, PartialEq, Eq, Structural)]
pub struct TickConfig {
    /// Duration of one simulation step, in microseconds.
    pub tick_duration_micros: u64,
}

/// The part of the configuration that client and server must share.
#[derive(Clone, Copy, Debug, PartialEq, Eq, Structural)]
pub struct SharedConfig {
    pub server_replication_send_interval_millis: u64,
    pub tick: TickConfig,
    pub mode: SimulationMode,
}

/// The shared configuration both peers are built from: replication
/// updates every 100 ms, ticks at the fixed timestep rate.
pub fn shared_config() -> (c: SharedConfig)
    ensures
        c.server_replication_send_interval_millis == SERVER_REPLICATION_INTERVAL_MILLIS,
        c.tick.tick_duration_micros == 1_000_000u64 / FIXED_TIMESTEP_HZ,
        c.tick.tick_duration_micros > 0,
        c.mode == SimulationMode::Separate,
{
    SharedConfig {
        server_replication_send_interval_millis: SERVER_REPLICATION_INTERVAL_MILLIS,
        tick: TickConfig { tick_duration_micros: 1_000_000 / FIXED_TIMESTEP_HZ },
        mode: SimulationMode::Separate,
    }
}

} // verus!
