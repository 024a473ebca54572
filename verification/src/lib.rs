//! Kernel attachment and per-CPU counter subsystem for a traffic-shaping
//! appliance.
//!
//! The crate models the data-plane control logic: the interface-attachment
//! state machine with its capability fallback ladder, the CPU-affinity
//! configurator, the per-CPU map scan protocol, the host-counter harvester,
//! and the event-ring poll policy.  Privileged kernel calls themselves are
//! performed by a thin unverified shell that drives these machines.

pub mod attach;
pub mod bus;
pub mod config_region;
pub mod cpu_affinity;
pub mod per_cpu_map;
pub mod poller;
pub mod tc_handle;
pub mod throughput;
pub mod tracker;
