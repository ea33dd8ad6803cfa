//! Process supervision and dynamic-reconfiguration core for a transaction
//! relay service.
//!
//! The crate provides the lifecycle mechanics that every long-lived component
//! of the surrounding process plugs into:
//!
//! - [`observed::ObservedValue`]: shared, versioned, hot-swappable state with
//!   last-value-wins change notification;
//! - [`shutdown::ShutdownableUnit`]: the capability contract (`shutdown`,
//!   `wait_shutdown`) long-running collaborators implement;
//! - [`stop_signal::StopSignal`]: the single-use, one-shot cancellation
//!   signal cooperative tasks observe;
//! - [`flush_barrier::FlushBarrier`]: a registry of drainable components plus
//!   an all-or-report flush operation;
//! - [`restart_loop::GuardedRestartLoop`]: restarts a protected unit of work
//!   whenever the observed value changes in a way that affects it;
//! - [`supervisor::TaskSupervisor`]: owns all tasks and drives "run until
//!   first exit, then coordinated drain".
//!
//! The asynchronous driver (runtimes, channels, signal handling) lives in a
//! separate unverified shell; this crate holds every decision the driver
//! takes, as a state machine with a proved contract.

pub mod admin;
pub mod flush_barrier;
pub mod observed;
pub mod restart_loop;
pub mod shutdown;
pub mod stop_signal;
pub mod supervisor;
