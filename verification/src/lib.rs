//! The decisions of the proof-of-history (PoH) service, which records the passing of "ticks", a
//! measure of time in the PoH stream.
//!
//! The service runs one tick producer on a thread of its own. Each of the three tick producers is a
//! state machine here: it asks for an action (lock this, record that, hash, tick, sleep) and is
//! told by an event how the action went. The thread around it performs the actions.
//!
//! * [`service`]: which tick producer runs, the length of a tick, the processing of one request.
//! * [`tick_producer`]: the tick producer of a cluster that hashes; [`tick_laws`] says what holds
//!   of all its runs.
//! * [`sleepy`]: the two tick producers of a cluster that does not hash; [`sleepy_laws`] says what
//!   holds of all their runs.
//! * [`timing`]: the counters of the tick producer and the report of them.
//! * [`poh`], [`measure`]: the hash chain and the stop watch, which other crates provide.
//! * [`trace`]: counting along a run.

pub mod measure;
pub mod poh;
pub mod service;
pub mod sleepy;
pub mod sleepy_laws;
pub mod tick_laws;
pub mod tick_producer;
pub mod timing;
pub mod trace;

pub use service::{
    PohConfig, PohService, Producer, DEFAULT_HASHES_PER_BATCH, DEFAULT_PINNED_CPU_CORE,
};
pub use timing::PohTiming;
