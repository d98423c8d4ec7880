//! An elastic pool of upstream connections, as decisions that can be proved.
//!
//! - [`stats`]: the counters of a pool.
//! - [`pool`]: the supervisor of a pool, which answers each event with the
//!   connections to start and the drain signal to send.
//! - [`fleet`]: the supervisor together with its live connections, and what
//!   holds of every run of it.
//! - [`peers`]: the peers that discovery reports, the set built from them, and
//!   the slot that publishes the current set.
//! - [`backend`]: the backend in front of a pool, which follows one discovery
//!   source and can be prepared anew while its statistics live on.
//! - [`cancel`]: the slot for the handle of a task of which one runs at a time.
//! - [`control`]: the names and paths of the local control socket.
//! - [`inspect`], [`smtp`], [`relay`]: what the inspection of a stream takes
//!   from its user, how long the interception of SMTP waits, and how it goes on
//!   when a line fails.
//! - [`timing`]: the spans of time that all of them hand out.
//!
//! Nothing here waits, reads or writes: whoever runs the library performs what
//! it answers and hands back what happened.

pub mod backend;
pub mod cancel;
pub mod control;
pub mod fleet;
pub mod inspect;
pub mod peers;
pub mod pool;
pub mod relay;
mod shared;
pub mod smtp;
pub mod stats;
pub mod timing;
