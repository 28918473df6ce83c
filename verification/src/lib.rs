//! A time-to-live cache: every entry carries an absolute deadline, reads never
//! return an entry whose deadline has passed, and a purge removes such entries
//! so that they do not take up room.
//!
//! - [`clock`]: instants of the monotonic clock and their order.
//! - [`cache`]: the cache itself and its model as a map.
//! - [`laws`]: what callers may rely on when they insert, read and purge,
//!   proved from the model.
//! - [`purging`]: the decisions of the periodic purge, as a state machine that a
//!   runtime drives.
pub mod cache;
pub mod clock;
pub mod laws;
pub mod purging;
