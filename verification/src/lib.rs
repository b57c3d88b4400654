//! Bookkeeping for an instrument-practice session that cycles through the
//! twelve musical keys.
//!
//! [`models`] holds the session's facts (the key catalog, the timestamp
//! history, the current key and the end-of-session receipt), [`transitions`]
//! the state machine that drives them, [`utils`] the dispatcher that runs
//! the entry behaviour of whatever state is current, and [`controls`] the
//! requests of the person practising, each answered by transitions and
//! dispatcher runs. [`views`] gives each of these types its mathematical
//! model, over which every contract is stated, and [`laws`] proves what holds
//! of every session.

pub mod controls;
pub mod laws;
pub mod models;
mod system;
pub mod transitions;
pub mod utils;
pub mod views;
