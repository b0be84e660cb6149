//! The decisions a validator makes about the executors of its miners.
//!
//! The crate holds the rules, not the plumbing: reading what `lshw` prints
//! about a machine, choosing between a full and a lightweight validation,
//! walking through either one, and scoring the outcome. Talking to machines
//! and databases is left to the caller, who performs the requests that the
//! state machines of this crate issue and hands the replies back.

pub mod binary64;
pub mod clock;
pub mod collection;
pub mod executor;
pub mod hardware;
pub mod json;
pub mod json_source;
pub mod lshw;
pub mod probe;
pub mod scoring;
pub mod strategy;
pub mod text;

