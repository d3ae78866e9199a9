//! The recording session: the slot that holds the one session of the
//! process, the bounded waits of start and stop, the capture loop, and what
//! a finished session yields.

pub mod capture_loop;
pub mod outcome;
pub mod slot;
pub mod waits;
