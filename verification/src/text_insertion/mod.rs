//! Getting the text into the target application: the delivery protocol and
//! the flow around it.

pub mod delivery;
pub mod flow;
