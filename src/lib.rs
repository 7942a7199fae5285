//! A verified ownership and lifecycle core for IOKit handles: which native
//! calls are issued, when, how often and in what order.
//!
//! Every native call itself is made by the host; the types here hold the
//! state of each native object, turn native answers into results, and plan
//! the steps that end an object's life.

pub mod action;
pub mod base;
pub mod device;
pub mod notification;
pub mod status;
