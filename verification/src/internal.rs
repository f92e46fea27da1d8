//! Internals, exposed for the sake of interest: the prioritised pair that the
//! wait queues hold.

pub use crate::types::PV;
