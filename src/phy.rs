//! The physical layer: what a radio device offers.
pub mod device;
