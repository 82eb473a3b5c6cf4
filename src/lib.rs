//! Foundation layer of an IEEE 802.15.4 stack: monotonic time values, a
//! single-slot signalling channel between a producer and a consumer task, and
//! the capability set of a radio device.
pub mod phy;
pub mod sync;
pub mod time;
