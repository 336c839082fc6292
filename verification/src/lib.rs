//! Control core of a small climate-regulated grow chamber.
//!
//! The crate holds the decisions of the system and none of its wiring: the
//! measurement protocol of the SHT20 humidity and temperature sensor, the
//! two-threshold humidifier policy, the timed pulses of fan and pump, and the
//! recovery of the pump's next due time from its persisted start records.
//! Every function takes what the bus, the clock or the store reported as plain
//! values and answers with the next thing to do.

pub mod actuator;
pub mod climate;
pub mod pump;
pub mod sht20;
pub mod time;
