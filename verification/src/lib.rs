//! A thermostat for heaters on an eBUS.
//!
//! The library decides: which settings the heater is to have, what is said to
//! the daemon that talks to it, what is announced, and what each event leads
//! to. It holds no connection, no clock and no floating point number; the
//! program round it hands it events and performs the actions that it asks for.
pub mod text;
pub mod temperature;
pub mod heater;
pub mod ebusd;
pub mod homeassistant;
pub mod control;
pub mod thermostat;
pub mod options;
pub mod laws;
pub mod repetition;
pub mod transitions;
pub mod operations;
