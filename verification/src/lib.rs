//! Verified core of a LoRa sensor node: the serial command grammar, the
//! command line editor, the event and command dispatch, the real-time-clock
//! edits, and the radio payload of an environment reading.
pub mod token;
pub mod gpio;
pub mod error;
pub mod rtc;
pub mod command;
pub mod uart;
pub mod env_reading;
pub mod event;
