//! The control core of a DC fast-charge controller: it takes the vehicle's
//! CAN frames and the operator's commands in, runs the charge session through
//! its phases, and says which frames to send, which relays to drive and what
//! the console shows. Devices are not touched here: the program around this
//! library polls them and carries out what the library asks for.

pub mod activity;
pub mod can_receive_logic;
pub mod coordinator;
pub mod hundred_ms_loop;
pub mod process_cd;
pub mod process_serial;
pub mod serial_console;
pub mod trace;
pub mod types;
pub mod utils;
