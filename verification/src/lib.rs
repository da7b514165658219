//! Verified core of a Bluetooth device report tool.
//!
//! The tool enumerates the Bluetooth devices known to the host radio stack
//! and prints, for each device, its name, hardware address, pairing state,
//! and the virtual serial port assigned to it, if any.  Device enumeration
//! and process launching are operating-system calls and live in the
//! surrounding application; everything the program decides or formats —
//! hex address rendering, shell-version classification, port extraction
//! from captured query output, and the report text itself — lives here,
//! with contracts.

pub mod hex;
pub mod ports;
pub mod report;
pub mod shell;
pub mod strutil;
