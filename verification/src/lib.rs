//! Child-process supervision for a shell on a platform without a native
//! signal-delivery facility.
//!
//! The core is a supervisor that owns one spawned child process and waits for
//! it to exit while staying responsive to job-control notifications and to an
//! externally owned cancellation source.  Around it sit the signal
//! classification layer, terminal-mode configuration, and the pure decision
//! logic of the surrounding shell utilities (path construction, file
//! discovery filters, clipboard image encoding, HTML conversion).

pub mod clipboard;
pub mod error;
pub mod findcore;
pub mod html;
pub mod process;
pub mod shellpath;
pub mod signal;
pub mod strutil;
pub mod syspaths;
pub mod terminal;
pub mod users;
