//! A TCP bandwidth meter in the style of iperf3: the protocol decisions,
//! the per-second accounting of transferred bytes and the reports that
//! the command-line tool prints, stated and proved with Verus.

pub mod util;
pub mod opts;
pub mod error;
pub mod report;
pub mod transfer;
pub mod handshake;
