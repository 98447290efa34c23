//! A driver for the R503 family of optical fingerprint modules.
//!
//! The modules speak a framed, checksummed request and answer protocol over a
//! half-duplex serial link. This crate holds the protocol: the layout of the
//! frames, the commands and their acknowledges, the reception of data streams,
//! and the drivers of the two automatic procedures, enrollment and
//! identification. It never touches a port. Every operation runs on a
//! [`serial::Serial`], a transport held in memory: what an operation writes is
//! collected there for the owner of the real link to send, and what the link
//! received is fed in for the operation to read.
//!
//! An operation that finds fewer bytes than it needs fails with
//! [`Error::Wire`], which says how many bytes the read it could not serve is
//! short of, while more can still come, and with [`Error::EndOfFile`] once the
//! far end is done. To run an operation over a real link, run it on what has
//! arrived so far; where it starves, read that many bytes more and run it
//! again on the longer input. What an operation returns depends on the bytes
//! alone, so the last run is the operation.

pub mod auto;
pub mod checksum;
pub mod constants;
pub mod device;
pub mod error;
pub mod frame;
pub mod laws;
pub mod serial;
pub mod stream;
pub mod wire_traits;

pub use checksum::Checksum;
pub use device::{LoadCharRequest, R503};
pub use error::Error;
pub use frame::{Command, Response};
