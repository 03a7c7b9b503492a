//! Verified core of a host-side binding to the Sweep scanning LIDAR driver.
//!
//! The native driver speaks through opaque references and an error slot that
//! a failing call fills in. This crate holds everything that a binding has to
//! decide about what the driver says, and proves it:
//!
//! - [`error`]: the error adapter, from the error slot to a tagged result,
//!   and the text of a failure;
//! - [`port`]: the serial-port identifier in the form the driver reads;
//! - [`device`]: the device handle and the outcome of each call on it;
//! - [`scan`]: the scan extractor, which copies a scan out of the driver's
//!   buffer into an owned sequence of samples.
//!
//! The crate makes no call into the driver. A binding makes each call, reads
//! what came back into plain values, and hands them over.

pub mod device;
pub mod error;
pub mod port;
pub mod scan;

pub use device::{Sweep, Version};
pub use error::ErrorSlot;
pub use scan::{Sample, ScanExtractor, ScanRequest};
