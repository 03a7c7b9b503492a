//! The device handle: one connected sensor, and what each driver call on it
//! comes to.
//!
//! The driver is called by whoever owns the handle. Each operation here takes
//! what the driver returned, together with the error slot that the call left
//! behind, and decides what the caller gets. No operation keeps anything from
//! one call to the next, and none retries.

use crate::error::{fallback, fallback_text, outcome, shown, ErrorSlot};
use crate::port::{terminated, well_formed};
use crate::scan::{ScanExtractor, ScanState};
use vstd::prelude::*;

verus! {

/// A driver version, unpacked from the word that the driver reports.
#[derive(Clone, Copy, Debug, PartialEq, Eq)]
pub struct Version {
    pub major: i32,
    pub minor: i32,
}

/// A connected sensor: the driver's reference to its device object, which is
/// never null.
#[derive(Debug)]
pub struct Sweep {
    device: usize,
}

/// What the driver's constructor comes to. A failure that the driver reports
/// is passed on; a null reference without a reported failure is a failure of
/// its own, with the fallback text; anything else is the new device.
pub open spec fn construction(device: usize, slot: ErrorSlot) -> Result<usize, Seq<char>> {
    match slot.failure() {
        Some(text) => Err(text),
        None => if device == 0 {
            Err(fallback_text())
        } else {
            Ok(device)
        },
    }
}

impl Sweep {
    #[verifier::type_invariant]
    spec fn inv(self) -> bool {
        self.device != 0
    }

    /// The driver's reference to the device object.
    pub closed spec fn reference(self) -> usize {
        self.device
    }

    /// Wraps the device that the driver's constructor returned, unless the
    /// constructor failed.
    pub fn new(device: usize, slot: ErrorSlot) -> (result: Result<Sweep, String>)
        ensures
            match construction(device, slot) {
                Ok(reference) => result is Ok && result->Ok_0.reference() == reference,
                Err(text) => result is Err && result->Err_0@ == text,
            },
    {
        match slot.check(device) {
            Ok(device) => if device == 0 {
                Err(fallback())
            } else {
                Ok(Sweep { device })
            },
            Err(message) => Err(message),
        }
    }

    /// The reference to hand to the driver with each call on this device.
    pub fn device(&self) -> (device: usize)
        ensures
            device == self.reference(),
            device != 0,
    {
        proof {
            use_type_invariant(self);
        }
        self.device
    }

    /// Unpacks the driver's version word: the major number is the word
    /// shifted right by sixteen bits, the minor number its lowest four bits.
    pub fn get_version(raw: i32) -> (version: Version)
        ensures
            version.major == raw >> 16,
            version.minor == raw & 0x0F,
            -0x8000 <= version.major < 0x8000,
            0 <= version.minor < 16,
    {
        assert(-0x8000 <= raw >> 16 < 0x8000 && 0 <= raw & 0x0F < 16) by (bit_vector);
        Version { major: raw >> 16, minor: raw & 0x0F }
    }

    /// What a request to change the motor speed comes to.
    pub fn set_motor_speed(&self, slot: ErrorSlot) -> (result: Result<(), String>)
        ensures
            shown(result) == outcome((), slot),
    {
        slot.check(())
    }

    /// The motor speed that the driver reported, unless the query failed.
    pub fn get_motor_speed(&self, speed: i32, slot: ErrorSlot) -> (result: Result<i32, String>)
        ensures
            shown(result) == outcome(speed, slot),
    {
        slot.check(speed)
    }

    /// The sample rate that the driver reported, unless the query failed.
    pub fn get_sample_rate(&self, rate: i32, slot: ErrorSlot) -> (result: Result<i32, String>)
        ensures
            shown(result) == outcome(rate, slot),
    {
        slot.check(rate)
    }

    /// Whether the driver reported the motor as ready, unless the query
    /// failed.
    pub fn get_motor_ready(&self, ready: bool, slot: ErrorSlot) -> (result: Result<bool, String>)
        ensures
            shown(result) == outcome(ready, slot),
    {
        slot.check(ready)
    }

    /// What a request to start scanning comes to.
    pub fn start_scanning(&self, slot: ErrorSlot) -> (result: Result<(), String>)
        ensures
            shown(result) == outcome((), slot),
    {
        slot.check(())
    }

    /// What a request to stop scanning comes to.
    pub fn stop_scanning(&self, slot: ErrorSlot) -> (result: Result<(), String>)
        ensures
            shown(result) == outcome((), slot),
    {
        slot.check(())
    }

    /// Starts copying the scan that the driver handed out. Where the driver
    /// failed to hand one out, the failure is passed on and the reference is
    /// left alone.
    pub fn scan(&self, scan: usize, slot: ErrorSlot) -> (result: Result<ScanExtractor, String>)
        ensures
            match outcome(scan, slot) {
                Ok(scan) => result is Ok && result->Ok_0@ == ScanState::start(scan),
                Err(text) => result is Err && result->Err_0@ == text,
            },
    {
        match slot.check(scan) {
            Ok(scan) => Ok(ScanExtractor::new(scan)),
            Err(message) => Err(message),
        }
    }
}

/// A session that the driver accepts goes through. Where the port holds no
/// null byte, the constructor hands out a device, and neither it nor the
/// calls to start and to stop scanning raise an error, the port has a native
/// form, the device is wrapped, and starting and stopping both succeed.
pub proof fn lemma_accepted_session_succeeds(
    port: Seq<u8>,
    device: usize,
    constructed: ErrorSlot,
    started: ErrorSlot,
    stopped: ErrorSlot,
)
    requires
        well_formed(port),
        device != 0,
        constructed is Clear,
        started is Clear,
        stopped is Clear,
    ensures
        terminated(port) == Some(port.push(0u8)),
        construction(device, constructed) == Ok::<usize, Seq<char>>(device),
        outcome((), started) == Ok::<(), Seq<char>>(()),
        outcome((), stopped) == Ok::<(), Seq<char>>(()),
{
}

/// No device comes of a constructor that raised an error, whatever reference
/// it returned: the construction fails with the text of the error.
pub proof fn lemma_raised_error_fails_construction(device: usize, slot: ErrorSlot)
    requires
        !(slot is Clear),
    ensures
        construction(device, slot) == Err::<usize, Seq<char>>(slot.failure()->Some_0),
{
}

/// A query of the motor speed answers for itself alone. Whatever two earlier
/// requests to set the speed came to, and so also where the driver rejected
/// the second, each rejection is reported by the request that met it, and the
/// query returns the speed that the driver reports to it.
pub proof fn lemma_speed_query_stands_alone(
    first: ErrorSlot,
    second: ErrorSlot,
    speed: i32,
    queried: ErrorSlot,
)
    ensures
        outcome((), first) is Err <==> !(first is Clear),
        outcome((), second) is Err <==> !(second is Clear),
        queried is Clear ==> outcome(speed, queried) == Ok::<i32, Seq<char>>(speed),
        !(queried is Clear) ==> outcome(speed, queried) == Err::<i32, Seq<char>>(
            queried.failure()->Some_0,
        ),
{
}

} // verus!
