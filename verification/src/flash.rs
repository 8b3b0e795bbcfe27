//! Classifying how a firmware transfer ended.
use crate::chips::IdentifierPair;
use crate::error::UtilError;
use vstd::prelude::*;

verus! {

/// How a flashing attempt ended.
#[derive(Debug)]
pub enum FlashOutcome {
    /// The transfer completed.
    Success,
    /// The device vanished right after the transfer: it reset into its
    /// new firmware before the final handshake. Not an error.
    BenignAbsence,
    /// The transfer failed for the given cause.
    Failure(UtilError),
}

/// What a transfer session is opened with.
#[derive(Clone, Copy, Debug, PartialEq, Eq, Structural)]
pub struct SessionRequest {
    pub vendor_id: u16,
    pub product_id: u16,
    pub interface: u8,
    pub alt_setting: u8,
}

/// The session to open against a device: its identifiers, interface 0,
/// alternate setting 0.
pub fn session_for(device: IdentifierPair) -> (r: SessionRequest)
    ensures
        r == (SessionRequest {
            vendor_id: device.vendor_id,
            product_id: device.product_id,
            interface: 0,
            alt_setting: 0,
        }),
{
    SessionRequest {
        vendor_id: device.vendor_id,
        product_id: device.product_id,
        interface: 0,
        alt_setting: 0,
    }
}

/// Whether a transfer error is the USB transport's report that the device
/// is no longer there: `dfu_libusb::Error::LibUsb(rusb::Error::NoDevice)`.
pub uninterp spec fn device_absent(e: dfu_libusb::Error) -> bool;

/// Tells the variant `LibUsb(NoDevice)` of `dfu_libusb::Error` from all
/// others. Trusted: the answer is named by [`device_absent`].
#[verifier::external_body]
fn reports_no_device(e: &dfu_libusb::Error) -> (r: bool)
    ensures
        r == device_absent(*e),
{
    match e {
        dfu_libusb::Error::LibUsb(rusb::Error::NoDevice) => true,
        _ => false,
    }
}

/// The outcome of a transfer that failed with `cause`, given whether the
/// cause is the device's absence.
pub open spec fn failure_outcome(absent: bool, cause: UtilError) -> FlashOutcome {
    if absent {
        FlashOutcome::BenignAbsence
    } else {
        FlashOutcome::Failure(cause)
    }
}

/// The outcome of a transfer that ended with `result`.
pub open spec fn outcome_of(result: Result<(), UtilError>) -> FlashOutcome {
    match result {
        Ok(_) => FlashOutcome::Success,
        Err(UtilError::Dfu(e)) => failure_outcome(device_absent(e), UtilError::Dfu(e)),
        Err(cause) => FlashOutcome::Failure(cause),
    }
}

/// Decides the outcome of a failed transfer: absence of the device is
/// benign, anything else is a failure that carries its cause unchanged.
pub fn classify_failure(absent: bool, cause: UtilError) -> (r: FlashOutcome)
    ensures
        r == failure_outcome(absent, cause),
{
    if absent {
        FlashOutcome::BenignAbsence
    } else {
        FlashOutcome::Failure(cause)
    }
}

/// Classifies the result of a transfer: success, the benign absence of a
/// device that reset itself, or a failure with its cause.
pub fn classify(result: Result<(), UtilError>) -> (r: FlashOutcome)
    ensures
        r == outcome_of(result),
{
    match result {
        Ok(_) => FlashOutcome::Success,
        Err(UtilError::Dfu(e)) => {
            let absent = reports_no_device(&e);
            classify_failure(absent, UtilError::Dfu(e))
        },
        Err(cause) => FlashOutcome::Failure(cause),
    }
}

/// A transfer that fails because the device is no longer there ends in
/// benign absence, never in failure.
pub proof fn law_absent_device_is_benign(e: dfu_libusb::Error)
    requires
        device_absent(e),
    ensures
        outcome_of(Err(UtilError::Dfu(e))) == FlashOutcome::BenignAbsence,
{
}

/// A transfer that fails for any other cause ends in failure, and the
/// failure carries that cause unchanged.
pub proof fn law_other_failure_keeps_cause(cause: UtilError)
    requires
        cause matches UtilError::Dfu(e) ==> !device_absent(e),
    ensures
        outcome_of(Err(cause)) == FlashOutcome::Failure(cause),
{
}

} // verus!
