use usb_device::UsbError;
use vstd::prelude::*;

verus! {

/// usb-device's `UsbError`, carried through unchanged; nothing is assumed of its values.
#[verifier::external_type_specification]
#[verifier::external_body]
pub struct ExUsbError(UsbError);

/// Failures of the audio function.
#[derive(Debug)]
pub enum Error {
    /// A transport error, passed on unchanged.
    UsbError(UsbError),
    /// The direction asked for was never configured.
    StreamNotInitialized,
}

} // verus!
