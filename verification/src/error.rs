//! The failures the library reports.
use vstd::prelude::*;

verus! {

/// `goblin::error::Error`, the ELF parser's error, carried through as an
/// opaque value.
#[verifier::external_type_specification]
#[verifier::external_body]
pub struct ExGoblinError(goblin::error::Error);

/// `dfu_libusb::Error`, the transfer engine's error, carried through as an
/// opaque value.
#[verifier::external_type_specification]
#[verifier::external_body]
pub struct ExDfuError(dfu_libusb::Error);

/// `std::io::Error`, carried through as an opaque value.
#[verifier::external_type_specification]
#[verifier::external_body]
pub struct ExIoError(std::io::Error);

/// Anything that can go wrong between reading an executable and the end
/// of its transfer.
#[derive(Debug)]
pub enum UtilError {
    /// The file is not a well-formed executable.
    Elf(goblin::error::Error),
    /// The transfer to the device failed.
    Dfu(dfu_libusb::Error),
    /// The file could not be read.
    File(std::io::Error),
}

} // verus!
