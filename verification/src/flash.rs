//! The closed set of failures the flash-programming subsystem reports.
//!
//! Flash algorithm execution itself lives outside this crate; this is the
//! vocabulary it shares with the driver, produced here when probe or
//! memory interaction fails during flashing.

use vstd::prelude::*;
use crate::error::DebugProbeError;

verus! {

/// A flash memory region, by its address range.
#[derive(Clone, Copy, Debug, PartialEq, Eq, Structural)]
pub struct FlashRegion {
    /// First address of the region.
    pub start: u32,
    /// First address past the region.
    pub end: u32,
}

/// A failure during flash programming.
#[derive(Clone, Copy, Debug)]
pub enum FlashError {
    /// A flash-algorithm routine returned a failure code.
    RoutineCallFailed { name: &'static str, errorcode: u32 },
    /// The named operation is not supported by the loaded algorithm.
    NotSupported(&'static str),
    /// A transfer buffer index lies outside the algorithm's range.
    InvalidBufferNumber { n: usize, max: usize },
    /// Memory interaction with the target failed.
    Memory(DebugProbeError),
    /// Interaction with the target core failed.
    Core(DebugProbeError),
    /// An address lies outside the region being programmed.
    AddressNotInRegion { address: u32, region: FlashRegion },
    /// The RAM contents did not match the flash algorithm after loading it.
    FlashAlgorithmNotLoaded,
    /// Writing one page failed with the probe's error code.
    PageWrite { page_address: u32, error_code: u32 },
    /// Data for this address was already written earlier.
    DataOverlap(u32),
    /// The address is not a valid flash address.
    InvalidFlashAddress(u32),
    /// Another entry for this address already exists.
    DuplicateDataEntry(u32),
    /// The sector configuration expects a different page size.
    PageSizeDoesNotMatch { sector_page_size: u32, page_size: u32 },
    /// The sector at this address holds more pages than its maximum.
    MaxPageCountExceeded { maximum_page_count: usize, sector_address: u32 },
    /// No flash region contains the whole requested range.
    NoSuitableFlash { start: u32, end: u32 },
    /// A flash write was requested with no loader algorithm attached.
    NoFlashLoaderAlgorithmAttached,
}

} // verus!
