//! What is known of one processor, and the count of all of them.

use crate::status::{ProcessorState, StatusFlag};
use vstd::prelude::*;

verus! {

/// Where a processor sits: package, core within the package, thread within
/// the core. Each number is zero-based and unique only within its parent.
#[derive(Clone, Copy, Debug, PartialEq, Eq, Structural)]
pub struct CPUPhysicalLocation {
    /// Zero-based number of the physical package.
    pub package: u32,
    /// Zero-based number of the core within the package.
    pub core: u32,
    /// Zero-based number of the logical thread within the core.
    pub thread: u32,
}

impl Default for CPUPhysicalLocation {
    /// Package, core and thread zero.
    fn default() -> (location: CPUPhysicalLocation)
        ensures
            location == (CPUPhysicalLocation { package: 0, core: 0, thread: 0 }),
    {
        CPUPhysicalLocation { package: 0, core: 0, thread: 0 }
    }
}

/// One entry of the roster: the processor's identifier, its state and its
/// place in the machine.
#[derive(Clone, Copy, Debug, PartialEq, Eq, Structural)]
pub struct ProcessorInformation {
    /// Identifier that the hardware gave the processor; no two processors of
    /// one roster share it.
    pub processor_id: u64,
    /// Bootstrap role, availability and health.
    pub status_flag: StatusFlag,
    /// Physical location of the processor.
    pub location: CPUPhysicalLocation,
}

impl ProcessorInformation {
    /// The three facets of the processor's state.
    pub open spec fn state(self) -> ProcessorState {
        self.status_flag@
    }

    /// The processor is enabled and is not the bootstrap processor, so a
    /// procedure may be dispatched to it.
    pub open spec fn is_eligible(self) -> bool {
        self.state().enabled && !self.state().is_bootstrap
    }

    /// The same processor with another state.
    pub open spec fn same_hardware(self, other: ProcessorInformation) -> bool {
        self.processor_id == other.processor_id && self.location == other.location
    }
}

impl Default for ProcessorInformation {
    /// Identifier zero, no flag set, location zero.
    fn default() -> (info: ProcessorInformation)
        ensures
            info.processor_id == 0,
            info.state() == (ProcessorState {
                is_bootstrap: false,
                enabled: false,
                healthy: false,
            }),
            info.location == (CPUPhysicalLocation { package: 0, core: 0, thread: 0 }),
    {
        ProcessorInformation {
            processor_id: 0,
            status_flag: StatusFlag::empty(),
            location: CPUPhysicalLocation { package: 0, core: 0, thread: 0 },
        }
    }
}

/// How many logical processors the machine has, and how many of them are
/// enabled. Both numbers count the bootstrap processor.
#[derive(Clone, Copy, Debug, PartialEq, Eq, Structural)]
pub struct ProcessorCount {
    /// All processors of the roster.
    pub total: usize,
    /// The processors that are enabled.
    pub enabled: usize,
}

impl Default for ProcessorCount {
    /// No processor at all.
    fn default() -> (count: ProcessorCount)
        ensures
            count == (ProcessorCount { total: 0, enabled: 0 }),
    {
        ProcessorCount { total: 0, enabled: 0 }
    }
}

} // verus!
