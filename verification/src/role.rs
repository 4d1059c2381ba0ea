//! Moving the bootstrap role and changing the availability and the health
//! of a processor.
//!
//! Neither operation may reach a processor that is still running a
//! dispatched procedure: such a call is refused with `Busy`.

use crate::error::MpError;
use crate::mp::MPServices;
use crate::roster::ProcessorRoster;
use crate::status::{ProcessorState, PROCESSOR_HEALTH_STATUS_BIT};
use vstd::prelude::*;

verus! {

/// The health that an enable or disable call asks for: of the word given,
/// only the health bit counts, and with no word the health stays as it is.
pub open spec fn requested_health(health_flag: Option<u32>, current: bool) -> bool {
    match health_flag {
        Some(word) => word & PROCESSOR_HEALTH_STATUS_BIT != 0,
        None => current,
    }
}

impl ProcessorRoster {
    /// Why the bootstrap role cannot move to the processor at `index`, if
    /// it cannot.
    pub open spec fn switch_bsp_error(self, index: int) -> Option<MpError> {
        if !self.has(index) {
            Some(MpError::InvalidIndex)
        } else if !self.state(index).enabled {
            Some(MpError::Disabled)
        } else if self.state(index).is_bootstrap {
            Some(MpError::NotApplicationProcessor)
        } else if self.busy[index] {
            Some(MpError::Busy)
        } else {
            None
        }
    }

    /// Why the processor at `index` cannot be enabled or disabled, if it
    /// cannot.
    pub open spec fn enable_disable_error(self, index: int, enable: bool) -> Option<MpError> {
        if !self.has(index) {
            Some(MpError::InvalidIndex)
        } else if self.state(index).is_bootstrap && !enable {
            Some(MpError::CannotDisableBootstrap)
        } else if self.busy[index] {
            Some(MpError::Busy)
        } else {
            None
        }
    }

    /// `after` is this roster with nothing changed but the state of the
    /// processor at `index`.
    pub open spec fn differs_only_at(self, after: ProcessorRoster, index: int) -> bool {
        &&& after.same_hardware(self)
        &&& after.bootstrap == self.bootstrap
        &&& after.busy == self.busy
        &&& forall|i: int|
            0 <= i < self.processors.len() && i != index ==> #[trigger] after.processors[i]
                == self.processors[i]
    }

    /// `after` is this roster once the bootstrap role has moved to the
    /// processor at `index`: that processor carries the flag, the former
    /// bootstrap processor has lost it and is enabled as `enable_old_bsp`
    /// says, and nothing else has changed.
    pub open spec fn switched_to(self, after: ProcessorRoster, index: int, enable_old_bsp: bool) -> bool {
        &&& after.same_hardware(self)
        &&& after.bootstrap == index
        &&& after.busy == self.busy
        &&& after.state(index) == (ProcessorState { is_bootstrap: true, ..self.state(index) })
        &&& after.state(self.bootstrap) == (ProcessorState {
            is_bootstrap: false,
            enabled: enable_old_bsp,
            ..self.state(self.bootstrap)
        })
        &&& forall|i: int|
            0 <= i < self.processors.len() && i != index && i != self.bootstrap
                ==> #[trigger] after.processors[i] == self.processors[i]
    }
}

impl MPServices {
    /// Switches the bootstrap role to the given application processor, from
    /// this call onward. The former bootstrap processor becomes an
    /// application processor; it stays enabled if `enable_old_bsp` is set
    /// and is disabled otherwise. No processor number changes.
    ///
    /// Fails with `InvalidIndex` if the roster has no such processor, else
    /// with `Disabled` if it is not enabled, else with
    /// `NotApplicationProcessor` if it holds the bootstrap role already,
    /// else with `Busy` if it is still running a dispatched procedure. A
    /// failed call changes nothing.
    pub fn switch_bsp(&mut self, processor_number: usize, enable_old_bsp: bool) -> (done: Result<
        (),
        MpError,
    >)
        requires
            old(self).wf(),
        ensures
            final(self).wf(),
            match done {
                Ok(_) => {
                    &&& old(self)@.switch_bsp_error(processor_number as int) is None
                    &&& old(self)@.switched_to(
                        final(self)@,
                        processor_number as int,
                        enable_old_bsp,
                    )
                },
                Err(e) => {
                    &&& old(self)@.switch_bsp_error(processor_number as int) == Some(e)
                    &&& final(self)@ == old(self)@
                },
            },
    {
        if processor_number >= self.total() {
            return Err(MpError::InvalidIndex);
        }
        let flags = self.status(processor_number);
        if !flags.is_enabled() {
            return Err(MpError::Disabled);
        }
        if flags.is_bsp() {
            return Err(MpError::NotApplicationProcessor);
        }
        if self.is_busy(processor_number) {
            return Err(MpError::Busy);
        }
        let former: usize = self.bootstrap();
        let former_flags = self.status(former).with_bsp(false).with_enabled(enable_old_bsp);
        self.set_status(processor_number, flags.with_bsp(true));
        self.set_status(former, former_flags);
        self.set_bootstrap(processor_number);
        Ok(())
    }

    /// Enables or disables an application processor, from this call onward,
    /// and records the health that the caller reports for it. Of
    /// `health_flag` only the health bit counts; with `None` the health
    /// stays as it is.
    ///
    /// Fails with `InvalidIndex` if the roster has no such processor, else
    /// with `CannotDisableBootstrap` if the bootstrap processor is to be
    /// disabled, else with `Busy` if the processor is still running a
    /// dispatched procedure. A failed call changes nothing.
    pub fn enable_disable_ap(
        &mut self,
        processor_number: usize,
        enable_ap: bool,
        health_flag: Option<u32>,
    ) -> (done: Result<(), MpError>)
        requires
            old(self).wf(),
        ensures
            final(self).wf(),
            match done {
                Ok(_) => {
                    &&& old(self)@.enable_disable_error(processor_number as int, enable_ap) is None
                    &&& old(self)@.differs_only_at(final(self)@, processor_number as int)
                    &&& final(self)@.state(processor_number as int) == (ProcessorState {
                        enabled: enable_ap,
                        healthy: requested_health(
                            health_flag,
                            old(self)@.state(processor_number as int).healthy,
                        ),
                        ..old(self)@.state(processor_number as int)
                    })
                },
                Err(e) => old(self)@.enable_disable_error(processor_number as int, enable_ap)
                    == Some(e) && final(self)@ == old(self)@,
            },
    {
        if processor_number >= self.total() {
            return Err(MpError::InvalidIndex);
        }
        let flags = self.status(processor_number);
        if flags.is_bsp() && !enable_ap {
            return Err(MpError::CannotDisableBootstrap);
        }
        if self.is_busy(processor_number) {
            return Err(MpError::Busy);
        }
        let healthy: bool = match health_flag {
            Some(word) => word & PROCESSOR_HEALTH_STATUS_BIT != 0,
            None => flags.is_healthy(),
        };
        self.set_status(processor_number, flags.with_enabled(enable_ap).with_health(healthy));
        Ok(())
    }
}

} // verus!
