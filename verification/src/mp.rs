//! The multiprocessor services: the roster itself, its queries, and the way
//! a processor finds its own place in it.

use crate::error::MpError;
use crate::processor::{ProcessorCount, ProcessorInformation};
use crate::roster::{is_discovery, lemma_enabled_below_bound, ProcessorRoster};
use crate::status::StatusFlag;
use vstd::prelude::*;

verus! {

/// The services by which the bootstrap processor manages the logical
/// processors of the machine.
///
/// The services keep one table for the whole session. No lock guards it: the
/// bootstrap processor is the only one that issues control calls, and a
/// caller that lets any other processor do so has left what is described
/// here.
#[derive(Clone, Debug)]
pub struct MPServices {
    processors: Vec<ProcessorInformation>,
    busy: Vec<bool>,
    bootstrap: usize,
    dispatch_supported: bool,
}

impl View for MPServices {
    type V = ProcessorRoster;

    closed spec fn view(&self) -> ProcessorRoster {
        ProcessorRoster {
            processors: self.processors@,
            bootstrap: self.bootstrap as int,
            busy: self.busy@,
            dispatch_supported: self.dispatch_supported,
        }
    }
}

/// Whether the first processor of the table, and no other, carries the
/// bootstrap flag, and is enabled.
fn first_is_bootstrap(processors: &Vec<ProcessorInformation>) -> (yes: bool)
    requires
        processors@.len() > 0,
    ensures
        yes <==> {
            &&& forall|i: int|
                0 <= i < processors@.len() ==> (#[trigger] processors@[i].state().is_bootstrap
                    <==> i == 0)
            &&& processors@[0].state().enabled
        },
{
    if !processors[0].status_flag.is_bsp() || !processors[0].status_flag.is_enabled() {
        return false;
    }
    let mut i: usize = 1;
    while i < processors.len()
        invariant
            1 <= i <= processors@.len(),
            processors@[0].state().is_bootstrap,
            forall|k: int| 1 <= k < i ==> !(#[trigger] processors@[k].state().is_bootstrap),
        decreases processors@.len() - i,
    {
        if processors[i].status_flag.is_bsp() {
            assert(processors@[i as int].state().is_bootstrap);
            return false;
        }
        i = i + 1;
    }
    true
}

/// Whether no two processors of the table share an identifier.
fn identifiers_differ(processors: &Vec<ProcessorInformation>) -> (yes: bool)
    ensures
        yes <==> forall|i: int, j: int|
            0 <= i < j < processors@.len() ==> processors@[i].processor_id
                != processors@[j].processor_id,
{
    let mut j: usize = 0;
    while j < processors.len()
        invariant
            j <= processors@.len(),
            forall|a: int, b: int|
                0 <= a < b < j ==> processors@[a].processor_id != processors@[b].processor_id,
        decreases processors@.len() - j,
    {
        let mut i: usize = 0;
        while i < j
            invariant
                i <= j < processors@.len(),
                forall|a: int|
                    0 <= a < i ==> processors@[a].processor_id != processors@[j as int].processor_id,
            decreases j - i,
        {
            if processors[i].processor_id == processors[j].processor_id {
                return false;
            }
            i = i + 1;
        }
        j = j + 1;
    }
    true
}

impl MPServices {
    /// What holds of the services at all times; see [`ProcessorRoster::wf`].
    pub open spec fn wf(&self) -> bool {
        self@.wf()
    }

    /// The services as they stand before processor discovery has completed:
    /// the roster is empty.
    pub fn new(dispatch_supported: bool) -> (services: MPServices)
        ensures
            services.wf(),
            services@ == (ProcessorRoster {
                processors: Seq::empty(),
                bootstrap: 0,
                busy: Seq::empty(),
                dispatch_supported,
            }),
    {
        MPServices { processors: Vec::new(), busy: Vec::new(), bootstrap: 0, dispatch_supported }
    }

    /// The services for the processors that discovery found, in their order.
    /// The first processor is the bootstrap processor, and no processor is
    /// running anything.
    ///
    /// Returns `None` if the table cannot be a roster: see [`is_discovery`].
    pub fn with_processors(processors: Vec<ProcessorInformation>, dispatch_supported: bool) -> (services:
        Option<MPServices>)
        ensures
            services.is_some() <==> is_discovery(processors@),
            services matches Some(s) ==> s.wf() && s@ == (ProcessorRoster {
                processors: processors@,
                bootstrap: 0,
                busy: Seq::new(processors@.len(), |i: int| false),
                dispatch_supported,
            }),
    {
        if processors.len() == 0 {
            return None;
        }
        if !first_is_bootstrap(&processors) {
            return None;
        }
        if !identifiers_differ(&processors) {
            return None;
        }
        let mut busy: Vec<bool> = Vec::new();
        let mut i: usize = 0;
        while i < processors.len()
            invariant
                i <= processors@.len(),
                busy@.len() == i,
                forall|k: int| 0 <= k < i ==> !busy@[k],
            decreases processors@.len() - i,
        {
            busy.push(false);
            i = i + 1;
        }
        assert(busy@ =~= Seq::new(processors@.len(), |i: int| false));
        Some(MPServices { processors, busy, bootstrap: 0, dispatch_supported })
    }

    /// Retrieves the number of logical processors and the number of enabled
    /// logical processors; both count the bootstrap processor.
    ///
    /// Fails with `NotReady` before discovery has completed.
    pub fn get_number_of_processors(&self) -> (count: Result<ProcessorCount, MpError>)
        requires
            self.wf(),
        ensures
            count == if self@.is_ready() {
                Ok(
                    ProcessorCount {
                        total: self@.total() as usize,
                        enabled: self@.enabled_count() as usize,
                    },
                )
            } else {
                Err(MpError::NotReady)
            },
            self@.enabled_count() <= self@.total(),
    {
        proof {
            lemma_enabled_below_bound(self@, self@.processors.len() as int);
        }
        let total: usize = self.processors.len();
        if total == 0 {
            return Err(MpError::NotReady);
        }
        let mut enabled: usize = 0;
        let mut i: usize = 0;
        while i < total
            invariant
                i <= total == self.processors@.len(),
                enabled == self@.enabled_below(i as int) <= i,
            decreases total - i,
        {
            if self.processors[i].status_flag.is_enabled() {
                enabled = enabled + 1;
            }
            i = i + 1;
        }
        Ok(ProcessorCount { total, enabled })
    }

    /// Gets what is known of one processor at the instant of the call. A
    /// later change of role or availability does not reach the value that
    /// was returned.
    ///
    /// Fails with `InvalidIndex` if the roster has no such processor.
    pub fn get_processor_info(&self, processor_number: usize) -> (info: Result<
        ProcessorInformation,
        MpError,
    >)
        ensures
            info == if self@.has(processor_number as int) {
                Ok(self@.processors[processor_number as int])
            } else {
                Err(MpError::InvalidIndex)
            },
    {
        if processor_number < self.processors.len() {
            Ok(self.processors[processor_number])
        } else {
            Err(MpError::InvalidIndex)
        }
    }

    /// Gets the processor number of the processor that makes the call, which
    /// it names by its hardware identifier. Any processor may call this, also
    /// from within a procedure that was dispatched to it.
    ///
    /// Fails with `NotReady` if the roster does not hold the caller, as is
    /// the case for every caller before discovery has completed.
    pub fn who_am_i(&self, processor_id: u64) -> (number: Result<usize, MpError>)
        ensures
            match number {
                Ok(n) => self@.has(n as int) && self@.processors[n as int].processor_id
                    == processor_id,
                Err(e) => e == MpError::NotReady && forall|i: int|
                    0 <= i < self@.processors.len() ==> (#[trigger] self@.processors[i]).processor_id
                        != processor_id,
            },
    {
        let mut i: usize = 0;
        while i < self.processors.len()
            invariant
                i <= self.processors@.len(),
                forall|k: int|
                    0 <= k < i ==> (#[trigger] self.processors@[k]).processor_id != processor_id,
            decreases self.processors@.len() - i,
        {
            if self.processors[i].processor_id == processor_id {
                return Ok(i);
            }
            i = i + 1;
        }
        Err(MpError::NotReady)
    }

    /// The processor number of the processor that holds the bootstrap role
    /// at the instant of the call; `None` before discovery has completed.
    pub fn bootstrap_processor(&self) -> (number: Option<usize>)
        ensures
            number == if self@.is_ready() {
                Some(self@.bootstrap as usize)
            } else {
                None::<usize>
            },
    {
        if self.processors.len() > 0 {
            Some(self.bootstrap)
        } else {
            None
        }
    }

    /// The number of processors of the roster.
    pub(crate) fn total(&self) -> (total: usize)
        ensures
            total == self@.processors.len(),
    {
        self.processors.len()
    }

    /// The processor number of the bootstrap processor.
    pub(crate) fn bootstrap(&self) -> (number: usize)
        ensures
            number == self@.bootstrap,
    {
        self.bootstrap
    }

    /// Whether the environment can run procedures on application processors.
    pub(crate) fn dispatch_supported(&self) -> (yes: bool)
        ensures
            yes == self@.dispatch_supported,
    {
        self.dispatch_supported
    }

    /// The flags of one processor.
    pub(crate) fn status(&self, processor_number: usize) -> (flags: StatusFlag)
        requires
            processor_number < self@.processors.len(),
        ensures
            flags == self@.processors[processor_number as int].status_flag,
    {
        self.processors[processor_number].status_flag
    }

    /// Whether one processor is still running a dispatched procedure. A
    /// number that names no processor names none that runs anything.
    pub fn is_busy(&self, processor_number: usize) -> (yes: bool)
        ensures
            yes == (processor_number < self@.busy.len() && self@.busy[processor_number as int]),
    {
        processor_number < self.busy.len() && self.busy[processor_number]
    }

    /// Gives one processor other flags.
    pub(crate) fn set_status(&mut self, processor_number: usize, flags: StatusFlag)
        requires
            processor_number < old(self)@.processors.len(),
        ensures
            final(self)@ == (ProcessorRoster {
                processors: old(self)@.processors.update(
                    processor_number as int,
                    ProcessorInformation {
                        status_flag: flags,
                        ..old(self)@.processors[processor_number as int]
                    },
                ),
                ..old(self)@
            }),
    {
        let before = self.processors[processor_number];
        self.processors.set(
            processor_number,
            ProcessorInformation {
                processor_id: before.processor_id,
                status_flag: flags,
                location: before.location,
            },
        );
    }

    /// Moves the mark of the bootstrap processor.
    pub(crate) fn set_bootstrap(&mut self, processor_number: usize)
        ensures
            final(self)@ == (ProcessorRoster {
                bootstrap: processor_number as int,
                ..old(self)@
            }),
    {
        self.bootstrap = processor_number;
    }

    /// Records whether one processor is running a dispatched procedure.
    pub(crate) fn set_busy(&mut self, processor_number: usize, busy: bool)
        requires
            processor_number < old(self)@.busy.len(),
        ensures
            final(self)@ == (ProcessorRoster {
                busy: old(self)@.busy.update(processor_number as int, busy),
                ..old(self)@
            }),
    {
        self.busy.set(processor_number, busy);
    }
}

} // verus!
