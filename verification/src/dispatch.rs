//! Dispatch: handing a procedure to one or all application processors,
//! waiting for them, and saying which of them did not finish in time.
//!
//! The library decides; the environment runs. Starting a dispatch checks the
//! roster, marks the targets busy and returns a [`DispatchRequest`] that
//! says where the procedure must run. The environment starts the procedure
//! there and blocks the caller until the targets are done or the limit has
//! passed, and then reports which targets had not finished. Finishing the
//! dispatch turns that report into the outcome.
//!
//! Nothing here can stop a procedure. A limit ends the caller's wait and
//! nothing else: a target that has not finished by then runs on, and stays
//! busy until the environment reports its completion. With no limit, a
//! procedure that never returns blocks the caller for good.

use crate::error::MpError;
use crate::mp::MPServices;
use crate::roster::{lemma_push_contains, lemma_targets_below, ProcessorRoster};
use crate::timeout::{
    encoded_timeout,
    timeout_argument,
    timeout_fits,
    timeout_word,
    waits_forever,
};
use core::time::Duration;
use vstd::prelude::*;

verus! {

/// One dispatch as contracts speak of it.
pub struct DispatchPlan {
    /// The processors on which the procedure runs. Where they run one after
    /// another, this is the order.
    pub targets: Seq<usize>,
    /// Whether the targets run one after another, each finishing before the
    /// next starts, or all at once.
    pub single_thread: bool,
    /// The limit of the caller's wait in microseconds; zero for no limit.
    pub timeout_in_micro_seconds: usize,
}

impl DispatchPlan {
    /// The caller waits until every target has finished.
    pub open spec fn waits_forever(self) -> bool {
        self.timeout_in_micro_seconds == 0
    }

    /// Whether a target counts as finished when the caller's wait ends,
    /// given the processors that the environment reported as not finished
    /// by then. A wait without limit ends only when every target has
    /// finished, whatever is reported.
    pub open spec fn finished(self, reported: Seq<usize>, target: usize) -> bool {
        self.waits_forever() || !reported.contains(target)
    }

    /// The targets that had not finished when the caller's wait ended, in
    /// the order of the targets.
    pub open spec fn failed(self, reported: Seq<usize>) -> Seq<usize> {
        stragglers(self, reported, self.targets)
    }

    /// The targets that had finished when the caller's wait ended, in the
    /// order of the targets.
    pub open spec fn done(self, reported: Seq<usize>) -> Seq<usize> {
        finishers(self, reported, self.targets)
    }
}

/// The test for a target that had finished when the caller's wait ended.
pub open spec fn is_finisher(plan: DispatchPlan, reported: Seq<usize>) -> spec_fn(usize) -> bool {
    |t: usize| plan.finished(reported, t)
}

/// The test for a target that had not finished when the caller's wait ended.
pub open spec fn is_straggler(plan: DispatchPlan, reported: Seq<usize>) -> spec_fn(usize) -> bool {
    |t: usize| !plan.finished(reported, t)
}

/// Those of `targets` that had not finished, in their order.
pub open spec fn stragglers(plan: DispatchPlan, reported: Seq<usize>, targets: Seq<usize>) -> Seq<
    usize,
> {
    targets.filter(is_straggler(plan, reported))
}

/// Those of `targets` that had finished, in their order.
pub open spec fn finishers(plan: DispatchPlan, reported: Seq<usize>, targets: Seq<usize>) -> Seq<
    usize,
> {
    targets.filter(is_finisher(plan, reported))
}

/// What the environment is asked to do for one dispatch: run the procedure
/// on the targets, in the given mode, and block the caller for no longer
/// than the limit.
#[derive(Debug)]
pub struct DispatchRequest {
    targets: Vec<usize>,
    single_thread: bool,
    timeout_in_micro_seconds: usize,
}

impl View for DispatchRequest {
    type V = DispatchPlan;

    closed spec fn view(&self) -> DispatchPlan {
        DispatchPlan {
            targets: self.targets@,
            single_thread: self.single_thread,
            timeout_in_micro_seconds: self.timeout_in_micro_seconds,
        }
    }
}

impl DispatchRequest {
    /// The processors on which the procedure runs, in execution order.
    pub fn targets(&self) -> (targets: &Vec<usize>)
        ensures
            targets@ == self@.targets,
    {
        &self.targets
    }

    /// Whether the targets run one after another.
    pub fn single_thread(&self) -> (yes: bool)
        ensures
            yes == self@.single_thread,
    {
        self.single_thread
    }

    /// Whether the caller waits until every target has finished.
    pub fn waits_forever(&self) -> (yes: bool)
        ensures
            yes == self@.waits_forever(),
    {
        self.timeout_in_micro_seconds == 0
    }

    /// The limit of the caller's wait as the environment takes it: in
    /// microseconds, zero for no limit.
    pub fn timeout_in_micro_seconds(&self) -> (argument: usize)
        ensures
            argument == self@.timeout_in_micro_seconds,
    {
        self.timeout_in_micro_seconds
    }
}

/// How the environment's attempt at a dispatch ended.
#[derive(Clone, Copy, Debug, PartialEq, Eq, Structural)]
pub enum DispatchEnd {
    /// Every target finished.
    Completed,
    /// The limit of the caller's wait passed before every target had
    /// finished.
    TimedOut,
    /// The environment refused to start the procedure; no target runs it.
    Refused,
}

/// The status word with which the environment says that the limit of a wait
/// has passed: the error bit, which is the highest bit of a machine word,
/// and the number eighteen.
pub open spec fn timeout_status() -> usize {
    (usize::MAX / 2 + 19) as usize
}

/// How a dispatch ended, by the status word that the environment returned:
/// zero says that every target finished, [`timeout_status`] that the limit
/// passed, and any other word that the dispatch was refused.
pub open spec fn end_of(status: usize) -> DispatchEnd {
    if status == 0 {
        DispatchEnd::Completed
    } else if status == timeout_status() {
        DispatchEnd::TimedOut
    } else {
        DispatchEnd::Refused
    }
}

/// How a dispatch ended, by the status word that the environment returned:
/// see [`end_of`].
pub fn dispatch_end(status: usize) -> (end: DispatchEnd)
    ensures
        end == end_of(status),
{
    if status == 0 {
        DispatchEnd::Completed
    } else if status == usize::MAX / 2 + 19 {
        DispatchEnd::TimedOut
    } else {
        DispatchEnd::Refused
    }
}

/// How a dispatch to all application processors ended.
#[derive(Debug, PartialEq, Eq)]
pub enum DispatchOutcome {
    /// Every target finished.
    Success,
    /// The limit passed first. The value holds the targets that had not
    /// finished by then, in ascending order; they may still be running.
    Timeout(Vec<usize>),
}

impl DispatchOutcome {
    /// The targets that did not finish in time; empty on success.
    pub open spec fn failed(self) -> Seq<usize> {
        match self {
            DispatchOutcome::Success => Seq::empty(),
            DispatchOutcome::Timeout(failed) => failed@,
        }
    }
}

impl ProcessorRoster {
    /// One of the given processors is still running an earlier procedure.
    pub open spec fn any_busy(self, targets: Seq<usize>) -> bool {
        exists|k: int| 0 <= k < targets.len() && self.busy[#[trigger] targets[k] as int]
    }

    /// Why a dispatch to all application processors is refused, if it is.
    pub open spec fn dispatch_all_error(self) -> Option<MpError> {
        if self.targets().len() == 0 {
            Some(MpError::NoApAvailable)
        } else if !self.dispatch_supported {
            Some(MpError::Unsupported)
        } else if self.any_busy(self.targets()) {
            Some(MpError::Busy)
        } else {
            None
        }
    }

    /// Why a dispatch to the processor at `index` is refused, if it is.
    pub open spec fn dispatch_one_error(self, index: int) -> Option<MpError> {
        if !self.has(index) {
            Some(MpError::InvalidIndex)
        } else if self.state(index).is_bootstrap {
            Some(MpError::NotApplicationProcessor)
        } else if !self.state(index).enabled {
            Some(MpError::Disabled)
        } else if !self.dispatch_supported {
            Some(MpError::Unsupported)
        } else if self.busy[index] {
            Some(MpError::Busy)
        } else {
            None
        }
    }
}

impl ProcessorRoster {
    /// `request` and `after` are what starting a dispatch to all application
    /// processors gives on this roster, with the given mode and the given
    /// word for the limit: either the refusal that
    /// [`ProcessorRoster::dispatch_all_error`] names and the roster as it
    /// was, or the request for every enabled application processor in
    /// ascending order and the roster with those processors busy.
    pub open spec fn starts_all(
        self,
        after: ProcessorRoster,
        request: Result<DispatchRequest, MpError>,
        single_thread: bool,
        word: usize,
    ) -> bool {
        match request {
            Ok(r) => {
                &&& self.dispatch_all_error() is None
                &&& r@ == (DispatchPlan {
                    targets: self.targets(),
                    single_thread,
                    timeout_in_micro_seconds: word,
                })
                &&& after == self.start(self.targets())
            },
            Err(e) => self.dispatch_all_error() == Some(e) && after == self,
        }
    }

    /// `request` and `after` are what starting a dispatch to the processor
    /// at `index` gives on this roster, with the given word for the limit:
    /// either the refusal that [`ProcessorRoster::dispatch_one_error`] names
    /// and the roster as it was, or the request for that one processor and
    /// the roster with it busy.
    pub open spec fn starts_one(
        self,
        after: ProcessorRoster,
        request: Result<DispatchRequest, MpError>,
        index: usize,
        word: usize,
    ) -> bool {
        match request {
            Ok(r) => {
                &&& self.dispatch_one_error(index as int) is None
                &&& r@ == (DispatchPlan {
                    targets: seq![index],
                    single_thread: false,
                    timeout_in_micro_seconds: word,
                })
                &&& after == self.start(seq![index])
            },
            Err(e) => self.dispatch_one_error(index as int) == Some(e) && after == self,
        }
    }
}

/// Whether `items` holds `item`.
fn holds(items: &Vec<usize>, item: usize) -> (yes: bool)
    ensures
        yes == items@.contains(item),
{
    let mut i: usize = 0;
    while i < items.len()
        invariant
            i <= items@.len(),
            forall|k: int| 0 <= k < i ==> items@[k] != item,
        decreases items@.len() - i,
    {
        if items[i] == item {
            return true;
        }
        i = i + 1;
    }
    false
}

impl MPServices {
    /// The enabled application processors, in ascending order.
    fn eligible_processors(&self) -> (targets: Vec<usize>)
        ensures
            targets@ == self@.targets(),
    {
        let mut targets: Vec<usize> = Vec::new();
        let total: usize = self.total();
        let mut i: usize = 0;
        while i < total
            invariant
                i <= total == self@.processors.len(),
                targets@ == self@.targets_below(i as int),
            decreases total - i,
        {
            let flags = self.status(i);
            if flags.is_enabled() && !flags.is_bsp() {
                targets.push(i);
            }
            i = i + 1;
        }
        targets
    }

    /// Marks the given processors busy.
    fn occupy(&mut self, targets: &Vec<usize>)
        requires
            old(self)@.busy.len() == old(self)@.processors.len() <= usize::MAX,
            forall|k: int| 0 <= k < targets@.len() ==> old(self)@.has(#[trigger] targets@[k] as int),
        ensures
            final(self)@ == old(self)@.start(targets@),
    {
        let mut k: usize = 0;
        assert(self@.busy =~= self@.start(targets@.take(0)).busy);
        while k < targets.len()
            invariant
                k <= targets@.len(),
                forall|j: int| 0 <= j < targets@.len() ==> old(self)@.has(#[trigger] targets@[j] as int),
                old(self)@.busy.len() == old(self)@.processors.len() <= usize::MAX,
                self@ == old(self)@.start(targets@.take(k as int)),
            decreases targets@.len() - k,
        {
            let target: usize = targets[k];
            self.set_busy(target, true);
            proof {
                let prefix = targets@.take(k as int);
                let longer = targets@.take(k + 1);
                assert(longer == prefix.push(target));
                lemma_push_contains(prefix, target);
                assert(self@.busy =~= old(self)@.start(longer).busy);
            }
            k = k + 1;
        }
        assert(targets@.take(targets@.len() as int) == targets@);
    }

    /// Marks the given processors as no longer busy; a number that names no
    /// processor is passed over.
    fn vacate(&mut self, released: &Vec<usize>)
        requires
            old(self)@.busy.len() == old(self)@.processors.len() <= usize::MAX,
        ensures
            final(self)@ == old(self)@.release(released@),
    {
        let mut k: usize = 0;
        assert(self@.busy =~= self@.release(released@.take(0)).busy);
        while k < released.len()
            invariant
                k <= released@.len(),
                old(self)@.busy.len() == old(self)@.processors.len() <= usize::MAX,
                self@ == old(self)@.release(released@.take(k as int)),
            decreases released@.len() - k,
        {
            let target: usize = released[k];
            if target < self.total() {
                self.set_busy(target, false);
            }
            proof {
                let prefix = released@.take(k as int);
                let longer = released@.take(k + 1);
                assert(longer == prefix.push(target));
                lemma_push_contains(prefix, target);
                assert(self@.busy =~= old(self)@.release(longer).busy);
            }
            k = k + 1;
        }
        assert(released@.take(released@.len() as int) == released@);
    }

    /// Starts a dispatch to every enabled application processor. The
    /// bootstrap processor is never a target.
    ///
    /// `timeout` is the limit of the caller's wait in microseconds. With
    /// `None` the caller waits until every target has finished, and so it
    /// does with a limit of zero; with any other limit the wait ends when
    /// the limit has passed.
    ///
    /// On success the targets are busy, and the request names them in
    /// ascending order: the order in which they run where `single_thread`
    /// asks that they run one after another.
    ///
    /// Fails with `NoApAvailable` if no application processor is enabled,
    /// else with `Unsupported` if the environment cannot run procedures on
    /// application processors, else with `Busy` if a target is still running
    /// an earlier procedure. A failed call changes nothing.
    pub fn dispatch_all(&mut self, single_thread: bool, timeout: Option<usize>) -> (request: Result<
        DispatchRequest,
        MpError,
    >)
        requires
            old(self).wf(),
        ensures
            final(self).wf(),
            old(self)@.starts_all(final(self)@, request, single_thread, encoded_timeout(timeout)),
            request matches Ok(r) ==> (r@.waits_forever() <==> timeout is None || timeout == Some(
                0usize,
            )),
    {
        let limit: usize = match timeout {
            Some(micros) => micros,
            None => 0,
        };
        let targets = self.eligible_processors();
        proof {
            lemma_targets_below(self@, self@.processors.len() as int);
        }
        if targets.len() == 0 {
            return Err(MpError::NoApAvailable);
        }
        if !self.dispatch_supported() {
            return Err(MpError::Unsupported);
        }
        let mut k: usize = 0;
        while k < targets.len()
            invariant
                k <= targets@.len(),
                0 < targets@.len(),
                targets@ == self@.targets(),
                self.wf(),
                self@ == old(self)@,
                self@.dispatch_supported,
                forall|j: int| 0 <= j < targets@.len() ==> self@.has(#[trigger] targets@[j] as int),
                forall|j: int| 0 <= j < k ==> !self@.busy[#[trigger] targets@[j] as int],
            decreases targets@.len() - k,
        {
            if self.is_busy(targets[k]) {
                assert(self@.busy[targets@[k as int] as int]);
                return Err(MpError::Busy);
            }
            k = k + 1;
        }
        self.occupy(&targets);
        proof {
            lemma_targets_below(old(self)@, old(self)@.processors.len() as int);
            assert forall|i: int|
                0 <= i < self@.processors.len() && #[trigger] self@.busy[i] implies self@.is_eligible(
                i,
            ) by {
                if !old(self)@.busy[i] {
                    let j = choose|j: int| 0 <= j < targets@.len() && targets@[j] == i as usize;
                    assert(old(self)@.is_eligible(targets@[j] as int));
                }
            }
        }
        Ok(
            DispatchRequest {
                targets,
                single_thread,
                timeout_in_micro_seconds: limit,
            },
        )
    }

    /// Starts a dispatch to one application processor.
    ///
    /// `timeout` is read as in [`MPServices::dispatch_all`]. On success the
    /// target is busy and is the one target of the request.
    ///
    /// Fails with `InvalidIndex` if the roster has no such processor, else
    /// with `NotApplicationProcessor` if it is the bootstrap processor, else
    /// with `Disabled` if it is not enabled, else with `Unsupported` if the
    /// environment cannot run procedures on application processors, else
    /// with `Busy` if the processor is still running an earlier procedure. A
    /// failed call changes nothing, and the caller has not waited.
    pub fn dispatch_one(&mut self, processor_number: usize, timeout: Option<usize>) -> (request:
        Result<DispatchRequest, MpError>)
        requires
            old(self).wf(),
        ensures
            final(self).wf(),
            old(self)@.starts_one(final(self)@, request, processor_number, encoded_timeout(timeout)),
            request matches Ok(r) ==> (r@.waits_forever() <==> timeout is None || timeout == Some(
                0usize,
            )),
    {
        let limit: usize = match timeout {
            Some(micros) => micros,
            None => 0,
        };
        if processor_number >= self.total() {
            return Err(MpError::InvalidIndex);
        }
        let flags = self.status(processor_number);
        if flags.is_bsp() {
            return Err(MpError::NotApplicationProcessor);
        }
        if !flags.is_enabled() {
            return Err(MpError::Disabled);
        }
        if !self.dispatch_supported() {
            return Err(MpError::Unsupported);
        }
        if self.is_busy(processor_number) {
            return Err(MpError::Busy);
        }
        let mut targets: Vec<usize> = Vec::new();
        targets.push(processor_number);
        assert(targets@ == seq![processor_number]);
        self.occupy(&targets);
        Ok(
            DispatchRequest {
                targets,
                single_thread: false,
                timeout_in_micro_seconds: limit,
            },
        )
    }

    /// Executes a procedure on all application processors: starts the
    /// dispatch as [`MPServices::dispatch_all`] does. With no `timeout`, and
    /// with one that spans no time, the caller waits until every target has
    /// finished. Any other `timeout` is a limit: its whole microseconds, and
    /// one microsecond where it is shorter than that.
    ///
    /// The timeout must fit the environment: see [`timeout_fits`], and
    /// [`MPServices::checked_startup_all_aps`] for a call that tests it.
    pub fn startup_all_aps(&mut self, single_thread: bool, timeout: Option<Duration>) -> (request:
        Result<DispatchRequest, MpError>)
        requires
            old(self).wf(),
            timeout_fits(timeout),
        ensures
            final(self).wf(),
            old(self)@.starts_all(
                final(self)@,
                request,
                single_thread,
                timeout_word(timeout) as usize,
            ),
            request matches Ok(r) ==> r@.waits_forever() == waits_forever(timeout),
    {
        let limit = timeout_argument(timeout);
        self.dispatch_all(single_thread, limit)
    }

    /// Executes a procedure on one application processor: starts the
    /// dispatch as [`MPServices::dispatch_one`] does, with the timeout read
    /// as in [`MPServices::startup_all_aps`].
    ///
    /// The timeout must fit the environment: see [`timeout_fits`], and
    /// [`MPServices::checked_startup_this_ap`] for a call that tests it.
    pub fn startup_this_ap(&mut self, processor_number: usize, timeout: Option<Duration>) -> (request:
        Result<DispatchRequest, MpError>)
        requires
            old(self).wf(),
            timeout_fits(timeout),
        ensures
            final(self).wf(),
            old(self)@.starts_one(
                final(self)@,
                request,
                processor_number,
                timeout_word(timeout) as usize,
            ),
            request matches Ok(r) ==> r@.waits_forever() == waits_forever(timeout),
    {
        let limit = timeout_argument(timeout);
        self.dispatch_one(processor_number, limit)
    }

    /// Executes a procedure on all application processors as
    /// [`MPServices::startup_all_aps`] does, if the timeout fits the
    /// environment. If it has more microseconds than a machine word holds,
    /// nothing is started, nothing changes, and the result is `None`.
    pub fn checked_startup_all_aps(&mut self, single_thread: bool, timeout: Option<Duration>) -> (request:
        Option<Result<DispatchRequest, MpError>>)
        requires
            old(self).wf(),
        ensures
            final(self).wf(),
            match request {
                Some(started) => {
                    &&& timeout_fits(timeout)
                    &&& old(self)@.starts_all(
                        final(self)@,
                        started,
                        single_thread,
                        timeout_word(timeout) as usize,
                    )
                    &&& started matches Ok(r) ==> r@.waits_forever() == waits_forever(timeout)
                },
                None => !timeout_fits(timeout) && final(self)@ == old(self)@,
            },
    {
        match timeout_argument(timeout) {
            Some(_) => Some(self.startup_all_aps(single_thread, timeout)),
            None => None,
        }
    }

    /// Executes a procedure on one application processor as
    /// [`MPServices::startup_this_ap`] does, if the timeout fits the
    /// environment. If it has more microseconds than a machine word holds,
    /// nothing is started, nothing changes, and the result is `None`.
    pub fn checked_startup_this_ap(&mut self, processor_number: usize, timeout: Option<Duration>) -> (request:
        Option<Result<DispatchRequest, MpError>>)
        requires
            old(self).wf(),
        ensures
            final(self).wf(),
            match request {
                Some(started) => {
                    &&& timeout_fits(timeout)
                    &&& old(self)@.starts_one(
                        final(self)@,
                        started,
                        processor_number,
                        timeout_word(timeout) as usize,
                    )
                    &&& started matches Ok(r) ==> r@.waits_forever() == waits_forever(timeout)
                },
                None => !timeout_fits(timeout) && final(self)@ == old(self)@,
            },
    {
        match timeout_argument(timeout) {
            Some(_) => Some(self.startup_this_ap(processor_number, timeout)),
            None => None,
        }
    }

    /// Ends a dispatch to all application processors, once the environment
    /// has let the caller go on. `failed_cpu_list` holds the processors that
    /// the environment reports as not finished by then; their order does not
    /// matter, and a number that is no target of the request counts for
    /// nothing.
    ///
    /// Where the request had no limit, the caller was blocked until every
    /// target had finished, so the outcome is `Success` whatever the list
    /// holds. Else the outcome is `Timeout` with the targets that are in the
    /// list, in the order of the targets, unless there is none. The targets
    /// that finished are no longer busy; those that did not stay busy until
    /// [`MPServices::procedure_completed`] is told of them.
    pub fn finish_all_aps(&mut self, request: DispatchRequest, failed_cpu_list: &Vec<usize>) -> (outcome:
        DispatchOutcome)
        requires
            old(self).wf(),
        ensures
            final(self).wf(),
            outcome.failed() == request@.failed(failed_cpu_list@),
            outcome is Success <==> request@.failed(failed_cpu_list@).len() == 0,
            final(self)@ == old(self)@.release(request@.done(failed_cpu_list@)),
    {
        let forever: bool = request.waits_forever();
        let mut failed: Vec<usize> = Vec::new();
        let mut done: Vec<usize> = Vec::new();
        let mut k: usize = 0;
        proof {
            reveal(Seq::filter);
            assert(request.targets@.take(0).len() == 0);
        }
        while k < request.targets.len()
            invariant
                k <= request.targets@.len(),
                forever == request@.waits_forever(),
                request@.targets == request.targets@,
                failed@ == stragglers(request@, failed_cpu_list@, request.targets@.take(k as int)),
                done@ == finishers(request@, failed_cpu_list@, request.targets@.take(k as int)),
            decreases request.targets@.len() - k,
        {
            let target: usize = request.targets[k];
            let finished: bool = forever || !holds(failed_cpu_list, target);
            proof {
                let prefix = request.targets@.take(k as int);
                assert(request.targets@.take(k + 1) == prefix.push(target));
                prefix.lemma_filter_push(target, is_straggler(request@, failed_cpu_list@));
                prefix.lemma_filter_push(target, is_finisher(request@, failed_cpu_list@));
            }
            if finished {
                done.push(target);
            } else {
                failed.push(target);
            }
            k = k + 1;
        }
        assert(request.targets@.take(request.targets@.len() as int) == request.targets@);
        self.vacate(&done);
        if failed.len() == 0 {
            DispatchOutcome::Success
        } else {
            DispatchOutcome::Timeout(failed)
        }
    }

    /// Ends a dispatch to one application processor, once the environment
    /// has let the caller go on. `finished` says whether the processor
    /// signalled completion before that.
    ///
    /// Returns whether the processor finished: always where the request had
    /// no limit, else `finished`. A processor that finished is no longer
    /// busy; one that did not stays busy until
    /// [`MPServices::procedure_completed`] is told of it.
    pub fn finish_this_ap(&mut self, request: DispatchRequest, finished: bool) -> (done: bool)
        requires
            old(self).wf(),
        ensures
            final(self).wf(),
            done == (request@.waits_forever() || finished),
            final(self)@ == if done {
                old(self)@.release(request@.targets)
            } else {
                old(self)@
            },
    {
        if request.waits_forever() || finished {
            self.vacate(&request.targets);
            true
        } else {
            false
        }
    }

    /// Ends a dispatch that the environment refused to start: no target runs
    /// the procedure, so none of the targets is busy any longer.
    pub fn dispatch_refused(&mut self, request: DispatchRequest)
        requires
            old(self).wf(),
        ensures
            final(self).wf(),
            final(self)@ == old(self)@.release(request@.targets),
    {
        self.vacate(&request.targets);
    }

    /// Takes note that a processor which had not finished within the
    /// caller's limit has finished since: it is no longer busy. A number
    /// that names no processor changes nothing.
    pub fn procedure_completed(&mut self, processor_number: usize)
        requires
            old(self).wf(),
        ensures
            final(self).wf(),
            final(self)@ == old(self)@.release(seq![processor_number]),
    {
        let mut released: Vec<usize> = Vec::new();
        released.push(processor_number);
        assert(released@ == seq![processor_number]);
        self.vacate(&released);
    }
}

} // verus!
