//! What holds of the roster across operations. Each statement is over the
//! model that the contracts of the operations use.

use crate::dispatch::{is_finisher, is_straggler, DispatchPlan};
use crate::error::MpError;
use crate::roster::{lemma_targets_below, ProcessorRoster};
use vstd::prelude::*;

verus! {

/// One change of the roster, as its operations make them.
pub enum Change {
    /// A dispatch started on the given processors.
    Start {
        /// The targets of the dispatch.
        targets: Seq<usize>,
    },
    /// The given processors finished what was dispatched to them.
    Release {
        /// The processors that finished.
        released: Seq<usize>,
    },
    /// The bootstrap role moved.
    SwitchBsp {
        /// The new bootstrap processor.
        index: int,
        /// Whether the former bootstrap processor stays enabled.
        enable_old_bsp: bool,
    },
    /// A processor was enabled or disabled, and its health recorded.
    EnableDisable {
        /// The processor concerned.
        index: int,
    },
}

impl ProcessorRoster {
    /// `after` is this roster after the given change.
    pub open spec fn changed_by(self, change: Change, after: ProcessorRoster) -> bool {
        match change {
            Change::Start { targets } => after == self.start(targets),
            Change::Release { released } => after == self.release(released),
            Change::SwitchBsp { index, enable_old_bsp } => self.switched_to(
                after,
                index,
                enable_old_bsp,
            ),
            Change::EnableDisable { index } => self.differs_only_at(after, index),
        }
    }
}

/// The rosters of a session: each but the first comes from the one before
/// it by the change of the same place.
pub open spec fn is_session(rosters: Seq<ProcessorRoster>, changes: Seq<Change>) -> bool {
    &&& rosters.len() == changes.len() + 1
    &&& forall|k: int|
        0 <= k < changes.len() ==> (#[trigger] rosters[k]).changed_by(changes[k], rosters[k + 1])
}

/// Topology is fixed for the session: whatever changes the roster goes
/// through, each processor keeps its number, its identifier and its
/// location, so that a later query of a processor shows the placement that
/// an earlier one showed.
pub proof fn law_topology_is_fixed(rosters: Seq<ProcessorRoster>, changes: Seq<Change>, k: int)
    requires
        is_session(rosters, changes),
        0 <= k < rosters.len(),
    ensures
        rosters[k].same_hardware(rosters[0]),
        forall|i: int|
            rosters[0].has(i) ==> rosters[k].has(i) && (#[trigger] rosters[k].processors[i]).location
                == rosters[0].processors[i].location && rosters[k].processors[i].processor_id
                == rosters[0].processors[i].processor_id,
    decreases k,
{
    if k > 0 {
        law_topology_is_fixed(rosters, changes, k - 1);
        assert(rosters[k - 1].changed_by(changes[k - 1], rosters[k]));
        assert(rosters[k].same_hardware(rosters[k - 1]));
        assert forall|i: int| 0 <= i < rosters[k].processors.len() implies (
        #[trigger] rosters[k].processors[i]).same_hardware(rosters[0].processors[i]) by {
            assert(rosters[k].processors[i].same_hardware(rosters[k - 1].processors[i]));
            assert(rosters[k - 1].processors[i].same_hardware(rosters[0].processors[i]));
        }
    }
}

/// Exactly one processor of a discovered roster holds the bootstrap role,
/// and that processor is enabled. Every operation that changes the roster
/// leaves it in order, so this holds after each of them.
pub proof fn law_exactly_one_bootstrap(roster: ProcessorRoster)
    requires
        roster.wf(),
        roster.is_ready(),
    ensures
        roster.has(roster.bootstrap),
        roster.state(roster.bootstrap).is_bootstrap,
        roster.state(roster.bootstrap).enabled,
        forall|i: int|
            roster.has(i) && #[trigger] roster.processors[i].state().is_bootstrap ==> i
                == roster.bootstrap,
{
    assert(roster.processors[roster.bootstrap].state().is_bootstrap);
}

/// A successful move of the bootstrap role leaves exactly one bootstrap
/// processor, the one that the call named, and a roster that is in order.
pub proof fn law_switch_keeps_one_bootstrap(
    before: ProcessorRoster,
    after: ProcessorRoster,
    index: int,
    enable_old_bsp: bool,
)
    requires
        before.wf(),
        before.switch_bsp_error(index) is None,
        before.switched_to(after, index, enable_old_bsp),
    ensures
        after.wf(),
        after.one_bootstrap(),
        after.bootstrap == index,
{
    assert(before.one_bootstrap());
    assert(before.processors[index].state().is_bootstrap <==> index == before.bootstrap);
    assert forall|i: int| 0 <= i < after.processors.len() implies (
    #[trigger] after.processors[i].state().is_bootstrap <==> i == index) by {
        if i != index && i != before.bootstrap {
            assert(after.processors[i] == before.processors[i]);
            assert(before.processors[i].state().is_bootstrap <==> i == before.bootstrap);
        }
    }
    assert forall|i: int, j: int| 0 <= i < j < after.processors.len() implies after.processors[i].processor_id
        != after.processors[j].processor_id by {
        assert(after.processors[i].same_hardware(before.processors[i]));
        assert(after.processors[j].same_hardware(before.processors[j]));
    }
    assert forall|i: int| 0 <= i < after.processors.len() && #[trigger] after.busy[i] implies after.is_eligible(
        i,
    ) by {
        assert(before.busy[i]);
        assert(before.is_eligible(i));
        assert(i != index && i != before.bootstrap);
        assert(after.processors[i] == before.processors[i]);
    }
}

/// Exactly one processor holds the bootstrap role after any sequence of
/// successful moves of the role.
pub proof fn law_one_bootstrap_after_switches(
    rosters: Seq<ProcessorRoster>,
    indices: Seq<int>,
    keep_enabled: Seq<bool>,
    k: int,
)
    requires
        rosters.len() == indices.len() + 1,
        keep_enabled.len() == indices.len(),
        rosters[0].wf(),
        rosters[0].is_ready(),
        forall|j: int|
            0 <= j < indices.len() ==> (#[trigger] rosters[j]).switch_bsp_error(indices[j]) is None
                && rosters[j].switched_to(rosters[j + 1], indices[j], keep_enabled[j]),
        0 <= k < rosters.len(),
    ensures
        rosters[k].wf(),
        rosters[k].one_bootstrap(),
        forall|i: int|
            rosters[k].has(i) ==> (#[trigger] rosters[k].processors[i].state().is_bootstrap <==> i
                == rosters[k].bootstrap),
    decreases k,
{
    if k > 0 {
        law_one_bootstrap_after_switches(rosters, indices, keep_enabled, k - 1);
        assert(rosters[k - 1].switch_bsp_error(indices[k - 1]) is None);
        law_switch_keeps_one_bootstrap(
            rosters[k - 1],
            rosters[k],
            indices[k - 1],
            keep_enabled[k - 1],
        );
    }
}

/// After the bootstrap role has moved with the former bootstrap processor
/// not kept enabled, that processor is disabled and is not the bootstrap
/// processor.
pub proof fn law_switch_disables_former(before: ProcessorRoster, after: ProcessorRoster, index: int)
    requires
        before.wf(),
        before.switch_bsp_error(index) is None,
        before.switched_to(after, index, false),
    ensures
        after.has(before.bootstrap),
        !after.state(before.bootstrap).enabled,
        !after.state(before.bootstrap).is_bootstrap,
        after.state(before.bootstrap).healthy == before.state(before.bootstrap).healthy,
{
}

/// A dispatch to all application processors has no target exactly where no
/// application processor is enabled, and is then refused with
/// `NoApAvailable`, whatever else holds of the roster.
pub proof fn law_no_target_without_enabled_ap(roster: ProcessorRoster)
    requires
        roster.processors.len() <= usize::MAX,
    ensures
        roster.targets().len() == 0 <==> forall|i: int| !roster.is_eligible(i),
        (forall|i: int| !roster.is_eligible(i)) ==> roster.dispatch_all_error() == Some(
            MpError::NoApAvailable,
        ),
{
    lemma_targets_below(roster, roster.processors.len() as int);
    let targets = roster.targets();
    if targets.len() > 0 {
        assert(roster.is_eligible(targets[0] as int));
    }
    if exists|i: int| roster.is_eligible(i) {
        let i = choose|i: int| roster.is_eligible(i);
        assert(targets.contains(i as usize));
    }
}

/// The targets of a dispatch to all application processors are the enabled
/// application processors, each once, in ascending order of processor
/// number. Where they run one after another, that is the order in which
/// they run.
pub proof fn law_targets_in_roster_order(roster: ProcessorRoster)
    requires
        roster.processors.len() <= usize::MAX,
    ensures
        forall|k: int|
            0 <= k < roster.targets().len() ==> roster.is_eligible(
                #[trigger] roster.targets()[k] as int,
            ),
        forall|j: int, k: int|
            0 <= j < k < roster.targets().len() ==> roster.targets()[j] < roster.targets()[k],
        forall|i: int| roster.is_eligible(i) ==> roster.targets().contains(i as usize),
        roster.wf() ==> !roster.targets().contains(roster.bootstrap as usize),
{
    lemma_targets_below(roster, roster.processors.len() as int);
    if roster.wf() && roster.targets().contains(roster.bootstrap as usize) {
        let k = choose|k: int|
            0 <= k < roster.targets().len() && roster.targets()[k] == roster.bootstrap as usize;
        assert(roster.is_eligible(roster.targets()[k] as int));
    }
}

/// A dispatch to a processor that is not enabled is refused with `Disabled`.
pub proof fn law_disabled_target_is_refused(roster: ProcessorRoster, index: int)
    requires
        roster.wf(),
        roster.has(index),
        !roster.state(index).enabled,
    ensures
        roster.dispatch_one_error(index) == Some(MpError::Disabled),
{
    assert(roster.processors[index].state().is_bootstrap <==> index == roster.bootstrap);
}

/// The bootstrap processor cannot be disabled.
pub proof fn law_bootstrap_stays_enabled(roster: ProcessorRoster)
    requires
        roster.wf(),
        roster.is_ready(),
    ensures
        roster.enable_disable_error(roster.bootstrap, false) == Some(
            MpError::CannotDisableBootstrap,
        ),
        roster.state(roster.bootstrap).enabled,
{
    assert(roster.processors[roster.bootstrap].state().is_bootstrap);
}

/// A dispatch without a limit never times out: whatever the environment
/// reports, no target counts as failed and every target counts as done.
pub proof fn law_no_limit_no_timeout(plan: DispatchPlan, reported: Seq<usize>)
    requires
        plan.waits_forever(),
    ensures
        plan.failed(reported).len() == 0,
        plan.done(reported) == plan.targets,
    decreases plan.targets.len(),
{
    reveal(Seq::filter);
    if plan.targets.len() > 0 {
        let shorter = DispatchPlan { targets: plan.targets.drop_last(), ..plan };
        law_no_limit_no_timeout(shorter, reported);
        assert(is_straggler(shorter, reported) == is_straggler(plan, reported));
        assert(is_finisher(shorter, reported) == is_finisher(plan, reported));
        assert(plan.targets.drop_last().push(plan.targets.last()) == plan.targets);
    }
}

/// The targets that a dispatch gives as failed are the targets that had
/// not finished, and the others are done; each target is one or the other.
pub proof fn law_failed_are_the_unfinished(plan: DispatchPlan, reported: Seq<usize>)
    ensures
        forall|k: int|
            0 <= k < plan.failed(reported).len() ==> plan.targets.contains(
                #[trigger] plan.failed(reported)[k],
            ) && !plan.finished(reported, plan.failed(reported)[k]),
        forall|k: int|
            0 <= k < plan.targets.len() && !plan.finished(reported, #[trigger] plan.targets[k])
                ==> plan.failed(reported).contains(plan.targets[k]),
        forall|k: int|
            0 <= k < plan.targets.len() && plan.finished(reported, #[trigger] plan.targets[k])
                ==> plan.done(reported).contains(plan.targets[k]),
        plan.failed(reported).len() + plan.done(reported).len() == plan.targets.len(),
    decreases plan.targets.len(),
{
    reveal(Seq::filter);
    let failed = plan.failed(reported);
    let done = plan.done(reported);
    if plan.targets.len() > 0 {
        let shorter = DispatchPlan { targets: plan.targets.drop_last(), ..plan };
        let last = plan.targets.last();
        law_failed_are_the_unfinished(shorter, reported);
        assert(is_straggler(shorter, reported) == is_straggler(plan, reported));
        assert(is_finisher(shorter, reported) == is_finisher(plan, reported));
        let fewer = shorter.failed(reported);
        let fewer_done = shorter.done(reported);
        assert forall|k: int| 0 <= k < failed.len() implies plan.targets.contains(
            #[trigger] failed[k],
        ) && !plan.finished(reported, failed[k]) by {
            if k < fewer.len() {
                assert(failed[k] == fewer[k]);
                let j = choose|j: int| 0 <= j < shorter.targets.len() && shorter.targets[j] == fewer[k];
                assert(plan.targets[j] == failed[k]);
            } else {
                assert(plan.targets[plan.targets.len() - 1] == failed[k]);
            }
        }
        assert forall|k: int|
            0 <= k < plan.targets.len() && !plan.finished(
                reported,
                #[trigger] plan.targets[k],
            ) implies failed.contains(plan.targets[k]) by {
            if k < shorter.targets.len() {
                assert(shorter.targets[k] == plan.targets[k]);
                let j = choose|j: int| 0 <= j < fewer.len() && fewer[j] == shorter.targets[k];
                assert(failed[j] == plan.targets[k]);
            } else {
                assert(failed[failed.len() - 1] == plan.targets[k]);
            }
        }
        assert forall|k: int|
            0 <= k < plan.targets.len() && plan.finished(
                reported,
                #[trigger] plan.targets[k],
            ) implies done.contains(plan.targets[k]) by {
            if k < shorter.targets.len() {
                assert(shorter.targets[k] == plan.targets[k]);
                let j = choose|j: int| 0 <= j < fewer_done.len() && fewer_done[j]
                    == shorter.targets[k];
                assert(done[j] == plan.targets[k]);
            } else {
                assert(done[done.len() - 1] == plan.targets[k]);
            }
        }
    }
}

} // verus!
