//! The mathematical model of the roster: the processors in their fixed
//! order, which of them holds the bootstrap role, and which of them are
//! still running a dispatched procedure.

use crate::processor::ProcessorInformation;
use crate::status::ProcessorState;
use vstd::prelude::*;

verus! {

/// The table of all logical processors, as contracts speak of it.
pub struct ProcessorRoster {
    /// The processors by processor number. Empty until discovery has
    /// completed; from then on the length never changes.
    pub processors: Seq<ProcessorInformation>,
    /// The processor number of the bootstrap processor.
    pub bootstrap: int,
    /// For each processor, whether it is still running a procedure that was
    /// dispatched to it.
    pub busy: Seq<bool>,
    /// Whether the environment can run procedures on application processors.
    pub dispatch_supported: bool,
}

impl ProcessorRoster {
    /// The number of processors, the bootstrap processor included.
    pub open spec fn total(self) -> nat {
        self.processors.len()
    }

    /// Discovery has completed.
    pub open spec fn is_ready(self) -> bool {
        self.processors.len() > 0
    }

    /// `index` names a processor of the roster.
    pub open spec fn has(self, index: int) -> bool {
        0 <= index < self.processors.len()
    }

    /// The state of the processor at `index`.
    pub open spec fn state(self, index: int) -> ProcessorState {
        self.processors[index].state()
    }

    /// The processor at `index` is an enabled application processor.
    pub open spec fn is_eligible(self, index: int) -> bool {
        self.has(index) && self.processors[index].is_eligible()
    }

    /// How many of the first `n` processors are enabled.
    pub open spec fn enabled_below(self, n: int) -> nat
        decreases n,
    {
        if n <= 0 {
            0
        } else {
            self.enabled_below(n - 1) + if self.state(n - 1).enabled {
                1nat
            } else {
                0nat
            }
        }
    }

    /// How many processors are enabled, the bootstrap processor included.
    pub open spec fn enabled_count(self) -> nat {
        self.enabled_below(self.processors.len() as int)
    }

    /// The enabled application processors among the first `n` processors, in
    /// ascending order.
    pub open spec fn targets_below(self, n: int) -> Seq<usize>
        decreases n,
    {
        if n <= 0 {
            Seq::empty()
        } else if self.is_eligible(n - 1) {
            self.targets_below(n - 1).push((n - 1) as usize)
        } else {
            self.targets_below(n - 1)
        }
    }

    /// The processors that a dispatch to all application processors goes to,
    /// in the order in which they run when they run one after another.
    pub open spec fn targets(self) -> Seq<usize> {
        self.targets_below(self.processors.len() as int)
    }

    /// No two processors share a hardware identifier.
    pub open spec fn identifiers_unique(self) -> bool {
        forall|i: int, j: int|
            0 <= i < j < self.processors.len() ==> self.processors[i].processor_id
                != self.processors[j].processor_id
    }

    /// Exactly the processor at `self.bootstrap` carries the bootstrap flag.
    pub open spec fn one_bootstrap(self) -> bool {
        &&& self.has(self.bootstrap)
        &&& forall|i: int|
            0 <= i < self.processors.len() ==> (#[trigger] self.processors[i].state().is_bootstrap
                <==> i == self.bootstrap)
    }

    /// What holds of every roster at all times.
    ///
    /// Before discovery the roster is empty. After it, exactly one processor
    /// holds the bootstrap role and that processor is enabled; identifiers
    /// are unique; and only enabled application processors run dispatched
    /// procedures.
    pub open spec fn wf(self) -> bool {
        &&& self.busy.len() == self.processors.len()
        &&& self.processors.len() <= usize::MAX
        &&& if self.processors.len() == 0 {
            self.bootstrap == 0
        } else {
            &&& self.one_bootstrap()
            &&& self.state(self.bootstrap).enabled
        }
        &&& self.identifiers_unique()
        &&& forall|i: int|
            0 <= i < self.processors.len() && #[trigger] self.busy[i] ==> self.is_eligible(i)
    }

    /// The two rosters describe the same hardware: as many processors, each
    /// with the identifier and the location that it had.
    pub open spec fn same_hardware(self, other: ProcessorRoster) -> bool {
        &&& self.processors.len() == other.processors.len()
        &&& self.dispatch_supported == other.dispatch_supported
        &&& forall|i: int|
            0 <= i < self.processors.len() ==> (#[trigger] self.processors[i]).same_hardware(
                other.processors[i],
            )
    }

    /// The roster in which the given processors have become busy.
    pub open spec fn start(self, targets: Seq<usize>) -> ProcessorRoster {
        ProcessorRoster {
            busy: Seq::new(self.busy.len(), |i: int| self.busy[i] || targets.contains(i as usize)),
            ..self
        }
    }

    /// The roster in which the given processors are no longer busy.
    pub open spec fn release(self, released: Seq<usize>) -> ProcessorRoster {
        ProcessorRoster {
            busy: Seq::new(
                self.busy.len(),
                |i: int| self.busy[i] && !released.contains(i as usize),
            ),
            ..self
        }
    }
}

/// What a discovered table of processors must meet to become a roster: it
/// is not empty, its first processor and no other carries the bootstrap
/// flag, that processor is enabled, and no two identifiers are equal.
pub open spec fn is_discovery(processors: Seq<ProcessorInformation>) -> bool {
    &&& processors.len() > 0
    &&& forall|i: int|
        0 <= i < processors.len() ==> (#[trigger] processors[i].state().is_bootstrap <==> i == 0)
    &&& processors[0].state().enabled
    &&& forall|i: int, j: int|
        0 <= i < j < processors.len() ==> processors[i].processor_id
            != processors[j].processor_id
}

/// A sequence with one more item at its end holds that item and what it
/// held before.
pub proof fn lemma_push_contains(items: Seq<usize>, item: usize)
    ensures
        forall|t: usize| #[trigger] items.push(item).contains(t) <==> items.contains(t) || t == item,
{
    let longer = items.push(item);
    assert forall|t: usize| #[trigger] longer.contains(t) <==> items.contains(t) || t
        == item by {
        if items.contains(t) {
            let j = choose|j: int| 0 <= j < items.len() && items[j] == t;
            assert(longer[j] == t);
        }
        if t == item {
            assert(longer[items.len() as int] == t);
        }
    }
}

/// At most `n` of the first `n` processors are enabled.
pub proof fn lemma_enabled_below_bound(roster: ProcessorRoster, n: int)
    requires
        0 <= n,
    ensures
        roster.enabled_below(n) <= n,
    decreases n,
{
    if n > 0 {
        lemma_enabled_below_bound(roster, n - 1);
    }
}

/// `targets_below(n)` holds exactly the enabled application processors below
/// `n`, each once, in ascending order.
pub proof fn lemma_targets_below(roster: ProcessorRoster, n: int)
    requires
        0 <= n <= roster.processors.len() <= usize::MAX,
    ensures
        roster.targets_below(n).len() <= n,
        forall|k: int|
            0 <= k < roster.targets_below(n).len() ==> (#[trigger] roster.targets_below(n)[k]) < n
                && roster.is_eligible(roster.targets_below(n)[k] as int),
        forall|j: int, k: int|
            0 <= j < k < roster.targets_below(n).len() ==> roster.targets_below(n)[j]
                < roster.targets_below(n)[k],
        forall|i: int|
            0 <= i < n && roster.is_eligible(i) ==> roster.targets_below(n).contains(i as usize),
    decreases n,
{
    if n > 0 {
        lemma_targets_below(roster, n - 1);
        let before = roster.targets_below(n - 1);
        let now = roster.targets_below(n);
        if roster.is_eligible(n - 1) {
            assert(now == before.push((n - 1) as usize));
            assert(now[before.len() as int] == (n - 1) as usize);
            assert forall|i: int| 0 <= i < n && roster.is_eligible(i) implies now.contains(
                i as usize,
            ) by {
                if i < n - 1 {
                    let k = choose|k: int| 0 <= k < before.len() && before[k] == i as usize;
                    assert(now[k] == i as usize);
                } else {
                    assert(now[before.len() as int] == i as usize);
                }
            }
        } else {
            assert forall|i: int| 0 <= i < n && roster.is_eligible(i) implies now.contains(
                i as usize,
            ) by {
                assert(before.contains(i as usize));
            }
        }
    }
}

} // verus!
