//! Checks of what the boot environment's memory services handed out: the
//! alignment of allocations, and the order and the sense of the memory map.
//!
//! The environment allocates and reads; the functions here judge the plain
//! values that came back. A whole run of the services goes step by step:
//! the environment reports what a step gave, and [`test`] answers with the
//! fault that the report shows or with the step to make next.

use vstd::prelude::*;

verus! {

/// The size of a page of memory, in bytes.
pub const PAGE_SIZE: u64 = 4096;

/// The alignment that the block of the alignment check asks for, in bytes.
pub const BLOCK_ALIGNMENT: usize = 0x100;

/// One entry of the memory map: a run of pages of one kind.
#[derive(Clone, Copy, Debug, PartialEq, Eq, Structural)]
pub struct MemoryDescriptor {
    /// The kind of memory.
    pub ty: u32,
    /// The physical address at which the run starts.
    pub phys_start: u64,
    /// The virtual address at which the run starts.
    pub virt_start: u64,
    /// The number of pages in the run.
    pub page_count: u64,
    /// The attributes of the run.
    pub att: u64,
}

/// What a check of the memory services found wrong.
#[derive(Clone, Copy, Debug, PartialEq, Eq, Structural)]
pub enum MemoryFault {
    /// The environment did not hand out the memory asked for.
    AllocationFailed,
    /// The environment did not take back memory that it had handed out.
    ReleaseFailed,
    /// A page does not start at a multiple of the page size.
    PageNotAligned,
    /// A vector that was sorted is not in order.
    VectorNotSorted,
    /// A block does not start at a multiple of its alignment.
    WrongAlignment,
    /// The environment did not hand out the memory map.
    MapNotRetrieved,
    /// The memory map has no entry.
    MapEmpty,
    /// The entries of the memory map cannot be put in strictly rising order
    /// of their start addresses: two of them start at the same address.
    MapNotSorted,
    /// The memory map does not start at address zero where it must.
    MapNotAtZero,
    /// The lowest entry of the memory map has no page.
    EntryHasSizeZero,
}

/// What the environment is to do next in a run of the memory services.
#[derive(Clone, Copy, Debug, PartialEq, Eq, Structural)]
pub enum MemoryAction {
    /// Allocate one page without a table of services.
    AllocateFreestandingPage,
    /// Write to both ends of that page and free it.
    UseFreestandingPage,
    /// Allocate ten bytes from the pool without a table of services.
    AllocateFreestandingPool,
    /// Write to both ends of those bytes and free them.
    UseFreestandingPool,
    /// Allocate one page through the table of services.
    AllocatePage,
    /// Write to both ends of that page and free it.
    UsePage,
    /// Put a block that asks for [`BLOCK_ALIGNMENT`] on the heap.
    AllocateBlock,
    /// Read the memory map through the table of services.
    ReadMemoryMap,
    /// Read the memory map without a table of services.
    ReadFreestandingMemoryMap,
    /// Nothing: the run is complete.
    Finish,
}

/// What the environment reports of the step that it made.
#[derive(Debug)]
pub enum MemoryReport {
    /// The run begins; no step was made yet.
    Start,
    /// The address of the page allocated without a table of services, if
    /// one was handed out.
    FreestandingPage(Option<u64>),
    /// Whether that page was taken back.
    FreestandingPageUsed(bool),
    /// The address of the bytes allocated from the pool, if they were handed
    /// out.
    FreestandingPool(Option<u64>),
    /// Whether those bytes were taken back.
    FreestandingPoolUsed(bool),
    /// The address of the page allocated through the table of services, if
    /// one was handed out.
    Page(Option<u64>),
    /// Whether that page was taken back.
    PageUsed(bool),
    /// The address at which the heap put the block.
    Block(usize),
    /// The memory map read through the table of services, if it was handed
    /// out.
    MemoryMap(Option<Vec<MemoryDescriptor>>),
    /// The memory map read without a table of services, if it was handed
    /// out.
    FreestandingMemoryMap(Option<Vec<MemoryDescriptor>>),
}

/// Each value is at most the ones after it.
pub open spec fn ascending(values: Seq<i32>) -> bool {
    forall|i: int, j: int| 0 <= i <= j < values.len() ==> values[i] <= values[j]
}

/// Each entry starts at or above all entries before it.
pub open spec fn ascending_by_start(map: Seq<MemoryDescriptor>) -> bool {
    forall|i: int, j: int| 0 <= i <= j < map.len() ==> map[i].phys_start <= map[j].phys_start
}

/// No two entries start at the same address.
pub open spec fn distinct_starts(map: Seq<MemoryDescriptor>) -> bool {
    forall|i: int, j: int| 0 <= i < j < map.len() ==> map[i].phys_start != map[j].phys_start
}

/// `entry` is an entry of the map, and none starts below it.
pub open spec fn is_lowest(map: Seq<MemoryDescriptor>, entry: MemoryDescriptor) -> bool {
    &&& map.contains(entry)
    &&& forall|i: int| 0 <= i < map.len() ==> entry.phys_start <= (#[trigger] map[i]).phys_start
}

/// The entry of the map that starts lowest.
pub open spec fn lowest(map: Seq<MemoryDescriptor>) -> MemoryDescriptor {
    choose|entry: MemoryDescriptor| is_lowest(map, entry)
}

/// What is to be said of an allocated page.
pub open spec fn page_verdict(page: Option<u64>) -> Result<(), MemoryFault> {
    match page {
        None => Err(MemoryFault::AllocationFailed),
        Some(address) => if address % PAGE_SIZE == 0 {
            Ok(())
        } else {
            Err(MemoryFault::PageNotAligned)
        },
    }
}

/// What is to be said of a pool allocation.
pub open spec fn pool_verdict(pool: Option<u64>) -> Result<(), MemoryFault> {
    match pool {
        None => Err(MemoryFault::AllocationFailed),
        Some(_) => Ok(()),
    }
}

/// What is to be said of memory that was given back to the environment.
pub open spec fn release_verdict(freed: bool) -> Result<(), MemoryFault> {
    if freed {
        Ok(())
    } else {
        Err(MemoryFault::ReleaseFailed)
    }
}

/// What is to be said of the address of a block that asked for
/// [`BLOCK_ALIGNMENT`].
pub open spec fn alignment_verdict(address: usize) -> Result<(), MemoryFault> {
    if address % BLOCK_ALIGNMENT == 0 {
        Ok(())
    } else {
        Err(MemoryFault::WrongAlignment)
    }
}

/// What is to be said of a memory map, whatever the order of its entries:
/// the first of these faults that it shows, in this order, or none.
pub open spec fn map_verdict(map: Seq<MemoryDescriptor>, starts_at_zero: bool) -> Result<
    (),
    MemoryFault,
> {
    if map.len() == 0 {
        Err(MemoryFault::MapEmpty)
    } else if !distinct_starts(map) {
        Err(MemoryFault::MapNotSorted)
    } else if starts_at_zero && lowest(map).phys_start != 0 {
        Err(MemoryFault::MapNotAtZero)
    } else if lowest(map).page_count == 0 {
        Err(MemoryFault::EntryHasSizeZero)
    } else {
        Ok(())
    }
}

/// What is to be said of a memory map whose entries stand in rising order
/// of their start addresses.
pub open spec fn sorted_map_verdict(map: Seq<MemoryDescriptor>, starts_at_zero: bool) -> Result<
    (),
    MemoryFault,
> {
    if map.len() == 0 {
        Err(MemoryFault::MapEmpty)
    } else if !distinct_starts(map) {
        Err(MemoryFault::MapNotSorted)
    } else if starts_at_zero && map[0].phys_start != 0 {
        Err(MemoryFault::MapNotAtZero)
    } else if map[0].page_count == 0 {
        Err(MemoryFault::EntryHasSizeZero)
    } else {
        Ok(())
    }
}

/// What is to be said of a memory map that the environment was asked for.
pub open spec fn retrieved_map_verdict(
    map: Option<Vec<MemoryDescriptor>>,
    starts_at_zero: bool,
) -> Result<(), MemoryFault> {
    match map {
        None => Err(MemoryFault::MapNotRetrieved),
        Some(entries) => map_verdict(entries@, starts_at_zero),
    }
}

/// The fault of a verdict, or the action that follows where there is none.
pub open spec fn followed_by(verdict: Result<(), MemoryFault>, next: MemoryAction) -> Result<
    MemoryAction,
    MemoryFault,
> {
    match verdict {
        Ok(_) => Ok(next),
        Err(fault) => Err(fault),
    }
}

/// What a report of the environment leads to in a run of the memory
/// services: the fault that it shows, or the step to make next. The steps
/// come in this order: a page, then bytes from the pool, both without a
/// table of services; a page through the table; a block on the heap; the
/// memory map through the table and without it.
pub open spec fn run_step(report: MemoryReport, starts_at_zero: bool) -> Result<
    MemoryAction,
    MemoryFault,
> {
    match report {
        MemoryReport::Start => Ok(MemoryAction::AllocateFreestandingPage),
        MemoryReport::FreestandingPage(page) => followed_by(
            page_verdict(page),
            MemoryAction::UseFreestandingPage,
        ),
        MemoryReport::FreestandingPageUsed(freed) => followed_by(
            release_verdict(freed),
            MemoryAction::AllocateFreestandingPool,
        ),
        MemoryReport::FreestandingPool(pool) => followed_by(
            pool_verdict(pool),
            MemoryAction::UseFreestandingPool,
        ),
        MemoryReport::FreestandingPoolUsed(freed) => followed_by(
            release_verdict(freed),
            MemoryAction::AllocatePage,
        ),
        MemoryReport::Page(page) => followed_by(page_verdict(page), MemoryAction::UsePage),
        MemoryReport::PageUsed(freed) => followed_by(
            release_verdict(freed),
            MemoryAction::AllocateBlock,
        ),
        MemoryReport::Block(address) => followed_by(
            alignment_verdict(address),
            MemoryAction::ReadMemoryMap,
        ),
        MemoryReport::MemoryMap(map) => followed_by(
            retrieved_map_verdict(map, starts_at_zero),
            MemoryAction::ReadFreestandingMemoryMap,
        ),
        MemoryReport::FreestandingMemoryMap(map) => followed_by(
            retrieved_map_verdict(map, starts_at_zero),
            MemoryAction::Finish,
        ),
    }
}

/// Calls `sort_unstable` of the standard library on the vector's slice,
/// which sorts it in ascending order and may change the order of equal
/// values. The contract claims that the values afterwards are the values
/// from before, each as often as before, in ascending order.
#[verifier::external_body]
fn sort_unstable(values: &mut Vec<i32>)
    ensures
        ascending(final(values)@),
        final(values)@.to_multiset() == old(values)@.to_multiset(),
{
    values.sort_unstable();
}

/// Calls `sort_unstable_by_key` of the standard library on the vector's
/// slice, with the start address of an entry as its key. The function sorts
/// the slice in rising order of the keys and may change the order of
/// entries with equal keys. The contract claims that the entries afterwards
/// are the entries from before, each as often as before, in rising order of
/// their start addresses.
#[verifier::external_body]
fn sort_by_start(entries: &mut Vec<MemoryDescriptor>)
    ensures
        ascending_by_start(final(entries)@),
        final(entries)@.to_multiset() == old(entries)@.to_multiset(),
{
    entries.sort_unstable_by_key(|entry| entry.phys_start);
}

/// The entries of a map, put in rising order of their start addresses, show
/// what the map shows: the same fault or none.
pub proof fn lemma_sorted_map_verdict(
    map: Seq<MemoryDescriptor>,
    sorted: Seq<MemoryDescriptor>,
    starts_at_zero: bool,
)
    requires
        sorted.to_multiset() == map.to_multiset(),
        ascending_by_start(sorted),
    ensures
        sorted.len() == map.len(),
        distinct_starts(sorted) == distinct_starts(map),
        map.len() > 0 && distinct_starts(map) ==> lowest(map) == sorted[0],
        map_verdict(map, starts_at_zero) == sorted_map_verdict(sorted, starts_at_zero),
{
    map.to_multiset_ensures();
    sorted.to_multiset_ensures();
    assert forall|entry: MemoryDescriptor| map.contains(entry) == sorted.contains(entry) by {
        assert(map.contains(entry) <==> map.to_multiset().count(entry) > 0);
        assert(sorted.contains(entry) <==> sorted.to_multiset().count(entry) > 0);
    }
    if distinct_starts(map) {
        lemma_distinct_starts_carry_over(map, sorted);
    }
    if distinct_starts(sorted) {
        lemma_distinct_starts_carry_over(sorted, map);
    }
    if map.len() > 0 && distinct_starts(map) {
        let first = sorted[0];
        assert(sorted.contains(first));
        assert forall|i: int| 0 <= i < map.len() implies first.phys_start <= (
        #[trigger] map[i]).phys_start by {
            assert(map.contains(map[i]));
            let a = choose|a: int| 0 <= a < sorted.len() && sorted[a] == map[i];
            assert(sorted[0].phys_start <= sorted[a].phys_start);
        }
        assert(is_lowest(map, first));
        let low = lowest(map);
        assert(is_lowest(map, low));
        let i = choose|i: int| 0 <= i < map.len() && map[i] == low;
        let j = choose|j: int| 0 <= j < map.len() && map[j] == first;
        assert(low.phys_start <= map[j].phys_start);
        assert(first.phys_start <= map[i].phys_start);
        assert(i == j);
    }
}

/// Where no two entries of one sequence start at the same address, none do
/// in a sequence that holds the same entries, each as often.
proof fn lemma_distinct_starts_carry_over(from: Seq<MemoryDescriptor>, to: Seq<MemoryDescriptor>)
    requires
        from.to_multiset() == to.to_multiset(),
        distinct_starts(from),
    ensures
        distinct_starts(to),
{
    from.to_multiset_ensures();
    to.to_multiset_ensures();
    assert(from.no_duplicates()) by {
        assert forall|i: int, j: int|
            0 <= i < from.len() && 0 <= j < from.len() && i != j implies from[i] != from[j] by {
            if i < j {
                assert(from[i].phys_start != from[j].phys_start);
            } else {
                assert(from[j].phys_start != from[i].phys_start);
            }
        }
    }
    from.lemma_multiset_has_no_duplicates();
    to.lemma_multiset_has_no_duplicates_conv();
    assert forall|a: int, b: int| 0 <= a < b < to.len() implies to[a].phys_start
        != to[b].phys_start by {
        assert(to[a] != to[b]);
        assert(to.contains(to[a]) && to.contains(to[b]));
        assert(to.to_multiset().count(to[a]) > 0 && to.to_multiset().count(to[b]) > 0);
        assert(from.contains(to[a]) && from.contains(to[b]));
        let i = choose|i: int| 0 <= i < from.len() && from[i] == to[a];
        let j = choose|j: int| 0 <= j < from.len() && from[j] == to[b];
        if i < j {
            assert(from[i].phys_start != from[j].phys_start);
        } else {
            assert(i != j);
            assert(from[j].phys_start != from[i].phys_start);
        }
    }
}

/// Checks an allocated page: it was handed out, and it starts at a multiple
/// of [`PAGE_SIZE`].
pub fn check_page(page: Option<u64>) -> (verdict: Result<(), MemoryFault>)
    ensures
        verdict == page_verdict(page),
{
    match page {
        None => Err(MemoryFault::AllocationFailed),
        Some(address) => if address % PAGE_SIZE == 0 {
            Ok(())
        } else {
            Err(MemoryFault::PageNotAligned)
        },
    }
}

/// Checks that the heap works: sorts a vector of five numbers and looks
/// whether they came out in order.
pub fn vec_alloc() -> (verdict: Result<(), MemoryFault>)
    ensures
        verdict is Ok,
{
    let mut values: Vec<i32> = Vec::new();
    values.push(-5);
    values.push(16);
    values.push(23);
    values.push(4);
    values.push(0);
    let ghost before = values@;
    sort_unstable(&mut values);
    proof {
        let after = values@;
        before.to_multiset_ensures();
        after.to_multiset_ensures();
        assert(before[0] == -5 && before[1] == 16 && before[2] == 23 && before[3] == 4 && before[4]
            == 0);
        assert(after.len() == before.len());
        assert(before.contains(-5i32) && before.contains(16i32) && before.contains(23i32)
            && before.contains(4i32) && before.contains(0i32));
        assert(before.to_multiset().count(-5i32) > 0 && after.to_multiset().count(-5i32) > 0);
        assert(before.to_multiset().count(16i32) > 0 && after.to_multiset().count(16i32) > 0);
        assert(before.to_multiset().count(23i32) > 0 && after.to_multiset().count(23i32) > 0);
        assert(before.to_multiset().count(4i32) > 0 && after.to_multiset().count(4i32) > 0);
        assert(before.to_multiset().count(0i32) > 0 && after.to_multiset().count(0i32) > 0);
        assert(after.contains(-5i32) && after.contains(16i32) && after.contains(23i32)
            && after.contains(4i32) && after.contains(0i32));
        let a = choose|i: int| 0 <= i < after.len() && after[i] == -5i32;
        let b = choose|i: int| 0 <= i < after.len() && after[i] == 0i32;
        let c = choose|i: int| 0 <= i < after.len() && after[i] == 4i32;
        let d = choose|i: int| 0 <= i < after.len() && after[i] == 16i32;
        let e = choose|i: int| 0 <= i < after.len() && after[i] == 23i32;
        assert(a < b) by {
            if b <= a {
                assert(after[b] <= after[a]);
            }
        }
        assert(b < c) by {
            if c <= b {
                assert(after[c] <= after[b]);
            }
        }
        assert(c < d) by {
            if d <= c {
                assert(after[d] <= after[c]);
            }
        }
        assert(d < e) by {
            if e <= d {
                assert(after[e] <= after[d]);
            }
        }
        assert(a == 0 && b == 1 && c == 2 && d == 3 && e == 4);
    }
    let in_order: bool = values.len() == 5 && values[0] == -5 && values[1] == 0 && values[2] == 4
        && values[3] == 16 && values[4] == 23;
    if in_order {
        Ok(())
    } else {
        Err(MemoryFault::VectorNotSorted)
    }
}

/// Checks the address of a heap block that asked for [`BLOCK_ALIGNMENT`].
pub fn alloc_alignment(address: usize) -> (verdict: Result<(), MemoryFault>)
    ensures
        verdict == alignment_verdict(address),
{
    if address % BLOCK_ALIGNMENT == 0 {
        Ok(())
    } else {
        Err(MemoryFault::WrongAlignment)
    }
}

/// Whether memory was given back to the environment.
fn check_release(freed: bool) -> (verdict: Result<(), MemoryFault>)
    ensures
        verdict == release_verdict(freed),
{
    if freed {
        Ok(())
    } else {
        Err(MemoryFault::ReleaseFailed)
    }
}

/// Judges entries that stand in rising order of their start addresses.
fn judge_sorted(entries: &Vec<MemoryDescriptor>, starts_at_zero: bool) -> (verdict: Result<
    (),
    MemoryFault,
>)
    requires
        ascending_by_start(entries@),
    ensures
        verdict == sorted_map_verdict(entries@, starts_at_zero),
{
    if entries.len() == 0 {
        return Err(MemoryFault::MapEmpty);
    }
    let mut current: MemoryDescriptor = entries[0];
    let mut k: usize = 1;
    while k < entries.len()
        invariant
            1 <= k <= entries@.len(),
            current == entries@[k - 1],
            ascending_by_start(entries@),
            forall|i: int, j: int|
                0 <= i < j < k ==> entries@[i].phys_start != entries@[j].phys_start,
        decreases entries@.len() - k,
    {
        let value: MemoryDescriptor = entries[k];
        if value.phys_start <= current.phys_start {
            assert(entries@[k - 1].phys_start <= entries@[k as int].phys_start);
            return Err(MemoryFault::MapNotSorted);
        }
        assert forall|i: int| 0 <= i < k implies entries@[i].phys_start
            != entries@[k as int].phys_start by {
            assert(entries@[i].phys_start <= entries@[k - 1].phys_start);
        }
        current = value;
        k = k + 1;
    }
    let first: MemoryDescriptor = entries[0];
    if starts_at_zero && first.phys_start != 0 {
        return Err(MemoryFault::MapNotAtZero);
    }
    if first.page_count == 0 {
        return Err(MemoryFault::EntryHasSizeZero);
    }
    Ok(())
}

/// Checks a memory map: sorts its entries by their start addresses and
/// then looks whether each starts above the one before it, whether the
/// first starts at address zero, where `starts_at_zero` says that memory
/// does, and whether the first has at least one page.
///
/// So the map passes exactly if it has an entry, no two entries start at
/// the same address, and the entry that starts lowest starts at zero, where
/// that is asked, and has a page. The order in which the entries come does
/// not matter.
pub fn check_memory_map(memory_map: Vec<MemoryDescriptor>, starts_at_zero: bool) -> (verdict:
    Result<(), MemoryFault>)
    ensures
        verdict == map_verdict(memory_map@, starts_at_zero),
{
    let mut entries = memory_map;
    sort_by_start(&mut entries);
    proof {
        lemma_sorted_map_verdict(memory_map@, entries@, starts_at_zero);
    }
    judge_sorted(&entries, starts_at_zero)
}

/// Checks a memory map that the environment was asked for: it was handed
/// out, and it passes [`check_memory_map`].
pub fn memory_map(retrieved: Option<Vec<MemoryDescriptor>>, starts_at_zero: bool) -> (verdict:
    Result<(), MemoryFault>)
    ensures
        verdict == retrieved_map_verdict(retrieved, starts_at_zero),
{
    match retrieved {
        None => Err(MemoryFault::MapNotRetrieved),
        Some(entries) => check_memory_map(entries, starts_at_zero),
    }
}

/// Makes one step of a run of the memory services: judges what the
/// environment reports of the step that it made, and answers with the fault
/// that the report shows or with what the environment is to do next. After
/// the page that came through the table of services, the heap is checked
/// with [`vec_alloc`] before the run goes on.
pub fn test(report: MemoryReport, starts_at_zero: bool) -> (next: Result<MemoryAction, MemoryFault>)
    ensures
        next == run_step(report, starts_at_zero),
{
    match report {
        MemoryReport::Start => Ok(MemoryAction::AllocateFreestandingPage),
        MemoryReport::FreestandingPage(page) => match check_page(page) {
            Ok(_) => Ok(MemoryAction::UseFreestandingPage),
            Err(fault) => Err(fault),
        },
        MemoryReport::FreestandingPageUsed(freed) => match check_release(freed) {
            Ok(_) => Ok(MemoryAction::AllocateFreestandingPool),
            Err(fault) => Err(fault),
        },
        MemoryReport::FreestandingPool(pool) => match pool {
            Some(_) => Ok(MemoryAction::UseFreestandingPool),
            None => Err(MemoryFault::AllocationFailed),
        },
        MemoryReport::FreestandingPoolUsed(freed) => match check_release(freed) {
            Ok(_) => Ok(MemoryAction::AllocatePage),
            Err(fault) => Err(fault),
        },
        MemoryReport::Page(page) => match check_page(page) {
            Ok(_) => Ok(MemoryAction::UsePage),
            Err(fault) => Err(fault),
        },
        MemoryReport::PageUsed(freed) => match check_release(freed) {
            Ok(_) => match vec_alloc() {
                Ok(_) => Ok(MemoryAction::AllocateBlock),
                Err(fault) => Err(fault),
            },
            Err(fault) => Err(fault),
        },
        MemoryReport::Block(address) => match alloc_alignment(address) {
            Ok(_) => Ok(MemoryAction::ReadMemoryMap),
            Err(fault) => Err(fault),
        },
        MemoryReport::MemoryMap(map) => match memory_map(map, starts_at_zero) {
            Ok(_) => Ok(MemoryAction::ReadFreestandingMemoryMap),
            Err(fault) => Err(fault),
        },
        MemoryReport::FreestandingMemoryMap(map) => match memory_map(map, starts_at_zero) {
            Ok(_) => Ok(MemoryAction::Finish),
            Err(fault) => Err(fault),
        },
    }
}

} // verus!
