//! Address arithmetic of the flash region that backs the key-value store.
//!
//! The store sees offsets from zero; reads, writes and erases are all offset
//! by the partition base. Writes erase the whole sector they land in first;
//! erases walk a range sector by sector.

use vstd::prelude::*;

verus! {

/// Size of a single flash sector (4 KB).
pub const SECTOR_SIZE: u32 = 4096;

/// Base address of the dedicated key-value partition in the flash map.
pub const EKV_PARTITION_OFFSET: u32 = 0x9000;

/// Total bytes allocated for the key-value store (16 sectors = 64 KB).
pub const EKV_SIZE: u32 = 65536;

/// One end of an erase range of store offsets, as `RangeBounds` gives it.
#[derive(Debug, Clone, Copy, PartialEq, Eq, Structural)]
pub enum RangeBound {
    Included(u32),
    Excluded(u32),
    Unbounded,
}

/// The first store offset an erase covers.
pub open spec fn range_start_spec(start: RangeBound) -> int {
    match start {
        RangeBound::Included(s) => s as int,
        _ => 0,
    }
}

/// The store offset one past the last that an erase covers.
pub open spec fn range_end_spec(end: RangeBound) -> int {
    match end {
        RangeBound::Excluded(e) => e as int,
        RangeBound::Included(e) => e + 1,
        RangeBound::Unbounded => EKV_SIZE as int,
    }
}

/// The flash address of a store offset.
pub fn flash_address(offset: u32) -> (addr: u32)
    requires
        EKV_PARTITION_OFFSET + offset <= u32::MAX,
    ensures
        addr == EKV_PARTITION_OFFSET + offset,
{
    EKV_PARTITION_OFFSET + offset
}

/// The start address of the sector that holds `addr`.
pub fn sector_start(addr: u32) -> (start: u32)
    ensures
        start % SECTOR_SIZE == 0,
        start <= addr < start + SECTOR_SIZE,
{
    (addr / SECTOR_SIZE) * SECTOR_SIZE
}

/// The sector numbers an erase of flash addresses `[start, end)` visits: one
/// for each address `start + k * SECTOR_SIZE` below `end`, in order.
pub open spec fn erase_sectors_spec(start: int, end: int) -> Seq<u32> {
    let count: int = if start < end {
        (end - start - 1) / (SECTOR_SIZE as int) + 1
    } else {
        0
    };
    Seq::new(count as nat, |k: int| ((start + k * SECTOR_SIZE) / (SECTOR_SIZE as int)) as u32)
}

/// The sector numbers erased for the store offsets `[start, end)`: the walk over
/// their flash addresses.
pub open spec fn erase_plan_spec(start: int, end: int) -> Seq<u32> {
    erase_sectors_spec(EKV_PARTITION_OFFSET + start, EKV_PARTITION_OFFSET + end)
}

/// For a write at store offset `offset`: the flash address written, and the
/// half-open range `[start, end)` of store offsets of the sector erased before it.
pub fn write_plan(offset: u32) -> (plan: (u32, u32, u32))
    requires
        EKV_PARTITION_OFFSET + offset + SECTOR_SIZE <= u32::MAX,
    ensures
        plan.0 == EKV_PARTITION_OFFSET + offset,
        plan.1 % SECTOR_SIZE == 0,
        plan.1 <= offset < plan.2,
        plan.2 == plan.1 + SECTOR_SIZE,
        erase_plan_spec(plan.1 as int, plan.2 as int) == seq![(plan.0 / SECTOR_SIZE) as u32],
{
    let addr = flash_address(offset);
    let start = (offset / SECTOR_SIZE) * SECTOR_SIZE;
    let end = start + SECTOR_SIZE;
    proof {
        let s = erase_plan_spec(start as int, end as int);
        assert(s.len() == 1);
        assert((EKV_PARTITION_OFFSET + start) / 4096 == addr / 4096) by (nonlinear_arith)
            requires
                start == (offset / 4096) * 4096,
                addr == 0x9000 + offset,
        ;
        assert(s =~= seq![(addr / SECTOR_SIZE) as u32]);
    }
    (addr, start, end)
}

/// Resolve the bounds of an erase range to a half-open range `[start, end)` of
/// store offsets.
pub fn erase_bounds(start: RangeBound, end: RangeBound) -> (r: (u32, u32))
    requires
        end matches RangeBound::Included(e) ==> e < u32::MAX,
    ensures
        r.0 == range_start_spec(start),
        r.1 == range_end_spec(end),
{
    let s = match start {
        RangeBound::Included(s) => s,
        _ => 0,
    };
    let e = match end {
        RangeBound::Excluded(e) => e,
        RangeBound::Included(e) => e + 1,
        RangeBound::Unbounded => EKV_SIZE,
    };
    (s, e)
}

proof fn lemma_step_below_end(start: int, end: int, j: int)
    requires
        0 <= start < end,
        0 <= j,
    ensures
        (j < (end - start - 1) / 4096 + 1) <==> (start + j * 4096 < end),
{
    assert((j < (end - start - 1) / 4096 + 1) <==> (start + j * 4096 < end)) by (nonlinear_arith)
        requires
            0 <= start < end,
            0 <= j,
    ;
}

/// The sector numbers to erase for the flash addresses `[start, end)`, stepping
/// by one sector from `start`.
pub fn erase_sectors(start: u32, end: u32) -> (sectors: Vec<u32>)
    ensures
        sectors@ == erase_sectors_spec(start as int, end as int),
{
    let mut sectors: Vec<u32> = Vec::new();
    if start >= end {
        assert(sectors@ =~= erase_sectors_spec(start as int, end as int));
        return sectors;
    }
    let count: u32 = (end - start - 1) / SECTOR_SIZE + 1;
    let mut addr: u32 = start;
    let mut k: u32 = 0;
    proof {
        lemma_step_below_end(start as int, end as int, 0);
    }
    while k < count
        invariant
            start < end,
            count == (end - start - 1) / (SECTOR_SIZE as int) + 1,
            k < count ==> addr == start + k * SECTOR_SIZE,
            k <= count,
            k < count ==> addr < end,
            sectors@.len() == k,
            forall|j: int|
                0 <= j < k ==> #[trigger] sectors@[j] == ((start + j * SECTOR_SIZE) / (
                SECTOR_SIZE as int)) as u32,
        decreases count - k,
    {
        sectors.push(addr / SECTOR_SIZE);
        k = k + 1;
        if k < count {
            proof {
                lemma_step_below_end(start as int, end as int, k as int);
            }
            addr = addr + SECTOR_SIZE;
        }
    }
    assert(sectors@ =~= erase_sectors_spec(start as int, end as int));
    sectors
}

/// The sector numbers to erase for the store offsets `[start, end)`: the range
/// is moved to flash addresses by the partition offset, then walked.
pub fn erase_plan(start: u32, end: u32) -> (sectors: Vec<u32>)
    requires
        start < end ==> EKV_PARTITION_OFFSET + end <= u32::MAX,
    ensures
        sectors@ == erase_plan_spec(start as int, end as int),
{
    if start >= end {
        let sectors: Vec<u32> = Vec::new();
        assert(sectors@ =~= erase_plan_spec(start as int, end as int));
        return sectors;
    }
    erase_sectors(flash_address(start), flash_address(end))
}

/// An erase of store offsets whose start is sector-aligned erases every
/// offset of its range: the flash sector holding the address of any offset in
/// `[start, end)` is among the sectors erased.
pub proof fn lemma_erase_covers_aligned_range(start: u32, end: u32, offset: u32)
    requires
        start % SECTOR_SIZE == 0,
        start <= offset < end,
    ensures
        erase_plan_spec(start as int, end as int).contains(
            ((EKV_PARTITION_OFFSET + offset) / (SECTOR_SIZE as int)) as u32,
        ),
{
    let a: int = EKV_PARTITION_OFFSET + start;
    let e: int = EKV_PARTITION_OFFSET + end;
    let o: int = EKV_PARTITION_OFFSET + offset;
    let sectors = erase_plan_spec(start as int, end as int);
    let k: int = o / 4096 - a / 4096;
    assert(0 <= k && a + k * 4096 <= o && (a + k * 4096) / 4096 == o / 4096) by (nonlinear_arith)
        requires
            a % 4096 == 0,
            a <= o,
            k == o / 4096 - a / 4096,
    ;
    lemma_step_below_end(a, e, k);
    assert(sectors[k] == (o / (SECTOR_SIZE as int)) as u32);
}

/// An erase of the sector-aligned store offsets `[start, end)` erases exactly
/// the flash sectors `(0x9000 + start) / 4096 .. (0x9000 + end) / 4096`, in order.
pub proof fn lemma_erase_aligned_sectors(start: u32, end: u32)
    requires
        start % SECTOR_SIZE == 0,
        end % SECTOR_SIZE == 0,
        start < end,
    ensures
        erase_plan_spec(start as int, end as int).len() == (end - start) / (SECTOR_SIZE as int),
        forall|k: int|
            0 <= k < (end - start) / (SECTOR_SIZE as int) ==> #[trigger] erase_plan_spec(
                start as int,
                end as int,
            )[k] == (EKV_PARTITION_OFFSET + start) / (SECTOR_SIZE as int) + k,
{
    let a: int = EKV_PARTITION_OFFSET + start;
    let e: int = EKV_PARTITION_OFFSET + end;
    assert((e - a - 1) / 4096 + 1 == (end - start) / 4096) by (nonlinear_arith)
        requires
            e - a == end - start,
            (end - start) % 4096 == 0,
            end - start > 0,
    ;
    assert forall|k: int| 0 <= k < (end - start) / (SECTOR_SIZE as int) implies #[trigger]
        erase_plan_spec(start as int, end as int)[k] == a / 4096 + k by {
        assert((a + k * 4096) / 4096 == a / 4096 + k) by (nonlinear_arith)
            requires
                a % 4096 == 0,
        ;
    }
}

} // verus!
