//! Window calculators: which rows or threads are visible around the current
//! position. Every window is an ordered list of slots; a slot is either an
//! in-range index or a placeholder for positions off the pattern's start or
//! end, so the renderer can draw blank cells without special-casing the
//! boundaries.

use vstd::prelude::*;

use crate::mode::{OperationMode, ThreadingMode};
use crate::pattern::{PatternData, Rgb};

verus! {

/// Rows shown before the current one in the row-mode window.
pub const ROW_WINDOW_BACK: u32 = 2;

/// Total rows in the row-mode window (offsets `-2..=6` from the current row).
pub const ROW_WINDOW_LEN: u32 = 9;

/// Upper bound on the threading batch size.
pub const BATCH_SIZE_MAX: u32 = 25;

/// The slot for (possibly out-of-range) position `i`: the index itself when
/// `1 <= i <= last`, a placeholder otherwise.
pub open spec fn slot_at(i: int, last: u32) -> Option<u32> {
    if 1 <= i <= last {
        Some(i as u32)
    } else {
        None
    }
}

/// Where the threading window begins. `Continuous` pins the current thread
/// to the third visible column, so the window starts two threads before it
/// (positions below `1` render as placeholders, not wrapped). `Batched`
/// aligns the window to fixed batch boundaries: it starts just past the
/// largest multiple of `batch` strictly below the current thread.
pub open spec fn threading_start_spec(current: u32, tmode: ThreadingMode, batch: u32) -> int {
    match tmode {
        ThreadingMode::Continuous => current - 2,
        ThreadingMode::Batched => ((current - 1) as int / batch as int) * batch + 1,
    }
}

/// In the continuous policy the current thread is always the third visible
/// column, whatever the batch size.
pub proof fn lemma_continuous_keeps_current_third(current: u32, batch: u32)
    requires
        3 <= batch,
    ensures
        threading_start_spec(current, ThreadingMode::Continuous, batch) + 2 == current,
{
}

/// The batched window always contains the current thread: its start is
/// batch-aligned (it sits just past a multiple of the batch size) and the
/// current thread falls within the batch it opens.
pub proof fn lemma_batched_window_contains_current(current: u32, batch: u32)
    requires
        1 <= current,
        1 <= batch,
    ensures
        ({
            let start = threading_start_spec(current, ThreadingMode::Batched, batch);
            &&& start <= current < start + batch
            &&& (start - 1) % (batch as int) == 0
        }),
{
    let c = (current - 1) as int;
    let b = batch as int;
    vstd::arithmetic::div_mod::lemma_fundamental_div_mod(c, b);
    vstd::arithmetic::div_mod::lemma_mod_bound(c, b);
    vstd::arithmetic::div_mod::lemma_mod_multiples_basic(c / b, b);
    assert(b * (c / b) == (c / b) * b) by (nonlinear_arith);
}

/// One visible cell of the window: an in-range row or thread index together
/// with the shafts active there (`None` where the pattern has no entry) and
/// its display color.
#[derive(Debug, Clone, PartialEq, Eq)]
pub struct WindowCell {
    pub index: u32,
    pub shafts: Option<Vec<u32>>,
    pub color: Option<Rgb>,
}

/// What a produced cell must be for a given slot: placeholders stay
/// placeholders, and an in-range slot carries exactly the data the snapshot
/// holds for its index.
pub open spec fn cell_matches(
    data: PatternData,
    mode: OperationMode,
    slot: Option<u32>,
    out: Option<WindowCell>,
) -> bool {
    match slot {
        None => out is None,
        Some(i) => out matches Some(c) && c.index == i && c.color == data.color_spec(
            mode,
            i as int,
        ) && (match c.shafts {
            Some(v) => data.lookup_spec(mode, i as int) == Some(v@),
            None => data.lookup_spec(mode, i as int) is None,
        }),
    }
}

/// The window of `count` consecutive slots beginning at (possibly
/// out-of-range) position `start`: indices within `[1, last]` appear as
/// themselves, every other position is a placeholder.
pub fn index_window(start: i64, count: u32, last: u32) -> (r: Vec<Option<u32>>)
    requires
        -2 <= start,
        start <= 0x1_0000_0000i64,
        count <= BATCH_SIZE_MAX,
    ensures
        r@.len() == count,
        forall|k: int| 0 <= k < count ==> r@[k] == slot_at(start + k, last),
{
    let mut r: Vec<Option<u32>> = Vec::new();
    let mut k: u32 = 0;
    while k < count
        invariant
            k <= count,
            -2 <= start <= 0x1_0000_0000i64,
            count <= BATCH_SIZE_MAX,
            r@.len() == k,
            forall|j: int| 0 <= j < k ==> r@[j] == slot_at(start + j, last),
        decreases count - k,
    {
        let i: i64 = start + k as i64;
        if 1 <= i && i <= last as i64 {
            r.push(Some(i as u32));
        } else {
            r.push(None);
        }
        k = k + 1;
    }
    r
}

/// The threading-mode window: `batch` consecutive thread slots beginning at
/// the policy's start position. In `Continuous` the current thread is always
/// the third slot; in `Batched` the window covers the fixed batch the
/// current thread falls in, so changing thread within a batch does not
/// scroll the window.
pub fn threading_window(current: u32, last: u32, tmode: ThreadingMode, batch: u32) -> (r: Vec<
    Option<u32>,
>)
    requires
        1 <= current,
        1 <= batch <= BATCH_SIZE_MAX,
    ensures
        r@.len() == batch,
        forall|k: int|
            0 <= k < batch ==> r@[k] == slot_at(threading_start_spec(current, tmode, batch) + k, last),
{
    match tmode {
        ThreadingMode::Continuous => {
            let start: i64 = current as i64 - 2;
            index_window(start, batch, last)
        },
        ThreadingMode::Batched => {
            let rem: u32 = (current - 1) % batch;
            proof {
                vstd::arithmetic::div_mod::lemma_fundamental_div_mod(
                    (current - 1) as int,
                    batch as int,
                );
                vstd::arithmetic::mul::lemma_mul_nonnegative(
                    batch as int,
                    (current - 1) as int / batch as int,
                );
                assert(batch as int * ((current - 1) as int / batch as int) == ((current - 1) as int
                    / batch as int) * batch as int) by (nonlinear_arith);
            }
            let start: i64 = (current - rem) as i64;
            index_window(start, batch, last)
        },
    }
}

/// The row-mode window for liftplan and treadling: a fixed nine-row
/// neighborhood of the current row, two rows back through six rows forward,
/// with placeholders past either end of the pattern.
pub fn row_window(row: u32, last: u32) -> (r: Vec<Option<u32>>)
    requires
        1 <= row,
    ensures
        r@.len() == ROW_WINDOW_LEN,
        forall|k: int| 0 <= k < ROW_WINDOW_LEN ==> r@[k] == slot_at(row - ROW_WINDOW_BACK + k, last),
{
    let start: i64 = row as i64 - ROW_WINDOW_BACK as i64;
    index_window(start, ROW_WINDOW_LEN, last)
}

/// Fill a slot list with pattern data: each in-range slot becomes a cell
/// carrying the shafts and color stored for its index, and each placeholder
/// slot stays a placeholder — the snapshot is never consulted for an
/// out-of-range position.
pub fn window_cells(data: &PatternData, mode: OperationMode, slots: &Vec<Option<u32>>) -> (r: Vec<
    Option<WindowCell>,
>)
    requires
        forall|k: int| 0 <= k < slots@.len() ==> (#[trigger] slots@[k] matches Some(i) ==> i >= 1),
    ensures
        r@.len() == slots@.len(),
        forall|k: int| 0 <= k < slots@.len() ==> cell_matches(*data, mode, slots@[k], r@[k]),
{
    let mut r: Vec<Option<WindowCell>> = Vec::new();
    let mut k: usize = 0;
    while k < slots.len()
        invariant
            k <= slots@.len(),
            r@.len() == k,
            forall|j: int| 0 <= j < slots@.len() ==> (#[trigger] slots@[j] matches Some(i) ==> i >= 1),
            forall|j: int| 0 <= j < k ==> cell_matches(*data, mode, slots@[j], r@[j]),
        decreases slots@.len() - k,
    {
        match &slots[k] {
            Some(i) => {
                let cell = WindowCell {
                    index: *i,
                    shafts: data.lookup(mode, *i),
                    color: data.color(mode, *i),
                };
                r.push(Some(cell));
            },
            None => {
                r.push(None);
            },
        }
        k = k + 1;
    }
    r
}

} // verus!
