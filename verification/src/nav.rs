//! Position arithmetic: advancing, retreating and clamping a 1-based index
//! with wraparound at both ends of the pattern.

use vstd::prelude::*;

verus! {

/// A pattern with no rows or threads for the active mode is treated as if it
/// had exactly one, so every navigation and windowing operation works on a
/// non-empty range `[1, last]`.
pub open spec fn effective_last_spec(last: u32) -> u32 {
    if last == 0 {
        1u32
    } else {
        last
    }
}

/// The position one step forward from `p`: `p + 1`, wrapping to `1` past
/// `last`. A stale position above `last` (the pattern shrank) also wraps
/// to `1`, matching a plain increment-then-wrap.
pub open spec fn advance_spec(p: u32, last: u32) -> u32 {
    if p >= last {
        1u32
    } else {
        (p + 1) as u32
    }
}

/// The position one step backward from `p`: `p - 1`, wrapping from `1` to
/// `last`. A stale position above `last` simply steps down toward range.
pub open spec fn retreat_spec(p: u32, last: u32) -> u32 {
    if p <= 1 {
        last
    } else {
        (p - 1) as u32
    }
}

/// `p` forced into `[1, last]`; values below go to `1`, values above to
/// `last`.
pub open spec fn clamp_spec(p: u32, last: u32) -> u32 {
    if p < 1 {
        1u32
    } else if p > last {
        last
    } else {
        p
    }
}

/// `p` advanced `n` times in a pattern of `last` steps.
pub open spec fn advance_n_spec(p: u32, last: u32, n: nat) -> u32
    decreases n,
{
    if n == 0 {
        p
    } else {
        advance_spec(advance_n_spec(p, last, (n - 1) as nat), last)
    }
}

pub fn effective_last(last: u32) -> (r: u32)
    ensures
        r == effective_last_spec(last),
        r >= 1,
{
    if last == 0 {
        1
    } else {
        last
    }
}

pub fn advance_index(p: u32, last: u32) -> (r: u32)
    requires
        1 <= p,
        1 <= last,
    ensures
        r == advance_spec(p, last),
        1 <= r <= last,
{
    if p >= last {
        1
    } else {
        p + 1
    }
}

pub fn retreat_index(p: u32, last: u32) -> (r: u32)
    requires
        1 <= p,
        1 <= last,
    ensures
        r == retreat_spec(p, last),
        1 <= r,
        p <= last ==> r <= last,
{
    if p <= 1 {
        last
    } else {
        p - 1
    }
}

pub fn clamp_index(p: u32, last: u32) -> (r: u32)
    requires
        1 <= last,
    ensures
        r == clamp_spec(p, last),
        1 <= r <= last,
{
    if p < 1 {
        1
    } else if p > last {
        last
    } else {
        p
    }
}

/// After `n <= last` forward steps from an in-range position, the position is
/// `p + n`, reduced by `last` once it passes the end.
proof fn lemma_advance_n_closed_form(p: u32, last: u32, n: nat)
    requires
        1 <= p <= last,
        n <= last,
    ensures
        advance_n_spec(p, last, n) == if p + n <= last {
            (p + n) as u32
        } else {
            (p + n - last) as u32
        },
    decreases n,
{
    if n > 0 {
        lemma_advance_n_closed_form(p, last, (n - 1) as nat);
    }
}

/// Stepping once and then `n` more times is the same as stepping `n + 1`
/// times.
pub proof fn lemma_advance_n_unfold_left(p: u32, last: u32, n: nat)
    ensures
        advance_n_spec(advance_spec(p, last), last, n) == advance_n_spec(p, last, n + 1),
    decreases n,
{
    let q = advance_spec(p, last);
    if n > 0 {
        lemma_advance_n_unfold_left(p, last, (n - 1) as nat);
        assert(advance_n_spec(q, last, n) == advance_spec(advance_n_spec(q, last, (n - 1) as nat), last));
        assert(advance_n_spec(p, last, n + 1) == advance_spec(advance_n_spec(p, last, n), last));
    } else {
        assert(advance_n_spec(q, last, 0) == q);
        assert(advance_n_spec(p, last, 1) == advance_spec(advance_n_spec(p, last, 0), last));
    }
}

/// Full-cycle wraparound: from any in-range starting position, exactly `last`
/// forward steps return the position to its starting value.
pub proof fn lemma_full_cycle(p: u32, last: u32)
    requires
        1 <= p <= last,
    ensures
        advance_n_spec(p, last, last as nat) == p,
{
    lemma_advance_n_closed_form(p, last, last as nat);
}

/// Wraparound at the boundaries: stepping back from `1` lands on `last`, and
/// stepping forward from `last` lands on `1`.
pub proof fn lemma_boundary_wrap(last: u32)
    requires
        1 <= last,
    ensures
        retreat_spec(1u32, last) == last,
        advance_spec(last, last) == 1u32,
{
}

/// Advance and retreat are inverses away from the wrap boundary: for every
/// in-range position other than `last`, one step forward then one step back
/// returns to the same position.
pub proof fn lemma_retreat_advance_inverse(p: u32, last: u32)
    requires
        1 <= p <= last,
        p != last,
    ensures
        retreat_spec(advance_spec(p, last), last) == p,
{
}

} // verus!
