//! The engine instance: current position under each mode, the active
//! operating mode and threading policy, the pause flag, the latched step
//! request from the pedal, and the smoothed time-per-step estimate.
//!
//! Every operation is a single, unsplittable state transition driven by the
//! owning thread; asynchronous collaborators only hand in plain values (a
//! latched step request, the current time in milliseconds, a fresh pattern
//! snapshot).

use vstd::prelude::*;

use crate::ewma::{Ewma, DEFAULT_ALPHA_PM, WEIGHT_SCALE};
use crate::mode::{OperationMode, ThreadingMode};
use crate::nav;
use crate::pattern::PatternData;
use crate::window;
use crate::window::{WindowCell, BATCH_SIZE_MAX, ROW_WINDOW_BACK, ROW_WINDOW_LEN};

verus! {

/// Default threading batch width.
pub const DEFAULT_BATCH_SIZE: u32 = 8;

/// The ETA is only shown once the smoothed step time exceeds this threshold,
/// so a near-zero estimate before any real samples exist is not rendered.
pub const ETA_DISPLAY_MIN_MS: u64 = 100;

/// The elapsed time between a step's start and `now`, clamped at zero in
/// case the clock handed in ever steps backward.
pub open spec fn elapsed_spec(start_ms: u64, now_ms: u64) -> u64 {
    if now_ms >= start_ms {
        (now_ms - start_ms) as u64
    } else {
        0u64
    }
}

/// The pattern navigation and progress estimation engine.
///
/// `row` is the weft-row position (active in liftplan and treadling modes),
/// `thread` the warp-thread position (active in threading mode); the
/// inactive one retains its last value across mode switches.
/// `last_step_start_ms` marks when the current step began, on the external
/// millisecond clock whose readings the callers pass in.
#[derive(Clone, Copy, Debug, PartialEq, Eq, Structural)]
pub struct Engine {
    pub row: u32,
    pub thread: u32,
    pub mode: OperationMode,
    pub threading_mode: ThreadingMode,
    pub batch_size: u32,
    pub timer: Ewma,
    pub paused: bool,
    pub step_requested: bool,
    pub last_step_start_ms: u64,
}

impl Engine {
    /// Well-formedness: both positions are 1-based, the batch size is in
    /// its permitted range and the estimator's weight is a valid fraction.
    pub open spec fn wf(self) -> bool {
        &&& self.row >= 1
        &&& self.thread >= 1
        &&& 1 <= self.batch_size <= BATCH_SIZE_MAX
        &&& self.timer.wf()
    }

    /// The position variable the current mode reads and writes.
    pub open spec fn active_pos_spec(self) -> u32 {
        if self.mode is Threading {
            self.thread
        } else {
            self.row
        }
    }

    /// The engine with the active position replaced; the inactive position
    /// is untouched.
    pub open spec fn with_active_pos(self, p: u32) -> Engine {
        if self.mode is Threading {
            Engine { thread: p, ..self }
        } else {
            Engine { row: p, ..self }
        }
    }

    /// The engine after one forward step at time `now_ms`: the active
    /// position advances with wraparound; unless paused, the elapsed time
    /// since the step began is recorded as one sample; the step clock
    /// restarts either way.
    pub open spec fn advance_transition(self, last: u32, now_ms: u64) -> Engine {
        let eff = nav::effective_last_spec(last);
        let moved = self.with_active_pos(nav::advance_spec(self.active_pos_spec(), eff));
        let timer = if self.paused {
            self.timer
        } else {
            self.timer.record_spec(elapsed_spec(self.last_step_start_ms, now_ms))
        };
        Engine { timer, last_step_start_ms: now_ms, ..moved }
    }

    /// The engine after one backward step at time `now_ms`: the active
    /// position retreats with wraparound, no sample is ever recorded, and
    /// the step clock restarts so the dwell time of a correction movement
    /// never pollutes the estimate.
    pub open spec fn retreat_transition(self, last: u32, now_ms: u64) -> Engine {
        let eff = nav::effective_last_spec(last);
        let moved = self.with_active_pos(nav::retreat_spec(self.active_pos_spec(), eff));
        Engine { last_step_start_ms: now_ms, ..moved }
    }

    /// The engine after one update cycle: the latched step request is
    /// consumed (read-and-clear), and if either it or the operator's own
    /// action asks for a step, the engine advances exactly once — never
    /// twice when both are pending in the same cycle.
    pub open spec fn step_transition(self, ui_step: bool, last: u32, now_ms: u64) -> Engine {
        let cleared = Engine { step_requested: false, ..self };
        if ui_step || self.step_requested {
            cleared.advance_transition(last, now_ms)
        } else {
            cleared
        }
    }

    /// The engine after `times` successive forward steps, one per listed
    /// clock reading.
    pub open spec fn advance_seq_transition(self, last: u32, times: Seq<u64>) -> Engine
        decreases times.len(),
    {
        if times.len() == 0 {
            self
        } else {
            self.advance_transition(last, times[0]).advance_seq_transition(last, times.drop_first())
        }
    }

    /// A fresh engine: both positions at `1`, liftplan mode, continuous
    /// threading policy, default batch size, default smoothing weight, not
    /// paused, no step pending, step clock started at `now_ms`.
    pub fn new(now_ms: u64) -> (r: Engine)
        ensures
            r == (Engine {
                row: 1u32,
                thread: 1u32,
                mode: OperationMode::Liftplan,
                threading_mode: ThreadingMode::Continuous,
                batch_size: DEFAULT_BATCH_SIZE,
                timer: Ewma { alpha_pm: DEFAULT_ALPHA_PM, value_ms: 0u64, n: 0u64 },
                paused: false,
                step_requested: false,
                last_step_start_ms: now_ms,
            }),
            r.wf(),
    {
        Engine {
            row: 1,
            thread: 1,
            mode: OperationMode::Liftplan,
            threading_mode: ThreadingMode::Continuous,
            batch_size: DEFAULT_BATCH_SIZE,
            timer: Ewma::new(DEFAULT_ALPHA_PM),
            paused: false,
            step_requested: false,
            last_step_start_ms: now_ms,
        }
    }

    /// An engine rebuilt from persisted values, each forced into validity:
    /// zero positions become `1`, the batch size is clamped into its range,
    /// an overlarge smoothing weight falls back to the default. The restored
    /// engine starts unpaused with its step clock at `now_ms`, as a fresh
    /// session does.
    pub fn restore(
        row: u32,
        thread: u32,
        mode: OperationMode,
        threading_mode: ThreadingMode,
        batch_size: u32,
        timer: Ewma,
        now_ms: u64,
    ) -> (r: Engine)
        ensures
            r.wf(),
            r.row == if row >= 1 { row } else { 1u32 },
            r.thread == if thread >= 1 { thread } else { 1u32 },
            r.mode == mode,
            r.threading_mode == threading_mode,
            r.batch_size == if batch_size < 1 {
                1u32
            } else if batch_size > BATCH_SIZE_MAX {
                BATCH_SIZE_MAX
            } else {
                batch_size
            },
            r.timer == if timer.wf() {
                timer
            } else {
                Ewma { alpha_pm: DEFAULT_ALPHA_PM, ..timer }
            },
            !r.paused,
            !r.step_requested,
            r.last_step_start_ms == now_ms,
    {
        Engine {
            row: if row >= 1 { row } else { 1 },
            thread: if thread >= 1 { thread } else { 1 },
            mode,
            threading_mode,
            batch_size: if batch_size < 1 {
                1
            } else if batch_size > BATCH_SIZE_MAX {
                BATCH_SIZE_MAX
            } else {
                batch_size
            },
            timer: if timer.alpha_pm <= WEIGHT_SCALE {
                timer
            } else {
                Ewma { alpha_pm: DEFAULT_ALPHA_PM, ..timer }
            },
            paused: false,
            step_requested: false,
            last_step_start_ms: now_ms,
        }
    }

    /// The position the current mode is working through.
    pub fn active_position(&self) -> (r: u32)
        ensures
            r == self.active_pos_spec(),
    {
        if self.mode.is_threading() {
            self.thread
        } else {
            self.row
        }
    }

    /// Switch the operating mode. Neither stored position changes; only
    /// which one is active henceforth, which data source is consulted and
    /// which windowing policy applies.
    pub fn set_mode(&mut self, mode: OperationMode)
        requires
            old(self).wf(),
        ensures
            *final(self) == (Engine { mode, ..*old(self) }),
            final(self).wf(),
    {
        self.mode = mode;
    }

    /// Switch the threading windowing policy. The window is always
    /// recomputed from the current thread, so there is no hysteresis to
    /// reset.
    pub fn set_threading_mode(&mut self, threading_mode: ThreadingMode)
        requires
            old(self).wf(),
        ensures
            *final(self) == (Engine { threading_mode, ..*old(self) }),
            final(self).wf(),
    {
        self.threading_mode = threading_mode;
    }

    /// Set the threading batch width, clamped into `[1, BATCH_SIZE_MAX]`.
    pub fn set_batch_size(&mut self, batch_size: u32)
        requires
            old(self).wf(),
        ensures
            *final(self) == (Engine {
                batch_size: if batch_size < 1 {
                    1u32
                } else if batch_size > BATCH_SIZE_MAX {
                    BATCH_SIZE_MAX
                } else {
                    batch_size
                },
                ..*old(self)
            }),
            final(self).wf(),
    {
        self.batch_size = if batch_size < 1 {
            1
        } else if batch_size > BATCH_SIZE_MAX {
            BATCH_SIZE_MAX
        } else {
            batch_size
        };
    }

    /// Set the active position directly (numeric input), clamped into
    /// `[1, last]`. When this moves the position, the step clock restarts,
    /// so the next advance is not charged for the jump.
    pub fn set_position(&mut self, p: u32, last: u32, now_ms: u64)
        requires
            old(self).wf(),
        ensures
            *final(self) == ({
                let eff = nav::effective_last_spec(last);
                let clamped = nav::clamp_spec(p, eff);
                if clamped == old(self).active_pos_spec() {
                    *old(self)
                } else {
                    Engine {
                        last_step_start_ms: now_ms,
                        ..old(self).with_active_pos(clamped)
                    }
                }
            }),
            final(self).wf(),
            1 <= final(self).active_pos_spec() <= nav::effective_last_spec(last)
                || final(self).active_pos_spec() == old(self).active_pos_spec(),
    {
        let eff = nav::effective_last(last);
        let clamped = nav::clamp_index(p, eff);
        let current = self.active_position();
        if clamped != current {
            if self.mode.is_threading() {
                self.thread = clamped;
            } else {
                self.row = clamped;
            }
            self.last_step_start_ms = now_ms;
        }
    }

    /// One forward step at time `now_ms`. The active position advances with
    /// wraparound to `1` past the end; unless paused, the time since the
    /// step began is recorded as one duration sample; the step clock
    /// restarts regardless of pause state.
    pub fn advance(&mut self, last: u32, now_ms: u64)
        requires
            old(self).wf(),
        ensures
            *final(self) == old(self).advance_transition(last, now_ms),
            final(self).wf(),
            1 <= final(self).active_pos_spec() <= nav::effective_last_spec(last),
            old(self).paused ==> final(self).timer == old(self).timer,
    {
        let eff = nav::effective_last(last);
        let current = self.active_position();
        let next = nav::advance_index(current, eff);
        if self.mode.is_threading() {
            self.thread = next;
        } else {
            self.row = next;
        }
        if !self.paused {
            let elapsed = if now_ms >= self.last_step_start_ms {
                now_ms - self.last_step_start_ms
            } else {
                0
            };
            self.timer.record(elapsed);
        }
        self.last_step_start_ms = now_ms;
    }

    /// One backward step at time `now_ms`. The active position retreats
    /// with wraparound from `1` to the end; no duration sample is ever
    /// recorded, but the step clock restarts, so a correction movement does
    /// not count toward the next step's duration.
    pub fn retreat(&mut self, last: u32, now_ms: u64)
        requires
            old(self).wf(),
        ensures
            *final(self) == old(self).retreat_transition(last, now_ms),
            final(self).wf(),
            final(self).timer == old(self).timer,
            final(self).active_pos_spec() >= 1,
    {
        let eff = nav::effective_last(last);
        let current = self.active_position();
        let next = nav::retreat_index(current, eff);
        if self.mode.is_threading() {
            self.thread = next;
        } else {
            self.row = next;
        }
        self.last_step_start_ms = now_ms;
    }

    /// Latch a step request from the pedal. Requests coalesce: any number
    /// of presses between two update cycles leave one pending request.
    pub fn request_step(&mut self)
        ensures
            *final(self) == (Engine { step_requested: true, ..*old(self) }),
    {
        self.step_requested = true;
    }

    /// One update cycle. The pending step request is consumed atomically
    /// with the decision (read-and-clear): whether the operator's own action,
    /// the pedal, or both are pending, the engine advances exactly once, and
    /// a request is never carried over to fire again.
    pub fn step(&mut self, ui_step: bool, last: u32, now_ms: u64) -> (stepped: bool)
        requires
            old(self).wf(),
        ensures
            *final(self) == old(self).step_transition(ui_step, last, now_ms),
            final(self).wf(),
            stepped == (ui_step || old(self).step_requested),
            !final(self).step_requested,
    {
        let pedal = self.step_requested;
        self.step_requested = false;
        if ui_step || pedal {
            self.advance(last, now_ms);
            true
        } else {
            false
        }
    }

    /// Stop recording duration samples. The position still moves on
    /// advance; only the estimator is shielded.
    pub fn pause(&mut self)
        ensures
            *final(self) == (Engine { paused: true, ..*old(self) }),
    {
        self.paused = true;
    }

    /// Resume recording. The step clock restarts at `now_ms`, so the next
    /// advance measures from the resume moment and the idle time spent
    /// paused is never charged to a step.
    pub fn unpause(&mut self, now_ms: u64)
        ensures
            *final(self) == (Engine {
                paused: false,
                last_step_start_ms: now_ms,
                ..*old(self)
            }),
    {
        self.paused = false;
        self.last_step_start_ms = now_ms;
    }

    /// How many steps remain until the end of the pattern; zero when the
    /// position is already at or past the end.
    pub open spec fn remaining_spec(self, last: u32) -> u32 {
        let eff = nav::effective_last_spec(last);
        let pos = self.active_pos_spec();
        if eff >= pos {
            (eff - pos) as u32
        } else {
            0u32
        }
    }

    /// The completion estimate: remaining steps times the smoothed step
    /// duration, decomposed into hours, minutes and seconds, and only
    /// offered once the estimate exceeds the display threshold. The hour
    /// count sticks at its maximum rather than overflowing.
    pub open spec fn eta_spec(self, last: u32) -> Option<(u64, u64, u64)> {
        if self.timer.value_ms > ETA_DISPLAY_MIN_MS {
            let total_s = (self.remaining_spec(last) * self.timer.value_ms) / 1000;
            let h_full = total_s / 3600;
            let h = if h_full > u64::MAX {
                u64::MAX as int
            } else {
                h_full
            };
            Some(((h as u64), (((total_s % 3600) / 60) as u64), ((total_s % 60) as u64)))
        } else {
            None
        }
    }

    /// The estimated time to completion as whole hours, minutes and
    /// seconds, or `None` while the smoothed step duration is still below
    /// the display threshold.
    pub fn eta_parts(&self, last: u32) -> (r: Option<(u64, u64, u64)>)
        ensures
            r == self.eta_spec(last),
            r is Some <==> self.timer.value_ms > ETA_DISPLAY_MIN_MS,
    {
        if self.timer.value_ms <= ETA_DISPLAY_MIN_MS {
            return None;
        }
        let eff = nav::effective_last(last);
        let pos = self.active_position();
        let remaining: u32 = if eff >= pos {
            eff - pos
        } else {
            0
        };
        proof {
            vstd::arithmetic::mul::lemma_mul_upper_bound(
                remaining as int,
                u32::MAX as int,
                self.timer.value_ms as int,
                u64::MAX as int,
            );
        }
        let total_ms: u128 = (remaining as u128) * (self.timer.value_ms as u128);
        let total_s: u128 = total_ms / 1000;
        let h_full: u128 = total_s / 3600;
        let h: u64 = if h_full > u64::MAX as u128 {
            u64::MAX
        } else {
            h_full as u64
        };
        let m: u64 = ((total_s % 3600) / 60) as u64;
        let s: u64 = (total_s % 60) as u64;
        Some((h, m, s))
    }

    /// Where the visible window begins, as a (possibly out-of-range)
    /// position: the threading policy's start in threading mode, two rows
    /// before the current row otherwise.
    pub open spec fn window_start_spec(self) -> int {
        if self.mode is Threading {
            window::threading_start_spec(self.thread, self.threading_mode, self.batch_size)
        } else {
            self.row - ROW_WINDOW_BACK
        }
    }

    /// How many slots the visible window holds: the batch size in threading
    /// mode, the fixed row neighborhood otherwise.
    pub open spec fn window_len_spec(self) -> int {
        if self.mode is Threading {
            self.batch_size as int
        } else {
            ROW_WINDOW_LEN as int
        }
    }

    /// The window of cells to render around the current position, computed
    /// from one consistent pattern snapshot: each slot within `[1, last]`
    /// carries exactly the shafts and color the snapshot stores for it, and
    /// every slot outside that range is a placeholder the snapshot was never
    /// asked about.
    pub fn visible_window(&self, data: &PatternData) -> (r: Vec<Option<WindowCell>>)
        requires
            self.wf(),
        ensures
            r@.len() == self.window_len_spec(),
            forall|k: int|
                0 <= k < r@.len() ==> window::cell_matches(
                    *data,
                    self.mode,
                    window::slot_at(
                        self.window_start_spec() + k,
                        nav::effective_last_spec(data.last_index_spec(self.mode)),
                    ),
                    r@[k],
                ),
    {
        let last = nav::effective_last(data.last_index(self.mode));
        let slots = if self.mode.is_threading() {
            window::threading_window(self.thread, last, self.threading_mode, self.batch_size)
        } else {
            window::row_window(self.row, last)
        };
        proof {
            assert forall|k: int| 0 <= k < slots@.len() implies (#[trigger] slots@[k] matches Some(
                i,
            ) ==> i >= 1) by {
                assert(slots@[k] == window::slot_at(self.window_start_spec() + k, last));
            }
        }
        window::window_cells(data, self.mode, &slots)
    }

    /// Discard the timing history, so durations from before a break do not
    /// pollute the new estimate.
    pub fn reset_timer(&mut self)
        requires
            old(self).wf(),
        ensures
            *final(self) == (Engine {
                timer: Ewma { alpha_pm: old(self).timer.alpha_pm, value_ms: 0u64, n: 0u64 },
                ..*old(self)
            }),
            final(self).wf(),
            final(self).timer.n == 0,
            final(self).timer.value_ms == 0,
    {
        self.timer.reset();
    }
}

/// While paused, any number of forward steps leave the estimator — and with
/// it the recorded sample count — completely unchanged, and the engine stays
/// paused, whatever the clock read at each step.
pub proof fn lemma_paused_advances_record_nothing(e: Engine, last: u32, times: Seq<u64>)
    requires
        e.paused,
    ensures
        e.advance_seq_transition(last, times).timer == e.timer,
        e.advance_seq_transition(last, times).timer.n == e.timer.n,
        e.advance_seq_transition(last, times).paused,
    decreases times.len(),
{
    if times.len() > 0 {
        let e1 = e.advance_transition(last, times[0]);
        lemma_paused_advances_record_nothing(e1, last, times.drop_first());
    }
}

/// Unpausing and then advancing once records exactly one sample, measured
/// from the unpause moment — the idle time spent paused is never charged.
pub proof fn lemma_resume_measures_from_unpause(e: Engine, last: u32, resume_ms: u64, now_ms: u64)
    requires
        e.wf(),
        e.paused,
        e.timer.n < u64::MAX,
        resume_ms <= now_ms,
    ensures
        ({
            let resumed = Engine { paused: false, last_step_start_ms: resume_ms, ..e };
            let after = resumed.advance_transition(last, now_ms);
            &&& after.timer == e.timer.record_spec((now_ms - resume_ms) as u64)
            &&& after.timer.n == e.timer.n + 1
        }),
{
}

/// Successive forward steps leave the mode alone and move the active
/// position exactly as the pure step function does, once per step.
proof fn lemma_advance_seq_active_pos(e: Engine, last: u32, times: Seq<u64>)
    ensures
        e.advance_seq_transition(last, times).mode == e.mode,
        e.advance_seq_transition(last, times).active_pos_spec() == nav::advance_n_spec(
            e.active_pos_spec(),
            nav::effective_last_spec(last),
            times.len(),
        ),
    decreases times.len(),
{
    if times.len() > 0 {
        let e1 = e.advance_transition(last, times[0]);
        lemma_advance_seq_active_pos(e1, last, times.drop_first());
        nav::lemma_advance_n_unfold_left(
            e.active_pos_spec(),
            nav::effective_last_spec(last),
            (times.len() - 1) as nat,
        );
    }
}

/// Full-cycle wraparound at the engine level: from an in-range position,
/// one forward step per pattern row or thread returns the active position
/// to its starting value, whatever the clock read at each step.
pub proof fn lemma_engine_full_cycle(e: Engine, last: u32, times: Seq<u64>)
    requires
        1 <= e.active_pos_spec() <= nav::effective_last_spec(last),
        times.len() == nav::effective_last_spec(last),
    ensures
        e.advance_seq_transition(last, times).active_pos_spec() == e.active_pos_spec(),
{
    lemma_advance_seq_active_pos(e, last, times);
    nav::lemma_full_cycle(e.active_pos_spec(), nav::effective_last_spec(last));
}

} // verus!
