//! The engine's model of the externally owned pattern data: per-row and
//! per-thread shaft assignments, display colors and structural counts, held
//! as plain values. The external provider parses the pattern file and fills
//! one of these snapshots; the engine only ever reads it, and re-derives the
//! active bound from whatever snapshot it currently holds.

use vstd::prelude::*;

use crate::mode::OperationMode;

verus! {

/// Structural counts a pattern file may omit; the display falls back to
/// these when it does.
pub const DEFAULT_SHAFT_COUNT: u32 = 4;

pub const DEFAULT_TREADLE_COUNT: u32 = 6;

/// A display color.
#[derive(Clone, Copy, Debug, PartialEq, Eq, Structural)]
pub struct Rgb {
    pub red: u8,
    pub green: u8,
    pub blue: u8,
}

/// One consistent snapshot of the pattern data. Entry `i` of each list
/// belongs to row or thread `i + 1`; a `None` entry means the pattern has no
/// data there (resolved as "no shafts active", not an error). The counts are
/// `None` where the pattern file does not state them.
#[derive(Debug, Clone)]
pub struct PatternData {
    pub shaft_count: Option<u32>,
    pub treadle_count: Option<u32>,
    pub weft_threads: Option<u32>,
    pub warp_threads: Option<u32>,
    pub liftplan: Vec<Option<Vec<u32>>>,
    pub treadling: Vec<Option<Vec<u32>>>,
    pub threading: Vec<Option<Vec<u32>>>,
    pub weft_colors: Vec<Option<Rgb>>,
    pub warp_colors: Vec<Option<Rgb>>,
}

impl PatternData {
    /// The shaft-assignment list the given mode reads.
    pub open spec fn source_spec(self, mode: OperationMode) -> Seq<Option<Vec<u32>>> {
        match mode {
            OperationMode::Liftplan => self.liftplan@,
            OperationMode::Treadling => self.treadling@,
            OperationMode::Threading => self.threading@,
        }
    }

    /// The color list the given mode reads: weft colors for the row modes,
    /// warp colors for threading.
    pub open spec fn color_source_spec(self, mode: OperationMode) -> Seq<Option<Rgb>> {
        match mode {
            OperationMode::Threading => self.warp_colors@,
            _ => self.weft_colors@,
        }
    }

    /// The shafts active at a 1-based row or thread index: `None` where the
    /// index is past the stored data or the pattern has no entry for it.
    pub open spec fn lookup_spec(self, mode: OperationMode, index: int) -> Option<Seq<u32>> {
        let src = self.source_spec(mode);
        if 1 <= index <= src.len() {
            match src[index - 1] {
                Some(v) => Some(v@),
                None => None,
            }
        } else {
            None
        }
    }

    /// The display color at a 1-based row or thread index.
    pub open spec fn color_spec(self, mode: OperationMode, index: int) -> Option<Rgb> {
        let src = self.color_source_spec(mode);
        if 1 <= index <= src.len() {
            src[index - 1]
        } else {
            None
        }
    }

    /// The last 1-based index the active mode steps through: the warp thread
    /// count in threading mode, the weft thread count otherwise, `1` where
    /// the pattern does not state the count.
    pub open spec fn last_index_spec(self, mode: OperationMode) -> u32 {
        let stored = if mode is Threading {
            self.warp_threads
        } else {
            self.weft_threads
        };
        match stored {
            Some(n) => n,
            None => 1u32,
        }
    }

    /// How many display slots the window needs per row or thread: the shaft
    /// count in liftplan and threading modes, the treadle count in treadling
    /// mode, with the usual fallbacks where the pattern omits a count.
    pub open spec fn display_slots_spec(self, mode: OperationMode) -> u32 {
        if mode is Treadling {
            match self.treadle_count {
                Some(n) => n,
                None => DEFAULT_TREADLE_COUNT,
            }
        } else {
            match self.shaft_count {
                Some(n) => n,
                None => DEFAULT_SHAFT_COUNT,
            }
        }
    }

    /// Look up the shafts active at an in-range index. Out-of-range indices
    /// are the caller's placeholder case and are never asked for.
    pub fn lookup(&self, mode: OperationMode, index: u32) -> (r: Option<Vec<u32>>)
        requires
            index >= 1,
        ensures
            match r {
                Some(v) => self.lookup_spec(mode, index as int) == Some(v@),
                None => self.lookup_spec(mode, index as int) is None,
            },
    {
        let src = match mode {
            OperationMode::Liftplan => &self.liftplan,
            OperationMode::Treadling => &self.treadling,
            OperationMode::Threading => &self.threading,
        };
        if index as usize <= src.len() {
            match &src[index as usize - 1] {
                Some(v) => Some(copy_shafts(v)),
                None => None,
            }
        } else {
            None
        }
    }

    /// The display color at an in-range index, or `None` where the pattern
    /// has no color data for it.
    pub fn color(&self, mode: OperationMode, index: u32) -> (r: Option<Rgb>)
        requires
            index >= 1,
        ensures
            r == self.color_spec(mode, index as int),
    {
        let src = match mode {
            OperationMode::Threading => &self.warp_colors,
            _ => &self.weft_colors,
        };
        if index as usize <= src.len() {
            src[index as usize - 1]
        } else {
            None
        }
    }

    pub fn last_index(&self, mode: OperationMode) -> (r: u32)
        ensures
            r == self.last_index_spec(mode),
    {
        let stored = if mode.is_threading() {
            &self.warp_threads
        } else {
            &self.weft_threads
        };
        match stored {
            Some(n) => *n,
            None => 1,
        }
    }

    pub fn display_slots(&self, mode: OperationMode) -> (r: u32)
        ensures
            r == self.display_slots_spec(mode),
    {
        if mode == OperationMode::Treadling {
            match &self.treadle_count {
                Some(n) => *n,
                None => DEFAULT_TREADLE_COUNT,
            }
        } else {
            match &self.shaft_count {
                Some(n) => *n,
                None => DEFAULT_SHAFT_COUNT,
            }
        }
    }
}

/// An element-for-element copy of a shaft list.
fn copy_shafts(v: &Vec<u32>) -> (r: Vec<u32>)
    ensures
        r@ == v@,
{
    let mut r: Vec<u32> = Vec::new();
    let mut i: usize = 0;
    while i < v.len()
        invariant
            i <= v.len(),
            r@ == v@.subrange(0, i as int),
        decreases v.len() - i,
    {
        r.push(v[i]);
        i = i + 1;
        proof {
            assert(r@ =~= v@.subrange(0, i as int));
        }
    }
    proof {
        assert(v@.subrange(0, v@.len() as int) =~= v@);
    }
    r
}

} // verus!
