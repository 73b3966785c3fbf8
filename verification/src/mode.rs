//! Operating modes: which position variable is active, which data source is
//! consulted and which windowing policy applies.

use vstd::prelude::*;

verus! {

/// The operator's current working mode. `Liftplan` and `Treadling` step
/// through weft rows; `Threading` steps through warp threads. The mode
/// selects which stored position is active, which pattern data is consulted
/// and which windowing policy is used; switching it alters neither stored
/// position.
#[derive(Clone, Copy, Debug, PartialEq, Eq, Structural)]
pub enum OperationMode {
    Liftplan,
    Treadling,
    Threading,
}

/// Windowing policy in `Threading` mode: `Continuous` keeps the current
/// thread at a fixed offset inside the window, `Batched` aligns the window
/// to fixed batch boundaries.
#[derive(Clone, Copy, Debug, PartialEq, Eq, Structural)]
pub enum ThreadingMode {
    Continuous,
    Batched,
}

impl OperationMode {
    /// In `Threading` mode the warp-thread position is active; otherwise the
    /// weft-row position is.
    pub open spec fn is_threading_spec(self) -> bool {
        self is Threading
    }

    pub fn is_threading(self) -> (r: bool)
        ensures
            r == self.is_threading_spec(),
    {
        self == OperationMode::Threading
    }
}

} // verus!
