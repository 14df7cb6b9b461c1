//! The status snapshot answered to the control surface.
use vstd::prelude::*;
use crate::engine::{column, in_range, EngineState};
use crate::event::SignalLevels;

verus! {

/// A consistent copy of what the control surface reports; taking it never
/// changes the engine.
#[derive(Clone, Copy, Debug, PartialEq, Eq, Structural)]
pub struct KnitState {
    pub active: bool,
    pub row: usize,
    /// Pattern column under the carriage; 0 while the needle is outside the
    /// pattern.
    pub col: usize,
    pub width: usize,
    pub height: usize,
    pub ksl_high: bool,
    pub nd1_high: bool,
    pub dir_right_to_left: bool,
}

/// The pattern column that the status reports for an engine state.
pub open spec fn status_col(s: EngineState) -> int {
    if in_range(s.needle as int, s.width as int) {
        column(s.needle as int, s.dir_right, s.width as int)
    } else {
        0
    }
}

impl KnitState {
    /// The status of an idle machine for a pattern of the given size.
    pub fn new(width: usize, height: usize) -> (r: Self)
        ensures
            r == (KnitState {
                active: false,
                row: 0,
                col: 0,
                width,
                height,
                ksl_high: false,
                nd1_high: false,
                dir_right_to_left: false,
            }),
    {
        KnitState {
            active: false,
            row: 0,
            col: 0,
            width,
            height,
            ksl_high: false,
            nd1_high: false,
            dir_right_to_left: false,
        }
    }

    /// A pass has started at the first needle of the first row.
    pub fn reset(&mut self)
        ensures
            *final(self) == (KnitState { row: 0, col: 0, active: true, ..*old(self) }),
    {
        self.row = 0;
        self.col = 0;
        self.active = true;
    }

    /// The pass has ended.
    pub fn stop(&mut self)
        ensures
            *final(self) == (KnitState { active: false, ..*old(self) }),
    {
        self.active = false;
    }

    /// The status of `engine`, with the window and row-boundary lines as
    /// last sampled.
    pub fn from_engine(engine: &EngineState, levels: &SignalLevels) -> (r: Self)
        ensures
            r.active == engine.active,
            r.row == engine.row,
            r.col == status_col(*engine),
            r.width == engine.width,
            r.height == engine.height,
            r.ksl_high == levels.ksl,
            r.nd1_high == levels.nd1,
            r.dir_right_to_left == !engine.dir_right,
    {
        let col: usize = if engine.needle < 0 || engine.needle as usize >= engine.width {
            0
        } else if engine.dir_right {
            engine.needle as usize
        } else {
            engine.width - 1 - engine.needle as usize
        };
        KnitState {
            active: engine.active,
            row: engine.row,
            col,
            width: engine.width,
            height: engine.height,
            ksl_high: levels.ksl,
            nd1_high: levels.nd1,
            dir_right_to_left: !engine.dir_right,
        }
    }
}

} // verus!
