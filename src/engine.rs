//! The protocol engine: carriage position bookkeeping and the decision to
//! pulse the needle selector.
use vstd::prelude::*;
use crate::event::Event;
use crate::pattern::{bit_at, KnitPattern};

verus! {

/// The engine's record of a knitting pass.
#[derive(Clone, Copy, Debug, PartialEq, Eq, Structural)]
pub struct EngineState {
    /// Current pattern row.
    pub row: usize,
    /// Current needle position in scan order; may lie outside `0..width`.
    pub needle: i32,
    /// Direction of carriage travel: `true` from left to right.
    pub dir_right: bool,
    /// Whether the carriage is inside the needle-selection window.
    pub inside_pattern: bool,
    /// Whether a knitting pass is in progress.
    pub active: bool,
    /// Pattern width, fixed at creation.
    pub width: usize,
    /// Pattern height, fixed at creation.
    pub height: usize,
}

impl EngineState {
    /// The needle counter can hold every position up to `width`, the row
    /// never passes `height`, and a running pass has a row left to knit.
    pub open spec fn wf(self) -> bool {
        &&& self.width <= i32::MAX
        &&& self.row <= self.height
        &&& self.active ==> self.row < self.height
    }
}

/// One needle further in the travel direction (held at the ends of `i32`).
pub open spec fn advance(needle: i32, dir_right: bool) -> i32 {
    if dir_right {
        if needle == i32::MAX { needle } else { (needle + 1) as i32 }
    } else {
        if needle == i32::MIN { needle } else { (needle - 1) as i32 }
    }
}

/// The needle counter on entering the selection window: one position before
/// the first selectable needle in the travel direction.
pub open spec fn seed_needle(dir_right: bool, width: usize) -> i32 {
    if dir_right { -1i32 } else { width as i32 }
}

/// Whether a needle position addresses a pattern column.
pub open spec fn in_range(needle: int, width: int) -> bool {
    0 <= needle < width
}

/// The pattern column read at a needle position: the pattern keeps one
/// orientation, so a right-to-left scan reads it mirrored.
pub open spec fn column(needle: int, dir_right: bool, width: int) -> int {
    if dir_right { needle } else { width - 1 - needle }
}

/// Whether the selector fires at `needle` of `row`.
pub open spec fn fire_decision(
    p: Seq<Seq<bool>>,
    width: int,
    row: int,
    needle: int,
    dir_right: bool,
) -> bool {
    in_range(needle, width) && bit_at(p, row, column(needle, dir_right, width))
}

/// The engine state after handling one event.
pub open spec fn step(s: EngineState, e: Event) -> EngineState {
    match e {
        Event::StartKnit => EngineState { row: 0, needle: 0, active: s.height > 0, ..s },
        Event::StopKnit => EngineState { active: false, ..s },
        Event::DirectionChanged(v) => EngineState { dir_right: v, ..s },
        Event::NeedlePulse => {
            if s.active && s.inside_pattern {
                EngineState { needle: advance(s.needle, s.dir_right), ..s }
            } else {
                s
            }
        },
        Event::RangeChanged(level) => {
            if !s.active {
                s
            } else if level {
                EngineState {
                    inside_pattern: true,
                    needle: seed_needle(s.dir_right, s.width),
                    ..s
                }
            } else {
                EngineState {
                    inside_pattern: false,
                    row: (s.row + 1) as usize,
                    active: s.row + 1 < s.height,
                    ..s
                }
            }
        },
        Event::RowBoundary(level) => {
            if s.active && !level && s.dir_right {
                EngineState { needle: -1i32, ..s }
            } else {
                s
            }
        },
        Event::FireActuator => s,
    }
}

/// Whether handling `e` in state `s` pulses the selector.
pub open spec fn fires(s: EngineState, e: Event, p: Seq<Seq<bool>>) -> bool {
    match e {
        Event::NeedlePulse => {
            let n = step(s, e);
            s.active && s.inside_pattern && fire_decision(
                p,
                s.width as int,
                s.row as int,
                n.needle as int,
                s.dir_right,
            )
        },
        Event::FireActuator => true,
        _ => false,
    }
}

impl EngineState {
    /// An idle engine for a pattern of the given size.
    pub fn new(width: usize, height: usize) -> (r: Self)
        requires
            width <= i32::MAX,
        ensures
            r == (EngineState {
                row: 0,
                needle: 0,
                dir_right: true,
                inside_pattern: false,
                active: false,
                width,
                height,
            }),
            r.wf(),
    {
        EngineState {
            row: 0,
            needle: 0,
            dir_right: true,
            inside_pattern: false,
            active: false,
            width,
            height,
        }
    }

    /// Starts a pass from row 0; a pattern without rows has nothing to knit,
    /// so the engine stays idle.
    pub fn reset(&mut self)
        requires
            old(self).wf(),
        ensures
            *final(self) == step(*old(self), Event::StartKnit),
            final(self).wf(),
    {
        self.row = 0;
        self.needle = 0;
        self.active = self.height > 0;
    }

    /// Ends the pass at once; position bookkeeping is kept as it is.
    pub fn stop(&mut self)
        requires
            old(self).wf(),
        ensures
            *final(self) == step(*old(self), Event::StopKnit),
            final(self).wf(),
    {
        self.active = false;
    }

    /// Handles one event and tells whether the selector must be pulsed now.
    pub fn handle_event(&mut self, pattern: &KnitPattern, evt: Event) -> (fire: bool)
        requires
            old(self).wf(),
        ensures
            *final(self) == step(*old(self), evt),
            fire == fires(*old(self), evt, pattern@),
            final(self).wf(),
    {
        match evt {
            Event::StartKnit => {
                self.reset();
                false
            },
            Event::StopKnit => {
                self.stop();
                false
            },
            Event::NeedlePulse => on_ccp_tick_fast(self, pattern),
            Event::RangeChanged(level) => {
                on_ksl_change(self, level);
                false
            },
            Event::RowBoundary(level) => {
                if !level {
                    on_nd1_falling_fast(self);
                }
                false
            },
            Event::DirectionChanged(level) => {
                on_hok_change_fast(self, level);
                false
            },
            Event::FireActuator => true,
        }
    }
}

/// Whether the selector fires at `needle` of `row` for a pattern of the
/// given width scanned in the given direction.
pub fn fire_if_needed(
    pattern: &KnitPattern,
    width: usize,
    row: usize,
    needle: i32,
    dir_right: bool,
) -> (r: bool)
    ensures
        r == fire_decision(pattern@, width as int, row as int, needle as int, dir_right),
{
    if needle < 0 || needle as usize >= width {
        return false;
    }
    let n = needle as usize;
    let col = if dir_right { n } else { width - 1 - n };
    pattern.bit_at(row, col)
}

/// Needle pulse: while a pass runs inside the window, move one needle in the
/// travel direction and tell whether the selector fires there.
pub fn on_ccp_tick_fast(state: &mut EngineState, pattern: &KnitPattern) -> (fire: bool)
    requires
        old(state).wf(),
    ensures
        *final(state) == step(*old(state), Event::NeedlePulse),
        fire == fires(*old(state), Event::NeedlePulse, pattern@),
        final(state).wf(),
{
    if !state.active || !state.inside_pattern {
        return false;
    }
    if state.dir_right {
        if state.needle < i32::MAX {
            state.needle = state.needle + 1;
        }
    } else {
        if state.needle > i32::MIN {
            state.needle = state.needle - 1;
        }
    }
    fire_if_needed(pattern, state.width, state.row, state.needle, state.dir_right)
}

/// Direction change: recorded at once, in any state.
pub fn on_hok_change_fast(state: &mut EngineState, level: bool)
    requires
        old(state).wf(),
    ensures
        *final(state) == step(*old(state), Event::DirectionChanged(level)),
        final(state).wf(),
{
    state.dir_right = level;
}

/// Falling edge of the row-boundary line: during a running pass, a
/// left-to-right carriage is set one position before needle 0, inside the
/// selection window or outside it.
pub fn on_nd1_falling_fast(state: &mut EngineState)
    requires
        old(state).wf(),
    ensures
        *final(state) == step(*old(state), Event::RowBoundary(false)),
        final(state).wf(),
{
    if state.active && state.dir_right {
        state.needle = -1;
    }
}

/// Selection-window change during a pass: entering seeds the needle counter;
/// leaving finishes the row, and the pass when it was the last row.
pub fn on_ksl_change(state: &mut EngineState, level: bool)
    requires
        old(state).wf(),
    ensures
        *final(state) == step(*old(state), Event::RangeChanged(level)),
        final(state).wf(),
{
    if !state.active {
        return;
    }
    if level {
        state.inside_pattern = true;
        if state.dir_right {
            state.needle = -1;
        } else {
            state.needle = state.width as i32;
        }
    } else {
        state.inside_pattern = false;
        state.row = state.row + 1;
        state.active = state.row < state.height;
    }
}

} // verus!
