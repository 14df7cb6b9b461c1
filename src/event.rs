//! Events that drive the protocol engine, and their detection from sampled
//! signal levels.
use vstd::prelude::*;

verus! {

/// A discrete happening on the carriage signals or the control surface.
#[derive(Clone, Copy, Debug, PartialEq, Eq, Structural)]
pub enum Event {
    /// Begin a knitting pass from the first row.
    StartKnit,
    /// Abandon the knitting pass.
    StopKnit,
    /// Rising edge of CCP: the carriage passed one needle.
    NeedlePulse,
    /// KSL changed: the carriage entered (`true`) or left (`false`) the
    /// needle-selection window.
    RangeChanged(bool),
    /// ND1 changed to the given level.
    RowBoundary(bool),
    /// HOK changed: `true` while the carriage travels left to right.
    DirectionChanged(bool),
    /// A direct request to pulse the selector once.
    FireActuator,
}

/// The four carriage inputs read at one instant.
#[derive(Clone, Copy, Debug, PartialEq, Eq, Structural)]
pub struct SignalLevels {
    /// Needle pulse line.
    pub ccp: bool,
    /// Direction line: high while moving left to right.
    pub hok: bool,
    /// Selection-window line.
    pub ksl: bool,
    /// Row-boundary line.
    pub nd1: bool,
}

/// The events that the change from `prev` to `cur` stands for, in the order
/// in which they are handled: direction first (so that a pulse of the same
/// sample already counts in the new direction), then the needle pulse
/// (rising edge only), then the window change, then the row boundary.
pub open spec fn edge_events(prev: SignalLevels, cur: SignalLevels) -> Seq<Event> {
    (if prev.hok != cur.hok { seq![Event::DirectionChanged(cur.hok)] } else { seq![] })
        + (if !prev.ccp && cur.ccp { seq![Event::NeedlePulse] } else { seq![] })
        + (if prev.ksl != cur.ksl { seq![Event::RangeChanged(cur.ksl)] } else { seq![] })
        + (if prev.nd1 != cur.nd1 { seq![Event::RowBoundary(cur.nd1)] } else { seq![] })
}

/// Turns two successive samples of the inputs into events.
pub fn detect_edges(prev: &SignalLevels, cur: &SignalLevels) -> (r: Vec<Event>)
    ensures
        r@ == edge_events(*prev, *cur),
{
    let mut r: Vec<Event> = Vec::new();
    if prev.hok != cur.hok {
        r.push(Event::DirectionChanged(cur.hok));
    }
    if !prev.ccp && cur.ccp {
        r.push(Event::NeedlePulse);
    }
    if prev.ksl != cur.ksl {
        r.push(Event::RangeChanged(cur.ksl));
    }
    if prev.nd1 != cur.nd1 {
        r.push(Event::RowBoundary(cur.nd1));
    }
    proof {
        assert(r@ =~= edge_events(*prev, *cur));
    }
    r
}

} // verus!
