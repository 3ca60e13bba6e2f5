use vstd::prelude::*;

verus! {

/// What the platform layer reported about one window event: whether the GUI
/// wants exclusive use of it, and whether the event calls for a repaint.
#[derive(Clone, Copy, PartialEq, Eq, Structural, Debug)]
pub struct EventResponse {
    /// True when the GUI consumed the event, i.e. wants exclusive use of it
    /// (for example a click on a GUI window, or text typed into a field).
    pub consumed: bool,
    /// True when the event makes a GUI refresh necessary.
    pub repaint: bool,
}

impl EventResponse {
    /// Rebuild the response from the two flags the platform layer reported,
    /// altering neither.
    pub fn from_flags(consumed: bool, repaint: bool) -> (r: EventResponse)
        ensures
            r.consumed == consumed,
            r.repaint == repaint,
    {
        EventResponse { consumed, repaint }
    }
}

} // verus!
