use vstd::prelude::*;
use crate::events::Events;
use crate::sprite::Canvas;

verus! {

/// What a view asks of the frame driver after a frame.
#[derive(Debug, Clone, Copy, PartialEq, Eq, Structural)]
pub enum ViewAction {
    /// Stop: nothing was drawn.
    Quit,
    /// Present what was drawn and go on.
    Continue,
}

/// The context a view works in: the input state and the render target.
pub struct Phi {
    pub events: Events,
    pub canvas: Canvas,
}

impl Phi {
    pub fn new(events: Events, canvas: Canvas) -> (r: Phi)
        ensures
            r.events == events,
            r.canvas == canvas,
    {
        Phi { events, canvas }
    }
}

/// A screen that draws one frame at a time.
pub trait View {
    /// Whether this view can draw a frame in `context`.
    spec fn ready(&self, context: &Phi) -> bool;

    /// Draws one frame `elapsed_ms` milliseconds after the previous one.
    fn render(&mut self, context: &mut Phi, elapsed_ms: u32) -> (r: ViewAction)
        requires
            old(self).ready(old(context)),
    ;
}

} // verus!
