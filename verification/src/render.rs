//! Built-in capability used to notify the shell that a UI update is
//! necessary.

use vstd::prelude::*;

use crate::capability::{Capability, CapabilityContext};
use crate::command::{Command, CommandView};
use crate::mapping::EventMap;

verus! {

/// The single operation `Render` implements.
#[derive(Clone, Copy, PartialEq, Eq, Structural, Debug)]
pub struct RenderOperation;

/// Use an instance of `Render` to notify the shell that it should update the
/// user interface. This assumes a declarative UI: the shell takes the view
/// model provided by the core's `view` and reconciles the new UI state with
/// the previous one.
#[derive(Debug, PartialEq, Eq)]
pub struct Render {
    context: CapabilityContext,
}

impl View for Render {
    type V = EventMap;

    closed spec fn view(&self) -> EventMap {
        self.context@
    }
}

impl Clone for Render {
    fn clone(&self) -> (res: Self)
        ensures
            res == *self,
    {
        Render { context: self.context.clone() }
    }
}

impl Render {
    pub fn new(context: CapabilityContext) -> (r: Render)
        ensures
            r@ == context@,
    {
        Render { context }
    }

    /// Call `render` from the app's `update` to signal to the shell that the
    /// UI should be re-drawn: a one-shot effect whose acknowledgement
    /// completes the requesting task with no further events or effects.
    pub fn render(&self) -> (c: Command)
        ensures
            c@ == CommandView::RenderEffect,
    {
        self.context.notify_shell()
    }
}

impl Capability for Render {
    open spec fn mapper(&self) -> EventMap {
        self@
    }

    fn map_event(&self, f: &EventMap) -> (r: Self) {
        Render { context: self.context.map_event(f) }
    }
}

} // verus!
