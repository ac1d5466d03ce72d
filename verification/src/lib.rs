//! A bindless-rendering sample, stated over exact integer models.
//!
//! Scalars and vector components are fixed-point numbers counted in
//! millionths, so that every rule of the sample (palette matching, the
//! two-level buffer indirection of the compute kernel, descriptor lifetimes,
//! the image typestate and the frame cycle) is a statement about integers.

use vstd::prelude::*;

pub mod color;
pub mod descriptor;
pub mod fixed;
pub mod main_loop;
pub mod recording;
pub mod render_pass;
pub mod render_target;
pub mod renderer;
pub mod simple_compute;
pub mod triangle;

verus! {

/// The tool that watches the graphics calls.
#[derive(Copy, Clone, Debug, PartialEq, Eq, Structural)]
pub enum Debuggers {
    /// No tool.
    Off,
    /// The validation layer.
    Validation,
    /// The frame-capture tool.
    RenderDoc,
}

/// A change to the environment of the process.
#[derive(Copy, Clone, Debug, PartialEq, Eq, Structural)]
pub enum EnvChange {
    /// Take the compositor's display out, so that the window falls back to
    /// the display server that the frame-capture tool supports.
    RemoveWaylandDisplay,
    /// Switch frame capture on.
    EnableRenderDocCapture,
}

/// The tool in use.
pub fn debugger() -> (tool: Debuggers)
    ensures
        tool == Debuggers::Validation,
{
    Debuggers::Validation
}

impl Debuggers {
    /// The changes to the environment that a tool needs before the window
    /// is made: two for the frame-capture tool, none for the others.
    pub open spec fn environment_spec(self) -> Seq<EnvChange> {
        if self == Debuggers::RenderDoc {
            seq![EnvChange::RemoveWaylandDisplay, EnvChange::EnableRenderDocCapture]
        } else {
            Seq::empty()
        }
    }

    pub fn environment(&self) -> (changes: Vec<EnvChange>)
        ensures
            changes@ == self.environment_spec(),
    {
        let mut changes: Vec<EnvChange> = Vec::new();
        if let Debuggers::RenderDoc = self {
            changes.push(EnvChange::RemoveWaylandDisplay);
            changes.push(EnvChange::EnableRenderDocCapture);
        }
        changes
    }
}

} // verus!
