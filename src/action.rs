use vstd::prelude::*;

verus! {

/// An instruction for one engine instance.
#[derive(Clone, Debug, PartialEq, Eq)]
pub enum Instruction {
    /// Sent once, right after the engine instance was started.
    InitializeCompositing,
    /// An idle tick.
    Idle,
    /// Redraw the page onto the shared surface.
    Refresh,
    /// The visible region of the page changed.
    Viewport { x: u32, y: u32, width: u32, height: u32 },
    /// The drawing surface must be reallocated at a new size.
    Resize { width: u32, height: u32 },
    /// Start loading the given address.
    LoadUrl { url: String },
    /// Stop the engine instance and its background tasks.
    Shutdown,
}

/// A side effect decided by the library, to be carried out by its embedder,
/// in the order in which the actions were appended.
#[derive(Clone, Debug, PartialEq, Eq)]
pub enum Action {
    /// Deliver `instruction` to the engine instance of buffer `buffer`.
    Engine { buffer: usize, instruction: Instruction },
    /// Fill the region of an empty pane with the background color.
    Clear,
    /// Present the native window's surface.
    Present,
    /// Make the native window visible.
    Show,
}

/// The action that hands `instruction` to the engine of buffer `buffer`.
pub open spec fn engine(buffer: usize, instruction: Instruction) -> Action {
    Action::Engine { buffer, instruction }
}

} // verus!
