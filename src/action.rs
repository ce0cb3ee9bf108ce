use vstd::prelude::*;

verus! {

/// What a recorded action stands for.
#[derive(Clone, Copy, Debug, PartialEq, Eq, Structural)]
pub enum ActionKind {
    Move,
    Click,
}

/// One recorded action: where it happened, how many milliseconds after the
/// start of its recording session, and what it was.
#[derive(Clone, Copy, Debug, PartialEq)]
pub struct Action<P> {
    pub pos: P,
    pub offset_ms: u64,
    pub kind: ActionKind,
}

/// An input event as seen by the listener.
#[derive(Clone, Copy, Debug, PartialEq)]
pub enum InputEvent<P> {
    /// The pointer moved to the given position.
    MouseMove(P),
    /// The left button went down.
    LeftPress,
    /// Anything else (keys, other buttons, the wheel).
    Other,
}

/// One synthetic input operation to be injected, or a pause between two.
#[derive(Clone, Copy, Debug, PartialEq)]
pub enum Synthetic<P> {
    MoveTo(P),
    Press,
    Release,
    Pause(u64),
}

} // verus!
