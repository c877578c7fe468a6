use vstd::prelude::*;

verus! {

/// A command sent to an audio actor.
#[derive(Debug, Clone, Copy, PartialEq, Eq, Structural)]
pub enum AudioCommand {
    /// Start playing the sample from its first frame.
    Play,
    /// Stop the current playback.
    Stop,
    /// Leave the actor's message loop.
    Quit,
}

} // verus!
