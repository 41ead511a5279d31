//! Sound triggers the simulation emits. The core knows nothing of sound
//! assets or playback: each tick it hands the host a list of events, and
//! an audio collaborator maps them to actual playback.

use vstd::prelude::*;

verus! {

/// The sounds the simulation can ask for.
#[derive(Copy, Clone, Debug, PartialEq, Eq, Hash, Structural)]
pub enum SoundList {
    Huh1,
    Huh2,
    Huh3,
    Death,
    Heavy,
    Sword1,
    Sword2,
    IntroSound,
    Beat,
}

/// A discrete audio command: start a sound, or stop a looping one.
#[derive(Copy, Clone, Debug, PartialEq, Eq, Hash, Structural)]
pub enum AudioEvent {
    Play(SoundList),
    Stop(SoundList),
}

} // verus!
