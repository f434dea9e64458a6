//! The preview window's play/pause toggle.

use vstd::prelude::*;

verus! {

/// Whether the preview pipeline is playing.
#[derive(Clone, Copy, Debug, PartialEq, Eq)]
pub enum Playback {
    Playing,
    Paused,
}

/// The icon that the toggle shows in a state: the action it offers next.
pub open spec fn toggle_icon(state: Playback) -> Seq<char> {
    match state {
        Playback::Playing => "media-playback-pause-symbolic"@,
        Playback::Paused => "media-playback-start-symbolic"@,
    }
}

/// The other state.
pub open spec fn flipped(state: Playback) -> Playback {
    match state {
        Playback::Playing => Playback::Paused,
        Playback::Paused => Playback::Playing,
    }
}

/// A press of the toggle: the state to set the pipeline to, and the icon
/// to show afterwards (pause while playing, start while paused).
pub fn toggle(current: Playback) -> (next: (Playback, &'static str))
    ensures
        next.0 == flipped(current),
        next.1@ == toggle_icon(next.0),
{
    match current {
        Playback::Playing => (Playback::Paused, "media-playback-start-symbolic"),
        Playback::Paused => (Playback::Playing, "media-playback-pause-symbolic"),
    }
}

/// Two presses give back the state the pipeline was in.
pub proof fn lemma_toggle_twice(state: Playback)
    ensures
        flipped(flipped(state)) == state,
{
}

} // verus!
