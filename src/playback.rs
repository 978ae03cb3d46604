use vstd::prelude::*;
use crate::track::Track;

verus! {

/// Status of the single active output, with the track it refers to.
#[derive(Debug)]
pub enum PlaybackState {
    Stopped,
    Playing(Track),
    Paused(Track),
}

/// What the owner of the audio device must do with the attached playable handle.
#[derive(Debug, Clone, Copy, PartialEq, Eq, Structural)]
pub enum HandleAction {
    /// Leave the handle (if any) as it is.
    Keep,
    /// Pause the attached handle.
    Pause,
    /// Resume the attached handle.
    Resume,
    /// Stop the attached handle and release it.
    Stop,
    /// Release the attached handle, which has nothing left to play.
    Release,
}

impl PlaybackState {
    /// A playable handle is attached exactly when a track is playing or paused.
    pub open spec fn has_handle(self) -> bool {
        !(self is Stopped)
    }

    /// The track that the state refers to, if any.
    pub open spec fn track(self) -> Option<Track> {
        match self {
            PlaybackState::Stopped => None,
            PlaybackState::Playing(t) => Some(t),
            PlaybackState::Paused(t) => Some(t),
        }
    }

    pub fn is_stopped(&self) -> (r: bool)
        ensures
            r == (*self is Stopped),
    {
        match self {
            PlaybackState::Stopped => true,
            _ => false,
        }
    }

    pub fn current_track(&self) -> (r: Option<Track>)
        ensures
            r == self.track(),
    {
        match self {
            PlaybackState::Stopped => None,
            PlaybackState::Playing(t) => Some(t.clone()),
            PlaybackState::Paused(t) => Some(t.clone()),
        }
    }
}

impl Clone for PlaybackState {
    fn clone(&self) -> (r: Self)
        ensures
            r == *self,
    {
        match self {
            PlaybackState::Stopped => PlaybackState::Stopped,
            PlaybackState::Playing(t) => PlaybackState::Playing(t.clone()),
            PlaybackState::Paused(t) => PlaybackState::Paused(t.clone()),
        }
    }
}

/// Tearing down the attached handle, which both `stop` and the start of a
/// `play` request do: the attached handle, if any, is stopped.
pub open spec fn teardown_action(s: PlaybackState) -> HandleAction {
    if s.has_handle() {
        HandleAction::Stop
    } else {
        HandleAction::Keep
    }
}

/// State after pause is toggled.
pub open spec fn toggled(s: PlaybackState) -> PlaybackState {
    match s {
        PlaybackState::Stopped => PlaybackState::Stopped,
        PlaybackState::Playing(t) => PlaybackState::Paused(t),
        PlaybackState::Paused(t) => PlaybackState::Playing(t),
    }
}

/// Handle action when pause is toggled.
pub open spec fn toggle_action(s: PlaybackState) -> HandleAction {
    match s {
        PlaybackState::Stopped => HandleAction::Keep,
        PlaybackState::Playing(_) => HandleAction::Pause,
        PlaybackState::Paused(_) => HandleAction::Resume,
    }
}

/// State after a play request whose teardown has run, given whether the
/// output device is available and whether the track could be opened on it.
pub open spec fn play_outcome(t: Track, device_ready: bool, opened: bool) -> PlaybackState {
    if device_ready && opened {
        PlaybackState::Playing(t)
    } else {
        PlaybackState::Stopped
    }
}

/// State after the attached handle is polled and reports whether it is drained.
pub open spec fn polled(s: PlaybackState, drained: bool) -> PlaybackState {
    if s.has_handle() && drained {
        PlaybackState::Stopped
    } else {
        s
    }
}

/// Handle action after a poll.
pub open spec fn poll_action(s: PlaybackState, drained: bool) -> HandleAction {
    if s.has_handle() && drained {
        HandleAction::Release
    } else {
        HandleAction::Keep
    }
}

/// Two play requests in a row, both of which open their track, end in
/// `Playing` the second track. Each request first stops the handle that is
/// attached, if any, and the state stays `Stopped` (no handle attached) until
/// the new track has been opened, so at no point are two handles attached.
pub proof fn lemma_play_replaces(s: PlaybackState, a: Track, b: Track)
    ensures
        teardown_action(s) == HandleAction::Stop <==> s.has_handle(),
        !PlaybackState::Stopped.has_handle(),
        play_outcome(a, true, true) == PlaybackState::Playing(a),
        teardown_action(PlaybackState::Playing(a)) == HandleAction::Stop,
        play_outcome(b, true, true) == PlaybackState::Playing(b),
{
}

/// Stopping is idempotent: a second stop finds no handle to stop and leaves
/// the state `Stopped`.
pub proof fn lemma_stop_idempotent()
    ensures
        teardown_action(PlaybackState::Stopped) == HandleAction::Keep,
        !PlaybackState::Stopped.has_handle(),
{
}

/// A poll ends playback exactly when a track is playing or paused and its
/// handle reports that it is drained.
pub proof fn lemma_poll_stops_iff_drained(s: PlaybackState, drained: bool)
    requires
        s.has_handle(),
    ensures
        (polled(s, drained) is Stopped) <==> drained,
        !drained ==> polled(s, drained) == s,
{
}

} // verus!
