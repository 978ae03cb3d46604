use vstd::prelude::*;
use crate::events::AppAction;
use crate::navigation::{
    next_page_selection, next_selection, previous_page_selection, previous_selection, PAGE_SIZE,
};
use crate::playback::{
    play_outcome, poll_action, polled, teardown_action, toggle_action, toggled, HandleAction,
    PlaybackState,
};
use crate::track::Track;

verus! {

/// Which screen the renderer shows.
#[derive(Debug, Clone, Copy, PartialEq, Eq, Structural)]
pub enum ViewMode {
    Normal,
    Help,
}

/// The displayed list derived from a catalog: every track with its index.
pub open spec fn displayed_of(items: Seq<Track>) -> Seq<(usize, Track)> {
    Seq::new(items.len(), |j: int| (j as usize, items[j]))
}

/// Relies on rand's `thread_rng` and `Rng::gen_range`: a value drawn from the
/// half-open range `0..len`, which panics only when that range is empty.
#[verifier::external_body]
fn random_index(len: usize) -> (r: usize)
    requires
        len > 0,
    ensures
        r < len,
{
    rand::Rng::gen_range(&mut rand::thread_rng(), 0..len)
}

/// The application state core: the catalog and the list derived from it, the
/// selection, the view mode and the playback state.
pub struct App {
    items: Vec<Track>,
    filtered_items: Vec<(usize, Track)>,
    selected: Option<usize>,
    total_tracks: usize,
    current_view: ViewMode,
    playback_state: PlaybackState,
    device_ready: bool,
}

impl App {
    pub closed spec fn catalog(&self) -> Seq<Track> {
        self.items@
    }

    pub closed spec fn displayed(&self) -> Seq<(usize, Track)> {
        self.filtered_items@
    }

    pub closed spec fn selection(&self) -> Option<usize> {
        self.selected
    }

    pub closed spec fn view(&self) -> ViewMode {
        self.current_view
    }

    pub closed spec fn playback(&self) -> PlaybackState {
        self.playback_state
    }

    /// Whether the output device has been created; it then lives as long as the app.
    pub closed spec fn has_device(&self) -> bool {
        self.device_ready
    }

    /// Length of the displayed list.
    pub open spec fn len(&self) -> nat {
        self.displayed().len()
    }

    /// The track under the selection, if any.
    pub open spec fn selected_track(&self) -> Option<Track> {
        match self.selection() {
            Some(i) => if i < self.len() { Some(self.displayed()[i as int].1) } else { None },
            None => None,
        }
    }

    /// The selection, when set, lies inside the displayed list, and the
    /// displayed list is the catalog with indices.
    pub closed spec fn wf(&self) -> bool {
        &&& self.filtered_items@ == displayed_of(self.items@)
        &&& self.total_tracks == self.items@.len()
        &&& match self.selected {
            Some(i) => i < self.filtered_items@.len(),
            None => true,
        }
    }

    /// Everything but the selection is as in `other`.
    pub open spec fn same_but_selection(&self, other: &App) -> bool {
        &&& self.catalog() == other.catalog()
        &&& self.displayed() == other.displayed()
        &&& self.view() == other.view()
        &&& self.playback() == other.playback()
        &&& self.has_device() == other.has_device()
    }

    /// Everything but the playback state and the device is as in `other`.
    pub open spec fn same_but_playback(&self, other: &App) -> bool {
        &&& self.catalog() == other.catalog()
        &&& self.displayed() == other.displayed()
        &&& self.selection() == other.selection()
        &&& self.view() == other.view()
    }

    pub fn new(items: Vec<Track>) -> (app: App)
        ensures
            app.wf(),
            app.catalog() == items@,
            app.displayed() == displayed_of(items@),
            app.selection() is None,
            app.view() == ViewMode::Normal,
            app.playback() is Stopped,
            !app.has_device(),
    {
        let total = items.len();
        let mut app = App {
            items,
            filtered_items: Vec::new(),
            selected: None,
            total_tracks: total,
            current_view: ViewMode::Normal,
            playback_state: PlaybackState::Stopped,
            device_ready: false,
        };
        app.update_filtered_items();
        app
    }

    /// Re-derives the displayed list from the catalog.
    fn update_filtered_items(&mut self)
        requires
            old(self).total_tracks == old(self).items@.len(),
            old(self).selected matches Some(i) ==> i < old(self).items@.len(),
        ensures
            final(self).wf(),
            final(self).items == old(self).items,
            final(self).selected == old(self).selected,
            final(self).current_view == old(self).current_view,
            final(self).playback_state == old(self).playback_state,
            final(self).device_ready == old(self).device_ready,
    {
        let n = self.items.len();
        let mut v: Vec<(usize, Track)> = Vec::new();
        let mut i: usize = 0;
        while i < n
            invariant
                n == self.items@.len(),
                i <= n,
                v@ =~= displayed_of(self.items@).take(i as int),
            decreases n - i,
        {
            let t = self.items[i].clone();
            v.push((i, t));
            i = i + 1;
        }
        assert(v@ =~= displayed_of(self.items@));
        self.filtered_items = v;
    }

    /// Selects the first item when the list is not empty.
    pub fn select_first(&mut self)
        requires
            old(self).wf(),
        ensures
            final(self).wf(),
            final(self).same_but_selection(old(self)),
            final(self).selection() == if old(self).len() > 0 {
                Some(0usize)
            } else {
                old(self).selection()
            },
    {
        if self.filtered_items.len() > 0 {
            self.selected = Some(0);
        }
    }

    /// Moves the selection one item forward, wrapping from the last to the first.
    pub fn next(&mut self)
        requires
            old(self).wf(),
        ensures
            final(self).wf(),
            final(self).same_but_selection(old(self)),
            final(self).selection() == next_selection(old(self).selection(), old(self).len()),
    {
        let len = self.filtered_items.len();
        if len == 0 {
            return;
        }
        let i = match self.selected {
            Some(i) => if i + 1 == len { 0 } else { i + 1 },
            None => 0,
        };
        proof {
            if let Some(j) = self.selected {
                if j + 1 < len {
                    vstd::arithmetic::div_mod::lemma_small_mod((j + 1) as nat, len as nat);
                } else {
                    vstd::arithmetic::div_mod::lemma_mod_self_0(len as int);
                }
            }
        }
        self.selected = Some(i);
    }

    /// Moves the selection one item backward, wrapping from the first to the last.
    pub fn previous(&mut self)
        requires
            old(self).wf(),
        ensures
            final(self).wf(),
            final(self).same_but_selection(old(self)),
            final(self).selection() == previous_selection(old(self).selection(), old(self).len()),
    {
        let len = self.filtered_items.len();
        if len == 0 {
            return;
        }
        let i = match self.selected {
            Some(i) => if i == 0 { len - 1 } else { i - 1 },
            None => 0,
        };
        self.selected = Some(i);
    }

    /// Moves the selection one page forward, stopping at the last item.
    pub fn next_page(&mut self)
        requires
            old(self).wf(),
        ensures
            final(self).wf(),
            final(self).same_but_selection(old(self)),
            final(self).selection() == next_page_selection(old(self).selection(), old(self).len()),
    {
        if let Some(i) = self.selected {
            let last = self.filtered_items.len() - 1;
            let j = if last - i >= PAGE_SIZE { i + PAGE_SIZE } else { last };
            self.selected = Some(j);
        }
    }

    /// Moves the selection one page backward, stopping at the first item.
    pub fn previous_page(&mut self)
        requires
            old(self).wf(),
        ensures
            final(self).wf(),
            final(self).same_but_selection(old(self)),
            final(self).selection() == previous_page_selection(old(self).selection()),
    {
        if let Some(i) = self.selected {
            let j = if i >= PAGE_SIZE { i - PAGE_SIZE } else { 0 };
            self.selected = Some(j);
        }
    }

    /// Selects the first item when the list is not empty.
    pub fn go_to_top(&mut self)
        requires
            old(self).wf(),
        ensures
            final(self).wf(),
            final(self).same_but_selection(old(self)),
            final(self).selection() == if old(self).len() > 0 {
                Some(0usize)
            } else {
                old(self).selection()
            },
    {
        if self.filtered_items.len() > 0 {
            self.selected = Some(0);
        }
    }

    /// Selects the last item when the list is not empty.
    pub fn go_to_bottom(&mut self)
        requires
            old(self).wf(),
        ensures
            final(self).wf(),
            final(self).same_but_selection(old(self)),
            final(self).selection() == if old(self).len() > 0 {
                Some((old(self).len() - 1) as usize)
            } else {
                old(self).selection()
            },
    {
        let len = self.filtered_items.len();
        if len > 0 {
            self.selected = Some(len - 1);
        }
    }

    /// Selects an item drawn at random, whatever was selected before; an empty
    /// list keeps its selection.
    pub fn select_random(&mut self)
        requires
            old(self).wf(),
        ensures
            final(self).wf(),
            final(self).same_but_selection(old(self)),
            old(self).len() == 0 ==> final(self).selection() == old(self).selection(),
            old(self).len() > 0 ==> exists|r: usize|
                r < old(self).len() && final(self).selection() == Some(r),
    {
        let len = self.filtered_items.len();
        if len > 0 {
            let r = random_index(len);
            self.selected = Some(r);
        }
    }

    /// Flips between the normal and the help screen.
    pub fn toggle_help(&mut self)
        requires
            old(self).wf(),
        ensures
            final(self).wf(),
            final(self).catalog() == old(self).catalog(),
            final(self).displayed() == old(self).displayed(),
            final(self).selection() == old(self).selection(),
            final(self).playback() == old(self).playback(),
            final(self).has_device() == old(self).has_device(),
            final(self).view() == match old(self).view() {
                ViewMode::Normal => ViewMode::Help,
                ViewMode::Help => ViewMode::Normal,
            },
    {
        self.current_view = match self.current_view {
            ViewMode::Normal => ViewMode::Help,
            ViewMode::Help => ViewMode::Normal,
        };
    }

    /// Re-derives the displayed list from the catalog and selects its first item.
    pub fn refresh(&mut self)
        requires
            old(self).wf(),
        ensures
            final(self).wf(),
            final(self).same_but_selection(old(self)),
            final(self).selection() == if old(self).len() > 0 {
                Some(0usize)
            } else {
                old(self).selection()
            },
    {
        assert(self.filtered_items@.len() == self.items@.len());
        self.update_filtered_items();
        self.select_first();
    }
}

/// The first half of a play request, for the owner of the audio device to
/// carry out in order: stop the previous handle as `previous` says, create the
/// output device if `create_device` is set, then open `track` on it.
#[derive(Debug)]
pub struct PlayRequest {
    pub previous: HandleAction,
    pub create_device: bool,
    pub track: Track,
}

/// What the dispatch loop must do after an action has been applied.
#[derive(Debug)]
pub enum Effect {
    /// Leave the loop.
    Quit,
    /// Carry out the handle action, then go on with the next tick.
    Handle(HandleAction),
    /// Carry out the play request and report its outcome with `finish_play`.
    Play(PlayRequest),
}

impl App {
    pub fn is_empty(&self) -> (r: bool)
        requires
            self.wf(),
        ensures
            r == (self.len() == 0),
    {
        self.filtered_items.len() == 0
    }

    pub fn get_display_items(&self) -> (r: &Vec<(usize, Track)>)
        ensures
            r@ == self.displayed(),
    {
        &self.filtered_items
    }

    pub fn total_tracks(&self) -> (r: usize)
        requires
            self.wf(),
        ensures
            r == self.catalog().len(),
    {
        self.total_tracks
    }

    pub fn selected(&self) -> (r: Option<usize>)
        ensures
            r == self.selection(),
    {
        self.selected
    }

    pub fn current_view(&self) -> (r: ViewMode)
        ensures
            r == self.view(),
    {
        self.current_view
    }

    pub fn playback_state(&self) -> (r: &PlaybackState)
        ensures
            *r == self.playback(),
    {
        &self.playback_state
    }

    /// The track that is playing or paused, if any.
    pub fn current_track(&self) -> (r: Option<Track>)
        ensures
            r == self.playback().track(),
    {
        self.playback_state.current_track()
    }

    /// The track under the selection, if any.
    pub fn get_selected(&self) -> (r: Option<Track>)
        requires
            self.wf(),
        ensures
            r == self.selected_track(),
    {
        match self.selected {
            Some(i) => Some(self.filtered_items[i].1.clone()),
            None => None,
        }
    }

    /// Starts a play request: the attached handle, if any, is torn down and
    /// the state becomes `Stopped` until `finish_play` reports the outcome.
    pub fn play_track(&mut self, track: Track) -> (r: PlayRequest)
        requires
            old(self).wf(),
        ensures
            final(self).wf(),
            final(self).same_but_playback(old(self)),
            final(self).has_device() == old(self).has_device(),
            final(self).playback() is Stopped,
            r.previous == teardown_action(old(self).playback()),
            r.create_device == !old(self).has_device(),
            r.track == track,
    {
        let previous = self.stop_playback();
        PlayRequest { previous, create_device: !self.device_ready, track }
    }

    /// Completes a play request: `device_ready` tells whether the output device
    /// exists now, `opened` whether `track` was opened on it. On success the
    /// track plays; on failure the state stays `Stopped`.
    pub fn finish_play(&mut self, track: Track, device_ready: bool, opened: bool)
        requires
            old(self).wf(),
            old(self).playback() is Stopped,
        ensures
            final(self).wf(),
            final(self).same_but_playback(old(self)),
            final(self).has_device() == device_ready,
            final(self).playback() == play_outcome(track, device_ready, opened),
    {
        self.device_ready = device_ready;
        if device_ready && opened {
            self.playback_state = PlaybackState::Playing(track);
        }
    }

    /// Pauses a playing track, resumes a paused one; does nothing when stopped.
    pub fn toggle_pause(&mut self) -> (r: HandleAction)
        requires
            old(self).wf(),
        ensures
            final(self).wf(),
            final(self).same_but_playback(old(self)),
            final(self).has_device() == old(self).has_device(),
            final(self).playback() == toggled(old(self).playback()),
            r == toggle_action(old(self).playback()),
    {
        let st = self.playback_state.clone();
        match st {
            PlaybackState::Stopped => HandleAction::Keep,
            PlaybackState::Playing(t) => {
                self.playback_state = PlaybackState::Paused(t);
                HandleAction::Pause
            },
            PlaybackState::Paused(t) => {
                self.playback_state = PlaybackState::Playing(t);
                HandleAction::Resume
            },
        }
    }

    /// Stops playback from any state; the attached handle, if any, is stopped.
    pub fn stop_playback(&mut self) -> (r: HandleAction)
        requires
            old(self).wf(),
        ensures
            final(self).wf(),
            final(self).same_but_playback(old(self)),
            final(self).has_device() == old(self).has_device(),
            final(self).playback() is Stopped,
            r == teardown_action(old(self).playback()),
    {
        let had_handle = !self.playback_state.is_stopped();
        self.playback_state = PlaybackState::Stopped;
        if had_handle {
            HandleAction::Stop
        } else {
            HandleAction::Keep
        }
    }

    /// Called once per tick with whether the attached handle has nothing left
    /// to play: a playing or paused track then ends and its handle is released.
    pub fn update_playback_status(&mut self, drained: bool) -> (r: HandleAction)
        requires
            old(self).wf(),
        ensures
            final(self).wf(),
            final(self).same_but_playback(old(self)),
            final(self).has_device() == old(self).has_device(),
            final(self).playback() == polled(old(self).playback(), drained),
            r == poll_action(old(self).playback(), drained),
    {
        if drained && !self.playback_state.is_stopped() {
            self.playback_state = PlaybackState::Stopped;
            HandleAction::Release
        } else {
            HandleAction::Keep
        }
    }

    /// Applies one action. Actions are processed the same way whichever view
    /// is shown: the view only changes what is rendered. `SelectItem` starts a
    /// play request for the selected track, if there is one.
    pub fn apply(&mut self, action: AppAction) -> (e: Effect)
        requires
            old(self).wf(),
        ensures
            final(self).wf(),
            action is Quit ==> e is Quit && *final(self) == *old(self),
            action is NextItem ==> e == Effect::Handle(HandleAction::Keep)
                && final(self).same_but_selection(old(self))
                && final(self).selection() == next_selection(old(self).selection(), old(self).len()),
            action is PreviousItem ==> e == Effect::Handle(HandleAction::Keep)
                && final(self).same_but_selection(old(self))
                && final(self).selection() == previous_selection(old(self).selection(), old(self).len()),
            action is NextPage ==> e == Effect::Handle(HandleAction::Keep)
                && final(self).same_but_selection(old(self))
                && final(self).selection() == next_page_selection(old(self).selection(), old(self).len()),
            action is PreviousPage ==> e == Effect::Handle(HandleAction::Keep)
                && final(self).same_but_selection(old(self))
                && final(self).selection() == previous_page_selection(old(self).selection()),
            (action is GoToTop || action is Refresh) ==> e == Effect::Handle(HandleAction::Keep)
                && final(self).same_but_selection(old(self))
                && final(self).selection() == if old(self).len() > 0 {
                    Some(0usize)
                } else {
                    old(self).selection()
                },
            action is GoToBottom ==> e == Effect::Handle(HandleAction::Keep)
                && final(self).same_but_selection(old(self))
                && final(self).selection() == if old(self).len() > 0 {
                    Some((old(self).len() - 1) as usize)
                } else {
                    old(self).selection()
                },
            action is Random ==> e == Effect::Handle(HandleAction::Keep)
                && final(self).same_but_selection(old(self))
                && (old(self).len() == 0 ==> final(self).selection() == old(self).selection())
                && (old(self).len() > 0 ==> exists|r: usize|
                    r < old(self).len() && final(self).selection() == Some(r)),
            action is ToggleHelp ==> e == Effect::Handle(HandleAction::Keep)
                && final(self).catalog() == old(self).catalog()
                && final(self).displayed() == old(self).displayed()
                && final(self).selection() == old(self).selection()
                && final(self).playback() == old(self).playback()
                && final(self).has_device() == old(self).has_device()
                && final(self).view() != old(self).view(),
            action is SelectItem ==> match old(self).selected_track() {
                None => e == Effect::Handle(HandleAction::Keep) && *final(self) == *old(self),
                Some(t) => e == Effect::Play(
                    PlayRequest {
                        previous: teardown_action(old(self).playback()),
                        create_device: !old(self).has_device(),
                        track: t,
                    },
                ) && final(self).same_but_playback(old(self))
                    && final(self).has_device() == old(self).has_device()
                    && final(self).playback() is Stopped,
            },
            action is TogglePause ==> e == Effect::Handle(toggle_action(old(self).playback()))
                && final(self).same_but_playback(old(self))
                && final(self).has_device() == old(self).has_device()
                && final(self).playback() == toggled(old(self).playback()),
            action is StopPlayback ==> e == Effect::Handle(teardown_action(old(self).playback()))
                && final(self).same_but_playback(old(self))
                && final(self).has_device() == old(self).has_device()
                && final(self).playback() is Stopped,
    {
        match action {
            AppAction::Quit => Effect::Quit,
            AppAction::NextItem => {
                self.next();
                Effect::Handle(HandleAction::Keep)
            },
            AppAction::PreviousItem => {
                self.previous();
                Effect::Handle(HandleAction::Keep)
            },
            AppAction::NextPage => {
                self.next_page();
                Effect::Handle(HandleAction::Keep)
            },
            AppAction::PreviousPage => {
                self.previous_page();
                Effect::Handle(HandleAction::Keep)
            },
            AppAction::GoToTop => {
                self.go_to_top();
                Effect::Handle(HandleAction::Keep)
            },
            AppAction::GoToBottom => {
                self.go_to_bottom();
                Effect::Handle(HandleAction::Keep)
            },
            AppAction::Refresh => {
                self.refresh();
                Effect::Handle(HandleAction::Keep)
            },
            AppAction::Random => {
                self.select_random();
                Effect::Handle(HandleAction::Keep)
            },
            AppAction::ToggleHelp => {
                self.toggle_help();
                Effect::Handle(HandleAction::Keep)
            },
            AppAction::SelectItem => match self.get_selected() {
                Some(t) => Effect::Play(self.play_track(t)),
                None => Effect::Handle(HandleAction::Keep),
            },
            AppAction::TogglePause => Effect::Handle(self.toggle_pause()),
            AppAction::StopPlayback => Effect::Handle(self.stop_playback()),
        }
    }
}

} // verus!

