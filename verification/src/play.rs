//! The player: the messages it takes, the engine's events, and the state
//! machine that sequences track loads.

use crate::queue::{front, optional_track_view, popped, pushed, TrackQueue};
use crate::text::{dash_join, dashed};
use crate::track::{SpotifyId, Track, TrackView};
use vstd::prelude::*;

verus! {

/// A track ready to be played: its metadata and the name of its artist.
#[derive(Clone, Debug, PartialEq, Eq)]
pub struct TrackData {
    pub track: Track,
    pub artist: String,
}

/// What a `TrackData` holds, as plain values.
pub struct TrackDataView {
    pub track: TrackView,
    pub artist: Seq<char>,
}

impl View for TrackData {
    type V = TrackDataView;

    open spec fn view(&self) -> TrackDataView {
        TrackDataView { track: self.track@, artist: self.artist@ }
    }
}

/// A request to the player.
#[derive(Clone, Debug, PartialEq, Eq)]
pub enum Message {
    /// Drop what is queued and play this track now.
    StartPlaying(TrackData),
    /// Stop playback and drop what is queued.
    StopPlaying,
    /// Play this track after all that are queued.
    AddToQueue(TrackData),
    /// Stop and end the player.
    Quit,
}

/// A `Message` over plain values.
pub enum MessageView {
    StartPlaying(TrackDataView),
    StopPlaying,
    AddToQueue(TrackDataView),
    Quit,
}

impl View for Message {
    type V = MessageView;

    open spec fn view(&self) -> MessageView {
        match self {
            Message::StartPlaying(track) => MessageView::StartPlaying(track@),
            Message::StopPlaying => MessageView::StopPlaying,
            Message::AddToQueue(track) => MessageView::AddToQueue(track@),
            Message::Quit => MessageView::Quit,
        }
    }
}

/// The view of a message that may be missing.
pub open spec fn optional_message_view(message: Option<Message>) -> Option<MessageView> {
    match message {
        Some(m) => Some(m@),
        None => None,
    }
}

/// The views of `messages`, in order.
pub open spec fn messages_view(messages: Seq<Message>) -> Seq<MessageView> {
    Seq::new(messages.len(), |i: int| messages[i]@)
}

/// What the playback engine reports.
#[derive(Clone, Copy, Debug, PartialEq, Eq, Structural)]
pub enum PlayerEvent {
    /// The loaded track has played to its end.
    EndOfTrack,
    /// The loaded track cannot be played.
    Unavailable,
    /// Anything else.
    Other,
}

/// The condition that the player is in.
#[derive(Clone, Copy, Debug, PartialEq, Eq, Structural)]
pub enum PlayerState {
    /// Nothing is loaded and nothing waits.
    Idle,
    /// A track is loaded.
    Playing,
    /// Nothing is loaded, and tracks wait for the engine's next event.
    Draining,
    /// The player has quit.
    Quit,
}

/// An order to the playback engine.
#[derive(Clone, Copy, Debug, PartialEq, Eq, Structural)]
pub enum EngineCommand {
    /// Load a track and, if `start_playing`, play it from `position_ms`.
    Load { track_id: SpotifyId, start_playing: bool, position_ms: u64 },
    /// Stop the output.
    Stop,
}

/// A change to what the user sees of the playback.
#[derive(Clone, Debug, PartialEq, Eq)]
pub enum Indicator {
    /// Show a new indicator with this text.
    Start(String),
    /// Give the indicator this text.
    Update(String),
    /// Show that playback has stopped.
    Stop,
}

/// An `Indicator` over plain values.
pub enum IndicatorView {
    Start(Seq<char>),
    Update(Seq<char>),
    Stop,
}

impl View for Indicator {
    type V = IndicatorView;

    open spec fn view(&self) -> IndicatorView {
        match self {
            Indicator::Start(text) => IndicatorView::Start(text@),
            Indicator::Update(text) => IndicatorView::Update(text@),
            Indicator::Stop => IndicatorView::Stop,
        }
    }
}

/// What the player's loop has to do after a message or an event, in this
/// order: note the track that was skipped because it could not be loaded,
/// stop the engine, change the indicator, load a track, and leave the loop.
/// Each part may be missing.
#[derive(Clone, Debug, PartialEq, Eq)]
pub struct Reaction {
    pub engine: Option<EngineCommand>,
    pub indicator: Option<Indicator>,
    pub skipped: Option<TrackData>,
    pub exit: bool,
}

/// A `Reaction` over plain values.
pub struct ReactionView {
    pub engine: Option<EngineCommand>,
    pub indicator: Option<IndicatorView>,
    pub skipped: Option<TrackDataView>,
    pub exit: bool,
}

impl View for Reaction {
    type V = ReactionView;

    open spec fn view(&self) -> ReactionView {
        ReactionView {
            engine: self.engine,
            indicator: match self.indicator {
                Some(indicator) => Some(indicator@),
                None => None,
            },
            skipped: optional_track_view(self.skipped),
            exit: self.exit,
        }
    }
}

/// The text that the indicator shows for a track: its title, `" - "`, its
/// artist.
pub open spec fn label(track: TrackDataView) -> Seq<char> {
    dashed(track.track.name, track.artist)
}

/// The order that loads `track` and plays it from its start.
pub open spec fn load(track: TrackDataView) -> EngineCommand {
    EngineCommand::Load { track_id: track.track.id, start_playing: true, position_ms: 0 }
}

/// The reaction that does nothing.
pub open spec fn no_reaction() -> ReactionView {
    ReactionView { engine: None, indicator: None, skipped: None, exit: false }
}

/// The reaction that stops the output and shows it.
pub open spec fn stop_reaction() -> ReactionView {
    ReactionView {
        engine: Some(EngineCommand::Stop),
        indicator: Some(IndicatorView::Stop),
        skipped: None,
        exit: false,
    }
}

/// The player's state as plain values: the tracks that wait, the track that
/// is loaded, and whether the player has quit.
pub struct PlayerView {
    pub queue: Seq<TrackDataView>,
    pub current: Option<TrackDataView>,
    pub finished: bool,
}

impl PlayerView {
    /// The state in which a player starts: nothing loaded, nothing waiting.
    pub open spec fn initial() -> PlayerView {
        PlayerView { queue: Seq::empty(), current: None, finished: false }
    }

    /// The state of a player that has quit.
    pub open spec fn terminal() -> PlayerView {
        PlayerView { queue: Seq::empty(), current: None, finished: true }
    }

    /// A player that has quit holds no track.
    pub open spec fn wf(self) -> bool {
        self.finished ==> self.queue.len() == 0 && self.current is None
    }

    /// The condition that the player is in.
    pub open spec fn state(self) -> PlayerState {
        if self.finished {
            PlayerState::Quit
        } else if self.current is Some {
            PlayerState::Playing
        } else if self.queue.len() == 0 {
            PlayerState::Idle
        } else {
            PlayerState::Draining
        }
    }

    /// The state after a message. `StartPlaying` drops what waits and loads
    /// its track; `AddToQueue` puts its track behind those that wait;
    /// `StopPlaying` leaves nothing loaded and nothing waiting; `Quit` ends
    /// the player. A player that has quit takes no message.
    pub open spec fn on_message(self, message: MessageView) -> PlayerView {
        if self.finished {
            self
        } else {
            match message {
                MessageView::StartPlaying(track) => PlayerView {
                    queue: Seq::empty(),
                    current: Some(track),
                    finished: false,
                },
                MessageView::AddToQueue(track) => PlayerView {
                    queue: pushed(self.queue, track),
                    current: self.current,
                    finished: false,
                },
                MessageView::StopPlaying => PlayerView::initial(),
                MessageView::Quit => PlayerView::terminal(),
            }
        }
    }

    /// What the loop has to do after a message. `StartPlaying` loads its
    /// track and shows it; `AddToQueue` asks for nothing; `StopPlaying` stops
    /// the output; `Quit` stops the output if a track is loaded, and leaves
    /// the loop.
    pub open spec fn message_reaction(self, message: MessageView) -> ReactionView {
        if self.finished {
            no_reaction()
        } else {
            match message {
                MessageView::StartPlaying(track) => ReactionView {
                    engine: Some(load(track)),
                    indicator: Some(IndicatorView::Start(label(track))),
                    skipped: None,
                    exit: false,
                },
                MessageView::AddToQueue(track) => no_reaction(),
                MessageView::StopPlaying => stop_reaction(),
                MessageView::Quit => if self.current is Some {
                    ReactionView {
                        engine: Some(EngineCommand::Stop),
                        indicator: Some(IndicatorView::Stop),
                        skipped: None,
                        exit: true,
                    }
                } else {
                    ReactionView { engine: None, indicator: None, skipped: None, exit: true }
                },
            }
        }
    }

    /// Whether an event ends the loaded track: its end, or its failure to
    /// load.
    pub open spec fn ends_track(event: PlayerEvent) -> bool {
        event == PlayerEvent::EndOfTrack || event == PlayerEvent::Unavailable
    }

    /// The state after the loaded track ended: the head of the queue is
    /// loaded in its place, and nothing where no track waits.
    pub open spec fn advanced(self) -> PlayerView {
        PlayerView { queue: popped(self.queue), current: front(self.queue), finished: false }
    }

    /// The state after an event of the engine. An event that ends the track
    /// moves on to the next; any other changes nothing.
    pub open spec fn on_event(self, event: PlayerEvent) -> PlayerView {
        if !self.finished && Self::ends_track(event) {
            self.advanced()
        } else {
            self
        }
    }

    /// What the loop has to do after an event of the engine. Where the track
    /// ended and another waits, that one is loaded and shown; where none
    /// waits, the engine gets no order. A track that could not be loaded is
    /// noted as skipped.
    pub open spec fn event_reaction(self, event: PlayerEvent) -> ReactionView {
        if !self.finished && Self::ends_track(event) {
            let skipped = if event == PlayerEvent::Unavailable {
                self.current
            } else {
                None
            };
            match front(self.queue) {
                Some(track) => ReactionView {
                    engine: Some(load(track)),
                    indicator: Some(IndicatorView::Update(label(track))),
                    skipped,
                    exit: false,
                },
                None => ReactionView { engine: None, indicator: None, skipped, exit: false },
            }
        } else {
            no_reaction()
        }
    }
}

/// The text that the indicator shows for `track`.
pub fn now_playing(track: &TrackData) -> (text: String)
    ensures
        text@ == label(track@),
{
    dash_join(track.track.name.as_str(), track.artist.as_str())
}

/// The player: the tracks that wait and the track that is loaded. The loop
/// around it hands it each message and each event of the engine, and does
/// what the reaction says.
pub struct Player {
    queue: TrackQueue,
    current: Option<TrackData>,
    finished: bool,
}

impl View for Player {
    type V = PlayerView;

    closed spec fn view(&self) -> PlayerView {
        if self.finished {
            PlayerView::terminal()
        } else {
            PlayerView {
                queue: self.queue@,
                current: optional_track_view(self.current),
                finished: false,
            }
        }
    }
}

impl Player {
    /// A player with nothing loaded and nothing waiting.
    pub fn new() -> (player: Player)
        ensures
            player@ == PlayerView::initial(),
    {
        Player { queue: TrackQueue::new(), current: None, finished: false }
    }

    /// The reaction that does nothing.
    fn nothing() -> (reaction: Reaction)
        ensures
            reaction@ == no_reaction(),
    {
        Reaction { engine: None, indicator: None, skipped: None, exit: false }
    }

    /// Takes one message.
    pub fn handle_message(&mut self, message: Message) -> (reaction: Reaction)
        ensures
            final(self)@ == old(self)@.on_message(message@),
            reaction@ == old(self)@.message_reaction(message@),
    {
        if self.finished {
            return Self::nothing();
        }
        match message {
            Message::AddToQueue(track_data) => {
                self.queue.push_back(track_data);
                Self::nothing()
            },
            Message::StartPlaying(track_data) => {
                self.queue.clear();
                let text = now_playing(&track_data);
                let track_id = track_data.track.id;
                self.current = Some(track_data);
                Reaction {
                    engine: Some(
                        EngineCommand::Load { track_id, start_playing: true, position_ms: 0 },
                    ),
                    indicator: Some(Indicator::Start(text)),
                    skipped: None,
                    exit: false,
                }
            },
            Message::StopPlaying => {
                self.queue.clear();
                self.current = None;
                Reaction {
                    engine: Some(EngineCommand::Stop),
                    indicator: Some(Indicator::Stop),
                    skipped: None,
                    exit: false,
                }
            },
            Message::Quit => {
                let playing = self.current.is_some();
                self.queue.clear();
                self.current = None;
                self.finished = true;
                if playing {
                    Reaction {
                        engine: Some(EngineCommand::Stop),
                        indicator: Some(Indicator::Stop),
                        skipped: None,
                        exit: true,
                    }
                } else {
                    Reaction { engine: None, indicator: None, skipped: None, exit: true }
                }
            },
        }
    }

    /// Takes one event of the engine.
    pub fn handle_event(&mut self, event: PlayerEvent) -> (reaction: Reaction)
        ensures
            final(self)@ == old(self)@.on_event(event),
            reaction@ == old(self)@.event_reaction(event),
    {
        if self.finished {
            return Self::nothing();
        }
        let failed = match event {
            PlayerEvent::EndOfTrack => false,
            PlayerEvent::Unavailable => true,
            PlayerEvent::Other => {
                return Self::nothing();
            },
        };
        let next = self.queue.pop_front();
        let mut ended: Option<TrackData> = None;
        match next {
            Some(track_data) => {
                let text = now_playing(&track_data);
                let track_id = track_data.track.id;
                std::mem::swap(&mut self.current, &mut ended);
                self.current = Some(track_data);
                Reaction {
                    engine: Some(
                        EngineCommand::Load { track_id, start_playing: true, position_ms: 0 },
                    ),
                    indicator: Some(Indicator::Update(text)),
                    skipped: if failed {
                        ended
                    } else {
                        None
                    },
                    exit: false,
                }
            },
            None => {
                std::mem::swap(&mut self.current, &mut ended);
                Reaction {
                    engine: None,
                    indicator: None,
                    skipped: if failed {
                        ended
                    } else {
                        None
                    },
                    exit: false,
                }
            },
        }
    }

    /// The condition that the player is in.
    pub fn state(&self) -> (state: PlayerState)
        ensures
            state == self@.state(),
    {
        if self.finished {
            PlayerState::Quit
        } else if self.current.is_some() {
            PlayerState::Playing
        } else if self.queue.is_empty() {
            PlayerState::Idle
        } else {
            PlayerState::Draining
        }
    }

    /// The track that is loaded.
    pub fn current(&self) -> (track: Option<&TrackData>)
        ensures
            match track {
                Some(t) => self@.current == Some(t@),
                None => self@.current is None,
            },
    {
        if self.finished {
            None
        } else {
            self.current.as_ref()
        }
    }

    /// The number of tracks that wait.
    pub fn queue_len(&self) -> (n: usize)
        ensures
            n == self@.queue.len(),
    {
        if self.finished {
            0
        } else {
            self.queue.len()
        }
    }
}

impl Player {
    /// A player that has quit holds no track.
    pub proof fn lemma_wf(self)
        ensures
            self@.wf(),
    {
    }
}

/// The state after each of `messages` was taken, in order.
pub open spec fn after_messages(state: PlayerView, messages: Seq<MessageView>) -> PlayerView
    decreases messages.len(),
{
    if messages.len() == 0 {
        state
    } else {
        after_messages(state, messages.drop_last()).on_message(messages.last())
    }
}

/// The state after the engine reported the end of a track `n` times.
pub open spec fn after_ends(state: PlayerView, n: nat) -> PlayerView
    decreases n,
{
    if n == 0 {
        state
    } else {
        after_ends(state, (n - 1) as nat).on_event(PlayerEvent::EndOfTrack)
    }
}

/// No message and no event makes a player that has quit hold a track.
pub proof fn lemma_steps_keep_wf(state: PlayerView, message: MessageView, event: PlayerEvent)
    requires
        state.wf(),
    ensures
        state.on_message(message).wf(),
        state.on_event(event).wf(),
{
}

/// No sequence of messages makes a player that has quit hold a track.
pub proof fn lemma_messages_keep_wf(state: PlayerView, messages: Seq<MessageView>)
    requires
        state.wf(),
    ensures
        after_messages(state, messages).wf(),
    decreases messages.len(),
{
    if messages.len() > 0 {
        lemma_messages_keep_wf(state, messages.drop_last());
    }
}

/// `StartPlaying` replaces what is queued: after two tracks were queued and
/// a third was started, in any state of a running player, nothing waits and
/// the third is loaded; when it ends the player is idle, the engine gets no
/// order, and neither of the two is played.
pub proof fn lemma_start_playing_clears_queue(
    state: PlayerView,
    a: TrackDataView,
    b: TrackDataView,
    c: TrackDataView,
)
    requires
        !state.finished,
    ensures
        ({
            let started = state.on_message(MessageView::AddToQueue(a)).on_message(
                MessageView::AddToQueue(b),
            ).on_message(MessageView::StartPlaying(c));
            &&& started.queue == Seq::<TrackDataView>::empty()
            &&& started.current == Some(c)
            &&& started.state() == PlayerState::Playing
            &&& started.on_event(PlayerEvent::EndOfTrack).state() == PlayerState::Idle
            &&& started.event_reaction(PlayerEvent::EndOfTrack) == no_reaction()
        }),
{
}

/// `StopPlaying` resets the player: after any messages, from any state, it
/// leaves nothing waiting and nothing loaded.
pub proof fn lemma_stop_resets(state: PlayerView, messages: Seq<MessageView>)
    requires
        state.wf(),
    ensures
        after_messages(state, messages.push(MessageView::StopPlaying)).queue.len() == 0,
        after_messages(state, messages.push(MessageView::StopPlaying)).current is None,
{
    let all = messages.push(MessageView::StopPlaying);
    assert(all.drop_last() == messages);
    lemma_messages_keep_wf(state, messages);
}

/// The queue drains in order: while a track is loaded and `queue` waits, the
/// end of track number `n`, counted from 1 and no greater than the number of
/// tracks that wait, loads `queue[n - 1]` and leaves waiting what stood
/// behind it.
pub proof fn lemma_end_of_track_drains(state: PlayerView, n: nat)
    requires
        !state.finished,
        1 <= n <= state.queue.len(),
    ensures
        after_ends(state, n).current == Some(state.queue[n - 1]),
        after_ends(state, n).queue == state.queue.skip(n as int),
        !after_ends(state, n).finished,
        after_ends(state, (n - 1) as nat).event_reaction(PlayerEvent::EndOfTrack).engine == Some(
            load(state.queue[n - 1]),
        ),
    decreases n,
{
    if n == 1 {
        assert(state.queue.drop_first() =~= state.queue.skip(1));
    } else {
        lemma_end_of_track_drains(state, (n - 1) as nat);
        assert(state.queue.skip(n - 1).drop_first() =~= state.queue.skip(n as int));
    }
}

/// When the last track has ended the player is idle: one more end of track
/// than tracks wait leaves nothing loaded and nothing waiting, and the
/// engine gets no order for it.
pub proof fn lemma_last_end_of_track_idles(state: PlayerView)
    requires
        !state.finished,
    ensures
        after_ends(state, state.queue.len() + 1).state() == PlayerState::Idle,
        after_ends(state, state.queue.len()).event_reaction(PlayerEvent::EndOfTrack).engine is None,
{
    let n = state.queue.len();
    if n > 0 {
        lemma_end_of_track_drains(state, n);
    }
}

} // verus!
