//! The decisions of the playback worker. The worker owns an audio output and
//! at most one sink playing a decoded file; each round it looks at its sink,
//! takes at most one command, and reports what happened. Here that worker is
//! a state machine: each event gives the next state and the list of actions
//! for the worker to carry out with the audio device, in order.

use vstd::prelude::*;

use crate::paths::{file_name, path_file_name};

verus! {

/// What the worker reports to the player.
#[derive(Debug)]
pub enum AudioStatus {
    Playing,
    Paused,
    Stopped,
    Finished,
    Error(String),
}

/// An `AudioStatus` with its message as text.
pub enum StatusView {
    Playing,
    Paused,
    Stopped,
    Finished,
    Error(Seq<char>),
}

impl View for AudioStatus {
    type V = StatusView;

    open spec fn view(&self) -> StatusView {
        match self {
            AudioStatus::Playing => StatusView::Playing,
            AudioStatus::Paused => StatusView::Paused,
            AudioStatus::Stopped => StatusView::Stopped,
            AudioStatus::Finished => StatusView::Finished,
            AudioStatus::Error(m) => StatusView::Error(m@),
        }
    }
}

/// A command to the worker. The position of a seek and the level of a volume
/// change travel beside the command and are not decided on here.
pub enum EngineCommand {
    Play(String),
    Pause,
    Resume,
    Stop,
    Seek,
    SetVolume,
    Quit,
}

/// What the worker found on its command channel in one round.
pub enum Received {
    Command(EngineCommand),
    /// No command was waiting.
    Empty,
    /// The player has gone away.
    Disconnected,
}

/// The result of opening and decoding the current file.
pub enum LoadOutcome {
    Loaded,
    OpenFailed(String),
    DecodeFailed(String),
}

/// Something the worker does with the audio device or the shared readings.
pub enum EngineAction {
    /// Stop the sink and let it go.
    StopSink,
    /// Let the sink go without stopping it first.
    DropSink,
    PauseSink,
    ResumeSink,
    /// Keep the volume that came with the command.
    StoreVolume,
    /// Give the sink the kept volume.
    SetSinkVolume,
    /// Publish the sink's position.
    ReportPosition,
    /// Publish the position 0.
    ResetPosition,
    /// Publish the decoded file's total duration.
    PublishDuration,
    /// Clamp the seek target to the file, skip the decoded source to it and
    /// publish it as the position.
    SeekPosition,
    /// Publish the name of the song being played (none: no song).
    PublishSong(Option<String>),
    /// Open and decode the current file from its start; the outcome comes back
    /// through `on_opened`.
    Open,
    /// Open and decode the current file again to seek in it; the outcome comes
    /// back through `on_reopened`.
    Reopen,
    /// Make a new sink with the kept volume and play the decoded source in it.
    StartSink,
    /// Report a status to the player.
    Send(AudioStatus),
    /// Leave the loop.
    Exit,
}

/// An `EngineAction` with its texts as sequences of characters.
pub enum ActionView {
    StopSink,
    DropSink,
    PauseSink,
    ResumeSink,
    StoreVolume,
    SetSinkVolume,
    ReportPosition,
    ResetPosition,
    PublishDuration,
    SeekPosition,
    PublishSong(Option<Seq<char>>),
    Open,
    Reopen,
    StartSink,
    Send(StatusView),
    Exit,
}

impl View for EngineAction {
    type V = ActionView;

    open spec fn view(&self) -> ActionView {
        match self {
            EngineAction::StopSink => ActionView::StopSink,
            EngineAction::DropSink => ActionView::DropSink,
            EngineAction::PauseSink => ActionView::PauseSink,
            EngineAction::ResumeSink => ActionView::ResumeSink,
            EngineAction::StoreVolume => ActionView::StoreVolume,
            EngineAction::SetSinkVolume => ActionView::SetSinkVolume,
            EngineAction::ReportPosition => ActionView::ReportPosition,
            EngineAction::ResetPosition => ActionView::ResetPosition,
            EngineAction::PublishDuration => ActionView::PublishDuration,
            EngineAction::SeekPosition => ActionView::SeekPosition,
            EngineAction::PublishSong(s) => ActionView::PublishSong(s.deep_view()),
            EngineAction::Open => ActionView::Open,
            EngineAction::Reopen => ActionView::Reopen,
            EngineAction::StartSink => ActionView::StartSink,
            EngineAction::Send(st) => ActionView::Send(st@),
            EngineAction::Exit => ActionView::Exit,
        }
    }
}

/// The actions of a list, as views.
pub open spec fn actions_view(actions: Seq<EngineAction>) -> Seq<ActionView> {
    actions.map_values(|a: EngineAction| a@)
}

/// The state of the worker between two rounds.
pub struct EngineState {
    /// Whether a sink is playing or holding a file.
    pub has_sink: bool,
    pub is_paused: bool,
    /// The file last asked to be played, while it is in play.
    pub current_file: Option<String>,
}

/// An `EngineState` with the file as text.
pub struct EngineModel {
    pub has_sink: bool,
    pub is_paused: bool,
    pub current_file: Option<Seq<char>>,
}

impl View for EngineState {
    type V = EngineModel;

    open spec fn view(&self) -> EngineModel {
        EngineModel {
            has_sink: self.has_sink,
            is_paused: self.is_paused,
            current_file: self.current_file.deep_view(),
        }
    }
}

/// A received command or event, as text.
pub enum ReceivedView {
    Play(Seq<char>),
    Pause,
    Resume,
    Stop,
    Seek,
    SetVolume,
    Quit,
    Empty,
    Disconnected,
}

impl View for Received {
    type V = ReceivedView;

    open spec fn view(&self) -> ReceivedView {
        match self {
            Received::Command(EngineCommand::Play(p)) => ReceivedView::Play(p@),
            Received::Command(EngineCommand::Pause) => ReceivedView::Pause,
            Received::Command(EngineCommand::Resume) => ReceivedView::Resume,
            Received::Command(EngineCommand::Stop) => ReceivedView::Stop,
            Received::Command(EngineCommand::Seek) => ReceivedView::Seek,
            Received::Command(EngineCommand::SetVolume) => ReceivedView::SetVolume,
            Received::Command(EngineCommand::Quit) => ReceivedView::Quit,
            Received::Empty => ReceivedView::Empty,
            Received::Disconnected => ReceivedView::Disconnected,
        }
    }
}

/// A load outcome with its error text.
pub enum OutcomeView {
    Loaded,
    OpenFailed(Seq<char>),
    DecodeFailed(Seq<char>),
}

impl View for LoadOutcome {
    type V = OutcomeView;

    open spec fn view(&self) -> OutcomeView {
        match self {
            LoadOutcome::Loaded => OutcomeView::Loaded,
            LoadOutcome::OpenFailed(e) => OutcomeView::OpenFailed(e@),
            LoadOutcome::DecodeFailed(e) => OutcomeView::DecodeFailed(e@),
        }
    }
}

/// Stopping the sink, where there is one.
pub open spec fn stop_if_any(has_sink: bool) -> Seq<ActionView> {
    if has_sink {
        seq![ActionView::StopSink]
    } else {
        seq![]
    }
}

/// The worker's state when it starts: no sink, not paused, no file.
pub open spec fn initial_model() -> EngineModel {
    EngineModel { has_sink: false, is_paused: false, current_file: None }
}

/// The look at the sink at the start of a round: while a sink plays, its
/// position is published; once it has run dry (and is not paused) the song
/// is finished and everything about it is let go.
pub open spec fn tick_step(s: EngineModel, sink_empty: bool) -> (EngineModel, Seq<ActionView>) {
    if s.has_sink && !s.is_paused && !sink_empty {
        (s, seq![ActionView::ReportPosition])
    } else if s.has_sink && !s.is_paused && sink_empty {
        (
            EngineModel { has_sink: false, current_file: None, ..s },
            seq![
                ActionView::Send(StatusView::Finished),
                ActionView::ResetPosition,
                ActionView::DropSink,
                ActionView::PublishSong(None),
            ],
        )
    } else {
        (s, seq![])
    }
}

/// What the worker does with what it found on its command channel.
pub open spec fn receive_step(s: EngineModel, r: ReceivedView) -> (EngineModel, Seq<ActionView>) {
    match r {
        ReceivedView::Play(p) => (
            EngineModel { has_sink: false, is_paused: false, current_file: Some(p) },
            stop_if_any(s.has_sink).push(ActionView::Open),
        ),
        ReceivedView::Pause => if s.has_sink {
            (
                EngineModel { is_paused: true, ..s },
                seq![ActionView::PauseSink, ActionView::Send(StatusView::Paused)],
            )
        } else {
            (s, seq![])
        },
        ReceivedView::Resume => if s.has_sink {
            (
                EngineModel { is_paused: false, ..s },
                seq![ActionView::ResumeSink, ActionView::Send(StatusView::Playing)],
            )
        } else {
            (s, seq![])
        },
        ReceivedView::Stop => (
            EngineModel { has_sink: false, is_paused: false, current_file: None },
            stop_if_any(s.has_sink) + seq![
                ActionView::ResetPosition,
                ActionView::PublishSong(None),
                ActionView::Send(StatusView::Stopped),
            ],
        ),
        ReceivedView::Seek => if s.current_file is Some {
            (
                EngineModel { has_sink: false, ..s },
                stop_if_any(s.has_sink).push(ActionView::Reopen),
            )
        } else {
            (s, seq![])
        },
        ReceivedView::SetVolume => (
            s,
            if s.has_sink {
                seq![ActionView::StoreVolume, ActionView::SetSinkVolume]
            } else {
                seq![ActionView::StoreVolume]
            },
        ),
        ReceivedView::Quit => (
            EngineModel { has_sink: false, ..s },
            stop_if_any(s.has_sink).push(ActionView::Exit),
        ),
        ReceivedView::Empty => (s, seq![]),
        ReceivedView::Disconnected => (s, seq![ActionView::Exit]),
    }
}

/// The text of the error reported when the file to play cannot be opened.
pub open spec fn open_failed_message(e: Seq<char>) -> Seq<char> {
    "Failed to open file: "@ + e
}

/// The text of the error reported when the file to play cannot be decoded.
pub open spec fn decode_failed_message(e: Seq<char>) -> Seq<char> {
    "Failed to decode audio: "@ + e
}

/// The text of the error reported when a seek cannot reopen the file.
pub open spec fn seek_failed_message(e: Seq<char>) -> Seq<char> {
    "Failed to seek: "@ + e
}

/// What the worker does once the file it was asked to play is opened (or not).
pub open spec fn opened_step(s: EngineModel, o: OutcomeView) -> (EngineModel, Seq<ActionView>) {
    match o {
        OutcomeView::Loaded => (
            EngineModel { has_sink: true, ..s },
            seq![
                ActionView::PublishDuration,
                ActionView::ResetPosition,
                ActionView::PublishSong(
                    match s.current_file {
                        Some(f) => path_file_name(f),
                        None => None,
                    },
                ),
                ActionView::StartSink,
                ActionView::Send(StatusView::Playing),
            ],
        ),
        OutcomeView::OpenFailed(e) => (
            s,
            seq![ActionView::Send(StatusView::Error(open_failed_message(e)))],
        ),
        OutcomeView::DecodeFailed(e) => (
            s,
            seq![ActionView::Send(StatusView::Error(decode_failed_message(e)))],
        ),
    }
}

/// What the worker does once the file to seek in is opened again (or not).
/// Playing is reported only when the worker is not paused.
pub open spec fn reopened_step(s: EngineModel, o: OutcomeView) -> (EngineModel, Seq<ActionView>) {
    match o {
        OutcomeView::Loaded => (
            EngineModel { has_sink: true, ..s },
            if s.is_paused {
                seq![ActionView::PublishDuration, ActionView::SeekPosition, ActionView::StartSink]
            } else {
                seq![
                    ActionView::PublishDuration,
                    ActionView::SeekPosition,
                    ActionView::StartSink,
                    ActionView::Send(StatusView::Playing),
                ]
            },
        ),
        OutcomeView::OpenFailed(e) => (
            s,
            seq![ActionView::Send(StatusView::Error(seek_failed_message(e)))],
        ),
        OutcomeView::DecodeFailed(e) => (
            s,
            seq![ActionView::Send(StatusView::Error(seek_failed_message(e)))],
        ),
    }
}

/// The worker's invariant: a sink only ever plays the current file.
pub open spec fn engine_inv(s: EngineModel) -> bool {
    s.has_sink ==> s.current_file is Some
}

/// `prefix` followed by `detail`.
fn join(prefix: &str, detail: &str) -> (r: String)
    ensures
        r@ == prefix@ + detail@,
{
    let mut r = String::from_str(prefix);
    r.append(detail);
    r
}

impl EngineState {
    /// The worker's state when it starts.
    pub fn new() -> (s: EngineState)
        ensures
            s@ == initial_model(),
    {
        EngineState { has_sink: false, is_paused: false, current_file: None }
    }

    /// The look at the sink at the start of a round; `sink_empty` tells
    /// whether the sink, if there is one, has run dry.
    pub fn on_tick(&mut self, sink_empty: bool) -> (actions: Vec<EngineAction>)
        ensures
            final(self)@ == tick_step(old(self)@, sink_empty).0,
            actions_view(actions@) == tick_step(old(self)@, sink_empty).1,
    {
        let mut actions: Vec<EngineAction> = Vec::new();
        if self.has_sink && !self.is_paused {
            if !sink_empty {
                actions.push(EngineAction::ReportPosition);
            } else {
                actions.push(EngineAction::Send(AudioStatus::Finished));
                actions.push(EngineAction::ResetPosition);
                actions.push(EngineAction::DropSink);
                actions.push(EngineAction::PublishSong(None));
                self.has_sink = false;
                self.current_file = None;
            }
        }
        proof {
            assert(actions_view(actions@) =~= tick_step(old(self)@, sink_empty).1);
        }
        actions
    }

    /// What the worker does with what it found on its command channel.
    pub fn on_receive(&mut self, received: Received) -> (actions: Vec<EngineAction>)
        ensures
            final(self)@ == receive_step(old(self)@, received@).0,
            actions_view(actions@) == receive_step(old(self)@, received@).1,
    {
        let ghost s0 = self@;
        let mut actions: Vec<EngineAction> = Vec::new();
        match received {
            Received::Command(EngineCommand::Play(p)) => {
                if self.has_sink {
                    actions.push(EngineAction::StopSink);
                }
                self.has_sink = false;
                self.is_paused = false;
                self.current_file = Some(p);
                actions.push(EngineAction::Open);
            },
            Received::Command(EngineCommand::Pause) => {
                if self.has_sink {
                    actions.push(EngineAction::PauseSink);
                    self.is_paused = true;
                    actions.push(EngineAction::Send(AudioStatus::Paused));
                }
            },
            Received::Command(EngineCommand::Resume) => {
                if self.has_sink {
                    actions.push(EngineAction::ResumeSink);
                    self.is_paused = false;
                    actions.push(EngineAction::Send(AudioStatus::Playing));
                }
            },
            Received::Command(EngineCommand::Stop) => {
                if self.has_sink {
                    actions.push(EngineAction::StopSink);
                }
                self.has_sink = false;
                self.is_paused = false;
                self.current_file = None;
                actions.push(EngineAction::ResetPosition);
                actions.push(EngineAction::PublishSong(None));
                actions.push(EngineAction::Send(AudioStatus::Stopped));
            },
            Received::Command(EngineCommand::Seek) => {
                if self.current_file.is_some() {
                    if self.has_sink {
                        actions.push(EngineAction::StopSink);
                    }
                    self.has_sink = false;
                    actions.push(EngineAction::Reopen);
                }
            },
            Received::Command(EngineCommand::SetVolume) => {
                actions.push(EngineAction::StoreVolume);
                if self.has_sink {
                    actions.push(EngineAction::SetSinkVolume);
                }
            },
            Received::Command(EngineCommand::Quit) => {
                if self.has_sink {
                    actions.push(EngineAction::StopSink);
                }
                self.has_sink = false;
                actions.push(EngineAction::Exit);
            },
            Received::Empty => {},
            Received::Disconnected => {
                actions.push(EngineAction::Exit);
            },
        }
        proof {
            assert(actions_view(actions@) =~= receive_step(s0, received@).1);
        }
        actions
    }

    /// What the worker does once the file it was asked to play is opened (or not).
    pub fn on_opened(&mut self, outcome: LoadOutcome) -> (actions: Vec<EngineAction>)
        ensures
            final(self)@ == opened_step(old(self)@, outcome@).0,
            actions_view(actions@) == opened_step(old(self)@, outcome@).1,
    {
        let ghost s0 = self@;
        let mut actions: Vec<EngineAction> = Vec::new();
        match outcome {
            LoadOutcome::Loaded => {
                actions.push(EngineAction::PublishDuration);
                actions.push(EngineAction::ResetPosition);
                let song = match &self.current_file {
                    Some(f) => file_name(f.as_str()),
                    None => None,
                };
                actions.push(EngineAction::PublishSong(song));
                actions.push(EngineAction::StartSink);
                self.has_sink = true;
                actions.push(EngineAction::Send(AudioStatus::Playing));
            },
            LoadOutcome::OpenFailed(e) => {
                let m = join("Failed to open file: ", e.as_str());
                actions.push(EngineAction::Send(AudioStatus::Error(m)));
            },
            LoadOutcome::DecodeFailed(e) => {
                let m = join("Failed to decode audio: ", e.as_str());
                actions.push(EngineAction::Send(AudioStatus::Error(m)));
            },
        }
        proof {
            assert(actions_view(actions@) =~= opened_step(s0, outcome@).1);
        }
        actions
    }

    /// What the worker does once the file to seek in is opened again (or not).
    pub fn on_reopened(&mut self, outcome: LoadOutcome) -> (actions: Vec<EngineAction>)
        ensures
            final(self)@ == reopened_step(old(self)@, outcome@).0,
            actions_view(actions@) == reopened_step(old(self)@, outcome@).1,
    {
        let ghost s0 = self@;
        let mut actions: Vec<EngineAction> = Vec::new();
        match outcome {
            LoadOutcome::Loaded => {
                actions.push(EngineAction::PublishDuration);
                actions.push(EngineAction::SeekPosition);
                actions.push(EngineAction::StartSink);
                self.has_sink = true;
                if !self.is_paused {
                    actions.push(EngineAction::Send(AudioStatus::Playing));
                }
            },
            LoadOutcome::OpenFailed(e) => {
                let m = join("Failed to seek: ", e.as_str());
                actions.push(EngineAction::Send(AudioStatus::Error(m)));
            },
            LoadOutcome::DecodeFailed(e) => {
                let m = join("Failed to seek: ", e.as_str());
                actions.push(EngineAction::Send(AudioStatus::Error(m)));
            },
        }
        proof {
            assert(actions_view(actions@) =~= reopened_step(s0, outcome@).1);
        }
        actions
    }
}

/// Every step of the worker keeps a sink only while there is a file in play;
/// and it only asks to open a file when there is one to open.
pub proof fn lemma_steps_keep_invariant(
    s: EngineModel,
    sink_empty: bool,
    r: ReceivedView,
    o: OutcomeView,
)
    requires
        engine_inv(s),
    ensures
        engine_inv(initial_model()),
        engine_inv(tick_step(s, sink_empty).0),
        engine_inv(receive_step(s, r).0),
        receive_step(s, r).1.contains(ActionView::Open) ==> receive_step(s, r).0.current_file is Some,
        receive_step(s, r).1.contains(ActionView::Reopen) ==> receive_step(s, r).0.current_file is Some,
        s.current_file is Some ==> engine_inv(opened_step(s, o).0),
        s.current_file is Some ==> engine_inv(reopened_step(s, o).0),
{
    let acts = receive_step(s, r).1;
    if acts.contains(ActionView::Open) {
        let i = choose|i: int| 0 <= i < acts.len() && acts[i] == ActionView::Open;
        assert(acts[i] == ActionView::Open);
    }
    if acts.contains(ActionView::Reopen) {
        let i = choose|i: int| 0 <= i < acts.len() && acts[i] == ActionView::Reopen;
        assert(acts[i] == ActionView::Reopen);
    }
}

/// Stopping always leaves the worker idle, without sink, file or pause, and
/// reports that playback stopped.
pub proof fn lemma_stop_leaves_idle(s: EngineModel)
    ensures
        receive_step(s, ReceivedView::Stop).0 == initial_model(),
        receive_step(s, ReceivedView::Stop).1.last() == ActionView::Send(StatusView::Stopped),
{
}

/// Pausing and then resuming a playing sink brings the worker back to the
/// state it was in.
pub proof fn lemma_resume_undoes_pause(s: EngineModel)
    requires
        s.has_sink,
        !s.is_paused,
    ensures
        receive_step(receive_step(s, ReceivedView::Pause).0, ReceivedView::Resume).0 == s,
{
}

/// Without a sink, pausing and resuming change nothing and do nothing.
pub proof fn lemma_pause_resume_without_sink(s: EngineModel)
    requires
        !s.has_sink,
    ensures
        receive_step(s, ReceivedView::Pause) == (s, Seq::<ActionView>::empty()),
        receive_step(s, ReceivedView::Resume) == (s, Seq::<ActionView>::empty()),
{
}

/// Quitting, or losing the player, ends the loop: the last action is to
/// leave it, and after quitting no sink is left.
pub proof fn lemma_quit_exits(s: EngineModel)
    ensures
        receive_step(s, ReceivedView::Quit).1.last() == ActionView::Exit,
        !receive_step(s, ReceivedView::Quit).0.has_sink,
        receive_step(s, ReceivedView::Disconnected).1 == seq![ActionView::Exit],
{
}

/// Asking to play a file and then opening it successfully leaves a sink
/// playing that file, not paused, and reports that it plays.
pub proof fn lemma_play_then_load_plays(s: EngineModel, path: Seq<char>)
    ensures
        ({
            let after_play = receive_step(s, ReceivedView::Play(path)).0;
            let (after_load, actions) = opened_step(after_play, OutcomeView::Loaded);
            &&& after_load == EngineModel {
                has_sink: true,
                is_paused: false,
                current_file: Some(path),
            }
            &&& actions.last() == ActionView::Send(StatusView::Playing)
            &&& actions[2] == ActionView::PublishSong(path_file_name(path))
        }),
{
}

/// A file that cannot be opened or decoded leaves the worker's state as it
/// was and reports an error naming the cause.
pub proof fn lemma_failed_load_reports(s: EngineModel, e: Seq<char>)
    ensures
        opened_step(s, OutcomeView::OpenFailed(e)).0 == s,
        opened_step(s, OutcomeView::OpenFailed(e)).1 == seq![
            ActionView::Send(StatusView::Error(open_failed_message(e))),
        ],
        opened_step(s, OutcomeView::DecodeFailed(e)).1 == seq![
            ActionView::Send(StatusView::Error(decode_failed_message(e))),
        ],
        reopened_step(s, OutcomeView::OpenFailed(e)).1 == seq![
            ActionView::Send(StatusView::Error(seek_failed_message(e))),
        ],
{
}

/// A round in which no command waits changes nothing and does nothing, in
/// every state; so does a look at a sink that still plays, apart from
/// publishing its position, and any look while paused or without a sink.
pub proof fn lemma_idle_rounds_change_nothing(s: EngineModel, sink_empty: bool)
    ensures
        receive_step(s, ReceivedView::Empty).0 == s,
        receive_step(s, ReceivedView::Empty).1 == Seq::<ActionView>::empty(),
        !sink_empty ==> tick_step(s, sink_empty).0 == s,
        s.has_sink && !s.is_paused && !sink_empty ==> tick_step(s, sink_empty).1 == seq![
            ActionView::ReportPosition,
        ],
        (s.is_paused || !s.has_sink) ==> tick_step(s, sink_empty) == (
            s,
            Seq::<ActionView>::empty(),
        ),
{
}

/// With a sink, pausing pauses it and reports so, and resuming resumes it
/// and reports playing; a volume change keeps the state.
pub proof fn lemma_commands_on_a_sink(s: EngineModel)
    requires
        s.has_sink,
    ensures
        receive_step(s, ReceivedView::Pause).0 == (EngineModel { is_paused: true, ..s }),
        receive_step(s, ReceivedView::Pause).1 == seq![
            ActionView::PauseSink,
            ActionView::Send(StatusView::Paused),
        ],
        receive_step(s, ReceivedView::Resume).0 == (EngineModel { is_paused: false, ..s }),
        receive_step(s, ReceivedView::Resume).1 == seq![
            ActionView::ResumeSink,
            ActionView::Send(StatusView::Playing),
        ],
        receive_step(s, ReceivedView::SetVolume).0 == s,
{
}

/// When a playing sink runs dry the worker reports the song finished and lets
/// go of the sink and the file; a play command always stops an old sink first,
/// clears the pause and asks to open the new file, last.
pub proof fn lemma_finish_and_play(s: EngineModel, path: Seq<char>)
    ensures
        s.has_sink && !s.is_paused ==> {
            let (n, a) = tick_step(s, true);
            &&& !n.has_sink
            &&& n.current_file is None
            &&& a[0] == ActionView::Send(StatusView::Finished)
            &&& a.contains(ActionView::DropSink)
        },
        ({
            let (n, a) = receive_step(s, ReceivedView::Play(path));
            &&& n.current_file == Some(path)
            &&& !n.is_paused
            &&& !n.has_sink
            &&& a.last() == ActionView::Open
            &&& (s.has_sink ==> a[0] == ActionView::StopSink)
            &&& (!s.has_sink ==> a.len() == 1)
        }),
{
    if s.has_sink && !s.is_paused {
        assert(tick_step(s, true).1[2] == ActionView::DropSink);
    }
}

} // verus!
