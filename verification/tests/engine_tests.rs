use rustmusic::audio::{AudioStatus, EngineAction, EngineCommand, EngineState, LoadOutcome, Received};

fn names(actions: &[EngineAction]) -> Vec<String> {
    actions.iter().map(|a| format!("{}", describe(a))).collect()
}

fn describe(a: &EngineAction) -> String {
    match a {
        EngineAction::StopSink => "stop".into(),
        EngineAction::DropSink => "drop".into(),
        EngineAction::PauseSink => "pause".into(),
        EngineAction::ResumeSink => "resume".into(),
        EngineAction::StoreVolume => "store-volume".into(),
        EngineAction::SetSinkVolume => "set-volume".into(),
        EngineAction::ReportPosition => "position".into(),
        EngineAction::ResetPosition => "reset-position".into(),
        EngineAction::PublishDuration => "duration".into(),
        EngineAction::SeekPosition => "seek".into(),
        EngineAction::PublishSong(s) => format!("song:{:?}", s),
        EngineAction::Open => "open".into(),
        EngineAction::Reopen => "reopen".into(),
        EngineAction::StartSink => "start".into(),
        EngineAction::Send(st) => format!("send:{:?}", st),
        EngineAction::Exit => "exit".into(),
    }
}

fn cmd(c: EngineCommand) -> Received {
    Received::Command(c)
}

fn playing() -> EngineState {
    let mut e = EngineState::new();
    e.on_receive(cmd(EngineCommand::Play("/music/track.mp3".to_string())));
    e.on_opened(LoadOutcome::Loaded);
    e
}

#[test]
fn play_opens_then_starts() {
    let mut e = EngineState::new();
    let a = e.on_receive(cmd(EngineCommand::Play("/music/track.mp3".to_string())));
    assert_eq!(names(&a), vec!["open"]);
    assert_eq!(e.current_file.as_deref(), Some("/music/track.mp3"));
    assert!(!e.has_sink);
    let a = e.on_opened(LoadOutcome::Loaded);
    assert_eq!(
        names(&a),
        vec!["duration", "reset-position", "song:Some(\"track.mp3\")", "start", "send:Playing"]
    );
    assert!(e.has_sink);
}

#[test]
fn play_while_playing_stops_old_sink() {
    let mut e = playing();
    let a = e.on_receive(cmd(EngineCommand::Play("/b.mp3".to_string())));
    assert_eq!(names(&a), vec!["stop", "open"]);
    assert!(!e.has_sink);
}

#[test]
fn load_failures_are_reported() {
    let mut e = EngineState::new();
    e.on_receive(cmd(EngineCommand::Play("/missing.mp3".to_string())));
    let a = e.on_opened(LoadOutcome::OpenFailed("not found".to_string()));
    assert_eq!(names(&a), vec!["send:Error(\"Failed to open file: not found\")"]);
    let a = e.on_opened(LoadOutcome::DecodeFailed("bad".to_string()));
    assert_eq!(names(&a), vec!["send:Error(\"Failed to decode audio: bad\")"]);
    assert!(!e.has_sink);
}

#[test]
fn pause_and_resume() {
    let mut e = playing();
    let a = e.on_receive(cmd(EngineCommand::Pause));
    assert_eq!(names(&a), vec!["pause", "send:Paused"]);
    assert!(e.is_paused);
    let a = e.on_receive(cmd(EngineCommand::Resume));
    assert_eq!(names(&a), vec!["resume", "send:Playing"]);
    assert!(!e.is_paused);
}

#[test]
fn pause_without_sink_does_nothing() {
    let mut e = EngineState::new();
    assert!(e.on_receive(cmd(EngineCommand::Pause)).is_empty());
    assert!(e.on_receive(cmd(EngineCommand::Resume)).is_empty());
    assert!(!e.is_paused);
}

#[test]
fn stop_resets() {
    let mut e = playing();
    let a = e.on_receive(cmd(EngineCommand::Stop));
    assert_eq!(names(&a), vec!["stop", "reset-position", "song:None", "send:Stopped"]);
    assert!(!e.has_sink && !e.is_paused && e.current_file.is_none());
}

#[test]
fn tick_reports_position_and_finish() {
    let mut e = playing();
    assert_eq!(names(&e.on_tick(false)), vec!["position"]);
    let a = e.on_tick(true);
    assert_eq!(names(&a), vec!["send:Finished", "reset-position", "drop", "song:None"]);
    assert!(!e.has_sink && e.current_file.is_none());
    assert!(e.on_tick(true).is_empty());
}

#[test]
fn tick_while_paused_does_nothing() {
    let mut e = playing();
    e.on_receive(cmd(EngineCommand::Pause));
    assert!(e.on_tick(true).is_empty());
    assert!(e.has_sink);
}

#[test]
fn seek_reopens_current_file() {
    let mut e = playing();
    let a = e.on_receive(cmd(EngineCommand::Seek));
    assert_eq!(names(&a), vec!["stop", "reopen"]);
    let a = e.on_reopened(LoadOutcome::Loaded);
    assert_eq!(names(&a), vec!["duration", "seek", "start", "send:Playing"]);
    assert!(e.has_sink);
    e.on_receive(cmd(EngineCommand::Pause));
    e.on_receive(cmd(EngineCommand::Seek));
    let a = e.on_reopened(LoadOutcome::Loaded);
    assert_eq!(names(&a), vec!["duration", "seek", "start"]);
    let a = e.on_reopened(LoadOutcome::OpenFailed("gone".to_string()));
    assert_eq!(names(&a), vec!["send:Error(\"Failed to seek: gone\")"]);
}

#[test]
fn seek_without_file_does_nothing() {
    let mut e = EngineState::new();
    assert!(e.on_receive(cmd(EngineCommand::Seek)).is_empty());
}

#[test]
fn volume_and_quit() {
    let mut e = EngineState::new();
    assert_eq!(names(&e.on_receive(cmd(EngineCommand::SetVolume))), vec!["store-volume"]);
    let mut e = playing();
    assert_eq!(
        names(&e.on_receive(cmd(EngineCommand::SetVolume))),
        vec!["store-volume", "set-volume"]
    );
    assert_eq!(names(&e.on_receive(cmd(EngineCommand::Quit))), vec!["stop", "exit"]);
    assert!(!e.has_sink);
    assert_eq!(names(&e.on_receive(Received::Disconnected)), vec!["exit"]);
    assert!(e.on_receive(Received::Empty).is_empty());
}

#[test]
fn statuses_carry_messages() {
    let s = AudioStatus::Error("x".to_string());
    assert!(matches!(s, AudioStatus::Error(ref m) if m == "x"));
}
