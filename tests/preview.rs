use trmnl_server::preview::{
    concerns_template, create_msg, select_preview_template, ClientFrame, FileChange, Phase, PreviewSession, SessionAction,
    SessionEvent,
};

fn run(events: &[SessionEvent]) -> (PreviewSession, Vec<SessionAction>) {
    let mut s = PreviewSession::new();
    let actions = events.iter().map(|e| s.step(*e)).collect();
    (s, actions)
}

#[test]
fn session_renders_on_open_and_pings() {
    let (s, a) = run(&[SessionEvent::Opened { now: 5000 }, SessionEvent::Tick, SessionEvent::Frame { frame: ClientFrame::Other }]);
    assert_eq!(a, vec![SessionAction::Render, SessionAction::Ping, SessionAction::Nothing]);
    assert_eq!(s.phase, Phase::Active);
}

#[test]
fn file_changes_are_debounced() {
    let (_, a) = run(&[
        SessionEvent::Opened { now: 5000 },
        SessionEvent::FileEvent { change: FileChange::DataModified, watched: true, now: 5999 },
        SessionEvent::FileEvent { change: FileChange::DataModified, watched: true, now: 6000 },
        SessionEvent::FileEvent { change: FileChange::Created, watched: true, now: 6500 },
        SessionEvent::FileEvent { change: FileChange::Other, watched: true, now: 9000 },
        SessionEvent::FileEvent { change: FileChange::Removed, watched: true, now: 9000 },
    ]);
    assert_eq!(
        a,
        vec![
            SessionAction::Render,
            SessionAction::Nothing,
            SessionAction::Render,
            SessionAction::Nothing,
            SessionAction::Nothing,
            SessionAction::Render
        ]
    );
}

#[test]
fn close_cancels_once_and_silences_the_session() {
    let (s, a) = run(&[
        SessionEvent::Opened { now: 0 },
        SessionEvent::Frame { frame: ClientFrame::Close },
        SessionEvent::FileEvent { change: FileChange::DataModified, watched: true, now: 10_000 },
        SessionEvent::Tick,
        SessionEvent::Frame { frame: ClientFrame::ReadError },
        SessionEvent::Stopped,
        SessionEvent::Tick,
    ]);
    assert_eq!(
        a,
        vec![
            SessionAction::Render,
            SessionAction::Cancel,
            SessionAction::Nothing,
            SessionAction::Nothing,
            SessionAction::Nothing,
            SessionAction::Nothing,
            SessionAction::Nothing
        ]
    );
    assert_eq!(s.phase, Phase::Closed);
}

#[test]
fn read_error_or_end_also_cancels() {
    let (_, a) = run(&[SessionEvent::Opened { now: 0 }, SessionEvent::Frame { frame: ClientFrame::End }]);
    assert_eq!(a[1], SessionAction::Cancel);
    let (_, a) = run(&[SessionEvent::Opened { now: 0 }, SessionEvent::Frame { frame: ClientFrame::ReadError }]);
    assert_eq!(a[1], SessionAction::Cancel);
}

#[test]
fn messages_for_success_and_failure() {
    let ok = create_msg(&Ok(vec![1, 2, 3]));
    assert_eq!((ok.status.as_str(), ok.message.as_str(), ok.image_data.as_str()), ("ok", "", "AQID"));
    assert_eq!(create_msg(&Ok(vec![1])).image_data, "AQ==");
    assert_eq!(create_msg(&Ok(vec![1, 2])).image_data, "AQI=");
    assert_eq!(create_msg(&Ok(vec![255, 254, 253, 0])).image_data, "//79AA==");
    assert_eq!(create_msg(&Ok(vec![])).image_data, "");
    let err = create_msg(&Err("template not found: x".to_string()));
    assert_eq!(
        (err.status.as_str(), err.message.as_str(), err.image_data.as_str()),
        ("error", "template not found: x", "")
    );
}

#[test]
fn preview_template_is_chosen_by_hex_name() {
    let names = vec!["a.svg.jinja".to_string(), "test.svg.jinja".to_string()];
    let id = Some(hex::encode("test.svg.jinja"));
    assert_eq!(select_preview_template(&names, &id).unwrap_or_else(|_| panic!("found")), "test.svg.jinja");
    let e = select_preview_template(&names, &Some("74".to_string())).err().unwrap();
    assert_eq!(e.to_string(), "Validation error: invalid template");
    let e = select_preview_template(&names, &None).err().unwrap();
    assert_eq!(e.to_string(), "Validation error: missing template parameter");
}

#[test]
fn changes_to_other_files_do_not_render() {
    let (_, a) = run(&[
        SessionEvent::Opened { now: 0 },
        SessionEvent::FileEvent { change: FileChange::DataModified, watched: false, now: 5000 },
        SessionEvent::FileEvent { change: FileChange::DataModified, watched: true, now: 5000 },
    ]);
    assert_eq!(a, vec![SessionAction::Render, SessionAction::Nothing, SessionAction::Render]);
    let paths = vec!["templates/a.svg.jinja".to_string(), "templates/test.svg.jinja".to_string()];
    assert!(concerns_template(&paths, "templates/test.svg.jinja"));
    assert!(!concerns_template(&paths, "templates/b.svg.jinja"));
    assert!(!concerns_template(&vec![], "templates/test.svg.jinja"));
}
