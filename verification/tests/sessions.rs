use tuigreet::greeter::Greeter;
use tuigreet::menu::Menu;
use tuigreet::sessions::{Session, SessionSource, SessionType};

#[test]
fn from_path_existing() {
  let mut greeter = Greeter::default();
  greeter.session_source = SessionSource::Session(1);

  greeter.sessions = Menu::<Session> {
    title: "Sessions".into(),
    selected: 1,
    options: vec![
      Session {
        name: "Session1".into(),
        command: "Session1Cmd".into(),
        session_type: SessionType::Wayland,
        path: Some("/Session1Path".into()),
        ..Default::default()
      },
      Session {
        name: "Session2".into(),
        command: "Session2Cmd".into(),
        session_type: SessionType::X11,
        path: Some("/Session2Path".into()),
        ..Default::default()
      },
    ],
  };

  let session = Session::from_path(&greeter, "/Session2Path");

  assert!(matches!(session, Some(_)));
  assert_eq!(session.unwrap().name, "Session2");
  assert_eq!(session.unwrap().session_type, SessionType::X11);
}

#[test]
fn from_path_non_existing() {
  let mut greeter = Greeter::default();
  greeter.session_source = SessionSource::Session(1);

  greeter.sessions = Menu::<Session> {
    title: "Sessions".into(),
    selected: 1,
    options: vec![Session {
      name: "Session1".into(),
      command: "Session1Cmd".into(),
      session_type: SessionType::Wayland,
      path: Some("/Session1Path".into()),
      ..Default::default()
    }],
  };

  let session = Session::from_path(&greeter, "/Session2Path");

  assert!(matches!(session, None));
}

#[test]
fn no_session() {
  let greeter = Greeter::default();

  assert!(matches!(Session::get_selected(&greeter), None));
}

#[test]
fn distinct_session() {
  let mut greeter = Greeter::default();
  greeter.session_source = SessionSource::Session(1);

  greeter.sessions = Menu::<Session> {
    title: "Sessions".into(),
    selected: 1,
    options: vec![
      Session {
        name: "Session1".into(),
        command: "Session1Cmd".into(),
        session_type: SessionType::Wayland,
        path: Some("/Session1Path".into()),
        ..Default::default()
      },
      Session {
        name: "Session2".into(),
        command: "Session2Cmd".into(),
        session_type: SessionType::X11,
        path: Some("/Session2Path".into()),
        ..Default::default()
      },
    ],
  };

  let session = Session::get_selected(&greeter);

  assert!(matches!(session, Some(_)));
  assert_eq!(session.unwrap().name, "Session2");
  assert_eq!(session.unwrap().session_type, SessionType::X11);
}

#[test]
fn same_name_session() {
  let mut greeter = Greeter::default();
  greeter.session_source = SessionSource::Session(1);

  greeter.sessions = Menu::<Session> {
    title: "Sessions".into(),
    selected: 1,
    options: vec![
      Session {
        name: "Session".into(),
        command: "Session1Cmd".into(),
        session_type: SessionType::Wayland,
        path: Some("/Session1Path".into()),
        ..Default::default()
      },
      Session {
        name: "Session".into(),
        command: "Session2Cmd".into(),
        session_type: SessionType::X11,
        path: Some("/Session2Path".into()),
        ..Default::default()
      },
    ],
  };

  let session = Session::get_selected(&greeter);

  assert!(matches!(session, Some(_)));
  assert_eq!(session.unwrap().name, "Session");
  assert_eq!(session.unwrap().session_type, SessionType::X11);
  assert_eq!(session.unwrap().command, "Session2Cmd");
}

fn two_sessions() -> Menu<Session> {
  Menu::<Session> {
    title: "Sessions".into(),
    selected: 0,
    options: vec![
      Session {
        name: "First".into(),
        command: "first-cmd".into(),
        session_type: SessionType::Wayland,
        path: Some("/first.desktop".into()),
        ..Default::default()
      },
      Session {
        name: "Second".into(),
        command: "second-cmd".into(),
        session_type: SessionType::X11,
        path: Some("/second.desktop".into()),
        ..Default::default()
      },
    ],
  }
}

#[test]
fn command_source_resolves_to_itself() {
  let source = SessionSource::Command("uname".to_string());

  let empty = Greeter::default();
  assert_eq!(source.command(&empty), Some("uname"));
  assert_eq!(source.label(&empty), Some("uname"));

  let mut greeter = Greeter::default();
  greeter.sessions = two_sessions();
  assert_eq!(source.command(&greeter), Some("uname"));
  assert_eq!(source.label(&greeter), Some("uname"));
}

#[test]
fn session_source_resolves_through_the_list() {
  let mut greeter = Greeter::default();
  greeter.sessions = two_sessions();

  let source = SessionSource::Session(1);
  assert_eq!(source.command(&greeter), Some("second-cmd"));
  assert_eq!(source.label(&greeter), Some("Second"));

  let source = SessionSource::Session(0);
  assert_eq!(source.command(&greeter), Some("first-cmd"));
  assert_eq!(source.label(&greeter), Some("First"));
}

#[test]
fn session_source_out_of_range_resolves_to_nothing() {
  let mut greeter = Greeter::default();
  greeter.sessions = two_sessions();

  let source = SessionSource::Session(2);
  assert_eq!(source.command(&greeter), None);
  assert_eq!(source.label(&greeter), None);
}

#[test]
fn unset_source_resolves_to_nothing() {
  let mut greeter = Greeter::default();
  greeter.sessions = two_sessions();

  let source = SessionSource::Unset;
  assert_eq!(source.command(&greeter), None);
  assert_eq!(source.label(&greeter), None);
  assert!(matches!(SessionSource::default(), SessionSource::Unset));
}

#[test]
fn from_path_takes_the_first_of_two() {
  let mut greeter = Greeter::default();
  greeter.sessions = two_sessions();
  greeter.sessions.options[1].path = Some("/first.desktop".into());

  let session = Session::from_path(&greeter, "/first.desktop");

  assert_eq!(session.unwrap().name, "First");
}

#[test]
fn xdg_session_types() {
  assert_eq!(SessionType::X11.as_xdg_session_type(), "x11");
  assert_eq!(SessionType::Wayland.as_xdg_session_type(), "wayland");
  assert_eq!(SessionType::Tty.as_xdg_session_type(), "tty");
  assert_eq!(SessionType::Unspecified.as_xdg_session_type(), "unspecified");
  assert_eq!(SessionType::default(), SessionType::Unspecified);
}
