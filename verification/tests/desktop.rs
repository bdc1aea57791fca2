use ini::Ini;
use tuigreet::desktop::{default_session_paths, get_sessions, load_desktop_file, session_from_entries, DesktopError, DesktopFile};
use tuigreet::sessions::SessionType;

const SWAY: &str = "[Desktop Entry]\nName=Sway\nComment=An i3-compatible Wayland compositor\nExec=sway --unsupported-gpu\nType=Application\nDesktopNames=sway;wlroots\n";

#[test]
fn a_session_file_describes_a_session() {
  let session = load_desktop_file("/usr/share/wayland-sessions/sway.desktop", SWAY, SessionType::Wayland);

  let session = session.ok().unwrap().unwrap();
  assert_eq!(session.slug, Some("sway".to_string()));
  assert_eq!(session.name, "Sway");
  assert_eq!(session.command, "sway --unsupported-gpu");
  assert_eq!(session.session_type, SessionType::Wayland);
  assert_eq!(session.path, Some("/usr/share/wayland-sessions/sway.desktop".to_string()));
  assert_eq!(session.xdg_desktop_names, Some("sway;wlroots".to_string()));
}

#[test]
fn a_session_file_without_desktop_names() {
  let session = load_desktop_file("/x/plasma.x11.desktop", "[Desktop Entry]\nExec=startplasma\nName=Plasma\n", SessionType::X11);

  let session = session.ok().unwrap().unwrap();
  assert_eq!(session.slug, Some("plasma.x11".to_string()));
  assert_eq!(session.name, "Plasma");
  assert_eq!(session.command, "startplasma");
  assert_eq!(session.session_type, SessionType::X11);
  assert_eq!(session.xdg_desktop_names, None);
}

#[test]
fn hidden_sessions_are_left_out() {
  let hidden = load_desktop_file("/x/a.desktop", "[Desktop Entry]\nName=A\nExec=a\nHidden=true\n", SessionType::X11);
  assert!(matches!(hidden, Ok(None)));

  let no_display = load_desktop_file("/x/a.desktop", "[Desktop Entry]\nNoDisplay=true\n", SessionType::X11);
  assert!(matches!(no_display, Ok(None)));

  let shown = load_desktop_file("/x/a.desktop", "[Desktop Entry]\nName=A\nExec=a\nHidden=false\nNoDisplay=no\n", SessionType::X11);
  assert!(matches!(shown, Ok(Some(_))));
}

#[test]
fn broken_session_files_are_errors() {
  let no_entry = load_desktop_file("/x/a.desktop", "[Other]\nName=A\nExec=a\n", SessionType::X11);
  assert!(matches!(no_entry, Err(DesktopError::NoEntry)));

  let empty = load_desktop_file("/x/a.desktop", "", SessionType::X11);
  assert!(matches!(empty, Err(DesktopError::NoEntry)));

  let no_name = load_desktop_file("/x/a.desktop", "[Desktop Entry]\nExec=a\n", SessionType::X11);
  assert!(matches!(no_name, Err(DesktopError::NoName)));

  let no_exec = load_desktop_file("/x/a.desktop", "[Desktop Entry]\nName=A\n", SessionType::X11);
  assert!(matches!(no_exec, Err(DesktopError::NoExec)));

  let neither = load_desktop_file("/x/a.desktop", "[Desktop Entry]\nType=Application\n", SessionType::X11);
  assert!(matches!(neither, Err(DesktopError::NoName)));

  let unparsable = load_desktop_file("/x/a.desktop", "[Desktop Entry\nName=A\n", SessionType::X11);
  assert!(matches!(unparsable, Err(DesktopError::Parse)));
}

#[test]
fn a_session_from_a_parsed_file() {
  let desktop = Ini::load_from_str("[Desktop Entry]\nName=First\nName=Second\nExec=run\n[Desktop Entry]\nName=Third\n").unwrap();

  let session = session_from_entries("relative.desktop", &desktop, SessionType::Tty);

  let session = session.ok().unwrap().unwrap();
  assert_eq!(session.slug, Some("relative".to_string()));
  assert_eq!(session.name, "First");
  assert_eq!(session.command, "run");
  assert_eq!(session.session_type, SessionType::Tty);
  assert_eq!(session.path, Some("relative.desktop".to_string()));
}

fn file(path: &str, name: &str, session_type: SessionType) -> DesktopFile {
  DesktopFile {
    path: path.to_string(),
    content: format!("[Desktop Entry]\nName={}\nExec={}\n", name, path),
    session_type,
  }
}

#[test]
fn sessions_are_listed_by_name() {
  let files = vec![
    file("/w/sway.desktop", "Sway", SessionType::Wayland),
    file("/w/gnome.desktop", "GNOME", SessionType::Wayland),
    DesktopFile {
      path: "/w/hidden.desktop".to_string(),
      content: "[Desktop Entry]\nName=Aaa\nExec=a\nHidden=true\n".to_string(),
      session_type: SessionType::Wayland,
    },
    DesktopFile {
      path: "/w/broken.desktop".to_string(),
      content: "Name=Broken".to_string(),
      session_type: SessionType::Wayland,
    },
    file("/x/gnome.desktop", "GNOME", SessionType::X11),
    file("/x/i3.desktop", "i3", SessionType::X11),
    file("/x/awesome.desktop", "awesome", SessionType::X11),
    file("/x/gnome-classic.desktop", "GNOME Classic", SessionType::X11),
    file("/x/empty.desktop", "", SessionType::X11),
  ];

  let sessions = get_sessions(&files);

  let listed: Vec<(&str, &str)> = sessions.iter().map(|session| (session.name.as_str(), session.command.as_str())).collect();
  assert_eq!(
    listed,
    vec![
      ("", "/x/empty.desktop"),
      ("GNOME", "/w/gnome.desktop"),
      ("GNOME", "/x/gnome.desktop"),
      ("GNOME Classic", "/x/gnome-classic.desktop"),
      ("Sway", "/w/sway.desktop"),
      ("awesome", "/x/awesome.desktop"),
      ("i3", "/x/i3.desktop"),
    ]
  );
  assert_eq!(sessions[1].session_type, SessionType::Wayland);
  assert_eq!(sessions[2].session_type, SessionType::X11);
}

#[test]
fn no_files_no_sessions() {
  assert!(get_sessions(&vec![]).is_empty());
}

#[test]
fn default_paths_of_sessions() {
  assert_eq!(
    default_session_paths(&None),
    vec![
      ("/usr/local/share/wayland-sessions".to_string(), SessionType::Wayland),
      ("/usr/share/wayland-sessions".to_string(), SessionType::Wayland),
      ("/usr/local/share/xsessions".to_string(), SessionType::X11),
      ("/usr/share/xsessions".to_string(), SessionType::X11),
    ]
  );

  assert_eq!(
    default_session_paths(&Some("/opt/share/:relative::/nix".to_string())),
    vec![
      ("/opt/share/wayland-sessions".to_string(), SessionType::Wayland),
      ("/nix/wayland-sessions".to_string(), SessionType::Wayland),
      ("/opt/share/xsessions".to_string(), SessionType::X11),
      ("/nix/xsessions".to_string(), SessionType::X11),
    ]
  );

  assert!(default_session_paths(&Some("".to_string())).is_empty());
}
