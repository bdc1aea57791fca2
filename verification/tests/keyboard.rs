use tuigreet::event::{Action, KeyCode, KeyEvent, KeyModifiers};
use tuigreet::greeter::{Greeter, Mode};
use tuigreet::ipc::Request;
use tuigreet::keyboard::{delete_key, handle, insert_key, restore_user_session, validate_username};
use tuigreet::masked::MaskedString;
use tuigreet::menu::Menu;
use tuigreet::power::{Power, PowerOption};
use tuigreet::sessions::{Session, SessionSource, SessionType};
use tuigreet::users::User;

fn key(code: KeyCode) -> KeyEvent {
  KeyEvent::new(code, KeyModifiers::empty())
}

fn control(code: KeyCode) -> KeyEvent {
  KeyEvent::new(code, KeyModifiers::control())
}

fn sessions() -> Menu<Session> {
  Menu::<Session> {
    title: "Sessions".into(),
    selected: 0,
    options: vec![
      Session {
        name: "First".into(),
        command: "first-cmd".into(),
        session_type: SessionType::Wayland,
        path: Some("/first.desktop".into()),
        ..Default::default()
      },
      Session {
        name: "Second".into(),
        command: "second-cmd".into(),
        session_type: SessionType::X11,
        path: Some("/second.desktop".into()),
        ..Default::default()
      },
    ],
  }
}

fn users() -> Menu<User> {
  Menu::<User> {
    title: "Users".into(),
    selected: 0,
    options: vec![
      User {
        username: "joe".into(),
        name: Some("Joe".into()),
      },
      User {
        username: "bob".into(),
        name: None,
      },
    ],
  }
}

#[test]
fn ctrl_u() {
  let mut greeter = Greeter::default();

  greeter.mode = Mode::Username;
  greeter.username = MaskedString::from("apognu".to_string(), None);

  let actions = handle(&mut greeter, KeyEvent::new(KeyCode::Char('u'), KeyModifiers::control()));

  assert!(actions.is_empty());
  assert_eq!(greeter.username.value, "".to_string());

  greeter.mode = Mode::Password;
  greeter.buffer = "password".to_string();

  let actions = handle(&mut greeter, KeyEvent::new(KeyCode::Char('u'), KeyModifiers::control()));

  assert!(actions.is_empty());
  assert_eq!(greeter.buffer, "".to_string());

  greeter.mode = Mode::Command;
  greeter.buffer = "newcommand".to_string();

  let actions = handle(&mut greeter, KeyEvent::new(KeyCode::Char('u'), KeyModifiers::control()));

  assert!(actions.is_empty());
  assert_eq!(greeter.buffer, "".to_string());
}

#[test]
fn escape() {
  let mut greeter = Greeter::default();

  greeter.previous_mode = Mode::Username;
  greeter.mode = Mode::Command;
  greeter.previous_buffer = Some("apognu".to_string());
  greeter.buffer = "newcommand".to_string();
  greeter.cursor_offset = 2;

  let actions = handle(&mut greeter, KeyEvent::new(KeyCode::Esc, KeyModifiers::empty()));

  assert!(actions.is_empty());
  assert_eq!(greeter.mode, Mode::Username);
  assert_eq!(greeter.buffer, "apognu".to_string());
  assert!(matches!(greeter.previous_buffer, None));
  assert_eq!(greeter.cursor_offset, 0);

  for mode in [Mode::Users, Mode::Sessions, Mode::Power] {
    greeter.previous_mode = Mode::Username;
    greeter.mode = mode;

    let actions = handle(&mut greeter, KeyEvent::new(KeyCode::Esc, KeyModifiers::empty()));

    assert!(actions.is_empty());
    assert_eq!(greeter.mode, Mode::Username);
  }
}

#[test]
fn f2() {
  let mut greeter = Greeter::default();

  greeter.mode = Mode::Username;
  greeter.buffer = "apognu".to_string();
  greeter.session_source = SessionSource::Command("thecommand".to_string());

  let actions = handle(&mut greeter, KeyEvent::new(KeyCode::F(2), KeyModifiers::empty()));

  assert!(actions.is_empty());
  assert_eq!(greeter.mode, Mode::Command);
  assert_eq!(greeter.previous_buffer, Some("apognu".to_string()));
  assert_eq!(greeter.buffer, "thecommand".to_string());

  for mode in [Mode::Users, Mode::Sessions, Mode::Power] {
    greeter.previous_mode = Mode::Username;
    greeter.mode = mode;

    let actions = handle(&mut greeter, KeyEvent::new(KeyCode::F(2), KeyModifiers::empty()));

    assert!(actions.is_empty());
    assert_eq!(greeter.mode, Mode::Command);
    assert_eq!(greeter.previous_mode, Mode::Username);
  }
}

#[test]
fn f_menu() {
  let mut greeter = Greeter::default();

  for (code, mode) in [(KeyCode::F(3), Mode::Sessions), (KeyCode::F(12), Mode::Power)] {
    greeter.mode = Mode::Username;
    greeter.buffer = "apognu".to_string();

    let actions = handle(&mut greeter, KeyEvent::new(code, KeyModifiers::empty()));

    assert!(actions.is_empty());
    assert_eq!(greeter.mode, mode);
    assert_eq!(greeter.buffer, "apognu".to_string());

    for mode in [Mode::Users, Mode::Sessions, Mode::Power] {
      greeter.previous_mode = Mode::Username;
      greeter.mode = mode;

      let actions = handle(&mut greeter, KeyEvent::new(KeyCode::F(2), KeyModifiers::empty()));

      assert!(actions.is_empty());
      assert_eq!(greeter.mode, Mode::Command);
      assert_eq!(greeter.previous_mode, Mode::Username);
    }
  }
}

#[test]
fn ctrl_a_e() {
  let mut greeter = Greeter::default();

  greeter.mode = Mode::Command;
  greeter.buffer = "123456789".to_string();

  let actions = handle(&mut greeter, KeyEvent::new(KeyCode::Char('a'), KeyModifiers::control()));

  assert!(actions.is_empty());
  assert_eq!(greeter.cursor_offset, -9);

  let actions = handle(&mut greeter, KeyEvent::new(KeyCode::Char('e'), KeyModifiers::control()));

  assert!(actions.is_empty());
  assert_eq!(greeter.cursor_offset, 0);
}

#[test]
fn cursor_moves_within_the_text_only() {
  let mut greeter = Greeter::default();

  handle(&mut greeter, key(KeyCode::Left));
  assert_eq!(greeter.cursor_offset, 0);

  handle(&mut greeter, key(KeyCode::Right));
  assert_eq!(greeter.cursor_offset, 0);

  greeter.username = MaskedString::from("ab".to_string(), None);

  handle(&mut greeter, key(KeyCode::Left));
  assert_eq!(greeter.cursor_offset, -1);
  handle(&mut greeter, key(KeyCode::Left));
  assert_eq!(greeter.cursor_offset, -2);
  handle(&mut greeter, key(KeyCode::Left));
  assert_eq!(greeter.cursor_offset, -2);

  handle(&mut greeter, key(KeyCode::Right));
  assert_eq!(greeter.cursor_offset, -1);
  handle(&mut greeter, key(KeyCode::Right));
  handle(&mut greeter, key(KeyCode::Right));
  assert_eq!(greeter.cursor_offset, 0);
}

#[test]
fn typing_inserts_before_the_cursor() {
  let mut greeter = Greeter::default();

  for c in "alie".chars() {
    let actions = handle(&mut greeter, key(KeyCode::Char(c)));
    assert!(actions.is_empty());
  }
  assert_eq!(greeter.username.value, "alie");
  assert_eq!(greeter.cursor_offset, 0);

  handle(&mut greeter, key(KeyCode::Left));
  handle(&mut greeter, key(KeyCode::Char('c')));

  assert_eq!(greeter.username.value, "alice");
  assert_eq!(greeter.cursor_offset, -1);

  handle(&mut greeter, control(KeyCode::Char('a')));
  handle(&mut greeter, key(KeyCode::Char('>')));

  assert_eq!(greeter.username.value, ">alice");
  assert_eq!(greeter.cursor_offset, -5);
}

#[test]
fn typing_goes_to_the_buffer_outside_the_username_prompt() {
  for mode in [Mode::Password, Mode::Command] {
    let mut greeter = Greeter::default();
    greeter.mode = mode;
    greeter.username = MaskedString::from("alice".to_string(), None);

    handle(&mut greeter, key(KeyCode::Char('s')));
    handle(&mut greeter, key(KeyCode::Char('é')));

    assert_eq!(greeter.buffer, "sé");
    assert_eq!(greeter.username.value, "alice");
  }
}

#[test]
fn typing_is_ignored_in_menus() {
  for mode in [Mode::Users, Mode::Sessions, Mode::Power, Mode::Processing, Mode::Action] {
    let mut greeter = Greeter::default();
    greeter.mode = mode;

    let actions = handle(&mut greeter, key(KeyCode::Char('x')));

    assert!(actions.is_empty());
    assert_eq!(greeter.buffer, "");
    assert_eq!(greeter.username.value, "");
    assert_eq!(greeter.mode, mode);
  }
}

#[test]
fn insert_key_clamps_the_cursor_first() {
  let mut greeter = Greeter::default();
  greeter.mode = Mode::Password;
  greeter.buffer = "abc".to_string();
  greeter.cursor_offset = -10;

  insert_key(&mut greeter, 'x');

  assert_eq!(greeter.buffer, "xabc");
  assert_eq!(greeter.cursor_offset, -3);

  greeter.cursor_offset = 5;
  insert_key(&mut greeter, 'y');

  assert_eq!(greeter.buffer, "xabcy");
  assert_eq!(greeter.cursor_offset, 0);
}

#[test]
fn backspace_deletes_before_the_cursor() {
  let mut greeter = Greeter::default();
  greeter.mode = Mode::Password;
  greeter.buffer = "abcd".to_string();

  handle(&mut greeter, key(KeyCode::Backspace));
  assert_eq!(greeter.buffer, "abc");
  assert_eq!(greeter.cursor_offset, 0);

  greeter.cursor_offset = -2;
  handle(&mut greeter, key(KeyCode::Backspace));
  assert_eq!(greeter.buffer, "bc");
  assert_eq!(greeter.cursor_offset, -2);

  handle(&mut greeter, key(KeyCode::Backspace));
  assert_eq!(greeter.buffer, "bc");
  assert_eq!(greeter.cursor_offset, -2);
}

#[test]
fn delete_deletes_after_the_cursor() {
  let mut greeter = Greeter::default();
  greeter.mode = Mode::Command;
  greeter.buffer = "abcd".to_string();

  handle(&mut greeter, key(KeyCode::Delete));
  assert_eq!(greeter.buffer, "abcd");
  assert_eq!(greeter.cursor_offset, 0);

  greeter.cursor_offset = -3;
  handle(&mut greeter, key(KeyCode::Delete));
  assert_eq!(greeter.buffer, "acd");
  assert_eq!(greeter.cursor_offset, -2);

  handle(&mut greeter, key(KeyCode::Delete));
  handle(&mut greeter, key(KeyCode::Delete));
  assert_eq!(greeter.buffer, "a");
  assert_eq!(greeter.cursor_offset, 0);
}

#[test]
fn delete_key_ignores_other_keys() {
  let mut greeter = Greeter::default();
  greeter.username = MaskedString::from("abc".to_string(), None);

  delete_key(&mut greeter, KeyCode::Enter);
  assert_eq!(greeter.username.value, "abc");

  delete_key(&mut greeter, KeyCode::Backspace);
  assert_eq!(greeter.username.value, "ab");

  greeter.cursor_offset = -2;
  delete_key(&mut greeter, KeyCode::Delete);
  assert_eq!(greeter.username.value, "b");
  assert_eq!(greeter.cursor_offset, -1);
}

#[test]
fn cursor_stays_within_the_text_under_edits() {
  let mut greeter = Greeter::default();
  greeter.mode = Mode::Password;
  greeter.cursor_offset = -4;

  let keys = [
    KeyCode::Char('a'),
    KeyCode::Delete,
    KeyCode::Delete,
    KeyCode::Backspace,
    KeyCode::Char('b'),
    KeyCode::Char('c'),
    KeyCode::Left,
    KeyCode::Left,
    KeyCode::Left,
    KeyCode::Delete,
    KeyCode::Backspace,
    KeyCode::Char('d'),
    KeyCode::Right,
    KeyCode::Right,
    KeyCode::Backspace,
    KeyCode::Backspace,
    KeyCode::Backspace,
  ];

  for code in keys {
    handle(&mut greeter, key(code));

    let len = greeter.buffer.chars().count() as i16;
    assert!(-len <= greeter.cursor_offset && greeter.cursor_offset <= 0);
  }
}

#[test]
fn control_disables_other_keys() {
  let mut greeter = Greeter::default();
  greeter.username = MaskedString::from("abc".to_string(), None);

  handle(&mut greeter, control(KeyCode::Char('x')));
  handle(&mut greeter, control(KeyCode::Backspace));
  handle(&mut greeter, control(KeyCode::Delete));

  assert_eq!(greeter.username.value, "abc");

  let shifted = KeyEvent::new(
    KeyCode::Char('U'),
    KeyModifiers {
      shift: true,
      control: false,
      alt: false,
      other: false,
    },
  );
  handle(&mut greeter, shifted);

  assert_eq!(greeter.username.value, "abcU");
}

#[test]
fn enter_submits_the_username() {
  let mut greeter = Greeter::default();
  greeter.username = MaskedString::from("alice".to_string(), None);
  greeter.message = Some("old".to_string());
  greeter.buffer = "junk".to_string();

  let actions = handle(&mut greeter, key(KeyCode::Enter));

  assert_eq!(actions.len(), 1);
  assert!(matches!(&actions[0], Action::Send(Request::CreateSession { username }) if username == "alice"));
  assert!(greeter.working);
  assert_eq!(greeter.message, None);
  assert_eq!(greeter.buffer, "");
  assert_eq!(greeter.mode, Mode::Username);
}

#[test]
fn tab_submits_the_username() {
  let mut greeter = Greeter::default();
  greeter.username = MaskedString::from("alice".to_string(), None);

  let actions = handle(&mut greeter, key(KeyCode::Tab));

  assert_eq!(actions.len(), 1);
  assert!(matches!(&actions[0], Action::Send(Request::CreateSession { username }) if username == "alice"));
  assert!(greeter.working);

  let mut greeter = Greeter::default();
  let actions = handle(&mut greeter, key(KeyCode::Tab));

  assert!(actions.is_empty());
  assert!(!greeter.working);

  greeter.mode = Mode::Password;
  greeter.username = MaskedString::from("alice".to_string(), None);
  let actions = handle(&mut greeter, key(KeyCode::Tab));

  assert!(actions.is_empty());
  assert!(!greeter.working);
}

#[test]
fn validate_username_looks_up_the_session_of_the_user() {
  let mut greeter = Greeter::default();
  greeter.username = MaskedString::from("alice".to_string(), None);
  greeter.remember_user_session = true;

  let actions = validate_username(&mut greeter);

  assert_eq!(actions.len(), 2);
  assert!(matches!(&actions[0], Action::Send(Request::CreateSession { username }) if username == "alice"));
  assert!(matches!(&actions[1], Action::LoadUserSession { username } if username == "alice"));
  assert!(greeter.working);
}

#[test]
fn enter_without_username_opens_the_user_menu() {
  let mut greeter = Greeter::default();
  greeter.users = users();
  greeter.buffer = "typed".to_string();

  let actions = handle(&mut greeter, key(KeyCode::Enter));
  assert!(actions.is_empty());
  assert_eq!(greeter.mode, Mode::Username);

  greeter.user_menu = true;
  let actions = handle(&mut greeter, key(KeyCode::Enter));

  assert!(actions.is_empty());
  assert_eq!(greeter.mode, Mode::Users);
  assert_eq!(greeter.previous_mode, Mode::Username);
  assert_eq!(greeter.previous_buffer, Some("typed".to_string()));
  assert_eq!(greeter.buffer, "typed");

  let actions = handle(&mut greeter, key(KeyCode::Esc));

  assert!(actions.is_empty());
  assert_eq!(greeter.mode, Mode::Username);
  assert_eq!(greeter.buffer, "typed");
}

#[test]
fn enter_submits_the_answer() {
  let mut greeter = Greeter::default();
  greeter.mode = Mode::Password;
  greeter.buffer = "hunter2".to_string();
  greeter.message = Some("old".to_string());

  let actions = handle(&mut greeter, key(KeyCode::Enter));

  assert_eq!(actions.len(), 1);
  assert!(matches!(&actions[0], Action::Send(Request::PostAuthMessageResponse { response: Some(answer) }) if answer == "hunter2"));
  assert!(greeter.working);
  assert_eq!(greeter.buffer, "");
  assert_eq!(greeter.message, None);
  assert_eq!(greeter.mode, Mode::Password);
}

#[test]
fn enter_commits_the_command() {
  let mut greeter = Greeter::default();
  greeter.sessions = sessions();
  greeter.sessions.selected = 1;
  greeter.session_source = SessionSource::Session(1);
  greeter.mode = Mode::Command;
  greeter.previous_mode = Mode::Password;
  greeter.previous_buffer = Some("secret".to_string());
  greeter.buffer = "sway --debug".to_string();
  greeter.remember_session = true;

  let actions = handle(&mut greeter, key(KeyCode::Enter));

  assert!(actions.is_empty());
  assert!(matches!(&greeter.session_source, SessionSource::Command(command) if command == "sway --debug"));
  assert_eq!(greeter.sessions.selected, 0);
  assert_eq!(greeter.buffer, "secret");
  assert_eq!(greeter.previous_buffer, None);
  assert_eq!(greeter.mode, Mode::Password);
}

#[test]
fn enter_picks_a_user() {
  let mut greeter = Greeter::default();
  greeter.users = users();
  greeter.mode = Mode::Users;
  greeter.previous_mode = Mode::Username;

  let actions = handle(&mut greeter, key(KeyCode::Enter));

  assert_eq!(actions.len(), 1);
  assert!(matches!(&actions[0], Action::Send(Request::CreateSession { username }) if username == "joe"));
  assert_eq!(greeter.username.value, "joe");
  assert_eq!(greeter.username.mask, Some("Joe".to_string()));
  assert_eq!(greeter.username.get(), "Joe");
  assert_eq!(greeter.mode, Mode::Username);
  assert!(greeter.working);
}

#[test]
fn enter_picks_a_session() {
  let mut greeter = Greeter::default();
  greeter.sessions = sessions();
  greeter.mode = Mode::Sessions;
  greeter.previous_mode = Mode::Password;
  greeter.remember_session = true;

  handle(&mut greeter, key(KeyCode::Down));
  let actions = handle(&mut greeter, key(KeyCode::Enter));

  assert!(actions.is_empty());
  assert!(matches!(greeter.session_source, SessionSource::Session(1)));
  assert_eq!(greeter.mode, Mode::Password);
}

#[test]
fn enter_in_an_empty_session_menu_selects_nothing() {
  let mut greeter = Greeter::default();
  greeter.mode = Mode::Sessions;
  greeter.previous_mode = Mode::Username;
  greeter.session_source = SessionSource::Command("kept".to_string());

  let actions = handle(&mut greeter, key(KeyCode::Enter));

  assert!(actions.is_empty());
  assert!(matches!(&greeter.session_source, SessionSource::Command(command) if command == "kept"));
  assert_eq!(greeter.mode, Mode::Username);
}

#[test]
fn enter_picks_a_power_action() {
  let mut greeter = Greeter::default();
  greeter.powers = Menu::<Power> {
    title: "Power".into(),
    selected: 1,
    options: vec![
      Power {
        action: PowerOption::Shutdown,
        label: "Shut down".into(),
        command: None,
      },
      Power {
        action: PowerOption::Reboot,
        label: "Reboot".into(),
        command: None,
      },
    ],
  };
  greeter.mode = Mode::Power;
  greeter.previous_mode = Mode::Username;

  let actions = handle(&mut greeter, key(KeyCode::Enter));

  assert_eq!(actions.len(), 1);
  assert!(matches!(&actions[0], Action::Power(command) if command.program == "shutdown" && command.args == vec!["-r", "now"]));
  assert_eq!(greeter.mode, Mode::Username);
}

#[test]
fn up_and_down_stay_within_the_menu() {
  let mut greeter = Greeter::default();
  greeter.sessions = sessions();
  greeter.users = users();
  greeter.mode = Mode::Sessions;

  handle(&mut greeter, key(KeyCode::Up));
  assert_eq!(greeter.sessions.selected, 0);
  handle(&mut greeter, key(KeyCode::Down));
  assert_eq!(greeter.sessions.selected, 1);
  handle(&mut greeter, key(KeyCode::Down));
  assert_eq!(greeter.sessions.selected, 1);
  assert_eq!(greeter.users.selected, 0);
  handle(&mut greeter, key(KeyCode::Up));
  assert_eq!(greeter.sessions.selected, 0);

  greeter.mode = Mode::Users;
  handle(&mut greeter, key(KeyCode::Down));
  assert_eq!(greeter.users.selected, 1);
  assert_eq!(greeter.sessions.selected, 0);

  greeter.mode = Mode::Power;
  handle(&mut greeter, key(KeyCode::Down));
  assert_eq!(greeter.powers.selected, 0);

  greeter.mode = Mode::Username;
  handle(&mut greeter, key(KeyCode::Down));
  assert_eq!(greeter.users.selected, 1);
  assert_eq!(greeter.sessions.selected, 0);
}

#[test]
fn escape_abandons_the_login() {
  for mode in [Mode::Username, Mode::Password, Mode::Action] {
    let mut greeter = Greeter::default();
    greeter.mode = mode;
    greeter.username = MaskedString::from("alice".to_string(), Some("Alice".to_string()));
    greeter.buffer = "secret".to_string();
    greeter.prompt = Some("Password: ".to_string());
    greeter.message = Some("Wrong".to_string());
    greeter.working = true;

    let actions = handle(&mut greeter, key(KeyCode::Esc));

    assert_eq!(actions.len(), 2);
    assert!(matches!(actions[0], Action::Cancel));
    assert!(matches!(actions[1], Action::Connect));
    assert_eq!(greeter.mode, Mode::Username);
    assert_eq!(greeter.previous_mode, Mode::Username);
    assert_eq!(greeter.username.value, "");
    assert_eq!(greeter.username.mask, None);
    assert_eq!(greeter.buffer, "");
    assert_eq!(greeter.prompt, None);
    assert_eq!(greeter.message, None);
    assert!(!greeter.working);
  }
}

#[test]
fn keys_are_ignored_while_processing() {
  let codes = [
    KeyCode::Esc,
    KeyCode::Enter,
    KeyCode::Tab,
    KeyCode::F(2),
    KeyCode::F(3),
    KeyCode::F(12),
    KeyCode::Char('a'),
    KeyCode::Backspace,
    KeyCode::Up,
  ];

  for code in codes {
    let mut greeter = Greeter::default();
    greeter.mode = Mode::Processing;
    greeter.previous_mode = Mode::Password;
    greeter.username = MaskedString::from("alice".to_string(), None);
    greeter.buffer = "abc".to_string();
    greeter.done = true;

    let actions = handle(&mut greeter, key(code));

    assert!(actions.is_empty());
    assert_eq!(greeter.mode, Mode::Processing);
    assert_eq!(greeter.previous_mode, Mode::Password);
    assert_eq!(greeter.username.value, "alice");
    assert_eq!(greeter.buffer, "abc");
    assert!(greeter.done);
  }
}

#[test]
fn function_keys_follow_the_bindings() {
  let mut greeter = Greeter::default();
  greeter.kb_command = 5;
  greeter.kb_sessions = 6;
  greeter.kb_power = 7;

  handle(&mut greeter, key(KeyCode::F(2)));
  assert_eq!(greeter.mode, Mode::Username);

  handle(&mut greeter, key(KeyCode::F(6)));
  assert_eq!(greeter.mode, Mode::Sessions);
  assert_eq!(greeter.previous_mode, Mode::Username);

  handle(&mut greeter, key(KeyCode::F(7)));
  assert_eq!(greeter.mode, Mode::Power);
  assert_eq!(greeter.previous_mode, Mode::Username);

  handle(&mut greeter, key(KeyCode::F(5)));
  assert_eq!(greeter.mode, Mode::Command);
  assert_eq!(greeter.previous_mode, Mode::Username);
}

#[test]
fn command_screen_shows_the_command_of_the_session() {
  let mut greeter = Greeter::default();
  greeter.sessions = sessions();
  greeter.session_source = SessionSource::Session(1);
  greeter.mode = Mode::Password;
  greeter.buffer = "secret".to_string();
  greeter.cursor_offset = -2;

  handle(&mut greeter, key(KeyCode::F(2)));

  assert_eq!(greeter.buffer, "second-cmd");
  assert_eq!(greeter.previous_buffer, Some("secret".to_string()));
  assert_eq!(greeter.previous_mode, Mode::Password);
  assert_eq!(greeter.cursor_offset, 0);

  let mut greeter = Greeter::default();
  handle(&mut greeter, key(KeyCode::F(2)));
  assert_eq!(greeter.buffer, "");
}

#[test]
fn restore_user_session_prefers_the_command() {
  let mut greeter = Greeter::default();
  greeter.sessions = sessions();

  restore_user_session(&mut greeter, Some("/second.desktop\n".to_string()), None);

  assert!(matches!(greeter.session_source, SessionSource::Session(1)));
  assert_eq!(greeter.sessions.selected, 1);

  restore_user_session(&mut greeter, Some("/first.desktop".to_string()), Some(" startx \n".to_string()));

  assert!(matches!(&greeter.session_source, SessionSource::Command(command) if command == "startx"));
  assert_eq!(greeter.sessions.selected, 0);
}

#[test]
fn restore_user_session_ignores_an_unknown_session_file() {
  let mut greeter = Greeter::default();
  greeter.sessions = sessions();
  greeter.sessions.selected = 1;
  greeter.session_source = SessionSource::Session(1);

  restore_user_session(&mut greeter, Some("/gone.desktop".to_string()), None);

  assert!(matches!(greeter.session_source, SessionSource::Session(1)));
  assert_eq!(greeter.sessions.selected, 1);

  restore_user_session(&mut greeter, None, None);

  assert!(matches!(greeter.session_source, SessionSource::Session(1)));
}
