use tuigreet::info::{
  get_issue, get_last_command, get_last_session_path, get_last_user_command, get_last_user_name, get_last_user_session, get_last_user_username,
  get_min_max_uids, get_users, Account, IssueFacts, Uts,
};

fn account(uid: u32, name: &str, gecos: &str) -> Account {
  Account {
    uid,
    name: name.to_string(),
    gecos: gecos.to_string(),
  }
}

#[test]
fn nsswrapper_get_users_from_nss() {
  let accounts = vec![
    account(0, "root", "root"),
    account(1000, "joe", "Joe"),
    account(1500, "bob", ""),
    account(2001, "eve", "Eve"),
  ];

  let users = get_users(&accounts, 1000, 2000);

  assert_eq!(users.len(), 2);
  assert_eq!(users[0].username, "joe");
  assert_eq!(users[0].name, Some("Joe".to_string()));
  assert_eq!(users[1].username, "bob");
  assert_eq!(users[1].name, None);
}

#[test]
fn users_take_their_name_from_before_the_first_comma() {
  let accounts = vec![
    account(1000, "a", "Ada Lovelace,Room 1,555,556"),
    account(1001, "b", ",Room 2"),
    account(1002, "c", "No comma"),
    account(2000, "d", "Edge"),
    account(999, "e", "Below"),
    account(70000, "f", "Beyond sixteen bits"),
  ];

  let users = get_users(&accounts, 1000, 2000);

  assert_eq!(users.len(), 4);
  assert_eq!(users[0].name, Some("Ada Lovelace".to_string()));
  assert_eq!(users[1].name, Some("".to_string()));
  assert_eq!(users[2].name, Some("No comma".to_string()));
  assert_eq!(users[3].username, "d");

  assert!(get_users(&accounts, 2001, 1000).is_empty());
  assert_eq!(get_users(&accounts, 0, 65535).len(), 5);
}

#[test]
fn uids_default_without_the_file() {
  assert_eq!(get_min_max_uids(None, None, &None), (1000, 60000));
  assert_eq!(get_min_max_uids(Some(500), None, &None), (500, 60000));
  assert_eq!(get_min_max_uids(None, Some(2000), &None), (1000, 2000));
  assert_eq!(get_min_max_uids(Some(5), Some(6), &None), (5, 6));
}

#[test]
fn uids_come_from_the_file_unless_given() {
  let defs = Some("# comment\nUID_MIN\t\t 500\nUID_MAX 2000 extra\nSYS_UID_MIN 100\n".to_string());

  assert_eq!(get_min_max_uids(None, None, &defs), (500, 2000));
  assert_eq!(get_min_max_uids(Some(1), None, &defs), (1, 2000));
  assert_eq!(get_min_max_uids(None, Some(9), &defs), (500, 9));
  assert_eq!(get_min_max_uids(Some(1), Some(9), &defs), (1, 9));
}

#[test]
fn uids_ignore_what_is_not_a_number() {
  let defs = Some("UID_MIN many\nUID_MAX 70000\n  UID_MAX\nUID_MIN=5\n".to_string());

  assert_eq!(get_min_max_uids(None, None, &defs), (1000, 60000));
}

#[test]
fn uids_take_the_last_line() {
  let defs = Some("UID_MIN 1\r\nUID_MIN 2\r\n   UID_MAX   +30".to_string());

  assert_eq!(get_min_max_uids(None, None, &defs), (2, 30));
}

#[test]
fn last_user_is_trimmed() {
  assert_eq!(get_last_user_username(&None), None);
  assert_eq!(get_last_user_username(&Some("".to_string())), None);
  assert_eq!(get_last_user_username(&Some(" \n\t".to_string())), None);
  assert_eq!(get_last_user_username(&Some(" joe\n".to_string())), Some("joe".to_string()));
  assert_eq!(get_last_user_name(&Some("Joe Doe \n".to_string())), Some("Joe Doe".to_string()));
  assert_eq!(get_last_user_name(&Some("\u{2003}".to_string())), None);
}

#[test]
fn last_session_is_trimmed() {
  assert_eq!(get_last_command(&None), None);
  assert_eq!(get_last_command(&Some(" sway \n".to_string())), Some("sway".to_string()));
  assert_eq!(get_last_command(&Some("\n".to_string())), Some("".to_string()));
  assert_eq!(get_last_session_path(&Some("/a/b.desktop\n".to_string())), Some("/a/b.desktop".to_string()));
  assert_eq!(get_last_user_command(&Some("i3\n".to_string())), Some("i3".to_string()));
  assert_eq!(get_last_user_session(&None), None);
}

fn facts() -> IssueFacts {
  IssueFacts {
    date: "Mon Jan  1 2024".to_string(),
    time: "12:34:56".to_string(),
    users: 3,
    vtnr: Some("7".to_string()),
    uts: Some(Uts {
      sysname: "Linux".to_string(),
      release: "6.1.0".to_string(),
      version: "#1 SMP".to_string(),
      nodename: "host".to_string(),
      machine: "x86_64".to_string(),
      domainname: "(none)".to_string(),
    }),
  }
}

#[test]
fn issue_is_nothing_without_the_file() {
  assert_eq!(get_issue(&None, &facts()), None);
}

#[test]
fn issue_sequences_are_replaced() {
  let issue = Some("\\S \\s \\r (\\m) \\n.\\o \\l\n\\d \\t, \\U, \\v\n".to_string());

  assert_eq!(
    get_issue(&issue, &facts()),
    Some("Linux Linux 6.1.0 (x86_64) host.(none) tty7\nMon Jan  1 2024 12:34:56, 3 users, #1 SMP\n".to_string())
  );
}

#[test]
fn issue_counts_users_in_words() {
  let issue = Some("\\U".to_string());
  let mut facts = facts();

  facts.users = 0;
  assert_eq!(get_issue(&issue, &facts), Some("0 user".to_string()));
  facts.users = 1;
  assert_eq!(get_issue(&issue, &facts), Some("1 user".to_string()));
  facts.users = 2;
  assert_eq!(get_issue(&issue, &facts), Some("2 users".to_string()));
  facts.users = 1204;
  assert_eq!(get_issue(&issue, &facts), Some("1204 users".to_string()));
}

#[test]
fn issue_terminal_defaults_to_zero() {
  let issue = Some("\\l".to_string());
  let mut facts = facts();

  facts.vtnr = None;
  assert_eq!(get_issue(&issue, &facts), Some("tty0".to_string()));
  facts.vtnr = Some("seven".to_string());
  assert_eq!(get_issue(&issue, &facts), Some("tty0".to_string()));
  facts.vtnr = Some("12".to_string());
  assert_eq!(get_issue(&issue, &facts), Some("tty12".to_string()));
}

#[test]
fn issue_colors_are_unescaped() {
  let issue = Some("\\e[31mred\\033[0m \\x1b[1m a\\\\b".to_string());

  assert_eq!(get_issue(&issue, &facts()), Some("\x1b[31mred\x1b[0m \x1b[1m a\\b".to_string()));
}

#[test]
fn issue_without_system_facts_keeps_their_sequences() {
  let issue = Some("\\S \\s \\n".to_string());
  let mut facts = facts();
  facts.uts = None;

  assert_eq!(get_issue(&issue, &facts), Some("Linux \\s \\n".to_string()));
}
