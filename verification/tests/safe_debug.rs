use tuigreet::ipc::Request;
use tuigreet::safe_debug::SafeDebug;

#[test]
fn requests_are_described() {
  assert_eq!(Request::CancelSession.safe_repr(), "CancelSession");

  let request = Request::CreateSession {
    username: "alice".to_string(),
  };
  assert_eq!(request.safe_repr(), "CreateSession { username: \"alice\" }");

  let request = Request::StartSession {
    cmd: vec!["startx /usr/bin/env i3".to_string()],
    env: vec!["A=B".to_string(), "C=\"D\"".to_string()],
  };
  assert_eq!(
    request.safe_repr(),
    "StartSession { cmd: [\"startx /usr/bin/env i3\"], env: [\"A=B\", \"C=\\\"D\\\"\"] }"
  );

  let request = Request::StartSession { cmd: vec![], env: vec![] };
  assert_eq!(request.safe_repr(), "StartSession { cmd: [], env: [] }");
}

#[test]
fn answers_are_not_described() {
  let request = Request::PostAuthMessageResponse {
    response: Some("hunter2".to_string()),
  };
  assert_eq!(request.safe_repr(), "PostAuthMessageResponse");

  let request = Request::PostAuthMessageResponse { response: None };
  assert_eq!(request.safe_repr(), "PostAuthMessageResponse");
}

#[test]
fn names_are_escaped() {
  let request = Request::CreateSession {
    username: "a\"b\\c\n".to_string(),
  };
  assert_eq!(request.safe_repr(), "CreateSession { username: \"a\\\"b\\\\c\\n\" }");
}
