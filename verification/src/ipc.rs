//! The conversation with the daemon: the requests that wait to be sent, and
//! what each response does to the application.

use vstd::prelude::*;
use vstd::string::*;

use crate::event::{sends, Action, ActionView};
use crate::greeter::{content, lemma_fields, AuthStatus, Greeter, GreeterView, Mode};
use crate::sessions::{Session, SessionSource, SessionSourceView, SessionType, SessionView};
use crate::text::{
    clone_option, chain, replace_char, spec_replace_char, spec_trim_end, spec_trim_end_char,
    trim_end, trim_end_char,
};

verus! {

/// What the greeter asks of the daemon.
pub enum Request {
    /// Begin the login of a user.
    CreateSession { username: String },
    /// Answer a question of the daemon, or acknowledge a message.
    PostAuthMessageResponse { response: Option<String> },
    /// Launch a command, with an environment, as the user who logged in.
    StartSession { cmd: Vec<String>, env: Vec<String> },
    /// Abandon the login.
    CancelSession,
}

/// The mathematical content of a [`Request`].
pub enum RequestView {
    CreateSession { username: Seq<char> },
    PostAuthMessageResponse { response: Option<Seq<char>> },
    StartSession { cmd: Seq<Seq<char>>, env: Seq<Seq<char>> },
    CancelSession,
}

impl View for Request {
    type V = RequestView;

    open spec fn view(&self) -> RequestView {
        match self {
            Request::CreateSession { username } => RequestView::CreateSession {
                username: username@,
            },
            Request::PostAuthMessageResponse { response } => RequestView::PostAuthMessageResponse {
                response: response.deep_view(),
            },
            Request::StartSession { cmd, env } => RequestView::StartSession {
                cmd: cmd.deep_view(),
                env: env.deep_view(),
            },
            Request::CancelSession => RequestView::CancelSession,
        }
    }
}

impl DeepView for Request {
    type V = RequestView;

    open spec fn deep_view(&self) -> RequestView {
        self@
    }
}

/// What kind of message the daemon sends during authentication.
#[derive(Debug, Copy, Clone, PartialEq, Eq, Structural)]
pub enum AuthMessageType {
    /// A question whose answer is shown while it is typed.
    Visible,
    /// A question whose answer is a secret.
    Secret,
    /// Information for the user.
    Info,
    /// An error to show to the user.
    Error,
}

/// What kind of failure the daemon reports.
#[derive(Debug, Copy, Clone, PartialEq, Eq, Structural)]
pub enum ErrorType {
    /// The user could not be authenticated.
    AuthError,
    /// Anything else.
    Error,
}

/// What the daemon answers.
pub enum Response {
    AuthMessage { auth_message_type: AuthMessageType, auth_message: String },
    Success,
    Error { error_type: ErrorType, description: String },
}

/// The mathematical content of a [`Response`].
pub enum ResponseView {
    AuthMessage { auth_message_type: AuthMessageType, auth_message: Seq<char> },
    Success,
    Error { error_type: ErrorType, description: Seq<char> },
}

impl View for Response {
    type V = ResponseView;

    open spec fn view(&self) -> ResponseView {
        match self {
            Response::AuthMessage { auth_message_type, auth_message } => ResponseView::AuthMessage {
                auth_message_type: *auth_message_type,
                auth_message: auth_message@,
            },
            Response::Success => ResponseView::Success,
            Response::Error { error_type, description } => ResponseView::Error {
                error_type: *error_type,
                description: description@,
            },
        }
    }
}

/// The message that is shown for a failure of the daemon that is not a failed
/// authentication.
pub open spec fn generic_error() -> Seq<char> {
    "An error was received from greetd"@
}

/// The request that acknowledges a message of the daemon.
pub open spec fn acknowledgement() -> ActionView {
    ActionView::Send(RequestView::PostAuthMessageResponse { response: None })
}

/// Desktop names as `XDG_CURRENT_DESKTOP` lists them: separated by colons,
/// without a colon at the end.
pub open spec fn xdg_desktop_names(names: Seq<char>) -> Seq<char> {
    spec_trim_end_char(spec_replace_char(names, ';', ':'), ':')
}

/// The environment that a session is started with: the slug of the session
/// as `XDG_SESSION_DESKTOP` and `DESKTOP_SESSION`, its kind as
/// `XDG_SESSION_TYPE` unless it is unspecified, and its desktop names as
/// `XDG_CURRENT_DESKTOP`, each only where the session has it. A command
/// that belongs to no session gets an empty environment.
pub open spec fn session_env(session: Option<SessionView>) -> Seq<Seq<char>> {
    match session {
        None => Seq::empty(),
        Some(session) => {
            let slug = match session.slug {
                Some(slug) => seq!["XDG_SESSION_DESKTOP="@ + slug, "DESKTOP_SESSION="@ + slug],
                None => Seq::empty(),
            };
            let kind = if session.session_type != SessionType::Unspecified {
                seq!["XDG_SESSION_TYPE="@ + session.session_type.xdg_name()]
            } else {
                Seq::empty()
            };
            let names = match session.xdg_desktop_names {
                Some(names) => seq!["XDG_CURRENT_DESKTOP="@ + xdg_desktop_names(names)],
                None => Seq::empty(),
            };
            slug + kind + names
        },
    }
}

/// The wrapper that applies to a session: the X11 wrapper for an X11
/// session, the general wrapper for any other session and for a command
/// that belongs to no session.
pub open spec fn wrapper_for(greeter: GreeterView, session: Option<SessionView>) -> Option<
    Seq<char>,
> {
    match session {
        Some(session) => if session.session_type == SessionType::X11 {
            greeter.xsession_wrapper
        } else {
            greeter.session_wrapper
        },
        None => greeter.session_wrapper,
    }
}

/// The command behind its wrapper and one space, or the command alone.
/// Nothing is quoted.
pub open spec fn wrapped(wrapper: Option<Seq<char>>, command: Seq<char>) -> Seq<char> {
    match wrapper {
        Some(wrapper) => wrapper + " "@ + command,
        None => command,
    }
}

/// Turns a list of desktop names separated by semicolons into the list
/// separated by colons that `XDG_CURRENT_DESKTOP` holds.
pub fn desktop_names_to_xdg(names: &str) -> (r: String)
    ensures
        r@ == xdg_desktop_names(names@),
{
    let replaced = replace_char(names, ';', ':');
    String::from_str(trim_end_char(replaced.as_str(), ':'))
}

/// Appends `value` to a list of strings.
fn push_string(list: &mut Vec<String>, value: String)
    ensures
        final(list).deep_view() == old(list).deep_view().push(value@),
{
    list.push(value);
    assert(list.deep_view() =~= old(list).deep_view().push(value@));
}

/// Builds the command line and the environment with which a session is
/// started: `session` is the session that the command belongs to, if any.
pub fn wrap_session_command(greeter: &Greeter, session: Option<&Session>, command: &str) -> (r: (
    String,
    Vec<String>,
))
    ensures
        r.0@ == wrapped(wrapper_for(greeter@, session.deep_view()), command@),
        r.1.deep_view() == session_env(session.deep_view()),
{
    proof { reveal(content); }
    let mut env: Vec<String> = Vec::new();
    assert(env.deep_view() =~= Seq::<Seq<char>>::empty());

    let wrapper = match session {
        Some(session) => {
            if let Some(slug) = &session.slug {
                push_string(&mut env, chain("XDG_SESSION_DESKTOP=", slug.as_str()));
                push_string(&mut env, chain("DESKTOP_SESSION=", slug.as_str()));
            }
            if session.session_type != SessionType::Unspecified {
                push_string(
                    &mut env,
                    chain("XDG_SESSION_TYPE=", session.session_type.as_xdg_session_type()),
                );
            }
            if let Some(names) = &session.xdg_desktop_names {
                let names = desktop_names_to_xdg(names.as_str());
                push_string(&mut env, chain("XDG_CURRENT_DESKTOP=", names.as_str()));
            }
            assert(env.deep_view() =~= session_env(Some(session@)));

            if session.session_type == SessionType::X11 {
                &greeter.xsession_wrapper
            } else {
                &greeter.session_wrapper
            }
        },
        None => &greeter.session_wrapper,
    };

    let wrapped = match wrapper {
        Some(wrapper) => {
            let mut line = chain(wrapper.as_str(), " ");
            line.append(command);
            line
        },
        None => String::from_str(command),
    };
    (wrapped, env)
}

/// The message after `text`, less the white space at its end, has been
/// added to it on a line of its own.
pub open spec fn message_with(message: Option<Seq<char>>, text: Seq<char>) -> Seq<char> {
    match message {
        Some(message) => message.push('\n') + spec_trim_end(text),
        None => spec_trim_end(text),
    }
}

/// What is written down once a session has been started, so that the next
/// login starts from it. The user is remembered if `remember` is set. The
/// session is remembered for this user if `remember_user_session` is set as
/// well, else for everybody if `remember_session` is set: a free-form
/// command replaces a remembered session file and the other way round.
pub open spec fn remembered(g: GreeterView) -> Seq<ActionView> {
    let user = if g.remember {
        seq![ActionView::WriteLastUsername { username: g.username.value, name: g.username.mask }]
    } else {
        Seq::empty()
    };
    let session = if g.remember && g.remember_user_session {
        remembered_for_user(g)
    } else if g.remember_session {
        remembered_for_all(g)
    } else {
        Seq::empty()
    };
    user + session
}

/// What is written down about the session of the user who logged in.
pub open spec fn remembered_for_user(g: GreeterView) -> Seq<ActionView> {
    let username = g.username.value;
    match g.session_source {
        SessionSourceView::Command(command) => seq![
            ActionView::WriteLastUserCommand { username, command },
            ActionView::DeleteLastUserSession { username },
        ],
        SessionSourceView::Session(index) => match g.session_source.selected(g.sessions.options) {
            Some(session) => match session.path {
                Some(path) => seq![
                    ActionView::WriteLastUserSession { username, path },
                    ActionView::DeleteLastUserCommand { username },
                ],
                None => Seq::empty(),
            },
            None => Seq::empty(),
        },
        SessionSourceView::Unset => Seq::empty(),
    }
}

/// What is written down about the session, whoever logged in.
pub open spec fn remembered_for_all(g: GreeterView) -> Seq<ActionView> {
    match g.session_source {
        SessionSourceView::Command(command) => seq![
            ActionView::WriteLastCommand { command },
            ActionView::DeleteLastSession,
        ],
        SessionSourceView::Session(index) => match g.session_source.selected(g.sessions.options) {
            Some(session) => {
                let path = match session.path {
                    Some(path) => seq![ActionView::WriteLastSessionPath { path }],
                    None => Seq::empty(),
                };
                path.push(ActionView::WriteLastCommand { command: session.command })
            },
            None => Seq::empty(),
        },
        SessionSourceView::Unset => Seq::empty(),
    }
}

impl GreeterView {
    /// The command that the selection resolves to, if it resolves to one
    /// that is not empty.
    pub open spec fn resolved_command(self) -> Option<Seq<char>> {
        match self.session_source.command(self.sessions.options) {
            Some(command) => if command.len() > 0 {
                Some(command)
            } else {
                None
            },
            None => None,
        }
    }

    /// The request that starts the session, for a selection that resolves to
    /// `command`.
    pub open spec fn start_session(self, command: Seq<char>) -> RequestView {
        let session = self.session_source.selected(self.sessions.options);
        RequestView::StartSession {
            cmd: seq![wrapped(wrapper_for(self, session), command)],
            env: session_env(session),
        }
    }

    /// The state once the daemon has asked a question: the password prompt,
    /// with the question as its prompt.
    pub open spec fn asked(self, secret: bool, prompt: Seq<char>) -> GreeterView {
        (GreeterView {
            mode: Mode::Password,
            working: false,
            asking_for_secret: secret,
            ..self
        }).set_prompt(prompt)
    }

    /// The state once the daemon has sent an error to show: the error is
    /// the message, and the response to its acknowledgement is awaited.
    pub open spec fn warned(self, text: Seq<char>) -> GreeterView {
        GreeterView { message: Some(text), working: true, ..self }
    }

    /// The state once the daemon has sent information: it is added to the
    /// message, the `Action` mode is entered from the current mode, and the
    /// response to the acknowledgement is awaited.
    pub open spec fn informed(self, text: Seq<char>) -> GreeterView {
        GreeterView {
            prompt: None,
            previous_mode: self.mode,
            mode: Mode::Action,
            message: Some(message_with(self.message, text)),
            working: true,
            ..self
        }
    }

    /// The state once the start of the session has been requested: the
    /// response to that request is awaited.
    pub open spec fn started(self) -> GreeterView {
        GreeterView { done: true, mode: Mode::Processing, working: true, ..self }
    }

    /// The state after a reset that leaves `message` to be shown.
    pub open spec fn failed(self, soft: bool, message: Seq<char>) -> GreeterView {
        GreeterView { message: Some(message), ..self.reset(soft) }
    }

    /// The state after a failed authentication: a soft reset that leaves
    /// the message of the failure to be shown, while the response to the
    /// request for a new session is awaited.
    pub open spec fn retried(self) -> GreeterView {
        GreeterView { working: true, ..self.failed(true, self.messages.failed@) }
    }

    /// The state after a response of the daemon, before the cursor is put
    /// back within the text.
    pub open spec fn response_effect(self, response: ResponseView) -> GreeterView {
        match response {
            ResponseView::AuthMessage { auth_message_type, auth_message } => match auth_message_type {
                AuthMessageType::Secret => self.asked(true, auth_message),
                AuthMessageType::Visible => self.asked(false, auth_message),
                AuthMessageType::Error => self.warned(auth_message),
                AuthMessageType::Info => self.informed(auth_message),
            },
            ResponseView::Success => if self.done {
                self
            } else {
                match self.resolved_command() {
                    None => self.failed(true, self.messages.command_missing@),
                    Some(_) => self.started(),
                }
            },
            ResponseView::Error { error_type, description } => match error_type {
                ErrorType::AuthError => self.retried(),
                ErrorType::Error => self.failed(false, generic_error()),
            },
        }
    }

    /// The state after a response of the daemon.
    ///
    /// A question of the daemon opens the password prompt. A message is
    /// shown; information switches to the `Action` mode as well. A first
    /// success starts the session, if there is a command to run, and
    /// otherwise resets softly with a message; the success that follows the
    /// start of the session changes nothing. A failed authentication resets
    /// softly, any other failure resets hard, each with a message that holds
    /// nothing of what the daemon sent.
    ///
    /// Wherever the response has a request queued, `working` is set: the
    /// response to that request is awaited. Wherever else the state changes,
    /// `working` is cleared.
    pub open spec fn respond(self, response: ResponseView) -> GreeterView {
        self.response_effect(response).clamp_cursor()
    }

    /// What a response of the daemon asks the surroundings to do.
    ///
    /// A message of the daemon is acknowledged at once. A first success
    /// sends the request that starts the session, or cancels where there is
    /// no command to run; the success that follows the start of the session
    /// writes down what is to be remembered and ends the application. A
    /// failure cancels the session; after a failed authentication a new
    /// session is requested for the same user.
    pub open spec fn respond_actions(self, response: ResponseView) -> Seq<ActionView> {
        match response {
            ResponseView::AuthMessage { auth_message_type, auth_message } => match auth_message_type {
                AuthMessageType::Secret | AuthMessageType::Visible => Seq::empty(),
                AuthMessageType::Error | AuthMessageType::Info => seq![acknowledgement()],
            },
            ResponseView::Success => if self.done {
                self.leave()
            } else {
                match self.resolved_command() {
                    None => abandon(),
                    Some(command) => seq![ActionView::Send(self.start_session(command))],
                }
            },
            ResponseView::Error { error_type, description } => match error_type {
                ErrorType::AuthError => self.retry(),
                ErrorType::Error => abandon(),
            },
        }
    }

    /// The actions that end the application after the session was started.
    pub open spec fn leave(self) -> Seq<ActionView> {
        remembered(self).push(ActionView::Exit(AuthStatus::Success))
    }

    /// The actions that cancel the session and ask for a new one for the
    /// same user, on a new connection.
    pub open spec fn retry(self) -> Seq<ActionView> {
        seq![
            ActionView::Cancel,
            ActionView::Send(RequestView::CreateSession { username: self.username.value }),
            ActionView::Connect,
        ]
    }
}

/// The actions that cancel the session and open a new connection.
pub open spec fn abandon() -> Seq<ActionView> {
    seq![ActionView::Cancel, ActionView::Connect]
}

/// What is written down once a session has been started queues no
/// request, and neither does the end of the application.
pub proof fn lemma_leave_sends_nothing(g: GreeterView)
    ensures
        !sends(remembered(g)),
        !sends(g.leave()),
{
    let written = remembered(g);
    assert forall|i: int| 0 <= i < written.len() implies !(#[trigger] written[i] is Send) by {
        let user = if g.remember {
            seq![ActionView::WriteLastUsername { username: g.username.value, name: g.username.mask }]
        } else {
            Seq::empty()
        };
        if i >= user.len() {
            let per_user = remembered_for_user(g);
            let for_all = remembered_for_all(g);
            assert forall|j: int| 0 <= j < per_user.len() implies !(#[trigger] per_user[j] is Send) by {}
            assert forall|j: int| 0 <= j < for_all.len() implies !(#[trigger] for_all[j] is Send) by {}
        }
    }
    let actions = g.leave();
    assert forall|i: int| 0 <= i < actions.len() implies !(#[trigger] actions[i] is Send) by {
        if i < written.len() {
            assert(actions[i] == written[i]);
        }
    }
}

/// To cancel the session and to open a new connection queues no request.
pub proof fn lemma_abandon_sends_nothing()
    ensures
        !sends(abandon()),
{
    let actions = abandon();
    assert forall|i: int| 0 <= i < actions.len() implies !(#[trigger] actions[i] is Send) by {}
}

/// After a response, a request is awaited exactly where the response had
/// one queued; but the success that follows the start of the session, which
/// queues none, leaves `working` as it is.
pub proof fn lemma_working_after_response(g: GreeterView, response: ResponseView)
    ensures
        sends(g.respond_actions(response)) ==> g.respond(response).working,
        response == ResponseView::Success && g.done ==> {
            &&& !sends(g.respond_actions(response))
            &&& g.respond(response).working == g.working
        },
        !sends(g.respond_actions(response)) && !(response == ResponseView::Success && g.done)
            ==> !g.respond(response).working,
{
    let actions = g.respond_actions(response);
    lemma_leave_sends_nothing(g);
    lemma_abandon_sends_nothing();
    match response {
        ResponseView::AuthMessage { auth_message_type, auth_message } => {
            match auth_message_type {
                AuthMessageType::Secret | AuthMessageType::Visible => {
                    assert(actions.len() == 0);
                },
                AuthMessageType::Error | AuthMessageType::Info => {
                    assert(actions[0] is Send);
                },
            }
        },
        ResponseView::Success => {
            if !g.done {
                match g.resolved_command() {
                    None => {},
                    Some(command) => {
                        assert(actions[0] is Send);
                    },
                }
            }
        },
        ResponseView::Error { error_type, description } => {
            match error_type {
                ErrorType::AuthError => {
                    assert(actions[1] is Send);
                },
                ErrorType::Error => {},
            }
        },
    }
}

/// Appends `action` to a list of actions.
pub(crate) fn emit(actions: &mut Vec<Action>, action: Action)
    ensures
        final(actions).deep_view() == old(actions).deep_view().push(action@),
{
    actions.push(action);
    assert(actions.deep_view() =~= old(actions).deep_view().push(action@));
}

/// The actions that write down what is to be remembered once a session has
/// been started.
fn remember(greeter: &Greeter, actions: &mut Vec<Action>)
    ensures
        final(actions).deep_view() == old(actions).deep_view() + remembered(greeter@),
{
    proof { reveal(content); }
    let ghost before = actions.deep_view();
    if greeter.remember {
        emit(
            actions,
            Action::WriteLastUsername {
                username: greeter.username.value.clone(),
                name: clone_option(&greeter.username.mask),
            },
        );
    }
    let per_user = greeter.remember && greeter.remember_user_session;
    if per_user || greeter.remember_session {
        match &greeter.session_source {
            SessionSource::Command(command) => {
                if per_user {
                    emit(
                        actions,
                        Action::WriteLastUserCommand {
                            username: greeter.username.value.clone(),
                            command: command.clone(),
                        },
                    );
                    emit(
                        actions,
                        Action::DeleteLastUserSession { username: greeter.username.value.clone() },
                    );
                } else {
                    emit(actions, Action::WriteLastCommand { command: command.clone() });
                    emit(actions, Action::DeleteLastSession);
                }
            },
            SessionSource::Session(_) => {
                if let Some(session) = Session::get_selected(greeter) {
                    if per_user {
                        if let Some(path) = &session.path {
                            emit(
                                actions,
                                Action::WriteLastUserSession {
                                    username: greeter.username.value.clone(),
                                    path: path.clone(),
                                },
                            );
                            emit(
                                actions,
                                Action::DeleteLastUserCommand {
                                    username: greeter.username.value.clone(),
                                },
                            );
                        }
                    } else {
                        if let Some(path) = &session.path {
                            emit(actions, Action::WriteLastSessionPath { path: path.clone() });
                        }
                        emit(actions, Action::WriteLastCommand { command: session.command.clone() });
                    }
                }
            },
            SessionSource::Unset => {},
        }
    }
    assert(actions.deep_view() =~= before + remembered(greeter@));
}

/// The requests that wait to be sent to the daemon, and whether one of them
/// has been sent and not been answered yet.
pub struct Ipc {
    queue: Vec<Request>,
    pending: bool,
}

/// The mathematical content of an [`Ipc`].
pub struct IpcView {
    /// The requests that wait, the oldest first.
    pub queue: Seq<RequestView>,
    /// Whether a request has been taken from the queue and its response has
    /// not been dispatched.
    pub pending: bool,
}

/// The number of requests that can wait at a time.
pub const QUEUE_CAPACITY: usize = 10;

impl IpcView {
    /// The queue after `request` was offered to it: appended if there was
    /// room, else unchanged.
    pub open spec fn send(self, request: RequestView) -> IpcView {
        if self.queue.len() < QUEUE_CAPACITY {
            IpcView { queue: self.queue.push(request), ..self }
        } else {
            self
        }
    }

    /// No more requests wait than can wait at a time.
    pub open spec fn within_capacity(self) -> bool {
        self.queue.len() <= QUEUE_CAPACITY
    }

    /// Whether a request can be taken from the queue: there is one, and no
    /// response is awaited.
    pub open spec fn ready(self) -> bool {
        !self.pending && self.queue.len() > 0
    }

    /// The queue after a request was asked for: the oldest request is
    /// taken and awaited if the queue is ready, else nothing changes.
    pub open spec fn next(self) -> IpcView {
        if self.ready() {
            IpcView { queue: self.queue.drop_first(), pending: true }
        } else {
            self
        }
    }

    /// The queue once no response is awaited any more: the response has
    /// come, or the request could not be sent or answered.
    pub open spec fn answered(self) -> IpcView {
        IpcView { pending: false, ..self }
    }
}

impl View for Ipc {
    type V = IpcView;

    closed spec fn view(&self) -> IpcView {
        IpcView { queue: self.queue.deep_view(), pending: self.pending }
    }
}

impl Ipc {
    /// An empty queue, with no response awaited.
    pub fn new() -> (r: Ipc)
        ensures
            r@ == (IpcView { queue: Seq::empty(), pending: false }),
            r@.within_capacity(),
    {
        let r = Ipc { queue: Vec::new(), pending: false };
        assert(r.queue.deep_view() =~= Seq::<RequestView>::empty());
        r
    }

    /// Queues a request. Nothing is sent by this. A request that finds the
    /// queue full is handed back.
    pub fn send(&mut self, request: Request) -> (r: Result<(), Request>)
        ensures
            final(self)@ == old(self)@.send(request@),
            match r {
                Ok(_) => old(self)@.queue.len() < QUEUE_CAPACITY,
                Err(back) => old(self)@.queue.len() >= QUEUE_CAPACITY && back == request,
            },
    {
        assert(self.queue.deep_view().len() == self.queue@.len());
        if self.queue.len() < QUEUE_CAPACITY {
            self.queue.push(request);
            assert(self.queue.deep_view() =~= old(self).queue.deep_view().push(request@));
            Ok(())
        } else {
            Err(request)
        }
    }

    /// Takes the next request to send to the daemon: the oldest of the
    /// queue. While a response is awaited no request is handed out.
    pub fn next(&mut self) -> (r: Option<Request>)
        ensures
            final(self)@ == old(self)@.next(),
            r.deep_view() == if old(self)@.ready() {
                Some(old(self)@.queue.first())
            } else {
                None
            },
    {
        assert(self.queue.deep_view().len() == self.queue@.len());
        if self.pending || self.queue.len() == 0 {
            None
        } else {
            let request = self.queue.remove(0);
            self.pending = true;
            assert(self.queue.deep_view() =~= old(self).queue.deep_view().drop_first());
            Some(request)
        }
    }

    /// Gives up the request that was sent last: it could not be sent, or its
    /// response could not be read. No response is awaited any more, and the
    /// next request can be taken.
    pub fn give_up(&mut self)
        ensures
            final(self)@ == old(self)@.answered(),
    {
        self.pending = false;
    }

    /// Takes in the response to the request that was sent last: no response
    /// is awaited any more, the application is told so, and the response is
    /// dispatched. Afterwards `working` is set exactly if the response had a
    /// request queued.
    pub fn handle(&mut self, greeter: &mut Greeter, response: Response) -> (actions: Vec<Action>)
        ensures
            final(self)@ == old(self)@.answered(),
            final(greeter)@ == (GreeterView { working: false, ..old(greeter)@ }).respond(response@),
            actions.deep_view() == (GreeterView { working: false, ..old(greeter)@ }).respond_actions(
                response@,
            ),
            final(greeter)@.working == sends(actions.deep_view()),
    {
        self.pending = false;
        greeter.settle();
        proof {
            lemma_working_after_response(greeter@, response@);
        }
        Ipc::parse_response(greeter, response)
    }

    /// Applies a response of the daemon to the state, and returns what is to
    /// be done about it.
    pub fn parse_response(greeter: &mut Greeter, response: Response) -> (actions: Vec<Action>)
        ensures
            final(greeter)@ == old(greeter)@.respond(response@),
            actions.deep_view() == old(greeter)@.respond_actions(response@),
    {
        let actions = match response {
            Response::AuthMessage { auth_message_type, auth_message } => auth_message_received(
                greeter,
                auth_message_type,
                auth_message,
            ),
            Response::Success => success_received(greeter),
            Response::Error { error_type, description } => error_received(
                greeter,
                error_type,
                description,
            ),
        };
        greeter.clamp_cursor();
        actions
    }
}

/// The action that acknowledges a message of the daemon.
fn acknowledge() -> (actions: Vec<Action>)
    ensures
        actions.deep_view() == seq![acknowledgement()],
{
    let mut actions: Vec<Action> = Vec::new();
    actions.push(Action::Send(Request::PostAuthMessageResponse { response: None }));
    assert(actions.deep_view() =~= seq![acknowledgement()]);
    actions
}

/// No action.
pub(crate) fn nothing() -> (actions: Vec<Action>)
    ensures
        actions.deep_view() == Seq::<ActionView>::empty(),
{
    let actions: Vec<Action> = Vec::new();
    assert(actions.deep_view() =~= Seq::<ActionView>::empty());
    actions
}

/// The actions that cancel the session and open a new connection.
pub(crate) fn cancel_and_connect() -> (actions: Vec<Action>)
    ensures
        actions.deep_view() == abandon(),
{
    let mut actions: Vec<Action> = Vec::new();
    actions.push(Action::Cancel);
    actions.push(Action::Connect);
    assert(actions.deep_view() =~= abandon());
    actions
}

/// Opens the password prompt for a question of the daemon.
fn ask(greeter: &mut Greeter, secret: bool, prompt: &str)
    ensures
        final(greeter)@ == old(greeter)@.asked(secret, prompt@),
{
    greeter.set_mode(Mode::Password);
    greeter.set_working(false);
    greeter.set_asking_for_secret(secret);
    greeter.set_prompt(prompt);
}

/// Shows an error that the daemon sent.
fn warn(greeter: &mut Greeter, text: String)
    ensures
        final(greeter)@ == old(greeter)@.warned(text@),
{
    greeter.set_message(Some(text));
    greeter.set_working(true);
}

/// Shows information from the daemon: it is added to the message, on a line
/// of its own, and the `Action` mode is entered.
fn inform(greeter: &mut Greeter, text: &str)
    ensures
        final(greeter)@ == old(greeter)@.informed(text@),
{
    proof {
        lemma_fields(*greeter);
    }
    let mode = greeter.mode;
    let text = trim_end(text);
    let message = match &greeter.message {
        Some(message) => {
            let mut message = chain(message.as_str(), "\n");
            message.append(text);
            proof {
                reveal_strlit("\n");
                assert("\n"@ =~= seq!['\n']);
                assert(message@ =~= old(greeter)@.message->0.push('\n') + text@);
            }
            message
        },
        None => String::from_str(text),
    };
    greeter.remove_prompt();
    greeter.set_previous_mode(mode);
    greeter.set_mode(Mode::Action);
    greeter.set_message(Some(message));
    greeter.set_working(true);
}

/// Resets the state and leaves a message to be shown.
fn fail(greeter: &mut Greeter, soft: bool, message: String)
    ensures
        final(greeter)@ == old(greeter)@.failed(soft, message@),
{
    greeter.reset(soft);
    greeter.set_message(Some(message));
}

/// The request that starts the session with `command`.
fn start_request(greeter: &Greeter, command: &str) -> (actions: Vec<Action>)
    ensures
        actions.deep_view() == seq![ActionView::Send(greeter@.start_session(command@))],
{
    let session = Session::get_selected(greeter);
    let (line, env) = wrap_session_command(greeter, session, command);
    let mut cmd: Vec<String> = Vec::new();
    push_string(&mut cmd, line);
    assert(cmd.deep_view() =~= seq![line@]);
    let mut actions: Vec<Action> = Vec::new();
    actions.push(Action::Send(Request::StartSession { cmd, env }));
    assert(actions.deep_view() =~= seq![ActionView::Send(greeter@.start_session(command@))]);
    actions
}

/// Marks the session as started and builds the request that starts it.
fn start(greeter: &mut Greeter, command: &str) -> (actions: Vec<Action>)
    ensures
        final(greeter)@ == old(greeter)@.started(),
        actions.deep_view() == seq![ActionView::Send(old(greeter)@.start_session(command@))],
{
    let actions = start_request(greeter, command);
    greeter.set_done(true);
    greeter.set_mode(Mode::Processing);
    greeter.set_working(true);
    actions
}

/// The actions that end the application after the session was started.
fn leave(greeter: &Greeter) -> (actions: Vec<Action>)
    ensures
        actions.deep_view() == greeter@.leave(),
{
    let mut actions: Vec<Action> = Vec::new();
    assert(actions.deep_view() =~= Seq::<ActionView>::empty());
    remember(greeter, &mut actions);
    emit(&mut actions, Action::Exit(AuthStatus::Success));
    actions
}

/// The actions that cancel the session and ask for a new one for the same
/// user.
fn retry(greeter: &Greeter) -> (actions: Vec<Action>)
    ensures
        actions.deep_view() == greeter@.retry(),
{
    proof { reveal(content); }
    let mut actions: Vec<Action> = Vec::new();
    actions.push(Action::Cancel);
    actions.push(Action::Send(Request::CreateSession { username: greeter.username.value.clone() }));
    actions.push(Action::Connect);
    assert(actions.deep_view() =~= greeter@.retry());
    actions
}

/// Applies a message of the daemon: a question opens the password prompt,
/// anything else is shown and acknowledged.
fn auth_message_received(
    greeter: &mut Greeter,
    auth_message_type: AuthMessageType,
    auth_message: String,
) -> (actions: Vec<Action>)
    ensures
        final(greeter)@ == old(greeter)@.response_effect(
            ResponseView::AuthMessage { auth_message_type, auth_message: auth_message@ },
        ),
        actions.deep_view() == old(greeter)@.respond_actions(
            ResponseView::AuthMessage { auth_message_type, auth_message: auth_message@ },
        ),
{
    match auth_message_type {
        AuthMessageType::Secret => {
            ask(greeter, true, auth_message.as_str());
            nothing()
        },
        AuthMessageType::Visible => {
            ask(greeter, false, auth_message.as_str());
            nothing()
        },
        AuthMessageType::Error => {
            warn(greeter, auth_message);
            acknowledge()
        },
        AuthMessageType::Info => {
            inform(greeter, auth_message.as_str());
            acknowledge()
        },
    }
}

/// The command that the selection resolves to, unless it is empty.
fn resolve_command(greeter: &Greeter) -> (r: Option<String>)
    ensures
        r.deep_view() == greeter@.resolved_command(),
{
    proof { reveal(content); }
    match greeter.session_source.command(greeter) {
        Some(command) => if command.unicode_len() > 0 {
            Some(String::from_str(command))
        } else {
            None
        },
        None => None,
    }
}

/// Applies a success: the first one starts the session, the one that follows
/// the start of the session ends the application.
fn success_received(greeter: &mut Greeter) -> (actions: Vec<Action>)
    ensures
        final(greeter)@ == old(greeter)@.response_effect(ResponseView::Success),
        actions.deep_view() == old(greeter)@.respond_actions(ResponseView::Success),
{
    proof { lemma_fields(*greeter); }
    if greeter.done {
        return leave(greeter);
    }
    match resolve_command(greeter) {
        None => {
            let message = greeter.messages.command_missing.clone();
            fail(greeter, true, message);
            cancel_and_connect()
        },
        Some(command) => start(greeter, command.as_str()),
    }
}

/// Applies a failure: the session is cancelled and the state reset, with a
/// message that holds nothing of what the daemon sent.
fn error_received(greeter: &mut Greeter, error_type: ErrorType, description: String) -> (actions:
    Vec<Action>)
    ensures
        final(greeter)@ == old(greeter)@.response_effect(
            ResponseView::Error { error_type, description: description@ },
        ),
        actions.deep_view() == old(greeter)@.respond_actions(
            ResponseView::Error { error_type, description: description@ },
        ),
{
    proof { lemma_fields(*greeter); }
    match error_type {
        ErrorType::AuthError => {
            let actions = retry(greeter);
            let message = greeter.messages.failed.clone();
            fail(greeter, true, message);
            greeter.set_working(true);
            actions
        },
        ErrorType::Error => {
            fail(greeter, false, String::from_str("An error was received from greetd"));
            cancel_and_connect()
        },
    }
}

} // verus!
