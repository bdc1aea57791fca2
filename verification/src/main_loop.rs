//! The decisions of the main loop: what is done about each event, and when
//! the loop ends.

use vstd::prelude::*;
use vstd::string::*;

use crate::event::{Action, ActionView, Event, KeyEvent};
use crate::greeter::{lemma_fields, AuthStatus, Greeter, GreeterView};
use crate::ipc::{nothing, Request, RequestView};
use crate::keyboard::handle;
use crate::power::{run, PowerCommand, PowerCommandView};

verus! {

/// What the main loop does next.
pub enum Step {
    /// End the loop: the application exits with this status.
    Stop(AuthStatus),
    /// Draw the screen. The state is only read for this.
    Draw,
    /// Carry out these actions, in order.
    Act(Vec<Action>),
    /// Run this command, and hand how it ended to `finish`.
    RunPower(PowerCommand),
    /// Wait for the next event.
    Wait,
}

/// The mathematical content of a [`Step`].
pub enum StepView {
    Stop(AuthStatus),
    Draw,
    Act(Seq<ActionView>),
    RunPower(PowerCommandView),
    Wait,
}

impl View for Step {
    type V = StepView;

    open spec fn view(&self) -> StepView {
        match self {
            Step::Stop(status) => StepView::Stop(*status),
            Step::Draw => StepView::Draw,
            Step::Act(actions) => StepView::Act(actions.deep_view()),
            Step::RunPower(command) => StepView::RunPower(command@),
            Step::Wait => StepView::Wait,
        }
    }
}

/// The mathematical content of an [`Event`].
pub enum EventView {
    Key(KeyEvent),
    Render,
    PowerCommand(PowerCommandView),
    Exit(AuthStatus),
}

impl View for Event {
    type V = EventView;

    open spec fn view(&self) -> EventView {
        match self {
            Event::Key(key) => EventView::Key(*key),
            Event::Render => EventView::Render,
            Event::PowerCommand(command) => EventView::PowerCommand(command@),
            Event::Exit(status) => EventView::Exit(*status),
        }
    }
}

impl GreeterView {
    /// Whether a session is requested at once for a user who is remembered.
    pub open spec fn resumes(self) -> bool {
        self.remember && self.username.value.len() > 0
    }

    /// The state when the main loop begins: a request is awaited if a
    /// session is requested at once.
    pub open spec fn begun(self) -> GreeterView {
        if self.resumes() {
            GreeterView { working: true, ..self }
        } else {
            self
        }
    }

    /// What the beginning of the main loop asks the surroundings to do.
    pub open spec fn begin_actions(self) -> Seq<ActionView> {
        if self.resumes() {
            seq![ActionView::Send(RequestView::CreateSession { username: self.username.value })]
        } else {
            Seq::empty()
        }
    }

    /// The state once the application was asked to exit.
    pub open spec fn exiting(self, status: AuthStatus) -> GreeterView {
        GreeterView { exit: Some(status), ..self }
    }

    /// The state after the main loop has taken in an event. Once the exit
    /// status is set, no event changes anything.
    pub open spec fn after_event(self, event: Option<EventView>) -> GreeterView {
        if self.exit is Some {
            self
        } else {
            match event {
                Some(EventView::Key(key)) => self.key_pressed(key),
                Some(EventView::Exit(status)) => self.exiting(status),
                Some(EventView::PowerCommand(_)) => self.power_running(),
                Some(EventView::Render) => self,
                None => self,
            }
        }
    }

    /// What the main loop does about an event. Once the exit status is set,
    /// it stops, whatever the event.
    pub open spec fn step_for(self, event: Option<EventView>) -> StepView {
        match self.exit {
            Some(status) => StepView::Stop(status),
            None => match event {
                Some(EventView::Key(key)) => StepView::Act(self.key_actions(key)),
                Some(EventView::Exit(status)) => StepView::Act(exit_actions(status)),
                Some(EventView::PowerCommand(command)) => StepView::RunPower(command),
                Some(EventView::Render) => StepView::Draw,
                None => StepView::Wait,
            },
        }
    }
}

/// The mathematical content of an event, if there is one.
pub open spec fn event_view(event: Option<Event>) -> Option<EventView> {
    match event {
        Some(event) => Some(event@),
        None => None,
    }
}

/// What an exit asks the surroundings to do: nothing after a success, else
/// to cancel the session.
pub open spec fn exit_actions(status: AuthStatus) -> Seq<ActionView> {
    match status {
        AuthStatus::Success => Seq::empty(),
        AuthStatus::Cancel | AuthStatus::Failure => seq![ActionView::Cancel],
    }
}

/// Begins the main loop: where the last user is remembered, a session is
/// requested for that user at once.
pub fn begin(greeter: &mut Greeter) -> (actions: Vec<Action>)
    ensures
        final(greeter)@ == old(greeter)@.begun(),
        actions.deep_view() == old(greeter)@.begin_actions(),
{
    proof {
        lemma_fields(*greeter);
    }
    let mut actions: Vec<Action> = Vec::new();
    if greeter.remember && greeter.username.value.as_str().unicode_len() > 0 {
        actions.push(Action::Send(Request::CreateSession { username: greeter.username.value.clone() }));
        assert(actions.deep_view() =~= old(greeter)@.begin_actions());
        greeter.set_working(true);
        actions
    } else {
        assert(actions.deep_view() =~= old(greeter)@.begin_actions());
        actions
    }
}

/// Prepares the exit of the application with the given status.
pub fn exit(greeter: &mut Greeter, status: AuthStatus) -> (actions: Vec<Action>)
    ensures
        final(greeter)@ == old(greeter)@.exiting(status),
        actions.deep_view() == exit_actions(status),
{
    greeter.set_exit(Some(status));
    let mut actions: Vec<Action> = Vec::new();
    match status {
        AuthStatus::Success => {},
        AuthStatus::Cancel | AuthStatus::Failure => {
            actions.push(Action::Cancel);
        },
    }
    assert(actions.deep_view() =~= exit_actions(status));
    actions
}

/// Takes in one event of the main loop, and says what the loop does next.
///
/// The exit status is looked at first: once it is set the loop stops, and
/// the event is not processed. `None` stands for a turn without an event.
pub fn step(greeter: &mut Greeter, event: Option<Event>) -> (r: Step)
    ensures
        final(greeter)@ == old(greeter)@.after_event(event_view(event)),
        r@ == old(greeter)@.step_for(event_view(event)),
{
    proof {
        lemma_fields(*greeter);
    }
    if let Some(status) = greeter.exit {
        return Step::Stop(status);
    }
    match event {
        Some(Event::Key(key)) => Step::Act(handle(greeter, key)),
        Some(Event::Exit(status)) => Step::Act(exit(greeter, status)),
        Some(Event::PowerCommand(command)) => {
            run(greeter);
            Step::RunPower(command)
        },
        Some(Event::Render) => Step::Draw,
        None => Step::Wait,
    }
}

} // verus!
