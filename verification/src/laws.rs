//! What holds of the state machine as a whole.

use vstd::prelude::*;

use crate::event::{sends, KeyCode, KeyEvent};
use crate::greeter::{GreeterView, Mode};
use crate::ipc::{
    abandon, lemma_working_after_response, ErrorType, IpcView, RequestView, ResponseView,
};
use crate::main_loop::{EventView, StepView};
use crate::power::power_actions;
use crate::sessions::{SessionSourceView, SessionView};

verus! {

/// A change of the text that is edited.
pub enum Edit {
    /// A character is typed.
    Insert(char),
    /// The character before the cursor is deleted.
    Backspace,
    /// The character after the cursor is deleted.
    Delete,
}

/// What a step of the queue of requests is.
pub enum QueueStep {
    /// A request is offered to the queue.
    Send(RequestView),
    /// The next request is asked for.
    Next,
}

impl GreeterView {
    /// The state after one edit.
    pub open spec fn edited(self, edit: Edit) -> GreeterView {
        match edit {
            Edit::Insert(c) => self.inserted(c),
            Edit::Backspace => self.deleted(false),
            Edit::Delete => self.deleted(true),
        }
    }

    /// The state after a sequence of edits.
    pub open spec fn edited_all(self, edits: Seq<Edit>) -> GreeterView
        decreases edits.len(),
    {
        if edits.len() == 0 {
            self
        } else {
            self.edited_all(edits.drop_last()).edited(edits.last())
        }
    }
}

impl IpcView {
    /// The queue after one step.
    pub open spec fn stepped(self, step: QueueStep) -> IpcView {
        match step {
            QueueStep::Send(request) => self.send(request),
            QueueStep::Next => self.next(),
        }
    }

    /// The queue after a sequence of steps.
    pub open spec fn stepped_all(self, steps: Seq<QueueStep>) -> IpcView
        decreases steps.len(),
    {
        if steps.len() == 0 {
            self
        } else {
            self.stepped_all(steps.drop_last()).stepped(steps.last())
        }
    }
}

/// Putting the cursor back within the text leaves it within the text.
pub proof fn lemma_clamped_in_range(g: GreeterView)
    ensures
        g.clamp_cursor().cursor_in_range(),
        g.clamp_cursor().mode == g.mode,
        g.clamp_cursor().active() == g.active(),
{
}

/// One edit in a mode with a text field leaves the cursor within the text,
/// and leaves the mode as it is.
pub proof fn lemma_edit_in_range(g: GreeterView, edit: Edit)
    requires
        g.mode.is_entry(),
    ensures
        g.edited(edit).cursor_in_range(),
        g.edited(edit).mode == g.mode,
{
    lemma_clamped_in_range(g);
    let c = g.clamp_cursor();
    match edit {
        Edit::Insert(ch) => {},
        Edit::Backspace => {},
        Edit::Delete => {},
    }
}

/// The cursor stays within the text: whatever the state of a mode with a
/// text field, and whatever characters are inserted and deleted in whatever
/// order, after each of these edits the offset of the cursor is between the
/// negated length of the text and zero.
pub proof fn law_cursor_within_text(g: GreeterView, edits: Seq<Edit>)
    requires
        g.mode.is_entry(),
    ensures
        forall|n: int|
            1 <= n <= edits.len() ==> (#[trigger] g.edited_all(edits.take(n))).cursor_in_range(),
        g.edited_all(edits).mode == g.mode,
    decreases edits.len(),
{
    if edits.len() > 0 {
        let before = edits.drop_last();
        law_cursor_within_text(g, before);
        lemma_edit_in_range(g.edited_all(before), edits.last());
        assert forall|n: int| 1 <= n <= edits.len() implies (#[trigger] g.edited_all(
            edits.take(n),
        )).cursor_in_range() by {
            if n == edits.len() {
                assert(edits.take(n) == edits);
            } else {
                assert(edits.take(n) == before.take(n));
            }
        }
    }
}

/// Every key press leaves the cursor within the text that is edited, and so
/// does every response of the daemon.
pub proof fn law_cursor_within_text_always(g: GreeterView, key: KeyEvent, response: ResponseView)
    ensures
        g.key_pressed(key).cursor_in_range(),
        g.respond(response).cursor_in_range(),
{
    lemma_clamped_in_range(g.key_effect(key));
    lemma_clamped_in_range(g.response_effect(response));
}

/// A request that the user makes is awaited from the moment it is queued:
/// a key press that queues a request leaves `working` set, and while it is
/// set, no key press clears it but the one that abandons the login.
pub proof fn law_working_until_answered(g: GreeterView, key: KeyEvent)
    ensures
        sends(g.key_actions(key)) ==> g.key_pressed(key).working,
        g.working && g.key_actions(key) != abandon() ==> g.key_pressed(key).working,
{
    let actions = g.key_actions(key);
    if sends(actions) {
        lemma_key_sends(g, key);
    }
    if g.working && actions != abandon() {
        lemma_key_keeps_working(g, key);
    }
}

/// A request is awaited until its response is dispatched, and no longer:
/// the dispatch of a response begins by clearing `working`, and leaves it
/// set exactly where the response has a request queued in its turn.
pub proof fn law_working_after_response(g: GreeterView, response: ResponseView)
    ensures
        (GreeterView { working: false, ..g }).respond(response).working == sends(
            (GreeterView { working: false, ..g }).respond_actions(response),
        ),
        sends(g.respond_actions(response)) ==> g.respond(response).working,
{
    lemma_working_after_response(GreeterView { working: false, ..g }, response);
    lemma_working_after_response(g, response);
}

/// The request that is queued when the main loop begins is awaited.
pub proof fn law_working_from_the_beginning(g: GreeterView)
    ensures
        sends(g.begin_actions()) ==> g.begun().working,
{
    if sends(g.begin_actions()) {
        let begun = g.begin_actions();
        let i = choose|i: int| 0 <= i < begun.len() && #[trigger] begun[i] is Send;
        assert(begun[i] is Send);
    }
}

/// A power action queues no request.
proof fn lemma_power_sends_nothing(g: GreeterView)
    ensures
        !sends(g.power_picked_actions()),
{
    if g.powers.selected < g.powers.options.len() {
        let option = g.powers.options[g.powers.selected as int].action;
        let actions = power_actions(g, option);
        assert forall|i: int| 0 <= i < actions.len() implies !(#[trigger] actions[i] is Send) by {}
    }
}

/// Escape queues no request.
proof fn lemma_escape_sends_nothing(g: GreeterView)
    ensures
        !sends(g.escape_actions()),
{
    let actions = g.escape_actions();
    assert forall|i: int| 0 <= i < actions.len() implies !(#[trigger] actions[i] is Send) by {}
}

/// Enter leaves `working` set where it queues a request.
proof fn lemma_enter_sends(g: GreeterView)
    requires
        sends(g.enter_actions()),
    ensures
        g.entered().working,
{
    match g.mode {
        Mode::Username => {},
        Mode::Password => {},
        Mode::Users => {},
        Mode::Power => {
            lemma_power_sends_nothing(g);
        },
        _ => {},
    }
}

/// Only enter and tab queue a request.
proof fn lemma_keys_that_send(g: GreeterView, key: KeyEvent)
    requires
        sends(g.key_actions(key)),
    ensures
        g.mode != Mode::Processing,
        key.code == KeyCode::Enter || key.code == KeyCode::Tab,
        key.code == KeyCode::Enter ==> sends(g.enter_actions()),
        key.code == KeyCode::Tab ==> g.tab_submits(),
{
    let actions = g.key_actions(key);
    let i = choose|i: int| 0 <= i < actions.len() && #[trigger] actions[i] is Send;
    assert(actions[i] is Send);
    if key.code == KeyCode::Esc {
        lemma_escape_sends_nothing(g);
    }
}

/// What enter and tab do to the state.
proof fn lemma_enter_and_tab(g: GreeterView, key: KeyEvent)
    requires
        g.mode != Mode::Processing,
    ensures
        key.code == KeyCode::Enter ==> g.key_pressed(key).working == g.entered().working,
        key.code == KeyCode::Tab ==> g.key_pressed(key).working == g.tab_pressed().working,
{
}

/// A key press that queues a request leaves `working` set.
proof fn lemma_key_sends(g: GreeterView, key: KeyEvent)
    requires
        sends(g.key_actions(key)),
    ensures
        g.key_pressed(key).working,
{
    lemma_keys_that_send(g, key);
    lemma_enter_and_tab(g, key);
    if key.code == KeyCode::Enter {
        lemma_enter_sends(g);
    }
}

/// While a response is awaited, no key press but the one that abandons the
/// login clears `working`.
proof fn lemma_key_keeps_working(g: GreeterView, key: KeyEvent)
    requires
        g.working,
        g.key_actions(key) != abandon(),
    ensures
        g.key_pressed(key).working,
{
    if g.mode != Mode::Processing {
        match key.code {
            KeyCode::Esc => {
                if !g.mode.is_popup() {
                    assert(g.key_actions(key) == abandon());
                }
            },
            _ => {},
        }
    }
}

/// While a response is awaited no request leaves the queue: whatever
/// requests are offered and however often the next one is asked for, the
/// queue still awaits the response and still begins with the requests that
/// it held.
pub proof fn law_one_request_at_a_time(ipc: IpcView, steps: Seq<QueueStep>)
    requires
        ipc.pending,
    ensures
        ipc.stepped_all(steps).pending,
        ipc.queue.is_prefix_of(ipc.stepped_all(steps).queue),
    decreases steps.len(),
{
    if steps.len() > 0 {
        law_one_request_at_a_time(ipc, steps.drop_last());
    }
}

/// The queue stays within its capacity, whatever is done with it.
pub proof fn law_queue_is_bounded(ipc: IpcView, steps: Seq<QueueStep>)
    requires
        ipc.within_capacity(),
    ensures
        ipc.stepped_all(steps).within_capacity(),
        ipc.stepped_all(steps).answered().within_capacity(),
    decreases steps.len(),
{
    if steps.len() > 0 {
        law_queue_is_bounded(ipc, steps.drop_last());
    }
}

/// A request that is handed out is awaited, and is the oldest of the queue.
pub proof fn law_requests_in_order(ipc: IpcView)
    requires
        ipc.ready(),
    ensures
        ipc.next().pending,
        ipc.next().queue == ipc.queue.drop_first(),
        !ipc.next().ready(),
{
}

/// The exit status is final: once it is set, the main loop stops at every
/// turn, and no event changes the state.
pub proof fn law_exit_is_final(g: GreeterView, event: Option<EventView>)
    requires
        g.exit is Some,
    ensures
        g.after_event(event) == g,
        g.step_for(event) == StepView::Stop(g.exit->0),
{
}

/// An event that the main loop only draws or waits on changes nothing.
pub proof fn law_render_reads_only(g: GreeterView)
    ensures
        g.after_event(Some(EventView::Render)) == g,
        g.after_event(None) == g,
{
}

/// A failed authentication resets softly: the username is kept and the
/// buffer is empty. Any other failure of the daemon resets hard: the
/// username is empty.
pub proof fn law_soft_and_hard_reset(g: GreeterView, description: Seq<char>)
    ensures
        g.respond(
            ResponseView::Error { error_type: ErrorType::AuthError, description },
        ).username == g.username,
        g.respond(ResponseView::Error { error_type: ErrorType::AuthError, description }).buffer
            == Seq::<char>::empty(),
        g.respond(ResponseView::Error { error_type: ErrorType::AuthError, description }).mode
            == Mode::Password,
        g.respond(
            ResponseView::Error { error_type: ErrorType::Error, description },
        ).username.value == Seq::<char>::empty(),
        g.respond(ResponseView::Error { error_type: ErrorType::Error, description }).mode
            == Mode::Username,
{
}

/// What the daemon says about a failure is never shown, and changes
/// nothing: two failures of the same kind have the same effect.
pub proof fn law_failure_text_is_dropped(
    g: GreeterView,
    error_type: ErrorType,
    first: Seq<char>,
    second: Seq<char>,
)
    ensures
        g.respond(ResponseView::Error { error_type, description: first }) == g.respond(
            ResponseView::Error { error_type, description: second },
        ),
        g.respond_actions(ResponseView::Error { error_type, description: first })
            == g.respond_actions(ResponseView::Error { error_type, description: second }),
{
}

/// A free-form command resolves to itself, as the command to run and as its
/// label, whatever sessions there are.
pub proof fn law_command_resolves_to_itself(command: Seq<char>, sessions: Seq<SessionView>)
    ensures
        SessionSourceView::Command(command).command(sessions) == Some(command),
        SessionSourceView::Command(command).label(sessions) == Some(command),
{
}

} // verus!
