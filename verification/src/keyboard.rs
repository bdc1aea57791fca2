//! What each key press does to the application.

use vstd::prelude::*;
use vstd::string::*;

use crate::event::{Action, ActionView, KeyCode, KeyEvent};
use crate::greeter::{
    clamp_offset, content, lemma_fields, lemma_menus, line_start, Greeter, GreeterView, Mode,
};
use crate::ipc::{abandon, cancel_and_connect, nothing, Request, RequestView};
use crate::masked::{MaskedString, MaskedStringView};
use crate::menu::MenuView;
use crate::power::{power, power_actions};
use crate::sessions::{find_path, has_path, SessionSource, SessionSourceView};
use crate::text::{
    clone_option, insert_at, remove_at, spec_insert_at, spec_remove_at, spec_trim, trim,
};

verus! {

/// The text, or the empty text where there is none.
pub open spec fn or_empty(text: Option<Seq<char>>) -> Seq<char> {
    match text {
        Some(text) => text,
        None => Seq::empty(),
    }
}

impl GreeterView {
    /// The state with `text` in place of the text that is edited.
    pub open spec fn with_active(self, text: Seq<char>) -> GreeterView {
        if self.mode == Mode::Username {
            GreeterView { username: MaskedStringView { value: text, ..self.username }, ..self }
        } else {
            GreeterView { buffer: text, ..self }
        }
    }

    /// The state after the character `c` was typed: in a mode with a text
    /// field, the cursor is first put back within the text, then the
    /// character is inserted before the cursor. In any other mode nothing
    /// changes.
    pub open spec fn inserted(self, c: char) -> GreeterView {
        if self.mode.is_entry() {
            let g = self.clamp_cursor();
            g.with_active(spec_insert_at(g.active(), g.cursor_index(), c))
        } else {
            self
        }
    }

    /// The state without the character at position `index` of the text that
    /// is edited. The characters after the cursor stay after it: the cursor
    /// moves towards the end by `forward` characters.
    pub open spec fn removed(self, index: int, forward: int) -> GreeterView {
        (GreeterView { cursor_offset: (self.cursor_offset + forward) as i16, ..self }).with_active(
            spec_remove_at(self.active(), index),
        )
    }

    /// The state after a character was deleted: in a mode with a text field,
    /// the cursor is first put back within the text; then the character
    /// before the cursor is removed or, if `forward` is true, the character
    /// after it, in which case the cursor stays before what followed.
    /// Nothing changes where there is no such character, and in any other
    /// mode.
    pub open spec fn deleted(self, forward: bool) -> GreeterView {
        if self.mode.is_entry() {
            let g = self.clamp_cursor();
            if forward {
                if g.cursor_index() < g.active().len() {
                    g.removed(g.cursor_index(), 1)
                } else {
                    g
                }
            } else {
                if g.cursor_index() > 0 {
                    g.removed(g.cursor_index() - 1, 0)
                } else {
                    g
                }
            }
        } else {
            self
        }
    }

    /// The state after a deletion key was pressed: with control held down
    /// nothing changes.
    pub open spec fn delete_pressed(self, forward: bool, control: bool) -> GreeterView {
        if control {
            self
        } else {
            self.deleted(forward)
        }
    }

    /// The state after a character key was pressed. With control held down,
    /// `u` erases the line, `a` moves the cursor to the start, `e` moves it
    /// to the end, and any other character does nothing. Without, the
    /// character is typed.
    pub open spec fn character_pressed(self, c: char, control: bool) -> GreeterView {
        if control {
            if c == 'u' {
                self.erased()
            } else if c == 'a' {
                self.cursor_at_start()
            } else if c == 'e' {
                self.cursor_at_end()
            } else {
                self
            }
        } else {
            self.inserted(c)
        }
    }

    /// The state after the command screen was left without a commit.
    pub open spec fn command_closed(self) -> GreeterView {
        GreeterView {
            mode: self.previous_mode,
            buffer: or_empty(self.previous_buffer),
            previous_buffer: None,
            cursor_offset: 0,
            ..self
        }
    }

    /// The state after tab was pressed: it submits the username like enter
    /// does.
    pub open spec fn tab_pressed(self) -> GreeterView {
        if self.tab_submits() {
            self.submitted()
        } else {
            self
        }
    }

    /// What tab asks the surroundings to do.
    pub open spec fn tab_actions(self) -> Seq<ActionView> {
        if self.tab_submits() {
            self.validate_actions()
        } else {
            Seq::empty()
        }
    }

    /// The state with the highlighted user, if any, as the username, and the
    /// user menu left for the previous mode.
    pub open spec fn user_taken(self) -> GreeterView {
        let username = if self.users.selected < self.users.options.len() {
            let user = self.users.options[self.users.selected as int];
            MaskedStringView { value: user.username, mask: user.name }
        } else {
            self.username
        };
        GreeterView { username, mode: self.previous_mode, ..self }
    }

    /// The state after the line was erased: the username, with its mask, in
    /// `Username` mode; the buffer in `Password` and `Command` mode.
    pub open spec fn erased(self) -> GreeterView {
        match self.mode {
            Mode::Username => GreeterView { username: MaskedStringView::empty(), ..self },
            Mode::Password | Mode::Command => GreeterView { buffer: Seq::empty(), ..self },
            _ => self,
        }
    }

    /// The state after escape was pressed: the command screen is left for
    /// the previous mode and the buffer that it took over is restored; a
    /// menu is left for the previous mode; anywhere else the login is
    /// abandoned and the state reset, username included.
    pub open spec fn escaped(self) -> GreeterView {
        match self.mode {
            Mode::Command => self.command_closed(),
            Mode::Users | Mode::Sessions | Mode::Power => self.menu_closed(),
            _ => self.reset(false),
        }
    }

    /// What escape asks the surroundings to do: nothing in a popup; anywhere
    /// else, to cancel the session and to open a new connection.
    pub open spec fn escape_actions(self) -> Seq<ActionView> {
        if self.mode.is_popup() {
            Seq::empty()
        } else {
            abandon()
        }
    }

    /// The state after the cursor was moved by `by` characters, as far as
    /// the text reaches.
    pub open spec fn moved(self, by: int) -> GreeterView {
        GreeterView {
            cursor_offset: clamp_offset(self.cursor_offset + by, self.active().len()) as i16,
            ..self
        }
    }

    /// The state with the cursor at the start of the text.
    pub open spec fn cursor_at_start(self) -> GreeterView {
        GreeterView { cursor_offset: line_start(self.active().len()) as i16, ..self }
    }

    /// The state with the cursor at the end of the text.
    pub open spec fn cursor_at_end(self) -> GreeterView {
        GreeterView { cursor_offset: 0, ..self }
    }

    /// The mode to which a popup that is opened now returns: the current
    /// mode or, if that is a popup itself, the mode to which it returns.
    pub open spec fn popup_origin(self) -> Mode {
        if self.mode.is_popup() {
            self.previous_mode
        } else {
            self.mode
        }
    }

    /// The state after the command screen was opened: the buffer is saved
    /// and replaced by the command that the selection resolves to.
    pub open spec fn command_opened(self) -> GreeterView {
        GreeterView {
            previous_mode: self.popup_origin(),
            previous_buffer: Some(self.buffer),
            buffer: or_empty(self.session_source.command(self.sessions.options)),
            cursor_offset: 0,
            mode: Mode::Command,
            ..self
        }
    }

    /// The state after a menu was opened.
    pub open spec fn menu_opened(self, menu: Mode) -> GreeterView {
        GreeterView { previous_mode: self.popup_origin(), mode: menu, ..self }
    }

    /// The state after the user menu was opened from the username prompt:
    /// the buffer is saved as well.
    pub open spec fn users_opened(self) -> GreeterView {
        GreeterView {
            previous_mode: self.popup_origin(),
            previous_buffer: Some(self.buffer),
            mode: Mode::Users,
            ..self
        }
    }

    /// The state after the highlight of the user menu was moved.
    pub open spec fn users_moved(self, down: bool) -> GreeterView {
        GreeterView { users: self.users.moved(down), ..self }
    }

    /// The state after the highlight of the session menu was moved.
    pub open spec fn sessions_moved(self, down: bool) -> GreeterView {
        GreeterView { sessions: self.sessions.moved(down), ..self }
    }

    /// The state after the highlight of the power menu was moved.
    pub open spec fn powers_moved(self, down: bool) -> GreeterView {
        GreeterView { powers: self.powers.moved(down), ..self }
    }

    /// The state after the highlight of the current menu was moved by one
    /// entry, as far as the menu reaches.
    pub open spec fn highlight_moved(self, down: bool) -> GreeterView {
        match self.mode {
            Mode::Users => self.users_moved(down),
            Mode::Sessions => self.sessions_moved(down),
            Mode::Power => self.powers_moved(down),
            _ => self,
        }
    }

    /// The state after a request was made on behalf of the user: a response
    /// is awaited, and message and buffer are erased.
    pub open spec fn submitted(self) -> GreeterView {
        GreeterView { working: true, message: None, buffer: Seq::empty(), ..self }
    }

    /// What the validation of the username asks the surroundings to do: to
    /// request a session for the user and, where the last session of each
    /// user is remembered, to look that session up.
    pub open spec fn validate_actions(self) -> Seq<ActionView> {
        let create = ActionView::Send(RequestView::CreateSession { username: self.username.value });
        if self.remember_user_session {
            seq![create, ActionView::LoadUserSession { username: self.username.value }]
        } else {
            seq![create]
        }
    }

    /// The request that answers the question of the daemon with the buffer.
    pub open spec fn answer_actions(self) -> Seq<ActionView> {
        seq![ActionView::Send(RequestView::PostAuthMessageResponse { response: Some(self.buffer) })]
    }

    /// The state after the command screen was confirmed: the buffer becomes
    /// the command to launch, and the buffer that the screen took over is
    /// restored.
    pub open spec fn command_committed(self) -> GreeterView {
        GreeterView {
            sessions: MenuView { selected: 0, ..self.sessions },
            session_source: SessionSourceView::Command(self.buffer),
            buffer: or_empty(self.previous_buffer),
            previous_buffer: None,
            mode: self.previous_mode,
            ..self
        }
    }

    /// The state after the user menu was confirmed: the highlighted user, if
    /// any, becomes the username, the menu is left, and the username is
    /// submitted.
    pub open spec fn user_picked(self) -> GreeterView {
        self.user_taken().submitted()
    }

    /// The state after the session menu was confirmed: the highlighted
    /// session, if any, becomes the selection, and the menu is left.
    pub open spec fn session_picked(self) -> GreeterView {
        GreeterView {
            session_source: if self.sessions.selected < self.sessions.options.len() {
                SessionSourceView::Session(self.sessions.selected)
            } else {
                self.session_source
            },
            mode: self.previous_mode,
            ..self
        }
    }

    /// The state after a menu was left for the previous mode.
    pub open spec fn menu_closed(self) -> GreeterView {
        GreeterView { mode: self.previous_mode, ..self }
    }

    /// What the confirmation of the power menu asks the surroundings to do:
    /// to run the command for the highlighted action, if any.
    pub open spec fn power_picked_actions(self) -> Seq<ActionView> {
        if self.powers.selected < self.powers.options.len() {
            power_actions(self, self.powers.options[self.powers.selected as int].action)
        } else {
            Seq::empty()
        }
    }

    /// The state after enter was pressed.
    ///
    /// At the username prompt a username is submitted; without a username
    /// the user menu is opened, if it is enabled. At the password prompt
    /// the answer is submitted. The command screen and the menus commit what
    /// they hold and return to the previous mode.
    pub open spec fn entered(self) -> GreeterView {
        match self.mode {
            Mode::Username => if self.username.value.len() > 0 {
                self.submitted()
            } else if self.user_menu {
                self.users_opened()
            } else {
                self
            },
            Mode::Password => self.submitted(),
            Mode::Command => self.command_committed(),
            Mode::Users => self.user_picked(),
            Mode::Sessions => self.session_picked(),
            Mode::Power => self.menu_closed(),
            Mode::Action | Mode::Processing => self,
        }
    }

    /// What enter asks the surroundings to do.
    pub open spec fn enter_actions(self) -> Seq<ActionView> {
        match self.mode {
            Mode::Username => if self.username.value.len() > 0 {
                self.validate_actions()
            } else {
                Seq::empty()
            },
            Mode::Password => self.answer_actions(),
            Mode::Users => self.user_picked().validate_actions(),
            Mode::Power => self.power_picked_actions(),
            Mode::Command | Mode::Sessions | Mode::Action | Mode::Processing => Seq::empty(),
        }
    }

    /// The state after a function key was pressed: the keys that are bound
    /// to the command screen, the session menu and the power menu open them.
    pub open spec fn function_key(self, number: u8) -> GreeterView {
        if number == self.kb_command {
            self.command_opened()
        } else if number == self.kb_sessions {
            self.menu_opened(Mode::Sessions)
        } else if number == self.kb_power {
            self.menu_opened(Mode::Power)
        } else {
            self
        }
    }

    /// Whether tab submits the username: at the username prompt, with a
    /// username.
    pub open spec fn tab_submits(self) -> bool {
        self.mode == Mode::Username && self.username.value.len() > 0
    }

    /// The state after a key press, before the cursor is put back within
    /// the text. While a session is being started or a power command is
    /// running, the keyboard is ignored.
    pub open spec fn key_effect(self, key: KeyEvent) -> GreeterView {
        if self.mode == Mode::Processing {
            self
        } else {
            match key.code {
                KeyCode::Char(c) => self.character_pressed(c, key.modifiers.is_control()),
                KeyCode::Esc => self.escaped(),
                KeyCode::Left => self.moved(-1),
                KeyCode::Right => self.moved(1),
                KeyCode::F(number) => self.function_key(number),
                KeyCode::Up => self.highlight_moved(false),
                KeyCode::Down => self.highlight_moved(true),
                KeyCode::Tab => self.tab_pressed(),
                KeyCode::Enter => self.entered(),
                KeyCode::Backspace => self.delete_pressed(false, key.modifiers.is_control()),
                KeyCode::Delete => self.delete_pressed(true, key.modifiers.is_control()),
                KeyCode::Other => self,
            }
        }
    }

    /// The state after a key press.
    pub open spec fn key_pressed(self, key: KeyEvent) -> GreeterView {
        self.key_effect(key).clamp_cursor()
    }

    /// What a key press asks the surroundings to do.
    pub open spec fn key_actions(self, key: KeyEvent) -> Seq<ActionView> {
        if self.mode == Mode::Processing {
            Seq::empty()
        } else {
            match key.code {
                KeyCode::Esc => self.escape_actions(),
                KeyCode::Tab => self.tab_actions(),
                KeyCode::Enter => self.enter_actions(),
                _ => Seq::empty(),
            }
        }
    }

    /// The state after the session that the user launched last was looked
    /// up. `session_path` and `command` are what was written down, if
    /// anything; white space around them does not count. A session file
    /// that is still in the list is selected; a command is selected in any
    /// case, and wins over the session file.
    pub open spec fn user_session_restored(
        self,
        session_path: Option<Seq<char>>,
        command: Option<Seq<char>>,
    ) -> GreeterView {
        let with_session = match session_path {
            Some(path) => self.session_selected_by_path(spec_trim(path)),
            None => self,
        };
        match command {
            Some(command) => GreeterView {
                session_source: SessionSourceView::Command(spec_trim(command)),
                ..with_session
            },
            None => with_session,
        }
    }

    /// Whether `index` is the position of the first session whose session
    /// file is at `path`.
    pub open spec fn is_first_with_path(self, index: int, path: Seq<char>) -> bool {
        &&& 0 <= index < self.sessions.options.len()
        &&& has_path(self.sessions.options[index], path)
        &&& forall|j: int| 0 <= j < index ==> !has_path(#[trigger] self.sessions.options[j], path)
    }

    /// The state after the first session whose session file is at `path`
    /// was highlighted and selected; the same state if there is no such
    /// session.
    pub open spec fn session_selected_by_path(self, path: Seq<char>) -> GreeterView {
        if exists|i: int| self.is_first_with_path(i, path) {
            let index = choose|i: int| self.is_first_with_path(i, path);
            GreeterView {
                sessions: MenuView { selected: index as usize, ..self.sessions },
                session_source: SessionSourceView::Session(index as usize),
                ..self
            }
        } else {
            self
        }
    }
}

/// Replaces the text that is edited.
fn set_active(greeter: &mut Greeter, text: String)
    ensures
        final(greeter)@ == old(greeter)@.with_active(text@),
{
    proof {
        lemma_fields(*greeter);
    }
    match greeter.mode {
        Mode::Username => greeter.set_username_value(text),
        _ => greeter.set_buffer(text),
    }
}

/// The text that is edited.
fn active(greeter: &Greeter) -> (r: &str)
    ensures
        r@ == greeter@.active(),
{
    proof {
        lemma_fields(*greeter);
    }
    match greeter.mode {
        Mode::Username => greeter.username.value.as_str(),
        _ => greeter.buffer.as_str(),
    }
}

/// The length of the text that is edited and the position of the cursor in
/// it, counted from the start.
fn cursor_position(greeter: &Greeter) -> (r: (usize, usize))
    requires
        greeter@.cursor_in_range(),
    ensures
        r.0 == greeter@.active().len(),
        r.1 == greeter@.cursor_index(),
{
    proof {
        lemma_fields(*greeter);
    }
    let len = greeter.active_len();
    let back = (-(greeter.cursor_offset as i32)) as usize;
    (len, len - back)
}

/// Whether the mode has a text field that the keyboard edits.
fn is_entry(greeter: &Greeter) -> (r: bool)
    ensures
        r == greeter@.mode.is_entry(),
{
    proof {
        lemma_fields(*greeter);
    }
    match greeter.mode {
        Mode::Username | Mode::Password | Mode::Command => true,
        _ => false,
    }
}

/// Inserts a character into the text that is edited, before the cursor.
///
/// The cursor is counted from the end of the text: it stays where it is,
/// after the new character, and is within the text afterwards.
pub fn insert_key(greeter: &mut Greeter, c: char)
    ensures
        final(greeter)@ == old(greeter)@.inserted(c),
        old(greeter)@.mode.is_entry() ==> final(greeter)@.cursor_in_range(),
{
    if !is_entry(greeter) {
        return ;
    }
    greeter.clamp_cursor();
    let (_, index) = cursor_position(greeter);
    let text = insert_at(active(greeter), index, c);
    set_active(greeter, text);
}

/// Deletes a character from the text that is edited: backspace deletes the
/// character before the cursor, delete the character after it. Any other
/// key changes nothing.
///
/// The cursor is within the text afterwards.
pub fn delete_key(greeter: &mut Greeter, key: KeyCode)
    ensures
        final(greeter)@ == match key {
            KeyCode::Backspace => old(greeter)@.deleted(false),
            KeyCode::Delete => old(greeter)@.deleted(true),
            _ => old(greeter)@,
        },
        (key == KeyCode::Backspace || key == KeyCode::Delete) && old(greeter)@.mode.is_entry()
            ==> final(greeter)@.cursor_in_range(),
{
    match key {
        KeyCode::Backspace => delete(greeter, false),
        KeyCode::Delete => delete(greeter, true),
        _ => {},
    }
}

/// Removes the character at position `index` of the text that is edited.
fn remove_active(greeter: &mut Greeter, index: usize, forward: bool)
    requires
        index < old(greeter)@.active().len(),
        forward ==> old(greeter)@.cursor_offset < 0,
    ensures
        final(greeter)@ == old(greeter)@.removed(
            index as int,
            if forward {
                1
            } else {
                0
            },
        ),
{
    proof {
        lemma_fields(*greeter);
    }
    let text = remove_at(active(greeter), index);
    let cursor = if forward {
        greeter.cursor_offset + 1
    } else {
        greeter.cursor_offset
    };
    greeter.set_cursor(cursor);
    set_active(greeter, text);
}

/// Deletes the character before the cursor or, if `forward` is true, the
/// character after it.
fn delete(greeter: &mut Greeter, forward: bool)
    ensures
        final(greeter)@ == old(greeter)@.deleted(forward),
        old(greeter)@.mode.is_entry() ==> final(greeter)@.cursor_in_range(),
{
    if !is_entry(greeter) {
        return ;
    }
    greeter.clamp_cursor();
    let (len, position) = cursor_position(greeter);
    if forward {
        if position < len {
            remove_active(greeter, position, true);
        }
    } else {
        if position > 0 {
            remove_active(greeter, position - 1, false);
        }
    }
}

/// Acts on a deletion key.
fn delete_pressed(greeter: &mut Greeter, forward: bool, control: bool)
    ensures
        final(greeter)@ == old(greeter)@.delete_pressed(forward, control),
{
    if !control {
        delete(greeter, forward);
    }
}

/// Erases the line that is edited.
fn erase(greeter: &mut Greeter)
    ensures
        final(greeter)@ == old(greeter)@.erased(),
{
    proof {
        lemma_fields(*greeter);
    }
    match greeter.mode {
        Mode::Username => greeter.set_username(MaskedString::default()),
        Mode::Password | Mode::Command => greeter.set_buffer(String::new()),
        _ => {},
    }
}

/// The text, or the empty text where there is none.
fn text_or_empty(text: &Option<String>) -> (r: String)
    ensures
        r@ == or_empty(text.deep_view()),
{
    match text {
        Some(text) => text.clone(),
        None => String::new(),
    }
}

/// Leaves the command screen without committing it.
fn close_command(greeter: &mut Greeter)
    ensures
        final(greeter)@ == old(greeter)@.command_closed(),
{
    proof {
        lemma_fields(*greeter);
    }
    let buffer = text_or_empty(&greeter.previous_buffer);
    greeter.set_mode(greeter.previous_mode);
    greeter.set_buffer(buffer);
    greeter.set_previous_buffer(None);
    greeter.set_cursor(0);
}

/// Leaves a menu for the previous mode.
fn close_menu(greeter: &mut Greeter)
    ensures
        final(greeter)@ == old(greeter)@.menu_closed(),
{
    proof {
        lemma_fields(*greeter);
    }
    greeter.set_mode(greeter.previous_mode);
}

/// Acts on escape: closes a popup, or abandons the login.
fn escape(greeter: &mut Greeter) -> (actions: Vec<Action>)
    ensures
        final(greeter)@ == old(greeter)@.escaped(),
        actions.deep_view() == old(greeter)@.escape_actions(),
{
    proof {
        lemma_fields(*greeter);
    }
    match greeter.mode {
        Mode::Command => {
            close_command(greeter);
            nothing()
        },
        Mode::Users | Mode::Sessions | Mode::Power => {
            close_menu(greeter);
            nothing()
        },
        _ => {
            greeter.reset(false);
            cancel_and_connect()
        },
    }
}

/// Moves the cursor by one character, to the left if `left` is true, as far
/// as the text reaches.
fn move_cursor(greeter: &mut Greeter, left: bool)
    ensures
        final(greeter)@ == old(greeter)@.moved(
            if left {
                -1
            } else {
                1
            },
        ),
{
    proof {
        lemma_fields(*greeter);
    }
    let len = greeter.active_len();
    let target: i32 = if left {
        greeter.cursor_offset as i32 - 1
    } else {
        greeter.cursor_offset as i32 + 1
    };
    let offset = if target > 0 {
        0
    } else if len < 32768 && target < -(len as i32) {
        -(len as i16)
    } else if target < -32768 {
        -32768
    } else {
        target as i16
    };
    greeter.set_cursor(offset);
}

/// Puts the cursor at the start of the text.
fn cursor_to_start(greeter: &mut Greeter)
    ensures
        final(greeter)@ == old(greeter)@.cursor_at_start(),
{
    let len = greeter.active_len();
    let offset = if len < 32768 {
        -(len as i16)
    } else {
        -32768
    };
    greeter.set_cursor(offset);
}

/// Puts the cursor at the end of the text.
fn cursor_to_end(greeter: &mut Greeter)
    ensures
        final(greeter)@ == old(greeter)@.cursor_at_end(),
{
    greeter.set_cursor(0);
}

/// The mode to which a popup that is opened now returns.
fn popup_origin(greeter: &Greeter) -> (r: Mode)
    ensures
        r == greeter@.popup_origin(),
{
    proof {
        lemma_fields(*greeter);
    }
    if greeter.mode.popup() {
        greeter.previous_mode
    } else {
        greeter.mode
    }
}

/// The command that the selection resolves to, or the empty text.
fn current_command(greeter: &Greeter) -> (r: String)
    ensures
        r@ == or_empty(greeter@.session_source.command(greeter@.sessions.options)),
{
    proof {
        lemma_fields(*greeter);
    }
    match greeter.session_source.command(greeter) {
        Some(command) => String::from_str(command),
        None => String::new(),
    }
}

/// Opens the command screen.
fn open_command(greeter: &mut Greeter)
    ensures
        final(greeter)@ == old(greeter)@.command_opened(),
{
    proof {
        lemma_fields(*greeter);
    }
    let command = current_command(greeter);
    let origin = popup_origin(greeter);
    let saved = greeter.buffer.clone();
    greeter.set_previous_mode(origin);
    greeter.set_previous_buffer(Some(saved));
    greeter.set_buffer(command);
    greeter.set_cursor(0);
    greeter.set_mode(Mode::Command);
}

/// Opens a menu.
fn open_menu(greeter: &mut Greeter, menu: Mode)
    ensures
        final(greeter)@ == old(greeter)@.menu_opened(menu),
{
    let origin = popup_origin(greeter);
    greeter.set_previous_mode(origin);
    greeter.set_mode(menu);
}

/// Opens the user menu from the username prompt.
fn open_users(greeter: &mut Greeter)
    ensures
        final(greeter)@ == old(greeter)@.users_opened(),
{
    proof {
        lemma_fields(*greeter);
    }
    let origin = popup_origin(greeter);
    let saved = greeter.buffer.clone();
    greeter.set_previous_mode(origin);
    greeter.set_previous_buffer(Some(saved));
    greeter.set_mode(Mode::Users);
}

/// Acts on a function key.
fn function_key(greeter: &mut Greeter, number: u8)
    ensures
        final(greeter)@ == old(greeter)@.function_key(number),
{
    proof {
        lemma_fields(*greeter);
    }
    if number == greeter.kb_command {
        open_command(greeter);
    } else if number == greeter.kb_sessions {
        open_menu(greeter, Mode::Sessions);
    } else if number == greeter.kb_power {
        open_menu(greeter, Mode::Power);
    }
}

/// Moves the highlight of the user menu.
fn move_users(greeter: &mut Greeter, down: bool)
    ensures
        final(greeter)@ == old(greeter)@.users_moved(down),
{
    proof {
        reveal(content);
    }
    greeter.users.step(down);
}

/// Moves the highlight of the session menu.
fn move_sessions(greeter: &mut Greeter, down: bool)
    ensures
        final(greeter)@ == old(greeter)@.sessions_moved(down),
{
    proof {
        reveal(content);
    }
    greeter.sessions.step(down);
}

/// Moves the highlight of the power menu.
fn move_powers(greeter: &mut Greeter, down: bool)
    ensures
        final(greeter)@ == old(greeter)@.powers_moved(down),
{
    proof {
        reveal(content);
    }
    greeter.powers.step(down);
}

/// Moves the highlight of the current menu by one entry.
fn move_highlight(greeter: &mut Greeter, down: bool)
    ensures
        final(greeter)@ == old(greeter)@.highlight_moved(down),
{
    proof {
        lemma_fields(*greeter);
    }
    match greeter.mode {
        Mode::Users => move_users(greeter, down),
        Mode::Sessions => move_sessions(greeter, down),
        Mode::Power => move_powers(greeter, down),
        _ => {},
    }
}

/// Marks that a request was made on behalf of the user.
fn submit(greeter: &mut Greeter)
    ensures
        final(greeter)@ == old(greeter)@.submitted(),
{
    greeter.set_working(true);
    greeter.set_message(None);
    greeter.set_buffer(String::new());
}

/// The actions that request a session for the username.
fn validation(greeter: &Greeter) -> (actions: Vec<Action>)
    ensures
        actions.deep_view() == greeter@.validate_actions(),
{
    proof {
        lemma_fields(*greeter);
    }
    let mut actions: Vec<Action> = Vec::new();
    actions.push(Action::Send(Request::CreateSession { username: greeter.username.value.clone() }));
    if greeter.remember_user_session {
        actions.push(Action::LoadUserSession { username: greeter.username.value.clone() });
    }
    assert(actions.deep_view() =~= greeter@.validate_actions());
    actions
}

/// Requests a session from the daemon for the username that was entered.
pub fn validate_username(greeter: &mut Greeter) -> (actions: Vec<Action>)
    ensures
        final(greeter)@ == old(greeter)@.submitted(),
        actions.deep_view() == old(greeter)@.validate_actions(),
{
    let actions = validation(greeter);
    submit(greeter);
    actions
}

/// The action that answers the question of the daemon with the buffer.
fn answering(greeter: &Greeter) -> (actions: Vec<Action>)
    ensures
        actions.deep_view() == greeter@.answer_actions(),
{
    proof {
        lemma_fields(*greeter);
    }
    let mut actions: Vec<Action> = Vec::new();
    actions.push(
        Action::Send(Request::PostAuthMessageResponse { response: Some(greeter.buffer.clone()) }),
    );
    assert(actions.deep_view() =~= greeter@.answer_actions());
    actions
}

/// Answers the question of the daemon with the buffer.
fn answer(greeter: &mut Greeter) -> (actions: Vec<Action>)
    ensures
        final(greeter)@ == old(greeter)@.submitted(),
        actions.deep_view() == old(greeter)@.answer_actions(),
{
    let actions = answering(greeter);
    submit(greeter);
    actions
}

/// Commits the command screen.
fn commit_command(greeter: &mut Greeter)
    ensures
        final(greeter)@ == old(greeter)@.command_committed(),
{
    proof {
        lemma_fields(*greeter);
    }
    let command = greeter.buffer.clone();
    let buffer = text_or_empty(&greeter.previous_buffer);
    let previous = greeter.previous_mode;
    greeter.set_selected_session(0);
    greeter.set_session_source(SessionSource::Command(command));
    greeter.set_buffer(buffer);
    greeter.set_previous_buffer(None);
    greeter.set_mode(previous);
}

/// The highlighted user, if there is one.
fn highlighted_user(greeter: &Greeter) -> (r: Option<MaskedString>)
    ensures
        match r {
            Some(user) => {
                &&& greeter@.users.selected < greeter@.users.options.len()
                &&& user@ == (MaskedStringView {
                    value: greeter@.users.options[greeter@.users.selected as int].username,
                    mask: greeter@.users.options[greeter@.users.selected as int].name,
                })
            },
            None => greeter@.users.selected >= greeter@.users.options.len(),
        },
{
    proof {
        lemma_menus(*greeter);
    }
    if greeter.users.selected < greeter.users.options.len() {
        let user = &greeter.users.options[greeter.users.selected];
        Some(MaskedString::from(user.username.clone(), clone_option(&user.name)))
    } else {
        None
    }
}

/// Takes the highlighted user as the username and leaves the menu.
fn take_user(greeter: &mut Greeter)
    ensures
        final(greeter)@ == old(greeter)@.user_taken(),
{
    proof {
        lemma_fields(*greeter);
    }
    let previous = greeter.previous_mode;
    match highlighted_user(greeter) {
        Some(user) => {
            greeter.set_username(user);
            greeter.set_mode(previous);
        },
        None => {
            greeter.set_mode(previous);
        },
    }
}

/// Commits the user menu.
fn pick_user(greeter: &mut Greeter) -> (actions: Vec<Action>)
    ensures
        final(greeter)@ == old(greeter)@.user_picked(),
        actions.deep_view() == old(greeter)@.user_picked().validate_actions(),
{
    take_user(greeter);
    validate_username(greeter)
}

/// Commits the session menu.
fn pick_session(greeter: &mut Greeter)
    ensures
        final(greeter)@ == old(greeter)@.session_picked(),
{
    proof {
        lemma_fields(*greeter);
        lemma_menus(*greeter);
    }
    let previous = greeter.previous_mode;
    if greeter.sessions.selected < greeter.sessions.options.len() {
        greeter.set_session_source(SessionSource::Session(greeter.sessions.selected));
        greeter.set_mode(previous);
    } else {
        greeter.set_mode(previous);
    }
}

/// The actions of the highlighted power entry.
fn power_picked(greeter: &Greeter) -> (actions: Vec<Action>)
    ensures
        actions.deep_view() == greeter@.power_picked_actions(),
{
    proof {
        lemma_menus(*greeter);
    }
    if greeter.powers.selected < greeter.powers.options.len() {
        let option = greeter.powers.options[greeter.powers.selected].action;
        power(greeter, option)
    } else {
        nothing()
    }
}

/// Commits the power menu.
fn pick_power(greeter: &mut Greeter) -> (actions: Vec<Action>)
    ensures
        final(greeter)@ == old(greeter)@.menu_closed(),
        actions.deep_view() == old(greeter)@.power_picked_actions(),
{
    let actions = power_picked(greeter);
    close_menu(greeter);
    actions
}

/// Acts on enter.
fn enter(greeter: &mut Greeter) -> (actions: Vec<Action>)
    ensures
        final(greeter)@ == old(greeter)@.entered(),
        actions.deep_view() == old(greeter)@.enter_actions(),
{
    proof { lemma_fields(*greeter); }
    match greeter.mode {
        Mode::Username => {
            if greeter.username.value.as_str().unicode_len() > 0 {
                validate_username(greeter)
            } else if greeter.user_menu {
                open_users(greeter);
                nothing()
            } else {
                nothing()
            }
        },
        Mode::Password => answer(greeter),
        Mode::Command => {
            commit_command(greeter);
            nothing()
        },
        Mode::Users => pick_user(greeter),
        Mode::Sessions => {
            pick_session(greeter);
            nothing()
        },
        Mode::Power => pick_power(greeter),
        Mode::Action | Mode::Processing => nothing(),
    }
}

/// Acts on tab: it submits the username like enter does.
fn tab(greeter: &mut Greeter) -> (actions: Vec<Action>)
    ensures
        final(greeter)@ == old(greeter)@.tab_pressed(),
        actions.deep_view() == old(greeter)@.tab_actions(),
{
    proof { lemma_fields(*greeter); }
    match greeter.mode {
        Mode::Username => {
            if greeter.username.value.as_str().unicode_len() > 0 {
                validate_username(greeter)
            } else {
                nothing()
            }
        },
        _ => nothing(),
    }
}

/// Acts on a character key.
fn character(greeter: &mut Greeter, c: char, control: bool)
    ensures
        final(greeter)@ == old(greeter)@.character_pressed(c, control),
{
    if control {
        if c == 'u' {
            erase(greeter);
        } else if c == 'a' {
            cursor_to_start(greeter);
        } else if c == 'e' {
            cursor_to_end(greeter);
        }
    } else {
        insert_key(greeter, c);
    }
}

/// Acts on a key that asks nothing of the surroundings.
fn quiet_key(greeter: &mut Greeter, input: KeyEvent)
    requires
        old(greeter)@.mode != Mode::Processing,
        input.code != KeyCode::Esc,
        input.code != KeyCode::Tab,
        input.code != KeyCode::Enter,
    ensures
        final(greeter)@ == old(greeter)@.key_effect(input),
{
    let control = input.modifiers.only_control();
    match input.code {
        KeyCode::Char(c) => character(greeter, c, control),
        KeyCode::Left => move_cursor(greeter, true),
        KeyCode::Right => move_cursor(greeter, false),
        KeyCode::F(number) => function_key(greeter, number),
        KeyCode::Up => move_highlight(greeter, false),
        KeyCode::Down => move_highlight(greeter, true),
        KeyCode::Backspace => delete_pressed(greeter, false, control),
        KeyCode::Delete => delete_pressed(greeter, true, control),
        _ => {},
    }
}

/// Acts on a key press, before the cursor is put back within the text.
fn key_effect(greeter: &mut Greeter, input: KeyEvent) -> (actions: Vec<Action>)
    ensures
        final(greeter)@ == old(greeter)@.key_effect(input),
        actions.deep_view() == old(greeter)@.key_actions(input),
{
    proof { lemma_fields(*greeter); }
    if let Mode::Processing = greeter.mode {
        return nothing();
    }
    match input.code {
        KeyCode::Esc => escape(greeter),
        KeyCode::Tab => tab(greeter),
        KeyCode::Enter => enter(greeter),
        _ => {
            quiet_key(greeter, input);
            nothing()
        },
    }
}

/// Acts on a key press.
///
/// The state changes as the key and the current mode say, and the cursor is
/// within the text that is edited afterwards. What has to be done outside
/// the state is returned, in the order in which it has to be done.
pub fn handle(greeter: &mut Greeter, input: KeyEvent) -> (actions: Vec<Action>)
    ensures
        final(greeter)@ == old(greeter)@.key_pressed(input),
        actions.deep_view() == old(greeter)@.key_actions(input),
        final(greeter)@.cursor_in_range(),
{
    let actions = key_effect(greeter, input);
    greeter.clamp_cursor();
    actions
}

/// Selects the first session whose session file is at `path`, if there is
/// one.
pub(crate) fn select_by_path(greeter: &mut Greeter, path: &str)
    ensures
        final(greeter)@ == old(greeter)@.session_selected_by_path(path@),
{
    proof {
        lemma_menus(*greeter);
    }
    let found = find_path(&greeter.sessions.options, path);
    proof {
        let g = greeter@;
        assert(g.sessions.options.len() == greeter.sessions.options@.len());
        assert forall|j: int| 0 <= j < g.sessions.options.len() implies #[trigger] g.sessions.options[j]
            == greeter.sessions.options[j]@ by {}
        match found {
            Some(index) => {
                assert(g.is_first_with_path(index as int, path@));
                let chosen = choose|i: int| g.is_first_with_path(i, path@);
                assert(g.is_first_with_path(chosen, path@));
                assert(chosen == index) by {
                    if chosen < index {
                        assert(!has_path(g.sessions.options[chosen], path@));
                    } else if index < chosen {
                        assert(!has_path(g.sessions.options[index as int], path@));
                    }
                }
            },
            None => {
                assert forall|i: int| !g.is_first_with_path(i, path@) by {
                    if 0 <= i < g.sessions.options.len() {
                        assert(!has_path(g.sessions.options[i], path@));
                    }
                }
            },
        }
    }
    if let Some(index) = found {
        greeter.set_selected_session(index);
        greeter.set_session_source(SessionSource::Session(index));
    }
}

/// Selects a free-form command.
pub(crate) fn select_command(greeter: &mut Greeter, command: String)
    ensures
        final(greeter)@ == (GreeterView {
            session_source: SessionSourceView::Command(command@),
            ..old(greeter)@
        }),
{
    greeter.set_session_source(SessionSource::Command(command));
}

/// Takes in the session that the user launched last, as it was written
/// down: the path of a session file, a free-form command, or both.
pub fn restore_user_session(greeter: &mut Greeter, session_path: Option<String>, command: Option<String>)
    ensures
        final(greeter)@ == old(greeter)@.user_session_restored(
            session_path.deep_view(),
            command.deep_view(),
        ),
{
    if let Some(path) = &session_path {
        select_by_path(greeter, trim(path.as_str()));
    }
    if let Some(command) = &command {
        select_command(greeter, String::from_str(trim(command.as_str())));
    }
}

} // verus!
