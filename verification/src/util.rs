//! Sizes and positions of what is drawn.

use ansi_to_tui::IntoText;
use ratatui::text::Text;
use ratatui::widgets::{Paragraph, Wrap};
use vstd::prelude::*;
use vstd::string::*;

use crate::greeter::{clamp_offset, content, Greeter, GreeterView, Mode};
use crate::numbers::parsed_u16;
use crate::text::{spec_trim, spec_trim_end, trim, trim_end};

verus! {

/// Text in lines, each made of spans that have a style of their own.
#[verifier::external_type_specification]
#[verifier::external_body]
pub struct ExText<'a>(Text<'a>);

/// A paragraph of text, ready to be drawn.
#[verifier::external_type_specification]
#[verifier::external_body]
pub struct ExParagraph<'a>(Paragraph<'a>);

/// What a text holds: the characters of each span of each of its lines.
pub uninterp spec fn text_spans(text: Text<'static>) -> Seq<Seq<Seq<char>>>;

/// What a paragraph holds: the characters of each span of each of its
/// lines.
pub uninterp spec fn paragraph_spans(paragraph: Paragraph<'static>) -> Seq<Seq<Seq<char>>>;

/// How a paragraph is wrapped: not at all, or with or without the white
/// space at the start of its lines trimmed.
pub uninterp spec fn paragraph_wrap(paragraph: Paragraph<'static>) -> Option<bool>;

/// What the text holds that a text with escape sequences for colors is
/// parsed to; nothing if it cannot be parsed.
pub uninterp spec fn ansi_spans(text: Seq<char>) -> Option<Seq<Seq<Seq<char>>>>;

/// What the text holds that is made of a text as it is.
pub uninterp spec fn raw_spans(text: Seq<char>) -> Seq<Seq<Seq<char>>>;

/// The number of lines that a paragraph takes at the given width.
pub uninterp spec fn wrapped_count(spans: Seq<Seq<Seq<char>>>, wrap: Option<bool>, width: u16) -> usize;

/// The greatest width at which the lines of a paragraph are counted. The
/// counting adds the widths of words up in 16 bits; up to this width the
/// sums stay far below what 16 bits hold.
pub const MAX_WRAP_WIDTH: u16 = 4096;

/// `IntoText::into_text`: whether a text can be parsed, and what the parsed
/// text holds, is a function of the text alone; it is given the name
/// [`ansi_spans`].
#[verifier::external_body]
fn parse_ansi(text: &str) -> (r: Option<Text<'static>>)
    ensures
        match r {
            Some(parsed) => ansi_spans(text@) == Some(text_spans(parsed)),
            None => ansi_spans(text@) is None,
        },
{
    text.into_text().ok()
}

/// `Text::raw`: what the text holds is a function of the text that it is
/// made of; it is given the name [`raw_spans`].
#[verifier::external_body]
fn raw_text(text: &str) -> (r: Text<'static>)
    ensures
        text_spans(r) == raw_spans(text@),
{
    Text::raw(text.to_string())
}

/// `Paragraph::new`: a paragraph that holds what the text holds, and is not
/// wrapped.
#[verifier::external_body]
fn new_paragraph(text: Text<'static>) -> (r: Paragraph<'static>)
    ensures
        paragraph_spans(r) == text_spans(text),
        paragraph_wrap(r) is None,
{
    Paragraph::new(text)
}

/// `Paragraph::wrap`: the same paragraph, wrapped.
#[verifier::external_body]
fn wrap_paragraph(paragraph: Paragraph<'static>, trim: bool) -> (r: Paragraph<'static>)
    ensures
        paragraph_spans(r) == paragraph_spans(paragraph),
        paragraph_wrap(r) == Some(trim),
{
    paragraph.wrap(Wrap { trim })
}

/// `Paragraph::line_count`: the number of lines that the paragraph takes at
/// the given width is a function of what the paragraph holds, of how it is
/// wrapped and of the width; it is given the name [`wrapped_count`]. Widths
/// above [`MAX_WRAP_WIDTH`] are left out.
#[verifier::external_body]
fn count_lines(paragraph: &Paragraph<'static>, width: u16) -> (r: usize)
    requires
        width <= MAX_WRAP_WIDTH,
    ensures
        r == wrapped_count(paragraph_spans(*paragraph), paragraph_wrap(*paragraph), width),
{
    paragraph.line_count(width)
}

/// What the paragraph of a greeting holds: the greeting without the white
/// space around it, parsed for colors, or the greeting as it is if it
/// cannot be parsed.
pub open spec fn greeting_spans(greeting: Seq<char>) -> Seq<Seq<Seq<char>>> {
    match ansi_spans(spec_trim(greeting)) {
        Some(spans) => spans,
        None => raw_spans(greeting),
    }
}

/// The number of lines that a greeting takes when it is wrapped to `width`
/// columns, white space kept.
pub open spec fn greeting_lines(greeting: Seq<char>, width: u16) -> usize {
    wrapped_count(greeting_spans(greeting), Some(false), width)
}

/// What the paragraph of a message holds: the message without the white
/// space at its end.
pub open spec fn message_spans(message: Seq<char>) -> Seq<Seq<Seq<char>>> {
    raw_spans(spec_trim_end(message))
}

/// The number of lines that a message takes when it is wrapped to `width`
/// columns, white space trimmed.
pub open spec fn message_lines(message: Seq<char>, width: u16) -> usize {
    wrapped_count(message_spans(message), Some(true), width)
}

/// Whether a paragraph is the paragraph of a greeting.
pub open spec fn is_greeting_paragraph(paragraph: Paragraph<'static>, greeting: Seq<char>) -> bool {
    paragraph_spans(paragraph) == greeting_spans(greeting) && paragraph_wrap(paragraph) == Some(false)
}

/// Whether a paragraph is the paragraph of a message.
pub open spec fn is_message_paragraph(paragraph: Paragraph<'static>, message: Seq<char>) -> bool {
    paragraph_spans(paragraph) == message_spans(message) && paragraph_wrap(paragraph) == Some(true)
}

/// Makes the paragraph of a greeting.
fn greeting_paragraph(greeting: &str) -> (r: Paragraph<'static>)
    ensures
        is_greeting_paragraph(r, greeting@),
{
    let text = match parse_ansi(trim(greeting)) {
        Some(text) => text,
        None => raw_text(greeting),
    };
    wrap_paragraph(new_paragraph(text), false)
}

/// Makes the paragraph of a message.
fn message_paragraph(message: &str) -> (r: Paragraph<'static>)
    ensures
        is_message_paragraph(r, message@),
{
    wrap_paragraph(new_paragraph(raw_text(trim_end(message))), true)
}

/// A rectangle of the screen.
#[derive(Debug, Copy, Clone, PartialEq, Eq, Structural)]
pub struct Rect {
    pub x: u16,
    pub y: u16,
    pub width: u16,
    pub height: u16,
}

impl Rect {
    pub fn new(x: u16, y: u16, width: u16, height: u16) -> (r: Rect)
        ensures
            r == (Rect { x, y, width, height }),
    {
        Rect { x, y, width, height }
    }
}

/// The text between two spaces.
pub fn titleize(message: &str) -> (r: String)
    ensures
        r@ == " "@ + message@ + " "@,
{
    let mut r = String::from_str(" ");
    r.append(message);
    r.append(" ");
    r
}

/// The text behind a space.
pub fn buttonize(message: &str) -> (r: String)
    ensures
        r@ == " "@ + message@,
{
    let mut r = String::from_str(" ");
    r.append(message);
    r
}

/// A number of 16 bits from below: what a conversion keeps of a larger
/// number.
pub open spec fn low16(value: int) -> u16 {
    (value % 65536) as u16
}

/// The value of a setting: the option of the command line if it is a
/// number, else the setting of the configuration file, if any.
pub open spec fn setting(option: Option<String>, file: Option<u16>) -> Option<u16> {
    match option {
        Some(text) => match parsed_u16(text@) {
            Some(value) => Some(value),
            None => file,
        },
        None => file,
    }
}

impl GreeterView {
    /// The width of the main window: 80 columns unless it is set.
    pub open spec fn width(self) -> u16 {
        let set = setting(self.opts.width, self.config.ui.width);
        match set {
            Some(width) => width,
            None => 80,
        }
    }

    /// The padding of the screen: none unless it is set.
    pub open spec fn window_padding(self) -> u16 {
        let set = setting(self.opts.window_padding, self.config.ui.window_padding);
        match set {
            Some(padding) => padding,
            None => 0,
        }
    }

    /// The padding of the main window, border included: one more than what
    /// is set, and 2 if nothing is set.
    pub open spec fn container_padding(self) -> int {
        let set = setting(self.opts.container_padding, self.config.ui.container_padding);
        match set {
            Some(padding) => padding + 1,
            None => 2,
        }
    }

    /// The spacing between two prompts: one row unless it is set.
    pub open spec fn prompt_padding(self) -> u16 {
        let set = setting(self.opts.prompt_padding, self.config.ui.prompt_padding);
        match set {
            Some(padding) => padding,
            None => 1,
        }
    }

    /// Whether the cursor is hidden: it is shown only where text is
    /// expected from the user.
    pub open spec fn should_hide_cursor(self) -> bool {
        ||| self.working
        ||| self.done
        ||| (self.user_menu && self.mode == Mode::Username && self.username.value.len() == 0)
        ||| (self.mode == Mode::Password && self.prompt is None)
        ||| self.mode == Mode::Users
        ||| self.mode == Mode::Sessions
        ||| self.mode == Mode::Power
        ||| self.mode == Mode::Processing
        ||| self.mode == Mode::Action
    }

    /// Whether the height of the greeting can be computed for a window
    /// with the given horizontal padding: the window has room for the
    /// padding, and what is left is not wider than lines can be counted at.
    pub open spec fn greeting_fits(self, padding: u16) -> bool {
        self.greeting is Some ==> 0 <= self.width() - 2 * padding <= MAX_WRAP_WIDTH
    }

    /// Whether the height of the message can be computed: the main window
    /// has room for its borders, and what is left is not wider than lines
    /// can be counted at.
    pub open spec fn message_fits(self) -> bool {
        self.message is Some ==> 0 <= self.width() - 4 <= MAX_WRAP_WIDTH
    }

    /// The height of the greeting with its separating row, for a window with
    /// the given horizontal padding; `fallback` without a greeting.
    pub open spec fn greeting_height(self, padding: u16, fallback: u16) -> u16 {
        match self.greeting {
            Some(greeting) => low16(
                greeting_lines(greeting, (self.width() - 2 * padding) as u16) + 1,
            ),
            None => fallback,
        }
    }

    /// The height of the message with the given padding; `fallback` without
    /// a message.
    pub open spec fn message_height(self, padding: u16, fallback: u16) -> int {
        match self.message {
            Some(message) => low16(message_lines(message, (self.width() - 4) as u16) as int)
                + padding,
            None => fallback as int,
        }
    }

    /// The height of the main window without the greeting: the padding at
    /// the top and at the bottom, and between them what the mode shows.
    pub open spec fn base_height(self) -> int {
        let padding = self.container_padding();
        match self.mode {
            Mode::Username | Mode::Action | Mode::Command => 2 * padding + 1,
            Mode::Password => match self.prompt {
                Some(_) => 2 * padding + self.prompt_padding() + 2,
                None => 2 * padding + 1,
            },
            Mode::Users | Mode::Sessions | Mode::Power | Mode::Processing => 2 * padding,
        }
    }

    /// The height of the main window: the greeting is shown above the
    /// prompts and the user menu.
    pub open spec fn height(self) -> int {
        match self.mode {
            Mode::Command | Mode::Sessions | Mode::Power | Mode::Processing => self.base_height(),
            _ => self.base_height() + self.greeting_height(1, 0),
        }
    }

    /// Whether the height of the main window can be computed: the height
    /// of the greeting can be computed, and the height of the main window
    /// fits in 16 bits.
    pub open spec fn height_fits(self) -> bool {
        &&& self.greeting_fits(1)
        &&& self.height() <= u16::MAX
    }

    /// The position and the size of the main window with `items` rows added
    /// to its height, in an area of the given size: in the middle, or the
    /// whole extent of the area where the window does not fit.
    pub open spec fn rect_bounds(self, area: Rect, items: usize) -> (u16, u16, u16, u16) {
        let width = self.width();
        let height = (self.height() + low16(items as int)) as u16;
        let x = if width < area.width {
            ((area.width - width) / 2) as u16
        } else {
            0
        };
        let y = if height < area.height {
            ((area.height - height) / 2) as u16
        } else {
            0
        };
        let (x, width) = if x + width >= area.width {
            (0u16, area.width)
        } else {
            (x, width)
        };
        let (y, height) = if y + height >= area.height {
            (0u16, area.height)
        } else {
            (y, height)
        };
        (x, y, width, height)
    }

    /// Whether the position of the main window can be computed.
    pub open spec fn rect_fits(self, items: usize) -> bool {
        &&& self.height_fits()
        &&& self.height() + low16(items as int) <= u16::MAX
    }
}

/// The number of characters of a label: 0 without a label.
pub open spec fn label_width(label: Option<String>) -> nat {
    match label {
        Some(label) => label@.len(),
        None => 0,
    }
}

/// The width of a text entry in a window of the given width: what the label,
/// the borders and the cursor leave.
pub open spec fn input_width(g: GreeterView, width: u16, label: Option<String>) -> int {
    let width = if g.width() < width {
        g.width()
    } else {
        width
    };
    width - low16(label_width(label) as int) - 4 - 1
}

/// The value of a setting.
fn read_setting(option: &Option<String>, file: Option<u16>) -> (r: Option<u16>)
    ensures
        r == setting(*option, file),
{
    match option {
        Some(text) => match crate::numbers::parse_u16(text.as_str()) {
            Some(value) => Some(value),
            None => file,
        },
        None => file,
    }
}

impl Greeter {
    /// Returns the width of the main window.
    pub fn width(&self) -> (r: u16)
        ensures
            r == self@.width(),
    {
        proof {
            reveal(content);
        }
        let set = read_setting(&self.opts.width, self.config.ui.width);
        match set {
            Some(width) => width,
            None => 80,
        }
    }

    /// Returns the padding of the screen.
    pub fn window_padding(&self) -> (r: u16)
        ensures
            r == self@.window_padding(),
    {
        proof {
            reveal(content);
        }
        let set = read_setting(&self.opts.window_padding, self.config.ui.window_padding);
        match set {
            Some(padding) => padding,
            None => 0,
        }
    }

    /// Returns the padding of the main window, border included.
    pub fn container_padding(&self) -> (r: u16)
        requires
            self@.container_padding() <= u16::MAX,
        ensures
            r == self@.container_padding(),
    {
        proof {
            reveal(content);
        }
        let set = read_setting(&self.opts.container_padding, self.config.ui.container_padding);
        match set {
            Some(padding) => padding + 1,
            None => 2,
        }
    }

    /// Returns the padding of the main window, border included, if it fits
    /// in 16 bits.
    pub fn checked_container_padding(&self) -> (r: Option<u16>)
        ensures
            r is Some <==> self@.container_padding() <= u16::MAX,
            r is Some ==> r->0 == self@.container_padding(),
    {
        proof {
            reveal(content);
        }
        let set = read_setting(&self.opts.container_padding, self.config.ui.container_padding);
        match set {
            Some(padding) => if padding < 65535 {
                Some(padding + 1)
            } else {
                None
            },
            None => Some(2),
        }
    }

    /// Returns the spacing between two prompts.
    pub fn prompt_padding(&self) -> (r: u16)
        ensures
            r == self@.prompt_padding(),
    {
        proof {
            reveal(content);
        }
        let set = read_setting(&self.opts.prompt_padding, self.config.ui.prompt_padding);
        match set {
            Some(padding) => padding,
            None => 1,
        }
    }
}

/// Determines whether the cursor is hidden, from the mode and the
/// configuration.
pub fn should_hide_cursor(greeter: &Greeter) -> (r: bool)
    ensures
        r == greeter@.should_hide_cursor(),
{
    proof {
        reveal(content);
    }
    greeter.working || greeter.done || (greeter.user_menu && greeter.mode == Mode::Username
        && greeter.username.value.as_str().unicode_len() == 0) || (greeter.mode == Mode::Password
        && greeter.prompt.is_none()) || greeter.mode == Mode::Users || greeter.mode == Mode::Sessions
        || greeter.mode == Mode::Power || greeter.mode == Mode::Processing || greeter.mode
        == Mode::Action
}

/// Computes the paragraph of the greeting and its height, with the row that
/// separates it from what follows; `fallback` without a greeting.
pub fn get_greeting_height(greeter: &Greeter, padding: u16, fallback: u16) -> (r: (
    Option<Paragraph<'static>>,
    u16,
))
    requires
        greeter@.greeting_fits(padding),
    ensures
        r.1 == greeter@.greeting_height(padding, fallback),
        match r.0 {
            Some(paragraph) => greeter@.greeting is Some && is_greeting_paragraph(
                paragraph,
                greeter@.greeting->0,
            ),
            None => greeter@.greeting is None,
        },
{
    proof {
        reveal(content);
    }
    match &greeter.greeting {
        Some(greeting) => {
            let width = greeter.width();
            let paragraph = greeting_paragraph(greeting.as_str());
            let lines = count_lines(&paragraph, width - 2 * padding);
            let low = (lines % 65536) as u16;
            let height = if low == 65535 {
                0
            } else {
                low + 1
            };
            (Some(paragraph), height)
        },
        None => (None, fallback),
    }
}

/// Computes the paragraph of the greeting and its height, if they can be
/// computed: if the main window has room for its padding, and what is left
/// is not wider than lines can be counted at.
pub fn checked_greeting_height(greeter: &Greeter, padding: u16, fallback: u16) -> (r: Option<
    (Option<Paragraph<'static>>, u16),
>)
    ensures
        r is Some <==> greeter@.greeting_fits(padding),
        match r {
            Some((paragraph, height)) => {
                &&& height == greeter@.greeting_height(padding, fallback)
                &&& match paragraph {
                    Some(paragraph) => greeter@.greeting is Some && is_greeting_paragraph(
                        paragraph,
                        greeter@.greeting->0,
                    ),
                    None => greeter@.greeting is None,
                }
            },
            None => true,
        },
{
    proof {
        reveal(content);
    }
    if greeter.greeting.is_some() {
        let width = greeter.width() as u32;
        if 2 * (padding as u32) > width || width - 2 * (padding as u32) > MAX_WRAP_WIDTH as u32 {
            return None;
        }
    }
    Some(get_greeting_height(greeter, padding, fallback))
}

/// Computes the paragraph of the message and its height with the given
/// padding; `fallback` without a message.
pub fn get_message_height(greeter: &Greeter, padding: u16, fallback: u16) -> (r: (
    Option<Paragraph<'static>>,
    u16,
))
    requires
        greeter@.message_fits(),
        greeter@.message_height(padding, fallback) <= u16::MAX,
    ensures
        r.1 == greeter@.message_height(padding, fallback),
        match r.0 {
            Some(paragraph) => greeter@.message is Some && is_message_paragraph(
                paragraph,
                greeter@.message->0,
            ),
            None => greeter@.message is None,
        },
{
    proof {
        reveal(content);
    }
    match &greeter.message {
        Some(message) => {
            let width = greeter.width();
            let paragraph = message_paragraph(message.as_str());
            let lines = count_lines(&paragraph, width - 4);
            let low = (lines % 65536) as u16;
            (Some(paragraph), low + padding)
        },
        None => (None, fallback),
    }
}

/// Computes the height of the main window, from the mode and the spacing
/// that is configured.
pub fn get_height(greeter: &Greeter) -> (r: u16)
    requires
        greeter@.height_fits(),
    ensures
        r == greeter@.height(),
{
    proof {
        reveal(content);
    }
    let (_, greeting_height) = get_greeting_height(greeter, 1, 0);
    let container_padding = greeter.container_padding();
    let prompt_padding = greeter.prompt_padding();

    let initial = match greeter.mode {
        Mode::Username | Mode::Action | Mode::Command => (2 * container_padding) + 1,
        Mode::Password => match greeter.prompt {
            Some(_) => (2 * container_padding) + prompt_padding + 2,
            None => (2 * container_padding) + 1,
        },
        Mode::Users | Mode::Sessions | Mode::Power | Mode::Processing => 2 * container_padding,
    };

    match greeter.mode {
        Mode::Command | Mode::Sessions | Mode::Power | Mode::Processing => initial,
        _ => initial + greeting_height,
    }
}

/// The height of the main window without the greeting, in a number that is
/// wide enough for it.
fn base_height(greeter: &Greeter) -> (r: u32)
    ensures
        r == greeter@.base_height(),
{
    proof {
        reveal(content);
    }
    let set = read_setting(&greeter.opts.container_padding, greeter.config.ui.container_padding);
    let padding: u32 = match set {
        Some(padding) => padding as u32 + 1,
        None => 2,
    };
    let prompt_padding = greeter.prompt_padding() as u32;
    match greeter.mode {
        Mode::Username | Mode::Action | Mode::Command => 2 * padding + 1,
        Mode::Password => match greeter.prompt {
            Some(_) => 2 * padding + prompt_padding + 2,
            None => 2 * padding + 1,
        },
        Mode::Users | Mode::Sessions | Mode::Power | Mode::Processing => 2 * padding,
    }
}

/// Computes the height of the main window, if it can be computed: if the
/// height of the greeting can be computed, and the height of the main window
/// fits in 16 bits.
pub fn checked_height(greeter: &Greeter) -> (r: Option<u16>)
    ensures
        r is Some <==> greeter@.height_fits(),
        r is Some ==> r->0 == greeter@.height(),
{
    proof {
        reveal(content);
    }
    let greeting_height = match checked_greeting_height(greeter, 1, 0) {
        Some((_, height)) => height,
        None => {
            return None;
        },
    };
    let base = base_height(greeter);
    let height = match greeter.mode {
        Mode::Command | Mode::Sessions | Mode::Power | Mode::Processing => base,
        _ => base + greeting_height as u32,
    };
    if height <= 65535 {
        Some(get_height(greeter))
    } else {
        None
    }
}

/// Gets the position and the size of the main window, if they can be
/// computed: if the height of the main window can be computed and, with the
/// rows that a menu adds, fits in 16 bits.
pub fn checked_rect_bounds(greeter: &Greeter, area: Rect, items: usize) -> (r: Option<
    (u16, u16, u16, u16),
>)
    ensures
        r is Some <==> greeter@.rect_fits(items),
        r is Some ==> r->0 == greeter@.rect_bounds(area, items),
{
    match checked_height(greeter) {
        Some(height) => {
            if height as u32 + (items % 65536) as u32 <= 65535 {
                Some(get_rect_bounds(greeter, area, items))
            } else {
                None
            }
        },
        None => None,
    }
}

/// Computes the paragraph of the message and its height, if they can be
/// computed: if the main window has room for its borders, what is left is
/// not wider than lines can be counted at, and the height fits in 16 bits.
pub fn checked_message_height(greeter: &Greeter, padding: u16, fallback: u16) -> (r: Option<
    (Option<Paragraph<'static>>, u16),
>)
    ensures
        r is Some <==> greeter@.message_fits() && greeter@.message_height(padding, fallback)
            <= u16::MAX,
        match r {
            Some((paragraph, height)) => {
                &&& height == greeter@.message_height(padding, fallback)
                &&& match paragraph {
                    Some(paragraph) => greeter@.message is Some && is_message_paragraph(
                        paragraph,
                        greeter@.message->0,
                    ),
                    None => greeter@.message is None,
                }
            },
            None => true,
        },
{
    proof {
        reveal(content);
    }
    match &greeter.message {
        Some(message) => {
            let width = greeter.width();
            if width < 4 || width - 4 > MAX_WRAP_WIDTH {
                return None;
            }
            let paragraph = message_paragraph(message.as_str());
            let lines = count_lines(&paragraph, width - 4);
            if (lines % 65536) as u32 + padding as u32 > 65535 {
                return None;
            }
            Some(get_message_height(greeter, padding, fallback))
        },
        None => Some(get_message_height(greeter, padding, fallback)),
    }
}

/// Gets the position and the size of the main window, from the size of the
/// terminal and the number of rows that a menu adds.
pub fn get_rect_bounds(greeter: &Greeter, area: Rect, items: usize) -> (r: (u16, u16, u16, u16))
    requires
        greeter@.rect_fits(items),
    ensures
        r == greeter@.rect_bounds(area, items),
{
    let width = greeter.width();
    let height: u16 = get_height(greeter) + (items % 65536) as u16;

    let x = if width < area.width {
        (area.width - width) / 2
    } else {
        0
    };
    let y = if height < area.height {
        (area.height - height) / 2
    } else {
        0
    };

    let (x, width) = if (x as u32 + width as u32) >= area.width as u32 {
        (0, area.width)
    } else {
        (x, width)
    };
    let (y, height) = if (y as u32 + height as u32) >= area.height as u32 {
        (0, area.height)
    } else {
        (y, height)
    };

    (x, y, width, height)
}

/// Whether a text entry has room in a window of the given width, behind the
/// label in front of it.
pub fn input_fits(greeter: &Greeter, width: u16, label: &Option<String>) -> (r: bool)
    ensures
        r == (input_width(greeter@, width, *label) >= 0),
{
    let own = greeter.width();
    let width = if own < width {
        own
    } else {
        width
    };
    let label_width = match label {
        None => 0,
        Some(label) => label.as_str().unicode_len(),
    };
    width as u32 >= (label_width % 65536) as u32 + 5
}

/// Computes the size of a text entry, from the width of the window and the
/// label in front of the entry.
pub fn get_input_width(greeter: &Greeter, width: u16, label: &Option<String>) -> (r: u16)
    requires
        input_width(greeter@, width, *label) >= 0,
    ensures
        r == input_width(greeter@, width, *label),
{
    let own = greeter.width();
    let width = if own < width {
        own
    } else {
        width
    };
    let label_width = match label {
        None => 0,
        Some(label) => label.as_str().unicode_len(),
    };
    width - (label_width % 65536) as u16 - 4 - 1
}

/// Puts the cursor within a text of the given length, and returns its
/// position, counted from the start of the text.
pub fn get_cursor_offset(greeter: &mut Greeter, length: usize) -> (r: i16)
    requires
        length <= i16::MAX,
    ensures
        final(greeter)@ == (GreeterView {
            cursor_offset: clamp_offset(old(greeter)@.cursor_offset as int, length as nat) as i16,
            ..old(greeter)@
        }),
        r == length + final(greeter)@.cursor_offset,
        0 <= r <= length,
{
    proof {
        reveal(content);
    }
    let length = length as i16;
    let offset = if greeter.cursor_offset < -length {
        -length
    } else if greeter.cursor_offset > 0 {
        0
    } else {
        greeter.cursor_offset
    };
    greeter.cursor_offset = offset;
    length + offset
}

} // verus!
