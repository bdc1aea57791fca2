//! Colors of the parts of the user interface.

use ratatui::style::Color;
use vstd::prelude::*;
use vstd::string::*;
use vstd::utf8::is_ascii_chars;

use crate::text::{same_text, spec_split, split};

verus! {

/// Whether a text names a color, as `<Color as FromStr>::from_str` decides.
pub uninterp spec fn color_name(value: Seq<char>) -> bool;

/// Whether a text can be given to the reader of colors: it does not begin
/// with a number sign, or all its characters are ASCII. The reader cuts a
/// text that begins with a number sign at fixed bytes, and cannot cut
/// through a character of several bytes.
pub open spec fn readable_color(value: Seq<char>) -> bool {
    value.len() == 0 || value[0] != '#' || is_ascii_chars(value)
}

/// Whether a text names a color: it can be given to the reader of colors,
/// and the reader takes it as a color. A text that begins with a number
/// sign and holds a character that is not ASCII names no color.
pub open spec fn names_color(value: Seq<char>) -> bool {
    readable_color(value) && color_name(value)
}

/// `<Color as FromStr>::from_str`, through `str::parse`: whether a text is
/// accepted as a color is a function of the text alone; it is given the name
/// [`color_name`]. A text that begins with a number sign and holds a
/// character of several bytes is left out: on such a text of seven bytes the
/// outside function does not return.
#[verifier::external_body]
fn is_color(value: &str) -> (r: bool)
    requires
        readable_color(value@),
    ensures
        r == color_name(value@),
{
    value.parse::<Color>().is_ok()
}

/// Whether a text names a color.
fn names_a_color(value: &str) -> (r: bool)
    ensures
        r == names_color(value@),
{
    let n = value.unicode_len();
    if n > 0 && value.get_char(0) == '#' && !value.is_ascii() {
        false
    } else {
        is_color(value)
    }
}

/// What a color applies to.
#[derive(Debug, Copy, Clone, PartialEq, Eq, Structural)]
pub enum Component {
    /// The background.
    Bg,
    /// The text.
    Fg,
}

/// The parts of the user interface that have a color of their own.
#[derive(Debug, Copy, Clone, PartialEq, Eq, Structural)]
pub enum Themed {
    Container,
    Time,
    Text,
    Border,
    Title,
    Greet,
    Prompt,
    Input,
    Action,
    ActionButton,
}

/// The colors of the user interface: for each part, what its color applies
/// to and the name of the color, if the part has a color of its own.
pub struct Theme {
    pub container: Option<(Component, String)>,
    pub time: Option<(Component, String)>,
    pub text: Option<(Component, String)>,
    pub border: Option<(Component, String)>,
    pub title: Option<(Component, String)>,
    pub greet: Option<(Component, String)>,
    pub prompt: Option<(Component, String)>,
    pub input: Option<(Component, String)>,
    pub action: Option<(Component, String)>,
    pub button: Option<(Component, String)>,
}

/// The mathematical content of a [`Theme`].
pub struct ThemeView {
    pub container: Option<(Component, Seq<char>)>,
    pub time: Option<(Component, Seq<char>)>,
    pub text: Option<(Component, Seq<char>)>,
    pub border: Option<(Component, Seq<char>)>,
    pub title: Option<(Component, Seq<char>)>,
    pub greet: Option<(Component, Seq<char>)>,
    pub prompt: Option<(Component, Seq<char>)>,
    pub input: Option<(Component, Seq<char>)>,
    pub action: Option<(Component, Seq<char>)>,
    pub button: Option<(Component, Seq<char>)>,
}

/// The mathematical content of the color of a part.
pub open spec fn color_view(color: Option<(Component, String)>) -> Option<(Component, Seq<char>)> {
    match color {
        Some((component, name)) => Some((component, name@)),
        None => None,
    }
}

impl View for Theme {
    type V = ThemeView;

    open spec fn view(&self) -> ThemeView {
        ThemeView {
            container: color_view(self.container),
            time: color_view(self.time),
            text: color_view(self.text),
            border: color_view(self.border),
            title: color_view(self.title),
            greet: color_view(self.greet),
            prompt: color_view(self.prompt),
            input: color_view(self.input),
            action: color_view(self.action),
            button: color_view(self.button),
        }
    }
}

/// The colors of a piece of text: the names of the color of the text and of
/// the color of the background, where they are set.
pub struct Style {
    pub fg: Option<String>,
    pub bg: Option<String>,
}

/// The mathematical content of a [`Style`].
pub struct StyleView {
    pub fg: Option<Seq<char>>,
    pub bg: Option<Seq<char>>,
}

impl View for Style {
    type V = StyleView;

    open spec fn view(&self) -> StyleView {
        StyleView { fg: self.fg.deep_view(), bg: self.bg.deep_view() }
    }
}

impl Default for Style {
    fn default() -> (r: Style)
        ensures
            r@ == StyleView::plain(),
    {
        Style { fg: None, bg: None }
    }
}

impl StyleView {
    /// The style in which no color is set.
    pub open spec fn plain() -> StyleView {
        StyleView { fg: None, bg: None }
    }
}

/// The number of characters before the first equals sign of a text.
pub open spec fn equals_position(text: Seq<char>) -> int
    decreases text.len(),
{
    if text.len() == 0 || text.first() == '=' {
        0
    } else {
        1 + equals_position(text.drop_first())
    }
}

impl ThemeView {
    /// The theme in which no part has a color of its own.
    pub open spec fn plain() -> ThemeView {
        ThemeView {
            container: None,
            time: None,
            text: None,
            border: None,
            title: None,
            greet: None,
            prompt: None,
            input: None,
            action: None,
            button: None,
        }
    }

    /// The theme with the color of the part that `key` names set to `value`.
    /// The color of the container is its background, any other color is
    /// that of the text. A key that names no part changes nothing.
    pub open spec fn with(self, key: Seq<char>, value: Seq<char>) -> ThemeView {
        if key == "container"@ {
            ThemeView { container: Some((Component::Bg, value)), ..self }
        } else if key == "time"@ {
            ThemeView { time: Some((Component::Fg, value)), ..self }
        } else if key == "text"@ {
            ThemeView { text: Some((Component::Fg, value)), ..self }
        } else if key == "border"@ {
            ThemeView { border: Some((Component::Fg, value)), ..self }
        } else if key == "title"@ {
            ThemeView { title: Some((Component::Fg, value)), ..self }
        } else if key == "greet"@ {
            ThemeView { greet: Some((Component::Fg, value)), ..self }
        } else if key == "prompt"@ {
            ThemeView { prompt: Some((Component::Fg, value)), ..self }
        } else if key == "input"@ {
            ThemeView { input: Some((Component::Fg, value)), ..self }
        } else if key == "action"@ {
            ThemeView { action: Some((Component::Fg, value)), ..self }
        } else if key == "button"@ {
            ThemeView { button: Some((Component::Fg, value)), ..self }
        } else {
            self
        }
    }

    /// The theme after a directive: a key, an equals sign and a value. A
    /// directive without an equals sign, or whose value names no color,
    /// changes nothing.
    pub open spec fn directed(self, directive: Seq<char>) -> ThemeView {
        let at = equals_position(directive);
        if at < directive.len() && names_color(directive.skip(at + 1)) {
            self.with(directive.take(at), directive.skip(at + 1))
        } else {
            self
        }
    }

    /// The theme after a list of directives, taken in order.
    pub open spec fn directed_all(self, directives: Seq<Seq<char>>) -> ThemeView
        decreases directives.len(),
    {
        if directives.len() == 0 {
            self
        } else {
            self.directed_all(directives.drop_last()).directed(directives.last())
        }
    }

    /// The theme in which the parts that inherit a color have it: time and
    /// greeting take the color of the text, the title that of the border,
    /// the buttons that of the actions, each unless it has a color of its
    /// own.
    pub open spec fn inherited(self) -> ThemeView {
        ThemeView {
            time: if self.time is None {
                self.text
            } else {
                self.time
            },
            greet: if self.greet is None {
                self.text
            } else {
                self.greet
            },
            title: if self.title is None {
                self.border
            } else {
                self.title
            },
            button: if self.button is None {
                self.action
            } else {
                self.button
            },
            ..self
        }
    }

    /// The theme that a specification describes: a list of directives,
    /// separated by semicolons.
    pub open spec fn parsed(spec: Seq<char>) -> ThemeView {
        ThemeView::plain().directed_all(spec_split(spec, ';')).inherited()
    }

    /// The color of a part.
    pub open spec fn color(self, target: Themed) -> Option<(Component, Seq<char>)> {
        match target {
            Themed::Container => self.container,
            Themed::Time => self.time,
            Themed::Text => self.text,
            Themed::Border => self.border,
            Themed::Title => self.title,
            Themed::Greet => self.greet,
            Themed::Prompt => self.prompt,
            Themed::Input => self.input,
            Themed::Action => self.action,
            Themed::ActionButton => self.button,
        }
    }

    /// A style with the color of a part applied to it.
    pub open spec fn applied(self, style: StyleView, target: Themed) -> StyleView {
        match self.color(target) {
            Some((Component::Fg, color)) => StyleView { fg: Some(color), ..style },
            Some((Component::Bg, color)) => StyleView { bg: Some(color), ..style },
            None => style,
        }
    }

    /// The style of a piece of text that belongs to the given parts: the
    /// colors of the parts are applied in order, a later one over an
    /// earlier one.
    pub open spec fn style_of(self, targets: Seq<Themed>) -> StyleView
        decreases targets.len(),
    {
        if targets.len() == 0 {
            StyleView::plain()
        } else {
            self.applied(self.style_of(targets.drop_last()), targets.last())
        }
    }
}

impl Default for Theme {
    fn default() -> (r: Theme)
        ensures
            r@ == ThemeView::plain(),
    {
        Theme {
            container: None,
            time: None,
            text: None,
            border: None,
            title: None,
            greet: None,
            prompt: None,
            input: None,
            action: None,
            button: None,
        }
    }
}

/// An independent copy of the color of a part.
fn clone_color(color: &Option<(Component, String)>) -> (r: Option<(Component, String)>)
    ensures
        color_view(r) == color_view(*color),
{
    match color {
        Some((component, name)) => Some((*component, name.clone())),
        None => None,
    }
}

/// Splits a directive at its first equals sign.
fn split_directive(directive: &str) -> (r: Option<(&str, &str)>)
    ensures
        match r {
            Some((key, value)) => {
                &&& equals_position(directive@) < directive@.len()
                &&& key@ == directive@.take(equals_position(directive@))
                &&& value@ == directive@.skip(equals_position(directive@) + 1)
            },
            None => equals_position(directive@) >= directive@.len(),
        },
{
    let n = directive.unicode_len();
    let mut i: usize = 0;
    assert(directive@.subrange(0, n as int) == directive@);
    while i < n && directive.get_char(i) != '='
        invariant
            i <= n == directive@.len(),
            equals_position(directive@) == i + equals_position(directive@.subrange(i as int, n as int)),
        decreases n - i,
    {
        assert(directive@.subrange(i as int, n as int).drop_first() == directive@.subrange(
            i + 1,
            n as int,
        ));
        i += 1;
    }
    if i < n {
        Some((directive.substring_char(0, i), directive.substring_char(i + 1, n)))
    } else {
        None
    }
}

impl Theme {
    /// Sets the color of the part that `key` names.
    fn set(&mut self, key: &str, value: &str)
        ensures
            final(self)@ == old(self)@.with(key@, value@),
    {
        let name = String::from_str(value);
        if same_text(key, "container") {
            self.container = Some((Component::Bg, name));
        } else if same_text(key, "time") {
            self.time = Some((Component::Fg, name));
        } else if same_text(key, "text") {
            self.text = Some((Component::Fg, name));
        } else if same_text(key, "border") {
            self.border = Some((Component::Fg, name));
        } else if same_text(key, "title") {
            self.title = Some((Component::Fg, name));
        } else if same_text(key, "greet") {
            self.greet = Some((Component::Fg, name));
        } else if same_text(key, "prompt") {
            self.prompt = Some((Component::Fg, name));
        } else if same_text(key, "input") {
            self.input = Some((Component::Fg, name));
        } else if same_text(key, "action") {
            self.action = Some((Component::Fg, name));
        } else if same_text(key, "button") {
            self.button = Some((Component::Fg, name));
        }
    }

    /// Applies a directive.
    fn direct(&mut self, directive: &str)
        ensures
            final(self)@ == old(self)@.directed(directive@),
    {
        if let Some((key, value)) = split_directive(directive) {
            if names_a_color(value) {
                self.set(key, value);
            }
        }
    }

    /// Gives the parts that inherit a color their color.
    fn inherit(&mut self)
        ensures
            final(self)@ == old(self)@.inherited(),
    {
        let time = if self.time.is_none() {
            clone_color(&self.text)
        } else {
            clone_color(&self.time)
        };
        let greet = if self.greet.is_none() {
            clone_color(&self.text)
        } else {
            clone_color(&self.greet)
        };
        let title = if self.title.is_none() {
            clone_color(&self.border)
        } else {
            clone_color(&self.title)
        };
        let button = if self.button.is_none() {
            clone_color(&self.action)
        } else {
            clone_color(&self.button)
        };
        self.time = time;
        self.greet = greet;
        self.title = title;
        self.button = button;
    }

    /// Reads a theme: a list of directives, separated by semicolons, each a
    /// part of the user interface, an equals sign and a color.
    pub fn parse(spec: &str) -> (r: Theme)
        ensures
            r@ == ThemeView::parsed(spec@),
    {
        let directives = split(spec, ';');
        let ghost all = directives.deep_view();
        let mut style = Theme::default();
        let mut i: usize = 0;
        assert(all.subrange(0, 0) =~= Seq::<Seq<char>>::empty());
        while i < directives.len()
            invariant
                i <= directives.len(),
                all == directives.deep_view(),
                style@ == ThemeView::plain().directed_all(all.subrange(0, i as int)),
            decreases directives.len() - i,
        {
            assert(all.subrange(0, i + 1).drop_last() == all.subrange(0, i as int));
            assert(all.subrange(0, i + 1).last() == directives[i as int]@);
            style.direct(directives[i].as_str());
            i += 1;
        }
        assert(all.subrange(0, directives.len() as int) == all);
        style.inherit();
        style
    }

    /// The color of a part.
    fn color(&self, target: &Themed) -> (r: &Option<(Component, String)>)
        ensures
            color_view(*r) == self@.color(*target),
    {
        match target {
            Themed::Container => &self.container,
            Themed::Time => &self.time,
            Themed::Text => &self.text,
            Themed::Border => &self.border,
            Themed::Title => &self.title,
            Themed::Greet => &self.greet,
            Themed::Prompt => &self.prompt,
            Themed::Input => &self.input,
            Themed::Action => &self.action,
            Themed::ActionButton => &self.button,
        }
    }

    /// Applies the color of a part to a style.
    pub fn apply(&self, style: Style, target: &Themed) -> (r: Style)
        ensures
            r@ == self@.applied(style@, *target),
    {
        match self.color(target) {
            Some((Component::Fg, color)) => Style { fg: Some(color.clone()), bg: style.bg },
            Some((Component::Bg, color)) => Style { fg: style.fg, bg: Some(color.clone()) },
            None => style,
        }
    }

    /// The style of a piece of text that belongs to the given parts.
    pub fn of(&self, targets: &[Themed]) -> (r: Style)
        ensures
            r@ == self@.style_of(targets@),
    {
        let mut style = Style::default();
        let mut i: usize = 0;
        assert(targets@.subrange(0, 0) =~= Seq::<Themed>::empty());
        while i < targets.len()
            invariant
                i <= targets.len(),
                style@ == self@.style_of(targets@.subrange(0, i as int)),
            decreases targets.len() - i,
        {
            assert(targets@.subrange(0, i + 1).drop_last() == targets@.subrange(0, i as int));
            style = self.apply(style, &targets[i]);
            i += 1;
        }
        assert(targets@.subrange(0, targets.len() as int) == targets@);
        style
    }
}

} // verus!
