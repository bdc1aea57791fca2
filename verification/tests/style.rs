use tuigreet::style::{Component, Style, Theme, Themed};

fn fg(name: &str) -> Option<(Component, String)> {
  Some((Component::Fg, name.to_string()))
}

#[test]
fn theme_of_nothing_is_plain() {
  let theme = Theme::parse("");

  assert_eq!(theme.container, None);
  assert_eq!(theme.time, None);
  assert_eq!(theme.text, None);
  assert_eq!(theme.border, None);
  assert_eq!(theme.title, None);
  assert_eq!(theme.greet, None);
  assert_eq!(theme.prompt, None);
  assert_eq!(theme.input, None);
  assert_eq!(theme.action, None);
  assert_eq!(theme.button, None);

  let default = Theme::default();
  assert_eq!(default.container, None);
  assert_eq!(default.button, None);
}

#[test]
fn theme_sets_each_part() {
  let theme = Theme::parse(
    "container=black;time=red;text=green;border=yellow;title=blue;greet=magenta;prompt=cyan;input=gray;action=white;button=darkgray",
  );

  assert_eq!(theme.container, Some((Component::Bg, "black".to_string())));
  assert_eq!(theme.time, fg("red"));
  assert_eq!(theme.text, fg("green"));
  assert_eq!(theme.border, fg("yellow"));
  assert_eq!(theme.title, fg("blue"));
  assert_eq!(theme.greet, fg("magenta"));
  assert_eq!(theme.prompt, fg("cyan"));
  assert_eq!(theme.input, fg("gray"));
  assert_eq!(theme.action, fg("white"));
  assert_eq!(theme.button, fg("darkgray"));
}

#[test]
fn theme_parts_inherit() {
  let theme = Theme::parse("text=green;border=#ff0000;action=12");

  assert_eq!(theme.time, fg("green"));
  assert_eq!(theme.greet, fg("green"));
  assert_eq!(theme.title, fg("#ff0000"));
  assert_eq!(theme.button, fg("12"));
  assert_eq!(theme.prompt, None);
  assert_eq!(theme.input, None);
  assert_eq!(theme.container, None);
}

#[test]
fn theme_ignores_what_it_does_not_understand() {
  let theme = Theme::parse("text=notacolor;unknown=red;border;=red;prompt=light blue;input==red;;greet=red=blue");

  assert_eq!(theme.text, None);
  assert_eq!(theme.border, None);
  assert_eq!(theme.prompt, fg("light blue"));
  assert_eq!(theme.input, None);
  assert_eq!(theme.greet, None);
}

#[test]
fn theme_takes_no_color_from_a_number_sign_with_other_than_ascii() {
  let theme = Theme::parse("text=#a\u{e9}234;border=#\u{e9}\u{e9}\u{e9};prompt=#\u{e9}12345;input=#00ff7f;greet=\u{e9}");

  assert_eq!(theme.text, None);
  assert_eq!(theme.border, None);
  assert_eq!(theme.prompt, None);
  assert_eq!(theme.input, fg("#00ff7f"));
  assert_eq!(theme.greet, None);
}

#[test]
fn theme_takes_the_last_directive() {
  let theme = Theme::parse("text=red;text=blue;text=nope");

  assert_eq!(theme.text, fg("blue"));
}

#[test]
fn style_of_parts() {
  let theme = Theme::parse("container=black;text=green;prompt=cyan");

  let style = theme.of(&[]);
  assert_eq!(style.fg, None);
  assert_eq!(style.bg, None);

  let style = theme.of(&[Themed::Container]);
  assert_eq!(style.fg, None);
  assert_eq!(style.bg, Some("black".to_string()));

  let style = theme.of(&[Themed::Container, Themed::Text, Themed::Input, Themed::Prompt]);
  assert_eq!(style.fg, Some("cyan".to_string()));
  assert_eq!(style.bg, Some("black".to_string()));

  let style = theme.of(&[Themed::Prompt, Themed::Text]);
  assert_eq!(style.fg, Some("green".to_string()));

  let style = theme.of(&[Themed::Border, Themed::Title, Themed::Action, Themed::ActionButton]);
  assert_eq!(style.fg, None);
  assert_eq!(style.bg, None);
}

#[test]
fn apply_keeps_what_it_does_not_set() {
  let theme = Theme::parse("container=black;time=red");

  let style = Style {
    fg: Some("white".to_string()),
    bg: Some("blue".to_string()),
  };
  let style = theme.apply(style, &Themed::Container);
  assert_eq!(style.fg, Some("white".to_string()));
  assert_eq!(style.bg, Some("black".to_string()));

  let style = theme.apply(style, &Themed::Time);
  assert_eq!(style.fg, Some("red".to_string()));
  assert_eq!(style.bg, Some("black".to_string()));

  let style = theme.apply(style, &Themed::Greet);
  assert_eq!(style.fg, Some("red".to_string()));

  let style = Style::default();
  assert_eq!(style.fg, None);
  assert_eq!(style.bg, None);
}
