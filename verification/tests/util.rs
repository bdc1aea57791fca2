use ratatui::style::{Color, Style};
use ratatui::text::{Line, Span, Text};
use ratatui::widgets::{Paragraph, Wrap};
use tuigreet::config::options::CommandLine;
use tuigreet::greeter::{Greeter, Mode};
use tuigreet::masked::MaskedString;
use tuigreet::util::{
  buttonize, checked_greeting_height, checked_height, checked_message_height, checked_rect_bounds, get_cursor_offset, get_greeting_height, get_height, get_input_width,
  get_message_height, get_rect_bounds, input_fits, should_hide_cursor, titleize, Rect,
};

// +-----------+
// | Username: |
// +-----------+
#[test]
fn test_container_height_username_padding_zero() {
  let mut greeter = Greeter::default();
  greeter.opts = CommandLine {
    container_padding: Some("0".into()),
    ..Default::default()
  };
  greeter.mode = Mode::Username;

  assert_eq!(get_height(&greeter), 3);
}

// +-----------+
// |           |
// | Username: |
// |           |
// +-----------+
#[test]
fn test_container_height_username_padding_one() {
  let mut greeter = Greeter::default();
  greeter.opts = CommandLine {
    container_padding: Some("1".into()),
    ..Default::default()
  };
  greeter.mode = Mode::Username;

  assert_eq!(get_height(&greeter), 5);
}

// +-----------+
// |           |
// | Greeting  |
// |           |
// | Username: |
// |           |
// +-----------+
#[test]
fn test_container_height_username_greeting_padding_one() {
  let mut greeter = Greeter::default();
  greeter.opts = CommandLine {
    container_padding: Some("1".into()),
    ..Default::default()
  };
  greeter.greeting = Some("Hello".into());
  greeter.mode = Mode::Username;

  assert_eq!(get_height(&greeter), 7);
}

// +-----------+
// |           |
// | Greeting  |
// |           |
// | Username: |
// |           |
// | Password: |
// |           |
// +-----------+
#[test]
fn test_container_height_password_greeting_padding_one_prompt_padding_1() {
  let mut greeter = Greeter::default();
  greeter.opts = CommandLine {
    container_padding: Some("1".into()),
    ..Default::default()
  };
  greeter.greeting = Some("Hello".into());
  greeter.mode = Mode::Password;
  greeter.prompt = Some("Password:".into());

  assert_eq!(get_height(&greeter), 9);
}

// +-----------+
// |           |
// | Greeting  |
// |           |
// | Username: |
// | Password: |
// |           |
// +-----------+
#[test]
fn test_container_height_password_greeting_padding_one_prompt_padding_0() {
  let mut greeter = Greeter::default();
  greeter.opts = CommandLine {
    container_padding: Some("1".into()),
    prompt_padding: Some("0".into()),
    ..Default::default()
  };
  greeter.greeting = Some("Hello".into());
  greeter.mode = Mode::Password;
  greeter.prompt = Some("Password:".into());

  assert_eq!(get_height(&greeter), 8);
}

#[test]
fn test_rect_bounds() {
  let mut greeter = Greeter::default();
  greeter.opts = CommandLine {
    width: Some("50".into()),
    ..Default::default()
  };

  let (x, y, width, height) = get_rect_bounds(&greeter, Rect::new(0, 0, 100, 100), 1);

  assert_eq!(x, 25);
  assert_eq!(y, 47);
  assert_eq!(width, 50);
  assert_eq!(height, 6);
}

// | Username: __________________________ |
// <--------------------------------------> width 40 (padding 1)
//   <-------> prompt width 9
//             <------------------------> input width 26
#[test]
fn input_width() {
  let mut greeter = Greeter::default();
  greeter.opts = CommandLine {
    width: Some("40".into()),
    container_padding: Some("1".into()),
    ..Default::default()
  };

  let input_width = get_input_width(&greeter, 40, &Some("Username:".into()));

  assert_eq!(input_width, 26);
}

#[test]
fn greeting_height_one_line() {
  let mut greeter = Greeter::default();
  greeter.opts = CommandLine {
    width: Some("15".into()),
    container_padding: Some("1".into()),
    ..Default::default()
  };
  greeter.greeting = Some("Hello World".into());

  let (_, height) = get_greeting_height(&greeter, 1, 0);

  assert_eq!(height, 2);
}

#[test]
fn greeting_height_two_lines() {
  let mut greeter = Greeter::default();
  greeter.opts = CommandLine {
    width: Some("8".into()),
    container_padding: Some("1".into()),
    ..Default::default()
  };
  greeter.greeting = Some("Hello World".into());

  let (_, height) = get_greeting_height(&greeter, 1, 0);

  assert_eq!(height, 3);
}

#[test]
fn ansi_greeting_height_one_line() {
  let mut greeter = Greeter::default();
  greeter.opts = CommandLine {
    width: Some("15".into()),
    container_padding: Some("1".into()),
    ..Default::default()
  };
  greeter.greeting = Some("\x1b[31mHello\x1b[0m World".into());

  let (text, height) = get_greeting_height(&greeter, 1, 0);

  let expected = Paragraph::new(Text::from(vec![Line::from(vec![
    Span::styled("Hello", Style::default().fg(Color::Red)),
    Span::styled(" World", Style::reset()),
  ])]))
  .wrap(Wrap { trim: false });

  assert_eq!(text, Some(expected));
  assert_eq!(height, 2);
}

#[test]
fn ansi_greeting_height_two_lines() {
  let mut greeter = Greeter::default();
  greeter.opts = CommandLine {
    width: Some("8".into()),
    container_padding: Some("1".into()),
    ..Default::default()
  };
  greeter.greeting = Some("\x1b[31mHello\x1b[0m World".into());

  let (text, height) = get_greeting_height(&greeter, 1, 0);

  let expected = Paragraph::new(Text::from(vec![Line::from(vec![
    Span::styled("Hello", Style::default().fg(Color::Red)),
    Span::styled(" World", Style::reset()),
  ])]))
  .wrap(Wrap { trim: false });

  assert_eq!(text, Some(expected));
  assert_eq!(height, 3);
}

#[test]
fn greeting_height_without_greeting_is_the_fallback() {
  let greeter = Greeter::default();

  let (text, height) = get_greeting_height(&greeter, 1, 7);

  assert_eq!(text, None);
  assert_eq!(height, 7);
}

#[test]
fn message_height_counts_wrapped_lines() {
  let mut greeter = Greeter::default();
  greeter.opts = CommandLine {
    width: Some("14".into()),
    ..Default::default()
  };

  let (text, height) = get_message_height(&greeter, 2, 1);
  assert_eq!(text, None);
  assert_eq!(height, 1);

  greeter.message = Some("Hello World \n".into());

  let (text, height) = get_message_height(&greeter, 2, 1);
  assert_eq!(text, Some(Paragraph::new("Hello World").wrap(Wrap { trim: true })));
  assert_eq!(height, 4);

  greeter.opts.width = Some("20".into());

  let (_, height) = get_message_height(&greeter, 2, 1);
  assert_eq!(height, 3);

  let checked = checked_message_height(&greeter, 2, 1);
  assert_eq!(checked.map(|(_, height)| height), Some(3));
}

#[test]
fn message_height_needs_room() {
  let mut greeter = Greeter::default();
  greeter.opts = CommandLine {
    width: Some("3".into()),
    ..Default::default()
  };
  greeter.message = Some("Hello".into());

  assert!(checked_message_height(&greeter, 1, 1).is_none());

  greeter.opts.width = Some("20".into());

  assert!(checked_message_height(&greeter, 65535, 1).is_none());
  assert_eq!(checked_message_height(&greeter, 65534, 1).map(|(_, height)| height), Some(65535));
}

#[test]
fn settings_come_from_the_command_line_first() {
  let mut greeter = Greeter::default();

  assert_eq!(greeter.width(), 80);
  assert_eq!(greeter.window_padding(), 0);
  assert_eq!(greeter.container_padding(), 2);
  assert_eq!(greeter.prompt_padding(), 1);

  greeter.config.ui.width = Some(100);
  greeter.config.ui.window_padding = Some(3);
  greeter.config.ui.container_padding = Some(4);
  greeter.config.ui.prompt_padding = Some(5);

  assert_eq!(greeter.width(), 100);
  assert_eq!(greeter.window_padding(), 3);
  assert_eq!(greeter.container_padding(), 5);
  assert_eq!(greeter.prompt_padding(), 5);

  greeter.opts = CommandLine {
    width: Some("60".into()),
    window_padding: Some("1".into()),
    container_padding: Some("12".into()),
    prompt_padding: Some("0".into()),
    ..Default::default()
  };

  assert_eq!(greeter.width(), 60);
  assert_eq!(greeter.window_padding(), 1);
  assert_eq!(greeter.container_padding(), 13);
  assert_eq!(greeter.prompt_padding(), 0);

  greeter.opts = CommandLine {
    width: Some("wide".into()),
    window_padding: Some("-1".into()),
    container_padding: Some("65536".into()),
    prompt_padding: Some("".into()),
    ..Default::default()
  };

  assert_eq!(greeter.width(), 100);
  assert_eq!(greeter.window_padding(), 3);
  assert_eq!(greeter.container_padding(), 5);
  assert_eq!(greeter.prompt_padding(), 5);
}

#[test]
fn height_by_mode() {
  let mut greeter = Greeter::default();
  greeter.greeting = Some("Hello".into());

  for (mode, height) in [
    (Mode::Username, 7),
    (Mode::Action, 7),
    (Mode::Command, 5),
    (Mode::Password, 7),
    (Mode::Users, 6),
    (Mode::Sessions, 4),
    (Mode::Power, 4),
    (Mode::Processing, 4),
  ] {
    greeter.mode = mode;

    assert_eq!(get_height(&greeter), height);
    assert_eq!(checked_height(&greeter), Some(height));
  }
}

#[test]
fn height_that_does_not_fit_is_refused() {
  let mut greeter = Greeter::default();
  greeter.opts = CommandLine {
    container_padding: Some("32767".into()),
    ..Default::default()
  };

  assert_eq!(checked_height(&greeter), None);
  assert_eq!(checked_rect_bounds(&greeter, Rect::new(0, 0, 100, 100), 0), None);

  greeter.opts.container_padding = Some("32766".into());
  assert_eq!(checked_height(&greeter), Some(65535));
  assert_eq!(checked_rect_bounds(&greeter, Rect::new(0, 0, 100, 100), 1), None);

  greeter.mode = Mode::Sessions;
  assert_eq!(checked_height(&greeter), Some(65534));
  assert_eq!(checked_rect_bounds(&greeter, Rect::new(0, 0, 100, 100), 1), Some((10, 0, 80, 100)));
  assert_eq!(checked_rect_bounds(&greeter, Rect::new(0, 0, 100, 100), 2), None);

  let mut greeter = Greeter::default();
  greeter.greeting = Some("Hello".into());
  greeter.opts.width = Some("1".into());

  assert_eq!(checked_height(&greeter), None);
}

#[test]
fn lines_are_not_counted_at_a_width_beyond_the_limit() {
  let mut greeter = Greeter::default();
  greeter.greeting = Some("Hello World".into());
  greeter.message = Some("Hello".into());

  greeter.opts.width = Some("4098".into());
  assert_eq!(checked_greeting_height(&greeter, 1, 0).map(|(_, height)| height), Some(2));
  assert_eq!(checked_height(&greeter), Some(7));
  assert!(checked_greeting_height(&greeter, 0, 0).is_none());
  assert_eq!(checked_message_height(&greeter, 1, 1).map(|(_, height)| height), Some(2));

  greeter.opts.width = Some("4099".into());
  assert!(checked_greeting_height(&greeter, 1, 0).is_none());
  assert_eq!(checked_height(&greeter), None);
  assert_eq!(checked_message_height(&greeter, 1, 1).map(|(_, height)| height), Some(2));

  greeter.opts.width = Some("4101".into());
  assert!(checked_message_height(&greeter, 1, 1).is_none());
  assert_eq!(checked_greeting_height(&greeter, 3, 0).map(|(_, height)| height), Some(2));

  greeter.opts.width = Some("1".into());
  assert!(checked_greeting_height(&greeter, 1, 0).is_none());
  assert!(checked_greeting_height(&greeter, 0, 0).is_some());

  greeter.greeting = None;
  greeter.opts.width = Some("65535".into());
  assert_eq!(checked_greeting_height(&greeter, 9, 3).map(|(paragraph, height)| (paragraph.is_none(), height)), Some((true, 3)));
  assert_eq!(checked_height(&greeter), Some(5));
}

#[test]
fn rect_bounds_fill_a_small_area() {
  let greeter = Greeter::default();

  assert_eq!(get_rect_bounds(&greeter, Rect::new(0, 0, 200, 50), 0), (60, 22, 80, 5));
  assert_eq!(get_rect_bounds(&greeter, Rect::new(0, 0, 80, 5), 0), (0, 0, 80, 5));
  assert_eq!(get_rect_bounds(&greeter, Rect::new(0, 0, 40, 3), 0), (0, 0, 40, 3));
  assert_eq!(checked_rect_bounds(&greeter, Rect::new(0, 0, 200, 50), 3), Some((60, 21, 80, 8)));
}

#[test]
fn input_needs_room() {
  let mut greeter = Greeter::default();

  assert!(input_fits(&greeter, 5, &None));
  assert_eq!(get_input_width(&greeter, 5, &None), 0);
  assert!(!input_fits(&greeter, 4, &None));
  assert!(input_fits(&greeter, 14, &Some("Username:".into())));
  assert!(!input_fits(&greeter, 13, &Some("Username:".into())));

  greeter.opts.width = Some("13".into());
  assert!(!input_fits(&greeter, 80, &Some("Username:".into())));

  assert_eq!(greeter.checked_container_padding(), Some(2));
  greeter.opts.container_padding = Some("65534".into());
  assert_eq!(greeter.checked_container_padding(), Some(65535));
  greeter.opts.container_padding = Some("65535".into());
  assert_eq!(greeter.checked_container_padding(), None);
}

#[test]
fn input_width_takes_the_narrower_width() {
  let greeter = Greeter::default();

  assert_eq!(get_input_width(&greeter, 100, &None), 75);
  assert_eq!(get_input_width(&greeter, 40, &None), 35);
  assert_eq!(get_input_width(&greeter, 40, &Some("Mot de passe :".into())), 21);
}

#[test]
fn cursor_offset_is_clamped_to_the_text() {
  let mut greeter = Greeter::default();

  greeter.cursor_offset = -2;
  assert_eq!(get_cursor_offset(&mut greeter, 5), 3);
  assert_eq!(greeter.cursor_offset, -2);

  greeter.cursor_offset = -9;
  assert_eq!(get_cursor_offset(&mut greeter, 5), 0);
  assert_eq!(greeter.cursor_offset, -5);

  greeter.cursor_offset = 4;
  assert_eq!(get_cursor_offset(&mut greeter, 5), 5);
  assert_eq!(greeter.cursor_offset, 0);

  greeter.cursor_offset = -1;
  assert_eq!(get_cursor_offset(&mut greeter, 0), 0);
  assert_eq!(greeter.cursor_offset, 0);
}

#[test]
fn titles_and_buttons() {
  assert_eq!(titleize("Power options"), " Power options ");
  assert_eq!(titleize(""), "  ");
  assert_eq!(buttonize("Reset"), " Reset");
  assert_eq!(buttonize(""), " ");
}

#[test]
fn cursor_is_hidden_where_no_text_is_expected() {
  let mut greeter = Greeter::default();
  assert!(!should_hide_cursor(&greeter));

  greeter.working = true;
  assert!(should_hide_cursor(&greeter));
  greeter.working = false;

  greeter.done = true;
  assert!(should_hide_cursor(&greeter));
  greeter.done = false;

  greeter.user_menu = true;
  assert!(should_hide_cursor(&greeter));
  greeter.username = MaskedString::from("a".to_string(), None);
  assert!(!should_hide_cursor(&greeter));

  greeter.mode = Mode::Password;
  assert!(should_hide_cursor(&greeter));
  greeter.prompt = Some("Password: ".to_string());
  assert!(!should_hide_cursor(&greeter));

  greeter.mode = Mode::Command;
  assert!(!should_hide_cursor(&greeter));

  for mode in [Mode::Users, Mode::Sessions, Mode::Power, Mode::Processing, Mode::Action] {
    greeter.mode = mode;
    assert!(should_hide_cursor(&greeter));
  }
}
