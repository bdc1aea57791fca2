use tuigreet::numbers::{format_number, parse_u16, parse_u8, parse_unsigned, parse_usize};
use tuigreet::text::{
  clone_option, clone_strings, chain, is_space, contains_char, insert_at, remove_at, replace, replace_char, same_text, split, trim, trim_end, trim_end_char,
  trim_start,
};

#[test]
fn numbers_are_read_like_the_standard_library_reads_them() {
  for text in ["0", "7", "+7", "007", "65535", "65536", "", "+", "-1", "++1", "1 ", " 1", "1_000", "٣", "0x10", "99999999999999999999999"] {
    assert_eq!(parse_u16(text), text.parse::<u16>().ok(), "{:?}", text);
    assert_eq!(parse_u8(text), text.parse::<u8>().ok(), "{:?}", text);
    assert_eq!(parse_usize(text), text.parse::<usize>().ok(), "{:?}", text);
  }

  assert_eq!(parse_u16("65535"), Some(65535));
  assert_eq!(parse_u16("65536"), None);
  assert_eq!(parse_u8("255"), Some(255));
  assert_eq!(parse_u8("256"), None);
  assert_eq!(parse_usize("18446744073709551615"), "18446744073709551615".parse::<usize>().ok());
  assert_eq!(parse_usize("18446744073709551616"), None);
  assert_eq!(parse_unsigned("18446744073709551615", u64::MAX), Some(u64::MAX));
  assert_eq!(parse_unsigned("18446744073709551616", u64::MAX), None);
  assert_eq!(parse_unsigned("12", 11), None);
  assert_eq!(parse_unsigned("+0011", 11), Some(11));
}

#[test]
fn numbers_are_written_in_decimal() {
  assert_eq!(format_number(0), "0");
  assert_eq!(format_number(9), "9");
  assert_eq!(format_number(10), "10");
  assert_eq!(format_number(1204), "1204");
  assert_eq!(format_number(usize::MAX), usize::MAX.to_string());
}

#[test]
fn characters_are_inserted_and_removed_by_position() {
  assert_eq!(insert_at("", 0, 'a'), "a");
  assert_eq!(insert_at("bc", 0, 'a'), "abc");
  assert_eq!(insert_at("ac", 1, 'b'), "abc");
  assert_eq!(insert_at("ab", 2, 'c'), "abc");
  assert_eq!(insert_at("héé", 2, 'l'), "hélé");

  assert_eq!(remove_at("abc", 0), "bc");
  assert_eq!(remove_at("abc", 1), "ac");
  assert_eq!(remove_at("abc", 2), "ab");
  assert_eq!(remove_at("hélé", 1), "hlé");
}

#[test]
fn white_space_is_trimmed() {
  assert_eq!(trim("  a b \n\t"), "a b");
  assert_eq!(trim(""), "");
  assert_eq!(trim(" \u{a0}\u{2003}\r\n"), "");
  assert_eq!(trim("\u{3000}x\u{85}"), "x");
  assert_eq!(trim_end("  a b \n\t"), "  a b");
  assert_eq!(trim_end("\n"), "");
  assert_eq!(trim_start("  a b \n\t"), "a b \n\t");
  assert_eq!(trim_start("\u{200b}x"), "\u{200b}x");
}

#[test]
fn white_space_is_what_the_standard_library_takes_for_it() {
  let mut count = 0;

  for code in 0..=0x10ffff_u32 {
    if let Some(c) = char::from_u32(code) {
      assert_eq!(is_space(c), c.is_whitespace(), "U+{:04X}", code);

      if is_space(c) {
        count += 1;
      }
    }
  }

  assert_eq!(count, 25);
}

#[test]
fn characters_are_trimmed_and_replaced() {
  assert_eq!(trim_end_char("a::b::", ':'), "a::b");
  assert_eq!(trim_end_char(":::", ':'), "");
  assert_eq!(trim_end_char("", ':'), "");
  assert_eq!(trim_end_char(":a", ':'), ":a");

  assert_eq!(replace_char("a;b;;", ';', ':'), "a:b::");
  assert_eq!(replace_char("", ';', ':'), "");
  assert_eq!(replace_char("abc", ';', ':'), "abc");
}

#[test]
fn texts_are_replaced_like_the_standard_library_replaces_them() {
  for (text, from, to) in [
    ("", "a", "b"),
    ("aaa", "a", "b"),
    ("aaa", "aa", "b"),
    ("aaaa", "aa", "a"),
    ("abcabc", "bc", ""),
    ("abc", "abcd", "x"),
    ("abc", "abc", "xyz"),
    ("\\S and \\s", "\\S", "Linux"),
    ("ababa", "aba", "x"),
    ("héllo", "é", "ee"),
    ("abc", "", "x"),
  ] {
    let expected = if from.is_empty() { text.to_string() } else { text.replace(from, to) };

    assert_eq!(replace(text, from, to), expected, "{:?} {:?} {:?}", text, from, to);
  }
}

#[test]
fn texts_are_split_like_the_standard_library_splits_them() {
  for text in ["", " ", "a", "a b", " a  b ", "shutdown -h now", "::", "a:b:"] {
    for sep in [' ', ':'] {
      let expected: Vec<String> = text.split(sep).map(|piece| piece.to_string()).collect();

      assert_eq!(split(text, sep), expected, "{:?} {:?}", text, sep);
    }
  }
}

#[test]
fn small_helpers() {
  assert_eq!(chain("a", "b"), "ab");
  assert_eq!(chain("", ""), "");
  assert!(contains_char("A=B", '='));
  assert!(!contains_char("AB", '='));
  assert!(!contains_char("", '='));
  assert!(same_text("left", "left"));
  assert!(!same_text("left", "Left"));
  assert!(!same_text("left", "lef"));
  assert!(same_text("", ""));
  assert_eq!(clone_option(&Some("a".to_string())), Some("a".to_string()));
  assert_eq!(clone_option(&None), None);
  assert_eq!(clone_strings(&vec!["a".to_string(), "b".to_string()]), vec!["a".to_string(), "b".to_string()]);
}
