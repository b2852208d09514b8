use hayagriva::display::{DisplayString, FormatVariantOptions, Formatting};
use hayagriva::lang::en::{digits_text, format_range, get_month_abbr, get_ordinal, number_text};
use hayagriva::lang::language_name;
use hayagriva::text::contains_text;
use hayagriva::types::{NumOrStr, NumRange};

#[test]
fn numbers_are_written_in_decimal() {
    assert_eq!(number_text(0), "0");
    assert_eq!(number_text(7), "7");
    assert_eq!(number_text(10), "10");
    assert_eq!(number_text(2024), "2024");
    assert_eq!(number_text(-1), "-1");
    assert_eq!(number_text(-120), "-120");
    assert_eq!(number_text(i64::MAX), "9223372036854775807");
    assert_eq!(number_text(i64::MIN), "-9223372036854775808");
    assert_eq!(digits_text(u64::MAX), "18446744073709551615");
    assert_eq!(NumOrStr::Number(42).to_text(), "42");
    assert_eq!(NumOrStr::Str("IV".to_string()).to_text(), "IV");
}

#[test]
fn ordinals_end_by_their_last_digits() {
    let written: Vec<String> =
        [0, 1, 2, 3, 4, 10, 11, 12, 13, 14, 21, 22, 23, 101, 111, 112, 113, 121, -1, -11]
            .iter()
            .map(|n| get_ordinal(*n))
            .collect();
    assert_eq!(
        written,
        [
            "0th", "1st", "2nd", "3rd", "4th", "10th", "11th", "12th", "13th", "14th", "21st",
            "22nd", "23rd", "101st", "111th", "112th", "113th", "121st", "-1st", "-11th"
        ]
    );
}

#[test]
fn months_are_abbreviated() {
    let with_period: Vec<String> = (0..12).map(|m| get_month_abbr(m, true).unwrap()).collect();
    assert_eq!(
        with_period,
        [
            "Jan.", "Feb.", "Mar.", "Apr.", "May", "June", "July", "Aug.", "Sept.", "Oct.",
            "Nov.", "Dec."
        ]
    );
    assert_eq!(get_month_abbr(0, false).unwrap(), "Jan");
    assert_eq!(get_month_abbr(8, false).unwrap(), "Sept");
    assert!(get_month_abbr(12, true).is_none());
    assert!(get_month_abbr(255, false).is_none());
}

#[test]
fn ranges_take_the_prefix_for_one_or_for_several() {
    assert_eq!(format_range("p.", "pp.", &NumRange { start: 5, end: 5 }), "p. 5");
    assert_eq!(format_range("p.", "pp.", &NumRange { start: 5, end: 12 }), "pp. 5–12");
    assert_eq!(format_range("", "", &NumRange { start: 5, end: 12 }), "5–12");
    assert_eq!(format_range("", "nos.", &NumRange { start: 1, end: 2 }), "nos.1–2");
    assert_eq!(format_range("", "", &NumRange { start: -3, end: -3 }), "-3");
}

#[test]
fn languages_have_english_names() {
    assert_eq!(language_name("de").unwrap(), "German");
    assert_eq!(language_name("en-US").unwrap(), "English");
    assert_eq!(language_name("zh-Hant-TW").unwrap(), "Chinese");
    assert!(language_name("yue").is_none());
    assert!(language_name("xx").is_none());
    assert!(language_name("und").is_none());
    assert!(language_name("not a tag").is_none());
    assert!(language_name("").is_none());
}

#[test]
fn parts_of_texts_are_found() {
    assert!(contains_text("arxiv:1234", "arxiv"));
    assert!(contains_text("see arxiv", "arxiv"));
    assert!(contains_text("arxiv", "arxiv"));
    assert!(contains_text("arxiv", ""));
    assert!(contains_text("", ""));
    assert!(!contains_text("arxi", "arxiv"));
    assert!(!contains_text("arXiv", "arxiv"));
    assert!(!contains_text("", "a"));
    assert!(contains_text("aab", "ab"));
}

#[test]
fn display_strings_keep_their_formats() {
    let mut text = DisplayString::new();
    assert!(text.is_empty());
    text.push_str("“é,” ");
    assert_eq!(text.len(), 10);
    text.start_format(FormatVariantOptions::Italic);
    text.push_str("Journal");
    text.start_format(FormatVariantOptions::Bold);
    text.push_str("!");
    assert!(text.formatting.is_empty());
    text.commit_formats();
    text.push_str(" end");
    assert_eq!(text.value, "“é,” Journal! end");
    assert_eq!(
        text.formatting,
        [
            Formatting { start: 10, end: 18, variant: FormatVariantOptions::Italic },
            Formatting { start: 17, end: 18, variant: FormatVariantOptions::Bold },
        ]
    );
    assert!(text.pending.is_empty());
    assert!(text.add_if_some(Some("x"), Some("("), Some(")")));
    assert!(!text.add_if_some(None, Some("("), Some(")")));
    assert!(text.add_if_some(Some("y"), None, None));
    assert_eq!(text.value, "“é,” Journal! end(x)y");
}
