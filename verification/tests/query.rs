use gimoji::colors::resolve_color_scheme;
use gimoji::colors::scheme_from_name;
use gimoji::colors::Color;
use gimoji::colors::ColorScheme;
use gimoji::colors::Colors;
use gimoji::emoji::Emoji;
use gimoji::search_entry::SearchEntry;

#[test]
fn query_edit_sequence() {
    let colors = Colors::dark();
    let mut entry = SearchEntry::new(&colors);
    assert_eq!(entry.text(), "");
    entry.append('a');
    entry.append('r');
    entry.append('t');
    assert_eq!(entry.text(), "art");
    entry.delete_last();
    assert_eq!(entry.text(), "ar");
    entry.delete_all();
    assert_eq!(entry.text(), "");
}

#[test]
fn delete_last_on_empty_is_a_no_op() {
    let colors = Colors::dark();
    let mut entry = SearchEntry::new(&colors);
    entry.delete_last();
    assert_eq!(entry.text(), "");
}

#[test]
fn append_accepts_multibyte_characters() {
    let colors = Colors::dark();
    let mut entry = SearchEntry::new(&colors);
    entry.append('\u{1F3A8}');
    entry.append('x');
    assert_eq!(entry.text(), "\u{1F3A8}x");
    entry.delete_last();
    assert_eq!(entry.text(), "\u{1F3A8}");
    entry.delete_last();
    assert_eq!(entry.text(), "");
}

#[test]
fn display_text_shows_placeholder_when_empty() {
    let colors = Colors::dark();
    let mut entry = SearchEntry::new(&colors);
    let (text, dim) = entry.display_text();
    assert_eq!(text, "Use arrow keys or type to search");
    assert!(dim);
    entry.append('q');
    let (text, dim) = entry.display_text();
    assert_eq!(text, "q");
    assert!(!dim);
}

#[test]
fn case_insensitive_match_agrees_across_cases() {
    let record = Emoji::new(
        ":art:".to_string(),
        "Improve structure".to_string(),
        "\u{1F3A8}".to_string(),
        "&#x1f3a8;".to_string(),
        "art".to_string(),
    );
    let upper = regex::RegexBuilder::new("ART")
        .case_insensitive(true)
        .build()
        .unwrap();
    let lower = regex::RegexBuilder::new("art")
        .case_insensitive(true)
        .build()
        .unwrap();
    assert_eq!(record.contains(&upper), record.contains(&lower));
    assert!(record.contains(&upper));

    let other = Emoji::new(
        ":zap:".to_string(),
        "Improve performance".to_string(),
        "\u{26A1}".to_string(),
        "&#x26a1;".to_string(),
        "zap".to_string(),
    );
    // A pattern that occurs in no field agrees across cases as well.
    let narrow_upper = regex::RegexBuilder::new("ZAPX")
        .case_insensitive(true)
        .build()
        .unwrap();
    let narrow_lower = regex::RegexBuilder::new("zapx")
        .case_insensitive(true)
        .build()
        .unwrap();
    assert_eq!(other.contains(&narrow_upper), other.contains(&narrow_lower));
    assert!(!other.contains(&narrow_upper));
}

#[test]
fn palettes_name_their_colors() {
    let light = Colors::light();
    assert_eq!(light.selected, Color::Green);
    assert_eq!(light.unselected, Color::DarkGray);
    assert_eq!(light.border, Color::DarkGray);
    let dark = Colors::dark();
    assert_eq!(dark.selected, Color::Green);
    assert_eq!(dark.unselected, Color::White);
    assert_eq!(dark.border, Color::White);
}

#[test]
fn scheme_converts_to_its_palette() {
    assert_eq!(Colors::from(ColorScheme::Light), Colors::light());
    assert_eq!(Colors::from(ColorScheme::Dark), Colors::dark());
}

#[test]
fn scheme_precedence_order() {
    let env = Some(ColorScheme::Light);
    let arg = Some(ColorScheme::Dark);
    let detected = Some(ColorScheme::Light);
    assert_eq!(resolve_color_scheme(env, arg, detected), ColorScheme::Light);
    assert_eq!(resolve_color_scheme(None, arg, detected), ColorScheme::Dark);
    assert_eq!(
        resolve_color_scheme(None, None, detected),
        ColorScheme::Light
    );
    assert_eq!(resolve_color_scheme(None, None, None), ColorScheme::Dark);
}

#[test]
fn scheme_names_parse() {
    assert_eq!(scheme_from_name("light"), Some(ColorScheme::Light));
    assert_eq!(scheme_from_name("dark"), Some(ColorScheme::Dark));
    assert_eq!(scheme_from_name("Light"), None);
    assert_eq!(scheme_from_name(""), None);
}
