use lord::name::determine_character_name;
use lord::name::format_candidate;
use lord::render::padding_for_text;
use lord::render::render_screensaver_frame;
use lord::text::parse_usize;
use lord::text::to_ascii_lower;
use lord::text::trim_str;

#[test]
fn candidate_formats_to_title_case() {
    assert_eq!(format_candidate("MY-HOST_name"), "My Host Name");
}

#[test]
fn candidate_words_are_capitalized() {
    assert_eq!(format_candidate("my"), "My");
    assert_eq!(format_candidate("HOST"), "Host");
    assert_eq!(format_candidate("  spaced   out  "), "Spaced Out");
    assert_eq!(format_candidate("a_b-c"), "A B C");
}

#[test]
fn blank_candidates_format_to_nothing() {
    assert_eq!(format_candidate(""), "");
    assert_eq!(format_candidate("   "), "");
    assert_eq!(format_candidate("-_-"), "");
}

#[test]
fn first_usable_candidate_wins() {
    let candidates = vec![
        String::from("  "),
        String::from("__"),
        String::from("node-7"),
        String::from("operator"),
    ];
    assert_eq!(determine_character_name(&candidates), "Node 7");
}

#[test]
fn unusable_candidates_fall_back_to_traveler() {
    assert_eq!(determine_character_name(&Vec::new()), "Traveler");
    let blank = vec![String::from(""), String::from(" \t ")];
    assert_eq!(determine_character_name(&blank), "Traveler");
}

#[test]
fn trim_removes_surrounding_whitespace() {
    assert_eq!(trim_str("  x  "), "x");
    assert_eq!(trim_str("\tword\n"), "word");
    assert_eq!(trim_str("   "), "");
    assert_eq!(trim_str("inner space"), "inner space");
}

#[test]
fn lowercasing_touches_only_ascii_letters() {
    assert_eq!(to_ascii_lower('G'), 'g');
    assert_eq!(to_ascii_lower('g'), 'g');
    assert_eq!(to_ascii_lower('7'), '7');
}

#[test]
fn selection_numbers_parse_like_usize() {
    assert_eq!(parse_usize("1"), Some(1));
    assert_eq!(parse_usize("007"), Some(7));
    assert_eq!(parse_usize("+5"), Some(5));
    assert_eq!(parse_usize(""), None);
    assert_eq!(parse_usize("+"), None);
    assert_eq!(parse_usize("-1"), None);
    assert_eq!(parse_usize("abc"), None);
    assert_eq!(parse_usize("1a"), None);
    assert_eq!(parse_usize("18446744073709551615"), Some(usize::MAX));
    assert_eq!(parse_usize("18446744073709551616"), None);
}

#[test]
fn padding_centers_short_text() {
    assert_eq!(padding_for_text("ab"), " ".repeat(29));
    assert_eq!(padding_for_text(""), " ".repeat(30));
    assert_eq!(padding_for_text(&"x".repeat(60)), "");
    assert_eq!(padding_for_text(&"x".repeat(61)), "");
}

#[test]
fn screensaver_frame_has_fixed_shape() {
    let frame = render_screensaver_frame(0);
    let lines: Vec<&str> = frame.lines().collect();
    assert_eq!(lines.len(), 14);
    for line in &lines {
        assert_eq!(line.chars().count(), 50);
    }
}

#[test]
fn screensaver_noise_follows_the_formula() {
    let frame = render_screensaver_frame(3);
    let lines: Vec<&str> = frame.lines().collect();
    for (y, line) in lines.iter().enumerate() {
        for (x, ch) in line.chars().enumerate() {
            let v = (x * 13 + y * 7 + 3 * 5) % 97;
            let expected = match v {
                0..=10 => '.',
                11..=25 => '*',
                26..=40 => 'o',
                41..=55 => '+',
                56..=70 => ' ',
                71..=85 => '~',
                _ => '-',
            };
            assert_eq!(ch, expected);
        }
    }
}

#[test]
fn frames_differ_over_time() {
    assert_ne!(render_screensaver_frame(0), render_screensaver_frame(1));
}
