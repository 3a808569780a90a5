use min_colored::color::Color;

const ALL: [Color; 16] = [
    Color::Black,
    Color::Red,
    Color::Green,
    Color::Yellow,
    Color::Blue,
    Color::Magenta,
    Color::Cyan,
    Color::White,
    Color::BrightBlack,
    Color::BrightRed,
    Color::BrightGreen,
    Color::BrightYellow,
    Color::BrightBlue,
    Color::BrightMagenta,
    Color::BrightCyan,
    Color::BrightWhite,
];

#[test]
fn fg_codes_of_each_color() {
    let expected = [
        "30", "31", "32", "33", "34", "35", "36", "37", "90", "91", "92", "93", "94", "95", "96",
        "97",
    ];
    for (c, e) in ALL.iter().zip(expected.iter()) {
        assert_eq!(c.to_fg_str(), *e);
    }
}

#[test]
fn fg_codes_are_distinct_numeric_and_complete() {
    let mut codes: Vec<u32> = Vec::new();
    for c in ALL.iter() {
        let s = c.to_fg_str();
        assert!(!s.is_empty());
        assert!(s.chars().all(|ch| ch.is_ascii_digit()));
        codes.push(s.parse().unwrap());
    }
    let mut sorted = codes.clone();
    sorted.sort();
    sorted.dedup();
    assert_eq!(sorted.len(), 16);
    let wanted: Vec<u32> = (30..=37).chain(90..=97).collect();
    assert_eq!(sorted, wanted);
}

#[test]
fn fg_code_is_stable_across_calls() {
    for c in ALL.iter() {
        assert_eq!(c.to_fg_str(), c.to_fg_str());
    }
    assert_eq!(Color::BrightRed.to_fg_str(), "91");
    assert_eq!(Color::BrightRed.to_fg_str(), "91");
}

#[test]
fn colors_compare_by_variant() {
    let a = Color::Cyan;
    let b = a;
    assert!(a == b);
    assert!(Color::Cyan != Color::BrightCyan);
}

#[test]
fn fg_code_composes_into_escape_sequence() {
    let seq = format!("\x1b[{}m", Color::Green.to_fg_str());
    assert_eq!(seq, "\x1b[32m");
}
