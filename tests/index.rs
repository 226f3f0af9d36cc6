use rm_rime::index::{parse_candidate_index, parse_index};

#[test]
fn digits_are_accepted() {
    assert_eq!(parse_candidate_index("0"), Some(0));
    assert_eq!(parse_candidate_index("7"), Some(7));
    assert_eq!(parse_candidate_index("042"), Some(42));
    assert_eq!(parse_candidate_index("+3"), Some(3));
}

#[test]
fn surrounding_white_space_is_ignored() {
    assert_eq!(parse_candidate_index(" 12\n"), Some(12));
    assert_eq!(parse_candidate_index("\t5\u{3000}"), Some(5));
}

#[test]
fn non_numbers_are_rejected() {
    assert_eq!(parse_candidate_index(""), None);
    assert_eq!(parse_candidate_index("   "), None);
    assert_eq!(parse_candidate_index("abc"), None);
    assert_eq!(parse_candidate_index("-1"), None);
    assert_eq!(parse_candidate_index("1 2"), None);
    assert_eq!(parse_candidate_index("+"), None);
    assert_eq!(parse_candidate_index("1.5"), None);
}

#[test]
fn largest_index_and_overflow() {
    let max = usize::MAX.to_string();
    assert_eq!(parse_index(&max), Some(usize::MAX));
    let over = format!("{max}0");
    assert_eq!(parse_index(&over), None);
    assert_eq!(parse_index("99999999999999999999999"), None);
}

#[test]
fn parse_matches_std_on_samples() {
    for s in ["0", "10", "+10", "abc", "", "00", "1a", "a1", "++1", " 1"] {
        assert_eq!(parse_index(s), s.parse::<usize>().ok(), "input {s:?}");
    }
}
