use date_type_detector::Catalog;
use date_type_detector::is_potential_datetime_str;
use date_type_detector::load_patterns;
use date_type_detector::trim;

#[test]
fn trim_removes_surrounding_whitespace() {
    assert_eq!(trim("  2023-01-15 \t"), "2023-01-15");
    assert_eq!(trim("no change"), "no change");
    assert_eq!(trim(" \t\r\n"), "");
    assert_eq!(trim(""), "");
}

#[test]
fn load_patterns_trims_and_drops_blank_lines() {
    let pats = load_patterns("  %Y-%m-%d \n\n   \n%Y/%m/%d\n");
    assert_eq!(pats.len(), 2);
    assert_eq!(pats[0], "%Y-%m-%d");
    assert_eq!(pats[1], "%Y/%m/%d");
}

#[test]
fn load_patterns_of_empty_text_is_empty() {
    let pats = load_patterns("");
    assert_eq!(pats.len(), 0);
}

#[test]
fn catalog_holds_both_pattern_lists() {
    let catalog = Catalog::new();
    assert!(catalog.date_patterns.len() > 0);
    assert!(catalog.datetime_patterns.len() > 0);
    assert_eq!(catalog.date_patterns[0], "%Y-%m-%d");
    assert_eq!(catalog.datetime_patterns[0], "%Y-%m-%d %H:%M:%S");
}

#[test]
fn iso_date_is_potential_datetime() {
    let catalog = Catalog::new();
    assert!(is_potential_datetime_str("2023-01-15", &catalog));
}

#[test]
fn plain_text_is_not_potential_datetime() {
    let catalog = Catalog::new();
    assert!(!is_potential_datetime_str("not a date", &catalog));
}

#[test]
fn datetime_with_space_separator_matches() {
    let catalog = Catalog::new();
    assert!(is_potential_datetime_str("2023-01-15 10:30:00", &catalog));
}

#[test]
fn datetime_with_t_separator_matches() {
    let catalog = Catalog::new();
    assert!(is_potential_datetime_str("2023-01-15T10:30:00", &catalog));
}

#[test]
fn abbreviated_month_name_matches() {
    let catalog = Catalog::new();
    assert!(is_potential_datetime_str("15 Jan 2023", &catalog));
}

#[test]
fn full_month_name_matches() {
    let catalog = Catalog::new();
    assert!(is_potential_datetime_str("January 15, 2023", &catalog));
}

#[test]
fn slash_separated_date_matches() {
    let catalog = Catalog::new();
    assert!(is_potential_datetime_str("02/15/2023", &catalog));
}

#[test]
fn calendar_invalid_date_is_rejected() {
    // shaped like a date, but no such calendar day exists
    let catalog = Catalog::new();
    assert!(!is_potential_datetime_str("2023-02-30", &catalog));
}

#[test]
fn short_strings_are_never_datetime() {
    let catalog = Catalog::new();
    assert!(!is_potential_datetime_str("1-2-3", &catalog));
    assert!(!is_potential_datetime_str("12345", &catalog));
    assert!(!is_potential_datetime_str("", &catalog));
}

#[test]
fn numeric_token_is_rejected() {
    let catalog = Catalog::new();
    assert!(!is_potential_datetime_str("123456789", &catalog));
}
