use date_type_detector::Catalog;
use date_type_detector::CellValue;
use date_type_detector::Column;
use date_type_detector::DeclaredType;
use date_type_detector::analyze_dataframe;
use date_type_detector::evaluate_column;

fn text(s: &str) -> CellValue {
    CellValue::Text(s.to_string())
}

fn text_column(name: &str, values: Vec<CellValue>) -> Column {
    Column { name: name.to_string(), declared: DeclaredType::GenericText, values }
}

#[test]
fn scenario_all_dates_is_true() {
    let catalog = Catalog::new();
    let table = vec![text_column(
        "dates",
        vec![text("2023-01-15"), text("2023-02-20"), text("2023-03-25")],
    )];
    let results = analyze_dataframe(&table, &catalog);
    assert_eq!(results.len(), 1);
    assert_eq!(results[0].0, "dates");
    assert_eq!(results[0].1, true);
}

#[test]
fn scenario_one_bad_string_is_false() {
    let catalog = Catalog::new();
    let table = vec![text_column(
        "mixed",
        vec![text("2023-01-15"), text("not a date"), text("2023-03-25")],
    )];
    let results = analyze_dataframe(&table, &catalog);
    assert_eq!(results.len(), 1);
    assert_eq!(results[0].0, "mixed");
    assert_eq!(results[0].1, false);
}

#[test]
fn scenario_numeric_column_is_absent() {
    let catalog = Catalog::new();
    let table = vec![Column {
        name: "numbers".to_string(),
        declared: DeclaredType::Typed,
        values: vec![CellValue::Other, CellValue::Other, CellValue::Other],
    }];
    let results = analyze_dataframe(&table, &catalog);
    assert_eq!(results.len(), 0);
}

#[test]
fn scenario_blank_entries_are_ignored() {
    let catalog = Catalog::new();
    let table = vec![text_column(
        "timestamps",
        vec![text("2023-01-15 10:30:00"), text(""), text("  "), text("2023-02-20 09:00:00")],
    )];
    let results = analyze_dataframe(&table, &catalog);
    assert_eq!(results.len(), 1);
    assert_eq!(results[0].1, true);
}

#[test]
fn scenario_all_missing_is_false() {
    let catalog = Catalog::new();
    let table = vec![text_column("empty", vec![])];
    let results = analyze_dataframe(&table, &catalog);
    assert_eq!(results.len(), 1);
    assert_eq!(results[0].0, "empty");
    assert_eq!(results[0].1, false);
}

#[test]
fn scenario_non_string_disqualifies() {
    let catalog = Catalog::new();
    let table = vec![text_column("partly", vec![CellValue::Other, text("2023-01-15")])];
    let results = analyze_dataframe(&table, &catalog);
    assert_eq!(results.len(), 1);
    assert_eq!(results[0].1, false);
}

#[test]
fn non_string_disqualifies_at_any_position() {
    let catalog = Catalog::new();
    let date = || text("2023-01-15");
    let first = vec![CellValue::Other, date(), date()];
    let middle = vec![date(), CellValue::Other, date()];
    let last = vec![date(), date(), CellValue::Other];
    assert_eq!(evaluate_column(&first, &catalog), false);
    assert_eq!(evaluate_column(&middle, &catalog), false);
    assert_eq!(evaluate_column(&last, &catalog), false);
}

#[test]
fn unparsable_string_disqualifies_at_any_position() {
    let catalog = Catalog::new();
    let date = || text("2023-01-15");
    let first = vec![text("garbage text"), date(), date()];
    let middle = vec![date(), text("garbage text"), date()];
    let last = vec![date(), date(), text("garbage text")];
    assert_eq!(evaluate_column(&first, &catalog), false);
    assert_eq!(evaluate_column(&middle, &catalog), false);
    assert_eq!(evaluate_column(&last, &catalog), false);
}

#[test]
fn all_blank_column_is_false() {
    let catalog = Catalog::new();
    let values = vec![text(""), text("   "), text("\t")];
    assert_eq!(evaluate_column(&values, &catalog), false);
}

#[test]
fn inserting_a_blank_does_not_change_the_verdict() {
    let catalog = Catalog::new();
    let without = vec![text("2023-01-15"), text("2023-02-20")];
    let with_blank = vec![text("2023-01-15"), text("  "), text("2023-02-20")];
    assert_eq!(evaluate_column(&without, &catalog), evaluate_column(&with_blank, &catalog));

    let bad_without = vec![text("2023-01-15"), text("nope!")];
    let bad_with_blank = vec![text("2023-01-15"), text(""), text("nope!")];
    assert_eq!(
        evaluate_column(&bad_without, &catalog),
        evaluate_column(&bad_with_blank, &catalog),
    );
}

#[test]
fn whitespace_around_dates_is_trimmed_before_classifying() {
    let catalog = Catalog::new();
    let values = vec![text("  2023-01-15  "), text("\t2023-02-20\n")];
    assert_eq!(evaluate_column(&values, &catalog), true);
}

#[test]
fn evaluating_twice_yields_identical_mappings() {
    let catalog = Catalog::new();
    let table = vec![
        text_column("good", vec![text("2023-01-15")]),
        text_column("bad", vec![text("nope")]),
        Column {
            name: "numbers".to_string(),
            declared: DeclaredType::Typed,
            values: vec![CellValue::Other],
        },
    ];
    let first = analyze_dataframe(&table, &catalog);
    let second = analyze_dataframe(&table, &catalog);
    assert_eq!(first, second);
}

#[test]
fn typed_column_of_date_strings_is_still_absent() {
    let catalog = Catalog::new();
    let table = vec![Column {
        name: "typed_dates".to_string(),
        declared: DeclaredType::Typed,
        values: vec![text("2023-01-15"), text("2023-02-20")],
    }];
    let results = analyze_dataframe(&table, &catalog);
    assert_eq!(results.len(), 0);
}

#[test]
fn mixed_table_reports_generic_text_columns_in_order() {
    let catalog = Catalog::new();
    let table = vec![
        text_column("a", vec![text("2023-01-15")]),
        Column {
            name: "b".to_string(),
            declared: DeclaredType::Typed,
            values: vec![CellValue::Other],
        },
        text_column("c", vec![text("hello there")]),
    ];
    let results = analyze_dataframe(&table, &catalog);
    assert_eq!(results.len(), 2);
    assert_eq!(results[0].0, "a");
    assert_eq!(results[0].1, true);
    assert_eq!(results[1].0, "c");
    assert_eq!(results[1].1, false);
}
