use dysk::csv::Csv;

#[test]
fn test_csv() {
    let mut csv = Csv::new(';');
    csv.cell("1;2;3");
    csv.cell("\"");
    csv.cell("");
    csv.end_line();
    csv.cell("3");
    let s = csv.output();
    assert_eq!(
        s,
        r#""1;2;3";"""";;
3;"#,
    );
}

#[test]
fn csv_plain_cell_stays_unquoted() {
    let mut csv = Csv::new(',');
    csv.cell("abc");
    assert_eq!(csv.output(), "abc,");
}

#[test]
fn csv_cell_with_separator_is_quoted() {
    let mut csv = Csv::new(';');
    csv.cell("1;2;3");
    assert_eq!(csv.output(), "\"1;2;3\";");
}

#[test]
fn csv_cell_with_newline_is_quoted() {
    let mut csv = Csv::new(',');
    csv.cell("a\nb");
    assert_eq!(csv.output(), "\"a\nb\",");
}

#[test]
fn csv_inner_quotes_are_doubled() {
    let mut csv = Csv::new(',');
    csv.cell("a\"b");
    assert_eq!(csv.output(), "\"a\"\"b\",");
}

#[test]
fn csv_cell_opt_none_leaves_cell_empty() {
    let mut csv = Csv::new(',');
    csv.cell_opt(None);
    csv.cell_opt(Some("x"));
    csv.end_line();
    assert_eq!(csv.output(), ",x,\n");
}
