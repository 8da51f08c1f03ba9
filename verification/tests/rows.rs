use navipod::rows::{create_table, push_decimal, RowRecord};

#[test]
fn decimal_numerals() {
    let cases: Vec<(usize, &str)> = vec![
        (0, "0"),
        (1, "1"),
        (9, "9"),
        (10, "10"),
        (11, "11"),
        (30, "30"),
        (99, "99"),
        (100, "100"),
        (101, "101"),
        (4096, "4096"),
        (1234567890, "1234567890"),
    ];
    for (n, text) in cases {
        let mut out = String::new();
        push_decimal(&mut out, n);
        assert_eq!(out, text);
    }
}

#[test]
fn decimal_of_largest_number() {
    let mut out = String::new();
    push_decimal(&mut out, usize::MAX);
    assert_eq!(out, format!("{}", usize::MAX));
}

#[test]
fn decimal_is_appended() {
    let mut out = String::from("row-");
    push_decimal(&mut out, 42);
    assert_eq!(out, "row-42");
    push_decimal(&mut out, 7);
    assert_eq!(out, "row-427");
}

#[test]
fn decimal_agrees_with_formatting() {
    for n in 0..2000usize {
        let mut out = String::new();
        push_decimal(&mut out, n);
        assert_eq!(out, format!("{}", n));
    }
}

#[test]
fn table_rows_are_numbered_from_one() {
    let rows = create_table(5);
    assert_eq!(rows.len(), 5);
    for (i, row) in rows.iter().enumerate() {
        let fields = row.fields();
        assert_eq!(fields.len(), 3);
        assert_eq!(fields[0], format!("replicaname-{}", i + 1));
        assert_eq!(fields[1], "10/10");
        assert_eq!(fields[2], "20/20");
    }
}

#[test]
fn table_of_thirty_rows_ends_at_thirty() {
    let rows = create_table(30);
    assert_eq!(rows.len(), 30);
    assert_eq!(rows[0].fields()[0], "replicaname-1");
    assert_eq!(rows[9].fields()[0], "replicaname-10");
    assert_eq!(rows[29].fields()[0], "replicaname-30");
}

#[test]
fn table_of_no_rows_is_empty() {
    assert!(create_table(0).is_empty());
}

#[test]
fn record_keeps_its_fields() {
    let record = RowRecord::new(vec![String::from("name"), String::from("1/2")]);
    assert_eq!(record.fields(), &vec![String::from("name"), String::from("1/2")]);
    let empty = RowRecord::new(Vec::new());
    assert!(empty.fields().is_empty());
    assert_eq!(record.clone(), record);
    assert_ne!(record, empty);
}
