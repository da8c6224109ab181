use galvanizedb::table::{render, Cell, ColumnDescriptor, ResultSet, ValueKind};
use galvanizedb::text::{chars_of, format_integer, is_space_char, split_tokens, to_lower};

fn column(name: &str, kind: ValueKind) -> ColumnDescriptor {
    ColumnDescriptor { name: name.to_string(), kind }
}

fn people() -> ResultSet {
    let columns = vec![column("id", ValueKind::Integer), column("name", ValueKind::Text)];
    let rows = vec![
        vec![Cell::Integer(1), Cell::Text("alice".to_string())],
        vec![Cell::Integer(22), Cell::Text("bob".to_string())],
    ];
    ResultSet::new(columns, rows).expect("rectangular")
}

#[test]
fn empty_result_is_one_line() {
    let rs = ResultSet::new(vec![column("name", ValueKind::Text)], vec![]).expect("no rows");
    assert_eq!(render(&rs), vec!["No results found.".to_string()]);
}

#[test]
fn empty_result_without_columns_is_one_line() {
    let rs = ResultSet::new(vec![], vec![]).expect("nothing");
    assert_eq!(render(&rs), vec!["No results found.".to_string()]);
}

#[test]
fn table_is_drawn_exactly() {
    let expected = vec![
        "+----+-------+".to_string(),
        "| id | name  |".to_string(),
        "+----+-------+".to_string(),
        "| 1  | alice |".to_string(),
        "| 22 | bob   |".to_string(),
        "+----+-------+".to_string(),
    ];
    assert_eq!(render(&people()), expected);
}

#[test]
fn table_has_four_lines_more_than_rows() {
    let rs = people();
    assert_eq!(rs.row_count(), 2);
    assert_eq!(rs.column_count(), 2);
    assert_eq!(render(&rs).len(), 6);
}

#[test]
fn all_lines_are_equally_long() {
    let columns = vec![
        column("a", ValueKind::Text),
        column("long header", ValueKind::Integer),
        column("x", ValueKind::Unsupported),
    ];
    let rows = vec![
        vec![Cell::Text("some longer text".to_string()), Cell::Integer(-5), Cell::Absent],
        vec![Cell::Absent, Cell::Integer(123456789), Cell::Real("2.5".to_string())],
        vec![Cell::Text("".to_string()), Cell::Absent, Cell::Real("0.000001".to_string())],
    ];
    let lines = render(&ResultSet::new(columns, rows).expect("rectangular"));
    assert_eq!(lines.len(), 7);
    let width = lines[0].chars().count();
    assert_eq!(width, 1 + (16 + 3) + (11 + 3) + (16 + 3));
    for line in &lines {
        assert_eq!(line.chars().count(), width);
    }
}

#[test]
fn column_is_as_wide_as_its_longest_text() {
    let rs = ResultSet::new(
        vec![column("n", ValueKind::Text)],
        vec![vec![Cell::Text("abc".to_string())], vec![Cell::Text("abcdef".to_string())]],
    )
    .expect("rectangular");
    let lines = render(&rs);
    assert_eq!(lines[0], "+--------+");
    assert_eq!(lines[1], "| n      |");
    assert_eq!(lines[3], "| abc    |");
    assert_eq!(lines[4], "| abcdef |");
}

#[test]
fn column_is_as_wide_as_its_name() {
    let rs = ResultSet::new(
        vec![column("quantity", ValueKind::Integer)],
        vec![vec![Cell::Integer(7)]],
    )
    .expect("rectangular");
    let lines = render(&rs);
    assert_eq!(lines[0], "+----------+");
    assert_eq!(lines[1], "| quantity |");
    assert_eq!(lines[3], "| 7        |");
}

#[test]
fn width_is_stable_under_a_change_below_the_maximum() {
    let make = |first: &str| {
        ResultSet::new(
            vec![column("n", ValueKind::Text)],
            vec![vec![Cell::Text(first.to_string())], vec![Cell::Text("abcdef".to_string())]],
        )
        .expect("rectangular")
    };
    let before = render(&make("abc"));
    let after = render(&make("xy"));
    assert_eq!(before[0], after[0]);
    assert_eq!(before[0].len(), after[3].len());
    assert_eq!(after[3], "| xy     |");
    assert_eq!(before[4], after[4]);
}

#[test]
fn real_value_comes_before_the_placeholder() {
    let rs = ResultSet::new(
        vec![column("v", ValueKind::Unsupported)],
        vec![vec![Cell::Real("3.5".to_string())], vec![Cell::Absent]],
    )
    .expect("rectangular");
    let lines = render(&rs);
    assert_eq!(lines[3], "| 3.5              |");
    assert_eq!(lines[4], "| Unsupported type |");
}

#[test]
fn cells_render_by_kind() {
    let real = Cell::Real("1.25".to_string());
    let text = Cell::Text("hi".to_string());
    let int = Cell::Integer(-42);
    assert_eq!(text.render(ValueKind::Text), "hi");
    assert_eq!(int.render(ValueKind::Text), "");
    assert_eq!(Cell::Absent.render(ValueKind::Text), "");
    assert_eq!(int.render(ValueKind::Integer), "-42");
    assert_eq!(text.render(ValueKind::Integer), "");
    assert_eq!(Cell::Absent.render(ValueKind::Integer), "");
    assert_eq!(real.render(ValueKind::Real), "1.25");
    assert_eq!(real.render(ValueKind::Unsupported), "1.25");
    assert_eq!(Cell::Absent.render(ValueKind::Real), "Unsupported type");
    assert_eq!(int.render(ValueKind::Unsupported), "Unsupported type");
    assert_eq!(text.render(ValueKind::Unsupported), "Unsupported type");
}

#[test]
fn width_counts_characters() {
    let rs = ResultSet::new(
        vec![column("é", ValueKind::Text)],
        vec![vec![Cell::Text("日本".to_string())]],
    )
    .expect("rectangular");
    let lines = render(&rs);
    assert_eq!(lines[0], "+----+");
    assert_eq!(lines[1], "| é  |");
    assert_eq!(lines[3], "| 日本 |");
}

#[test]
fn ragged_rows_are_refused() {
    let columns = vec![column("a", ValueKind::Text), column("b", ValueKind::Text)];
    assert!(ResultSet::new(columns.clone(), vec![vec![Cell::Absent]]).is_none());
    assert!(ResultSet::new(
        columns.clone(),
        vec![vec![Cell::Absent, Cell::Absent], vec![Cell::Absent, Cell::Absent, Cell::Absent]]
    )
    .is_none());
    assert!(ResultSet::new(columns, vec![vec![Cell::Absent, Cell::Absent]]).is_some());
}

#[test]
fn rows_without_columns_show_the_bare_frame() {
    let rs = ResultSet::new(vec![], vec![vec![]]).expect("rectangular");
    assert_eq!(
        render(&rs),
        vec!["++".to_string(), "|".to_string(), "++".to_string(), "|".to_string(), "++".to_string()]
    );
}

#[test]
fn kinds_come_from_declared_types() {
    assert_eq!(ValueKind::from_declared_type("TEXT"), ValueKind::Text);
    assert_eq!(ValueKind::from_declared_type("INTEGER"), ValueKind::Integer);
    assert_eq!(ValueKind::from_declared_type("REAL"), ValueKind::Real);
    assert_eq!(ValueKind::from_declared_type("BLOB"), ValueKind::Unsupported);
    assert_eq!(ValueKind::from_declared_type("NULL"), ValueKind::Unsupported);
    assert_eq!(ValueKind::from_declared_type("text"), ValueKind::Unsupported);
    assert_eq!(ValueKind::from_declared_type(""), ValueKind::Unsupported);
}

#[test]
fn integers_are_written_in_base_ten() {
    assert_eq!(format_integer(0), "0");
    assert_eq!(format_integer(7), "7");
    assert_eq!(format_integer(10), "10");
    assert_eq!(format_integer(-1), "-1");
    assert_eq!(format_integer(1234567890), "1234567890");
    assert_eq!(format_integer(i64::MAX), "9223372036854775807");
    assert_eq!(format_integer(i64::MIN), "-9223372036854775808");
}

#[test]
fn integers_are_written_as_std_writes_them() {
    let mut n: i64 = -100_000;
    while n <= 100_000 {
        assert_eq!(format_integer(n), n.to_string());
        n += 37;
    }
    let mut m: i64 = 1;
    for _ in 0..62 {
        assert_eq!(format_integer(m), m.to_string());
        assert_eq!(format_integer(-m), (-m).to_string());
        assert_eq!(format_integer(m - 1), (m - 1).to_string());
        m *= 2;
    }
}

#[test]
fn white_space_is_what_std_calls_white_space() {
    let mut n: u32 = 0;
    while n <= 0x10FFFF {
        if let Some(c) = char::from_u32(n) {
            assert_eq!(is_space_char(c), c.is_whitespace(), "U+{:04X}", n);
        }
        n += 1;
    }
}

#[test]
fn small_letters_are_ascii_only() {
    assert_eq!(to_lower('A'), 'a');
    assert_eq!(to_lower('Z'), 'z');
    assert_eq!(to_lower('m'), 'm');
    assert_eq!(to_lower('@'), '@');
    assert_eq!(to_lower('['), '[');
    assert_eq!(to_lower('É'), 'É');
    assert_eq!(to_lower('5'), '5');
}

#[test]
fn tokens_are_cut_at_white_space() {
    let cases = [
        "",
        "   ",
        "one",
        "  one  ",
        "USE foo",
        "a\tb\nc  d",
        "CREATE   DATABASE\u{00A0}x;",
        " leading and trailing ",
        "é ü\u{3000}日本",
    ];
    for case in cases {
        let expected: Vec<String> = case.split_whitespace().map(|t| t.to_string()).collect();
        assert_eq!(split_tokens(&chars_of(case)), expected, "{:?}", case);
    }
}

#[test]
fn characters_are_read_in_order() {
    assert_eq!(chars_of("aé日"), vec!['a', 'é', '日']);
    assert_eq!(chars_of(""), Vec::<char>::new());
}
