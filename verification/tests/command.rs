use galvanizedb::command::{classify_line, extract_db_name, format_db_name, returns_rows, Command};

fn name(text: &str) -> Option<String> {
    Some(text.to_string())
}

#[test]
fn suffix_is_appended_once() {
    assert_eq!(format_db_name("foo"), "foo.db");
    assert_eq!(format_db_name("foo.db"), "foo.db");
    assert_eq!(format_db_name(""), ".db");
    assert_eq!(format_db_name(".db"), ".db");
    assert_eq!(format_db_name("db"), "db.db");
    assert_eq!(format_db_name("foo.DB"), "foo.DB.db");
    assert_eq!(format_db_name("a.db.bak"), "a.db.bak.db");
}

#[test]
fn use_names_its_second_token() {
    assert_eq!(extract_db_name("USE foo"), name("foo.db"));
    assert_eq!(extract_db_name("use foo;"), name("foo.db"));
    assert_eq!(extract_db_name("Use foo.db;"), name("foo.db"));
    assert_eq!(extract_db_name("  uSe \t bar  "), name("bar.db"));
    assert_eq!(extract_db_name("USE ;"), name(".db"));
    assert_eq!(extract_db_name("USE foo;;"), name("foo;.db"));
}

#[test]
fn use_takes_exactly_one_name() {
    assert_eq!(extract_db_name("USE"), None);
    assert_eq!(extract_db_name("USE foo bar"), None);
    assert_eq!(extract_db_name("USE database foo"), None);
}

#[test]
fn create_and_drop_name_their_third_token() {
    assert_eq!(extract_db_name("CREATE DATABASE foo;"), name("foo.db"));
    assert_eq!(extract_db_name("create database foo"), name("foo.db"));
    assert_eq!(extract_db_name("DROP DATABASE foo.db"), name("foo.db"));
    assert_eq!(extract_db_name("drop Database foo;"), name("foo.db"));
    assert_eq!(extract_db_name("  CREATE \t DATABASE   foo  "), name("foo.db"));
}

#[test]
fn create_and_drop_take_exactly_one_name() {
    assert_eq!(extract_db_name("CREATE DATABASE foo bar"), None);
    assert_eq!(extract_db_name("DROP DATABASE foo bar"), None);
    assert_eq!(extract_db_name("create database foo ;"), None);
    assert_eq!(extract_db_name("DROP DATABASE a b c"), None);
}

#[test]
fn other_lines_name_no_database() {
    assert_eq!(extract_db_name(""), None);
    assert_eq!(extract_db_name("   "), None);
    assert_eq!(extract_db_name("CREATE DATABASE"), None);
    assert_eq!(extract_db_name("DROP DATABASE"), None);
    assert_eq!(extract_db_name("CREATE TABLE foo"), None);
    assert_eq!(extract_db_name("DROP SCHEMA foo"), None);
    assert_eq!(extract_db_name("SELECT 1"), None);
    assert_eq!(extract_db_name("USED foo"), None);
}

#[test]
fn database_commands_are_classified() {
    assert_eq!(classify_line("USE foo"), Command::Use("foo.db".to_string()));
    assert_eq!(classify_line("use bar;"), Command::Use("bar.db".to_string()));
    assert_eq!(classify_line("CREATE DATABASE foo;"), Command::Create("foo.db".to_string()));
    assert_eq!(classify_line("DROP DATABASE foo;"), Command::DropDatabase("foo.db".to_string()));
    assert_eq!(classify_line("DROP SCHEMA foo"), Command::DropSchema);
    assert_eq!(classify_line("drop schema foo;"), Command::DropSchema);
}

#[test]
fn malformed_database_commands_are_invalid() {
    assert_eq!(classify_line("USE"), Command::Invalid);
    assert_eq!(classify_line("USE a b"), Command::Invalid);
    assert_eq!(classify_line("use  "), Command::Invalid);
    assert_eq!(classify_line("CREATE DATABASE"), Command::Invalid);
    assert_eq!(classify_line("create database "), Command::Invalid);
    assert_eq!(classify_line("DROP DATABASE"), Command::Invalid);
    assert_eq!(classify_line("DROP SCHEMA"), Command::Invalid);
}

#[test]
fn a_token_after_the_name_is_invalid() {
    assert_eq!(classify_line("USE foo bar"), Command::Invalid);
    assert_eq!(classify_line("CREATE DATABASE foo bar"), Command::Invalid);
    assert_eq!(classify_line("create database foo ;"), Command::Invalid);
    assert_eq!(classify_line("DROP DATABASE foo bar"), Command::Invalid);
    assert_eq!(classify_line("DROP SCHEMA a b"), Command::Invalid);
    assert_eq!(classify_line("drop schema a b c"), Command::Invalid);
}

#[test]
fn whole_line_commands_are_classified() {
    assert_eq!(classify_line("SHOW TABLES;"), Command::ShowTables);
    assert_eq!(classify_line("show tables;"), Command::ShowTables);
    assert_eq!(classify_line("HELP"), Command::Help);
    assert_eq!(classify_line("help"), Command::Help);
    assert_eq!(classify_line("?"), Command::Help);
    assert_eq!(classify_line("EXIT"), Command::Exit);
    assert_eq!(classify_line("Exit"), Command::Exit);
}

#[test]
fn near_misses_are_statements() {
    for line in ["SHOW TABLES", "show  tables;", "help me", "exit;", " exit", "??", "quit"] {
        assert_eq!(classify_line(line), Command::Statement(line.to_string(), false), "{:?}", line);
    }
}

#[test]
fn statements_keep_their_text() {
    assert_eq!(
        classify_line("SELECT * FROM t;"),
        Command::Statement("SELECT * FROM t;".to_string(), true)
    );
    assert_eq!(
        classify_line("  select 1"),
        Command::Statement("  select 1".to_string(), true)
    );
    assert_eq!(
        classify_line("INSERT INTO t VALUES (1);"),
        Command::Statement("INSERT INTO t VALUES (1);".to_string(), false)
    );
    assert_eq!(
        classify_line("CREATE TABLE t (a INTEGER);"),
        Command::Statement("CREATE TABLE t (a INTEGER);".to_string(), false)
    );
    assert_eq!(
        classify_line("DROP TABLE t;"),
        Command::Statement("DROP TABLE t;".to_string(), false)
    );
    assert_eq!(classify_line("CREATE"), Command::Statement("CREATE".to_string(), false));
    assert_eq!(classify_line("DROP"), Command::Statement("DROP".to_string(), false));
}

#[test]
fn blank_lines_are_statements() {
    assert_eq!(classify_line(""), Command::Statement("".to_string(), false));
    assert_eq!(classify_line("   \t"), Command::Statement("   \t".to_string(), false));
}

#[test]
fn queries_begin_with_select() {
    assert!(returns_rows("select 1"));
    assert!(returns_rows("SELECT * FROM t"));
    assert!(returns_rows("\t SeLeCt"));
    assert!(returns_rows("selection"));
    assert!(!returns_rows("selec"));
    assert!(!returns_rows(""));
    assert!(!returns_rows("insert into t select 1"));
    assert!(!returns_rows("(select 1)"));
}
