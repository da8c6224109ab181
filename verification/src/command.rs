//! Classification of one input line.
//!
//! A line is cut into tokens at white space. Its leading tokens decide
//! whether it is a database command (`USE`, `CREATE DATABASE`,
//! `DROP DATABASE`, `DROP SCHEMA`); `SHOW TABLES;`, `HELP`, `?` and `EXIT`
//! are matched against the whole line; every other line is a statement for
//! the SQL engine. Keywords are matched without regard to ASCII case.

use vstd::prelude::*;
use crate::text::{
    chars_of, ends_with, eq_ignore_case, has_prefix_ignore_case, has_suffix, leading_spaces,
    same_ignore_case, split_tokens, starts_with_ignore_case, string_of, texts, tokens,
    trim_start,
};

verus! {

/// What one input line asks for.
#[derive(Clone, Debug, PartialEq, Eq)]
pub enum Command {
    /// Attach the named database file.
    Use(String),
    /// Create the named database file and attach it.
    Create(String),
    /// Detach the current database.
    DropSchema,
    /// Detach the current database and delete the named file.
    DropDatabase(String),
    /// List the tables of the attached database.
    ShowTables,
    /// Show the usage text.
    Help,
    /// End the session.
    Exit,
    /// A database command with the wrong number of tokens.
    Invalid,
    /// A statement for the SQL engine, and whether it is a query that
    /// returns rows.
    Statement(String, bool),
}

/// The mathematical form of a `Command`.
pub enum CommandView {
    Use(Seq<char>),
    Create(Seq<char>),
    DropSchema,
    DropDatabase(Seq<char>),
    ShowTables,
    Help,
    Exit,
    Invalid,
    Statement(Seq<char>, bool),
}

impl View for Command {
    type V = CommandView;

    open spec fn view(&self) -> CommandView {
        match self {
            Command::Use(name) => CommandView::Use(name@),
            Command::Create(name) => CommandView::Create(name@),
            Command::DropSchema => CommandView::DropSchema,
            Command::DropDatabase(name) => CommandView::DropDatabase(name@),
            Command::ShowTables => CommandView::ShowTables,
            Command::Help => CommandView::Help,
            Command::Exit => CommandView::Exit,
            Command::Invalid => CommandView::Invalid,
            Command::Statement(text, query) => CommandView::Statement(text@, *query),
        }
    }
}

/// The name of a database file: `name` itself where it ends with `.db`,
/// else `name` with `.db` appended.
pub open spec fn file_name(name: Seq<char>) -> Seq<char> {
    if ends_with(name, ".db"@) {
        name
    } else {
        name + ".db"@
    }
}

/// `token` without one trailing `;`.
pub open spec fn without_terminator(token: Seq<char>) -> Seq<char> {
    if token.len() > 0 && token.last() == ';' {
        token.drop_last()
    } else {
        token
    }
}

/// The database file that a name token stands for.
pub open spec fn name_of(token: Seq<char>) -> Seq<char> {
    file_name(without_terminator(token))
}

/// The database file that the tokens of a command line name: the second
/// token of a `USE` line of exactly two tokens, or the third token of a line
/// of exactly three tokens that begins with `CREATE DATABASE` or
/// `DROP DATABASE`. A line with a token more or a token less names none.
pub open spec fn named(parts: Seq<Seq<char>>) -> Option<Seq<char>> {
    if parts.len() == 2 && eq_ignore_case(parts[0], "use"@) {
        Some(name_of(parts[1]))
    } else if parts.len() == 3 && (eq_ignore_case(parts[0], "create"@) || eq_ignore_case(
        parts[0],
        "drop"@,
    )) && eq_ignore_case(parts[1], "database"@) {
        Some(name_of(parts[2]))
    } else {
        None
    }
}

/// The database file that a command line names.
pub open spec fn database_name(line: Seq<char>) -> Option<Seq<char>> {
    named(tokens(line))
}

/// The line begins with the token `first`.
pub open spec fn leads_with(parts: Seq<Seq<char>>, first: Seq<char>) -> bool {
    parts.len() >= 1 && eq_ignore_case(parts[0], first)
}

/// The line begins with the tokens `first` and `second`.
pub open spec fn leads_with_pair(
    parts: Seq<Seq<char>>,
    first: Seq<char>,
    second: Seq<char>,
) -> bool {
    parts.len() >= 2 && eq_ignore_case(parts[0], first) && eq_ignore_case(parts[1], second)
}

/// Whether a statement is a query that returns rows: its first word begins
/// with `select`.
pub open spec fn is_query(line: Seq<char>) -> bool {
    starts_with_ignore_case(trim_start(line), "select"@)
}

/// The command that `line` stands for.
pub open spec fn classify(line: Seq<char>) -> CommandView {
    let parts = tokens(line);
    if leads_with(parts, "use"@) {
        match database_name(line) {
            Some(name) => CommandView::Use(name),
            None => CommandView::Invalid,
        }
    } else if leads_with_pair(parts, "create"@, "database"@) {
        match database_name(line) {
            Some(name) => CommandView::Create(name),
            None => CommandView::Invalid,
        }
    } else if leads_with_pair(parts, "drop"@, "schema"@) {
        if parts.len() == 3 {
            CommandView::DropSchema
        } else {
            CommandView::Invalid
        }
    } else if leads_with_pair(parts, "drop"@, "database"@) {
        match database_name(line) {
            Some(name) => CommandView::DropDatabase(name),
            None => CommandView::Invalid,
        }
    } else if eq_ignore_case(line, "show tables;"@) {
        CommandView::ShowTables
    } else if eq_ignore_case(line, "help"@) || line == "?"@ {
        CommandView::Help
    } else if eq_ignore_case(line, "exit"@) {
        CommandView::Exit
    } else {
        CommandView::Statement(line, is_query(line))
    }
}

/// Whether `word` is the keyword `keyword`, ASCII case set aside.
fn is_keyword(word: &String, keyword: &str) -> (r: bool)
    ensures
        r == eq_ignore_case(word@, keyword@),
{
    let w = chars_of(word.as_str());
    let k = chars_of(keyword);
    same_ignore_case(&w, &k)
}

/// Appends `.db` to a name that does not end with it.
pub fn format_db_name(name: &str) -> (formatted: String)
    ensures
        formatted@ == file_name(name@),
{
    let mut formatted = String::from_str(name);
    let cs = chars_of(name);
    let suffix = chars_of(".db");
    if !has_suffix(&cs, &suffix) {
        formatted.append(".db");
    }
    formatted
}

/// The database file that a name token stands for.
fn file_of(token: &String) -> (name: String)
    ensures
        name@ == name_of(token@),
{
    let cs = chars_of(token.as_str());
    let n: usize = cs.len();
    if n > 0 && cs[n - 1] == ';' {
        let stem = string_of(&cs, 0, n - 1);
        assert(cs@.subrange(0, n - 1) == cs@.drop_last());
        format_db_name(stem.as_str())
    } else {
        format_db_name(token.as_str())
    }
}

/// The database file named by the tokens of a command line.
fn name_in(parts: &Vec<String>) -> (name: Option<String>)
    ensures
        name is Some <==> named(texts(parts@)) is Some,
        name matches Some(n) ==> named(texts(parts@)) == Some(n@),
{
    let n: usize = parts.len();
    if n == 2 && is_keyword(&parts[0], "use") {
        Some(file_of(&parts[1]))
    } else if n == 3 && (is_keyword(&parts[0], "create") || is_keyword(&parts[0], "drop"))
        && is_keyword(&parts[1], "database") {
        Some(file_of(&parts[2]))
    } else {
        None
    }
}

/// Reads the database file that a command line names: for `USE name` the
/// second token, for `CREATE DATABASE name` and `DROP DATABASE name` the
/// third, without a trailing `;` and with `.db` at its end. Any other line
/// names none, and so does one of these with a token after the name.
pub fn extract_db_name(input: &str) -> (name: Option<String>)
    ensures
        name is Some <==> database_name(input@) is Some,
        name matches Some(n) ==> database_name(input@) == Some(n@),
{
    let cs = chars_of(input);
    let parts = split_tokens(&cs);
    name_in(&parts)
}

/// Whether a statement is a query that returns rows.
pub fn returns_rows(line: &str) -> (r: bool)
    ensures
        r == is_query(line@),
{
    let cs = chars_of(line);
    let from = leading_spaces(&cs);
    let keyword = chars_of("select");
    has_prefix_ignore_case(&cs, from, &keyword)
}

/// Classifies one input line.
pub fn classify_line(line: &str) -> (command: Command)
    ensures
        command@ == classify(line@),
{
    let cs = chars_of(line);
    let parts = split_tokens(&cs);
    let n: usize = parts.len();
    if n >= 1 && is_keyword(&parts[0], "use") {
        match name_in(&parts) {
            Some(name) => Command::Use(name),
            None => Command::Invalid,
        }
    } else if n >= 2 && is_keyword(&parts[0], "create") && is_keyword(&parts[1], "database") {
        match name_in(&parts) {
            Some(name) => Command::Create(name),
            None => Command::Invalid,
        }
    } else if n >= 2 && is_keyword(&parts[0], "drop") && is_keyword(&parts[1], "schema") {
        if n == 3 {
            Command::DropSchema
        } else {
            Command::Invalid
        }
    } else if n >= 2 && is_keyword(&parts[0], "drop") && is_keyword(&parts[1], "database") {
        match name_in(&parts) {
            Some(name) => Command::DropDatabase(name),
            None => Command::Invalid,
        }
    } else {
        let whole = String::from_str(line);
        if is_keyword(&whole, "show tables;") {
            Command::ShowTables
        } else if is_keyword(&whole, "help") || whole == String::from_str("?") {
            Command::Help
        } else if is_keyword(&whole, "exit") {
            Command::Exit
        } else {
            let query = returns_rows(line);
            Command::Statement(whole, query)
        }
    }
}

/// A line that begins with `USE` and has not exactly two tokens, or begins
/// with `CREATE DATABASE`, `DROP DATABASE` or `DROP SCHEMA` and has not
/// exactly three, is invalid: it is neither taken for a command nor for a
/// statement.
pub proof fn lemma_malformed_is_invalid(line: Seq<char>)
    requires
        ({
            let parts = tokens(line);
            ||| leads_with(parts, "use"@) && parts.len() != 2
            ||| leads_with_pair(parts, "create"@, "database"@) && parts.len() != 3
            ||| leads_with_pair(parts, "drop"@, "database"@) && parts.len() != 3
            ||| leads_with_pair(parts, "drop"@, "schema"@) && parts.len() != 3
        }),
    ensures
        classify(line) is Invalid,
        database_name(line) is None,
{
    reveal_strlit("use");
    reveal_strlit("create");
    reveal_strlit("drop");
    reveal_strlit("database");
    reveal_strlit("schema");
}

/// A line is taken for a database command only with the right number of
/// tokens: two for `USE`, three for `CREATE DATABASE`, `DROP DATABASE` and
/// `DROP SCHEMA`. A line names a database file only with that number too.
pub proof fn lemma_commands_have_their_tokens(line: Seq<char>)
    ensures
        classify(line) is Use ==> tokens(line).len() == 2,
        classify(line) is Create ==> tokens(line).len() == 3,
        classify(line) is DropDatabase ==> tokens(line).len() == 3,
        classify(line) is DropSchema ==> tokens(line).len() == 3,
        database_name(line) is Some ==> tokens(line).len() == 2 || tokens(line).len() == 3,
{
    reveal_strlit("use");
    reveal_strlit("create");
    reveal_strlit("drop");
}

/// A line is taken for a statement only where it is no database command,
/// whole or malformed, and none of `SHOW TABLES;`, `HELP`, `?` and `EXIT`;
/// the statement is then the line itself.
pub proof fn lemma_statement_is_the_line(line: Seq<char>)
    requires
        classify(line) is Statement,
    ensures
        classify(line) == CommandView::Statement(line, is_query(line)),
        !leads_with(tokens(line), "use"@),
        !leads_with_pair(tokens(line), "create"@, "database"@),
        !leads_with_pair(tokens(line), "drop"@, "database"@),
        !leads_with_pair(tokens(line), "drop"@, "schema"@),
{
}

/// The name that a database command carries is the one that
/// `database_name` reads from the line, and it ends with `.db`.
pub proof fn lemma_command_names_a_file(line: Seq<char>)
    ensures
        classify(line) matches CommandView::Use(name) ==> database_name(line) == Some(name)
            && ends_with(name, ".db"@),
        classify(line) matches CommandView::Create(name) ==> database_name(line) == Some(name)
            && ends_with(name, ".db"@),
        classify(line) matches CommandView::DropDatabase(name) ==> database_name(line) == Some(
            name,
        ) && ends_with(name, ".db"@),
{
    let parts = tokens(line);
    if database_name(line) is Some {
        lemma_file_name_has_suffix(without_terminator(parts[1]));
        lemma_file_name_has_suffix(without_terminator(parts[2]));
    }
}

/// A file name ends with `.db`, and naming a file twice changes nothing.
pub proof fn lemma_file_name_has_suffix(name: Seq<char>)
    ensures
        ends_with(file_name(name), ".db"@),
        file_name(file_name(name)) == file_name(name),
{
    if !ends_with(name, ".db"@) {
        let full = name + ".db"@;
        assert(full.skip(full.len() - ".db"@.len()) =~= ".db"@);
    }
}

} // verus!
