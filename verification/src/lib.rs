//! Core of an interactive SQLite client: a renderer that turns a typed result
//! set into an aligned text table, and a session dispatcher that routes each
//! input line to a database lifecycle command or to the SQL engine.

pub mod command;
pub mod files;
pub mod session;
pub mod table;
pub mod text;

pub use command::{classify_line, extract_db_name, format_db_name, Command};
pub use files::db_file_check;
pub use session::{database_url, help, Reply, Report, Request, Session, Step};
pub use table::{render, Cell, ColumnDescriptor, ResultSet, ValueKind};
