//! The session dispatcher.
//!
//! A session knows which database file is attached, if any, and what it is
//! waiting for. It never touches a terminal, a database or a file itself:
//! every call returns a `Step` that tells the caller what to do next, and
//! the caller hands back what came of it. One input line is worked off as
//! `dispatch`, then `resume` once for every request that has an answer,
//! until the step asks for the next line or for the end of the loop.
//!
//! The caller holds the connection. A step with `close` set tells it to
//! close that connection before anything else; the session asks for a new
//! one only after that, so at most one connection is open at any time.

use vstd::prelude::*;
use crate::command::{classify, classify_line, Command, CommandView};
use crate::table::{no_results, render, table, Grid, ResultSet};
use crate::text::texts;

verus! {

/// Work that the caller does for the session.
#[derive(Clone, Debug, PartialEq, Eq)]
pub enum Request {
    /// Read the next input line and `dispatch` it.
    ReadLine,
    /// Tell whether the named file exists; answered by `Reply::Exists`.
    Probe(String),
    /// Open the named file as a database, creating it where it is missing;
    /// answered by `Reply::Opened` or `Reply::OpenFailed`.
    Open(String),
    /// Send the statement to the engine, expecting rows where the flag is
    /// set; answered by `Reply::Rows`, `Reply::Done` or
    /// `Reply::ExecuteFailed`.
    Execute(String, bool),
    /// Delete the named file; answered by `Reply::Deleted` or
    /// `Reply::DeleteFailed`.
    Delete(String),
    /// Leave the loop.
    Stop,
}

/// What came of a request.
#[derive(Debug)]
pub enum Reply {
    Exists(bool),
    Opened,
    OpenFailed(String),
    Rows(ResultSet),
    Done,
    ExecuteFailed(String),
    Deleted,
    DeleteFailed(String),
}

/// What the user is told.
#[derive(Clone, Debug, PartialEq, Eq)]
pub enum Report {
    /// Nothing.
    Silent,
    /// The named file does not exist yet and is about to be created.
    CreationNotice(String),
    /// The named database is attached; the flag tells whether the command
    /// was `CREATE DATABASE`.
    Connected(String, bool),
    /// The named database could not be opened, with the engine's words.
    ConnectionError(String, String),
    /// The named file is deleted.
    Dropped(String),
    /// The named file could not be deleted, with the file system's words.
    DeletionError(String, String),
    /// A statement or `SHOW TABLES;` came while no database was attached.
    NoDatabaseSelected,
    /// A database command had the wrong number of tokens.
    InvalidCommand,
    /// The usage text.
    Help,
    /// The lines of a rendered result.
    Table(Vec<String>),
    /// A statement that returns no rows was executed.
    Executed,
    /// The engine refused a statement, with its words.
    ExecutionError(String),
    /// A call that the session was not waiting for.
    Unexpected,
}

/// One step of the session: close the connection where `close` is set,
/// show the report, then do the request.
#[derive(Clone, Debug, PartialEq, Eq)]
pub struct Step {
    pub close: bool,
    pub report: Report,
    pub request: Request,
}

/// What the session is waiting for.
#[derive(Debug)]
enum Stage {
    Detached,
    Attached(String),
    Probing(String),
    Opening(String, bool),
    Executing(String),
    Deleting(String),
    Stopped,
}

/// The state of the client: the attached database and the pending request.
#[derive(Debug)]
pub struct Session {
    stage: Stage,
}

/// The mathematical form of a `Request`.
pub enum RequestView {
    ReadLine,
    Probe(Seq<char>),
    Open(Seq<char>),
    Execute(Seq<char>, bool),
    Delete(Seq<char>),
    Stop,
}

/// The mathematical form of a `Reply`.
pub enum ReplyView {
    Exists(bool),
    Opened,
    OpenFailed(Seq<char>),
    Rows(Grid),
    Done,
    ExecuteFailed(Seq<char>),
    Deleted,
    DeleteFailed(Seq<char>),
}

/// The mathematical form of a `Report`.
pub enum ReportView {
    Silent,
    CreationNotice(Seq<char>),
    Connected(Seq<char>, bool),
    ConnectionError(Seq<char>, Seq<char>),
    Dropped(Seq<char>),
    DeletionError(Seq<char>, Seq<char>),
    NoDatabaseSelected,
    InvalidCommand,
    Help,
    Table(Seq<Seq<char>>),
    Executed,
    ExecutionError(Seq<char>),
    Unexpected,
}

/// The mathematical form of a `Step`.
pub struct StepView {
    pub close: bool,
    pub report: ReportView,
    pub request: RequestView,
}

/// The mathematical form of a `Session`.
pub enum SessionView {
    /// No database is attached; the session waits for a line.
    Detached,
    /// The named database is attached; the session waits for a line.
    Attached(Seq<char>),
    /// Waiting to hear whether the named file exists, before opening it.
    Probing(Seq<char>),
    /// Waiting for the named file to be opened; the flag tells whether the
    /// command was `CREATE DATABASE`.
    Opening(Seq<char>, bool),
    /// Waiting for the engine to answer a statement on the named database.
    Executing(Seq<char>),
    /// Waiting for the named file to be deleted.
    Deleting(Seq<char>),
    /// The session has ended.
    Stopped,
}

impl View for Request {
    type V = RequestView;

    open spec fn view(&self) -> RequestView {
        match self {
            Request::ReadLine => RequestView::ReadLine,
            Request::Probe(name) => RequestView::Probe(name@),
            Request::Open(name) => RequestView::Open(name@),
            Request::Execute(statement, rows) => RequestView::Execute(statement@, *rows),
            Request::Delete(name) => RequestView::Delete(name@),
            Request::Stop => RequestView::Stop,
        }
    }
}

impl View for Reply {
    type V = ReplyView;

    open spec fn view(&self) -> ReplyView {
        match self {
            Reply::Exists(found) => ReplyView::Exists(*found),
            Reply::Opened => ReplyView::Opened,
            Reply::OpenFailed(detail) => ReplyView::OpenFailed(detail@),
            Reply::Rows(rows) => ReplyView::Rows(rows@),
            Reply::Done => ReplyView::Done,
            Reply::ExecuteFailed(detail) => ReplyView::ExecuteFailed(detail@),
            Reply::Deleted => ReplyView::Deleted,
            Reply::DeleteFailed(detail) => ReplyView::DeleteFailed(detail@),
        }
    }
}

impl View for Report {
    type V = ReportView;

    open spec fn view(&self) -> ReportView {
        match self {
            Report::Silent => ReportView::Silent,
            Report::CreationNotice(name) => ReportView::CreationNotice(name@),
            Report::Connected(name, created) => ReportView::Connected(name@, *created),
            Report::ConnectionError(name, detail) => ReportView::ConnectionError(name@, detail@),
            Report::Dropped(name) => ReportView::Dropped(name@),
            Report::DeletionError(name, detail) => ReportView::DeletionError(name@, detail@),
            Report::NoDatabaseSelected => ReportView::NoDatabaseSelected,
            Report::InvalidCommand => ReportView::InvalidCommand,
            Report::Help => ReportView::Help,
            Report::Table(lines) => ReportView::Table(texts(lines@)),
            Report::Executed => ReportView::Executed,
            Report::ExecutionError(detail) => ReportView::ExecutionError(detail@),
            Report::Unexpected => ReportView::Unexpected,
        }
    }
}

impl View for Step {
    type V = StepView;

    open spec fn view(&self) -> StepView {
        StepView { close: self.close, report: self.report@, request: self.request@ }
    }
}

impl View for Stage {
    type V = SessionView;

    closed spec fn view(&self) -> SessionView {
        match self {
            Stage::Detached => SessionView::Detached,
            Stage::Attached(name) => SessionView::Attached(name@),
            Stage::Probing(name) => SessionView::Probing(name@),
            Stage::Opening(name, created) => SessionView::Opening(name@, *created),
            Stage::Executing(name) => SessionView::Executing(name@),
            Stage::Deleting(name) => SessionView::Deleting(name@),
            Stage::Stopped => SessionView::Stopped,
        }
    }
}

impl View for Session {
    type V = SessionView;

    closed spec fn view(&self) -> SessionView {
        self.stage@
    }
}

/// The statement that lists the tables of a database.
pub open spec fn list_tables() -> Seq<char> {
    "SELECT name FROM sqlite_master WHERE type='table';"@
}

/// What the prompt shows while no database is attached.
pub open spec fn no_database() -> Seq<char> {
    "None"@
}

/// The database whose connection the caller holds open in state `s`.
pub open spec fn attached(s: SessionView) -> Option<Seq<char>> {
    match s {
        SessionView::Attached(name) => Some(name),
        SessionView::Executing(name) => Some(name),
        _ => None,
    }
}

/// The session waits for an input line.
pub open spec fn ready(s: SessionView) -> bool {
    s is Detached || s is Attached
}

/// A step that only reports and goes on to the next line.
pub open spec fn tell(report: ReportView) -> StepView {
    StepView { close: false, report, request: RequestView::ReadLine }
}

/// A step that asks for `request` and leaves the connection as it is.
pub open spec fn go(request: RequestView) -> StepView {
    StepView { close: false, report: ReportView::Silent, request }
}

/// A step that closes the connection where one is open, and asks for
/// `request`.
pub open spec fn ask(s: SessionView, request: RequestView) -> StepView {
    StepView { close: attached(s) is Some, report: ReportView::Silent, request }
}

/// The answer to a call that the session was not waiting for: the pending
/// request is given up, and the session goes back to waiting for a line, or
/// stays at its end.
pub open spec fn unexpected(s: SessionView) -> (SessionView, StepView) {
    match s {
        SessionView::Stopped => (
            s,
            StepView {
                close: false,
                report: ReportView::Unexpected,
                request: RequestView::Stop,
            },
        ),
        SessionView::Attached(name) => (s, tell(ReportView::Unexpected)),
        SessionView::Executing(name) => (
            SessionView::Attached(name),
            tell(ReportView::Unexpected),
        ),
        _ => (SessionView::Detached, tell(ReportView::Unexpected)),
    }
}

/// What a command does to a session that waits for a line.
pub open spec fn begin(s: SessionView, command: CommandView) -> (SessionView, StepView) {
    match command {
        CommandView::Use(name) => (SessionView::Probing(name), ask(s, RequestView::Probe(name))),
        CommandView::Create(name) => (
            SessionView::Opening(name, true),
            ask(s, RequestView::Open(name)),
        ),
        CommandView::DropSchema => (SessionView::Detached, ask(s, RequestView::ReadLine)),
        CommandView::DropDatabase(name) => (
            SessionView::Deleting(name),
            ask(s, RequestView::Delete(name)),
        ),
        CommandView::ShowTables => match s {
            SessionView::Attached(name) => (
                SessionView::Executing(name),
                go(RequestView::Execute(list_tables(), true)),
            ),
            _ => (s, tell(ReportView::NoDatabaseSelected)),
        },
        CommandView::Help => (s, tell(ReportView::Help)),
        CommandView::Exit => (SessionView::Stopped, ask(s, RequestView::Stop)),
        CommandView::Invalid => (s, tell(ReportView::InvalidCommand)),
        CommandView::Statement(text, query) => match s {
            SessionView::Attached(name) => (
                SessionView::Executing(name),
                go(RequestView::Execute(text, query)),
            ),
            _ => (s, tell(ReportView::NoDatabaseSelected)),
        },
    }
}

/// The session after an input line, and the step it returns.
pub open spec fn on_line(s: SessionView, line: Seq<char>) -> (SessionView, StepView) {
    if ready(s) {
        begin(s, classify(line))
    } else {
        unexpected(s)
    }
}

/// The session after an interrupt or the end of the input, and the step it
/// returns: the connection is closed where one is open, and the loop ends.
pub open spec fn on_interrupt(s: SessionView) -> (SessionView, StepView) {
    (SessionView::Stopped, ask(s, RequestView::Stop))
}

/// The session after the answer to a request, and the step it returns.
pub open spec fn on_reply(s: SessionView, reply: ReplyView) -> (SessionView, StepView) {
    match s {
        SessionView::Probing(name) => match reply {
            ReplyView::Exists(found) => (
                SessionView::Opening(name, false),
                StepView {
                    close: false,
                    report: if found {
                        ReportView::Silent
                    } else {
                        ReportView::CreationNotice(name)
                    },
                    request: RequestView::Open(name),
                },
            ),
            _ => unexpected(s),
        },
        SessionView::Opening(name, created) => match reply {
            ReplyView::Opened => (
                SessionView::Attached(name),
                tell(ReportView::Connected(name, created)),
            ),
            ReplyView::OpenFailed(detail) => (
                SessionView::Detached,
                tell(ReportView::ConnectionError(name, detail)),
            ),
            _ => unexpected(s),
        },
        SessionView::Executing(name) => match reply {
            ReplyView::Rows(rows) => (SessionView::Attached(name), tell(ReportView::Table(table(rows)))),
            ReplyView::Done => (SessionView::Attached(name), tell(ReportView::Executed)),
            ReplyView::ExecuteFailed(detail) => (
                SessionView::Attached(name),
                tell(ReportView::ExecutionError(detail)),
            ),
            _ => unexpected(s),
        },
        SessionView::Deleting(name) => match reply {
            ReplyView::Deleted => (SessionView::Detached, tell(ReportView::Dropped(name))),
            ReplyView::DeleteFailed(detail) => (
                SessionView::Detached,
                tell(ReportView::DeletionError(name, detail)),
            ),
            _ => unexpected(s),
        },
        _ => unexpected(s),
    }
}

/// A step that only reports and goes on to the next line.
fn told(report: Report) -> (step: Step)
    ensures
        step@ == tell(report@),
{
    Step { close: false, report, request: Request::ReadLine }
}

impl Stage {
    /// Whether the caller holds a connection open.
    fn is_open(&self) -> (open: bool)
        ensures
            open == (attached(self@) is Some),
    {
        match self {
            Stage::Attached(_) => true,
            Stage::Executing(_) => true,
            _ => false,
        }
    }

    fn unexpected(&self) -> (next: (Stage, Step))
        ensures
            (next.0@, next.1@) == unexpected(self@),
    {
        match self {
            Stage::Stopped => (
                Stage::Stopped,
                Step { close: false, report: Report::Unexpected, request: Request::Stop },
            ),
            Stage::Attached(name) => (Stage::Attached(name.clone()), told(Report::Unexpected)),
            Stage::Executing(name) => (Stage::Attached(name.clone()), told(Report::Unexpected)),
            _ => (Stage::Detached, told(Report::Unexpected)),
        }
    }

    /// The stage that waits for a line with the same attachment.
    fn same(&self) -> (next: Stage)
        requires
            ready(self@),
        ensures
            next@ == self@,
    {
        match self {
            Stage::Attached(name) => Stage::Attached(name.clone()),
            _ => Stage::Detached,
        }
    }

    fn begin(&self, command: Command) -> (next: (Stage, Step))
        requires
            ready(self@),
        ensures
            (next.0@, next.1@) == begin(self@, command@),
    {
        let close = self.is_open();
        match command {
            Command::Use(name) => (
                Stage::Probing(name.clone()),
                Step { close, report: Report::Silent, request: Request::Probe(name) },
            ),
            Command::Create(name) => (
                Stage::Opening(name.clone(), true),
                Step { close, report: Report::Silent, request: Request::Open(name) },
            ),
            Command::DropSchema => (
                Stage::Detached,
                Step { close, report: Report::Silent, request: Request::ReadLine },
            ),
            Command::DropDatabase(name) => (
                Stage::Deleting(name.clone()),
                Step { close, report: Report::Silent, request: Request::Delete(name) },
            ),
            Command::ShowTables => match self {
                Stage::Attached(name) => (
                    Stage::Executing(name.clone()),
                    Step {
                        close: false,
                        report: Report::Silent,
                        request: Request::Execute(
                            String::from_str("SELECT name FROM sqlite_master WHERE type='table';"),
                            true,
                        ),
                    },
                ),
                _ => (self.same(), told(Report::NoDatabaseSelected)),
            },
            Command::Help => (self.same(), told(Report::Help)),
            Command::Exit => (
                Stage::Stopped,
                Step { close, report: Report::Silent, request: Request::Stop },
            ),
            Command::Invalid => (self.same(), told(Report::InvalidCommand)),
            Command::Statement(text, query) => match self {
                Stage::Attached(name) => (
                    Stage::Executing(name.clone()),
                    Step {
                        close: false,
                        report: Report::Silent,
                        request: Request::Execute(text, query),
                    },
                ),
                _ => (self.same(), told(Report::NoDatabaseSelected)),
            },
        }
    }

    fn reply(&self, reply: Reply) -> (next: (Stage, Step))
        ensures
            (next.0@, next.1@) == on_reply(self@, reply@),
    {
        match self {
            Stage::Probing(name) => match reply {
                Reply::Exists(found) => (
                    Stage::Opening(name.clone(), false),
                    Step {
                        close: false,
                        report: if found {
                            Report::Silent
                        } else {
                            Report::CreationNotice(name.clone())
                        },
                        request: Request::Open(name.clone()),
                    },
                ),
                _ => self.unexpected(),
            },
            Stage::Opening(name, created) => match reply {
                Reply::Opened => (
                    Stage::Attached(name.clone()),
                    told(Report::Connected(name.clone(), *created)),
                ),
                Reply::OpenFailed(detail) => (
                    Stage::Detached,
                    told(Report::ConnectionError(name.clone(), detail)),
                ),
                _ => self.unexpected(),
            },
            Stage::Executing(name) => match reply {
                Reply::Rows(rows) => (Stage::Attached(name.clone()), told(Report::Table(render(&rows)))),
                Reply::Done => (Stage::Attached(name.clone()), told(Report::Executed)),
                Reply::ExecuteFailed(detail) => (
                    Stage::Attached(name.clone()),
                    told(Report::ExecutionError(detail)),
                ),
                _ => self.unexpected(),
            },
            Stage::Deleting(name) => match reply {
                Reply::Deleted => (Stage::Detached, told(Report::Dropped(name.clone()))),
                Reply::DeleteFailed(detail) => (
                    Stage::Detached,
                    told(Report::DeletionError(name.clone(), detail)),
                ),
                _ => self.unexpected(),
            },
            _ => self.unexpected(),
        }
    }
}

impl Session {
    /// A session with no database attached, waiting for its first line.
    pub fn new() -> (session: Session)
        ensures
            session@ == SessionView::Detached,
    {
        Session { stage: Stage::Detached }
    }

    /// The name of the attached database file, if there is one.
    pub fn database(&self) -> (name: Option<String>)
        ensures
            name is Some <==> attached(self@) is Some,
            name matches Some(n) ==> attached(self@) == Some(n@),
    {
        match &self.stage {
            Stage::Attached(name) => Some(name.clone()),
            Stage::Executing(name) => Some(name.clone()),
            _ => None,
        }
    }

    /// What the prompt shows: the name of the attached database file, or
    /// `None`.
    pub fn label(&self) -> (text: String)
        ensures
            text@ == match attached(self@) {
                Some(name) => name,
                None => no_database(),
            },
    {
        match self.database() {
            Some(name) => name,
            None => String::from_str("None"),
        }
    }

    /// Whether the session has ended.
    pub fn stopped(&self) -> (ended: bool)
        ensures
            ended == (self@ is Stopped),
    {
        match &self.stage {
            Stage::Stopped => true,
            _ => false,
        }
    }

    /// Works off one input line.
    pub fn dispatch(&mut self, line: &str) -> (step: Step)
        ensures
            (final(self)@, step@) == on_line(old(self)@, line@),
    {
        let ready = match &self.stage {
            Stage::Detached => true,
            Stage::Attached(_) => true,
            _ => false,
        };
        let (stage, step) = if ready {
            self.stage.begin(classify_line(line))
        } else {
            self.stage.unexpected()
        };
        self.stage = stage;
        step
    }

    /// Ends the session on an interrupt or at the end of the input, as
    /// `EXIT` does.
    pub fn interrupt(&mut self) -> (step: Step)
        ensures
            (final(self)@, step@) == on_interrupt(old(self)@),
    {
        let close = self.stage.is_open();
        self.stage = Stage::Stopped;
        Step { close, report: Report::Silent, request: Request::Stop }
    }

    /// Takes the answer to the request of the last step.
    pub fn resume(&mut self, reply: Reply) -> (step: Step)
        ensures
            (final(self)@, step@) == on_reply(old(self)@, reply@),
    {
        let (stage, step) = self.stage.reply(reply);
        self.stage = stage;
        step
    }
}

/// The address under which the engine opens the database file `name`, and
/// creates it where it is missing.
pub open spec fn address(name: Seq<char>) -> Seq<char> {
    "sqlite:"@ + name + "?mode=rwc"@
}

/// The address to hand to the engine for `Request::Open` of `db_name`.
pub fn database_url(db_name: &str) -> (url: String)
    ensures
        url@ == address(db_name@),
{
    let mut url = String::from_str("sqlite:");
    url.append(db_name);
    url.append("?mode=rwc");
    url
}

/// The usage text.
pub open spec fn usage() -> Seq<char> {
    "\nGalvanizeDB Basic Manual\n---------------------------\nCreate a database:\n    CREATE DATABASE database_name;\n\nConnect to a database:\n    USE database_name;\n\nList tables in a database:\n    SHOW TABLES;\n\nClose connection to a database:\n    DROP SCHEMA database_name;\n\nWhen connected to a database, use standard SQLite queries to interact with the database.\n\nType 'exit' to close GalvanizeDB CLI.\n\nReport issues at: https://github.com/SlavicPixel/galvanizedb\n"@
}

/// The usage text that `Report::Help` stands for.
pub fn help() -> (text: String)
    ensures
        text@ == usage(),
{
    String::from_str(
        "\nGalvanizeDB Basic Manual\n---------------------------\nCreate a database:\n    CREATE DATABASE database_name;\n\nConnect to a database:\n    USE database_name;\n\nList tables in a database:\n    SHOW TABLES;\n\nClose connection to a database:\n    DROP SCHEMA database_name;\n\nWhen connected to a database, use standard SQLite queries to interact with the database.\n\nType 'exit' to close GalvanizeDB CLI.\n\nReport issues at: https://github.com/SlavicPixel/galvanizedb\n",
    )
}

/// What holds of every step, whatever the session was waiting for: a
/// connection is closed only where one is open, and is gone afterwards; a
/// connection that is not closed stays; a new connection is asked for only
/// when none is open, and attached only by the answer to that request; a
/// statement goes to the engine only over the open connection; and the loop
/// ends with no connection open.
pub open spec fn orderly(s: SessionView, next: (SessionView, StepView)) -> bool {
    let (t, step) = next;
    &&& step.close ==> attached(s) is Some && attached(t) is None
    &&& attached(s) is Some && !step.close ==> attached(t) == attached(s)
    &&& step.request is Open ==> attached(t) is None
    &&& attached(t) is Some && attached(s) is None ==> s is Opening
    &&& step.request is Execute ==> attached(t) is Some
    &&& step.request is Stop ==> attached(t) is None
}

/// Every input line is worked off in an orderly step.
pub proof fn lemma_dispatch_orderly(s: SessionView, line: Seq<char>)
    ensures
        orderly(s, on_line(s, line)),
{
}

/// An interrupt is worked off in an orderly step, which ends the session;
/// a session that waits for a line takes it as it takes `EXIT`.
pub proof fn lemma_interrupt_orderly(s: SessionView)
    ensures
        orderly(s, on_interrupt(s)),
        on_interrupt(s).0 is Stopped,
        on_interrupt(s).1.request is Stop,
        ready(s) ==> on_interrupt(s) == begin(s, CommandView::Exit),
{
}

/// Every answer is worked off in an orderly step.
pub proof fn lemma_resume_orderly(s: SessionView, reply: ReplyView)
    ensures
        orderly(s, on_reply(s, reply)),
{
}

/// While no database is attached, no line sends anything to the engine, and
/// a statement is answered by the report that no database is selected: the
/// session stays as it is and asks for the next line.
pub proof fn lemma_statement_needs_database(line: Seq<char>)
    ensures
        !(on_line(SessionView::Detached, line).1.request is Execute),
        classify(line) is Statement ==> on_line(SessionView::Detached, line) == (
            SessionView::Detached,
            tell(ReportView::NoDatabaseSelected),
        ),
{
}

/// A line that is a database command with the wrong number of tokens is
/// reported as invalid, and changes nothing.
pub proof fn lemma_invalid_is_reported(s: SessionView, line: Seq<char>)
    requires
        ready(s),
        classify(line) is Invalid,
    ensures
        on_line(s, line) == (s, tell(ReportView::InvalidCommand)),
{
}

/// `USE` of a file that does not exist yet: the session asks whether the
/// file exists, gives notice that it will be created, asks for it to be
/// opened, and is attached to it once it is open.
pub proof fn lemma_use_creates_missing_file(s: SessionView, line: Seq<char>, name: Seq<char>)
    requires
        ready(s),
        classify(line) == CommandView::Use(name),
    ensures
        ({
            let (s1, step1) = on_line(s, line);
            let (s2, step2) = on_reply(s1, ReplyView::Exists(false));
            let (s3, step3) = on_reply(s2, ReplyView::Opened);
            &&& step1.request == RequestView::Probe(name)
            &&& step1.close == (s is Attached)
            &&& step2.report == ReportView::CreationNotice(name)
            &&& step2.request == RequestView::Open(name)
            &&& s3 == SessionView::Attached(name)
            &&& step3 == tell(ReportView::Connected(name, false))
        }),
{
}

/// `DROP DATABASE` while a database is attached: the connection is closed
/// and the session detached before the file is deleted; the file is asked
/// to be deleted once, under the name that the line gives; and whatever
/// comes of that, the session is detached and asks for the next line.
pub proof fn lemma_drop_database_detaches(
    current: Seq<char>,
    line: Seq<char>,
    name: Seq<char>,
    outcome: ReplyView,
)
    requires
        classify(line) == CommandView::DropDatabase(name),
        outcome is Deleted || outcome is DeleteFailed,
    ensures
        ({
            let (s1, step1) = on_line(SessionView::Attached(current), line);
            let (s2, step2) = on_reply(s1, outcome);
            &&& step1.close
            &&& step1.request == RequestView::Delete(name)
            &&& attached(s1) is None
            &&& s2 == SessionView::Detached
            &&& !step2.close
            &&& step2.request == RequestView::ReadLine
            &&& outcome is Deleted ==> step2.report == ReportView::Dropped(name)
            &&& outcome matches ReplyView::DeleteFailed(detail) ==> step2.report
                == ReportView::DeletionError(name, detail)
        }),
{
}

/// `SHOW TABLES;` on an attached database without tables: the fixed
/// statement goes to the engine as a query, and a result without rows is
/// shown as the line that says so.
pub proof fn lemma_show_tables_of_empty_database(current: Seq<char>, line: Seq<char>, rows: Grid)
    requires
        classify(line) == CommandView::ShowTables,
        rows.cells.len() == 0,
    ensures
        ({
            let (s1, step1) = on_line(SessionView::Attached(current), line);
            let (s2, step2) = on_reply(s1, ReplyView::Rows(rows));
            &&& step1 == go(RequestView::Execute(list_tables(), true))
            &&& s2 == SessionView::Attached(current)
            &&& step2 == tell(ReportView::Table(seq![no_results()]))
        }),
{
}

} // verus!
