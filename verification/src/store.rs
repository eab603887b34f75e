//! Statements, the answers to them, and what a statement means on a table.

use vstd::prelude::*;
use vstd::string::StringExecFns;
use crate::errors::CustomError;
use crate::model::user::{NewUser, Profile, Row, UpdateUser, User};

verus! {

/// A parameterized statement against the `users` table.
#[derive(Debug, PartialEq, Eq)]
pub enum Statement {
    /// Every row.
    SelectAll,
    /// The rows whose identifier is the given one.
    SelectById(i32),
    /// A new row; the database picks its identifier.
    Insert(NewUser),
    /// A new row under the given identifier, unless that identifier is taken.
    InsertOrSkip(User),
    /// New fields for the rows with the given identifier.
    Update(i32, UpdateUser),
    /// Removes the rows with the given identifier.
    Delete(i32),
}

/// A statement as a plain value.
pub enum Command {
    SelectAll,
    SelectById(i32),
    Insert(Profile),
    InsertOrSkip(Row),
    Update(i32, Profile),
    Delete(i32),
}

/// One bound parameter of a statement.
#[derive(Debug, PartialEq, Eq)]
pub enum Bind {
    Int(i32),
    Text(String),
}

/// A bound parameter as a plain value.
pub enum Param {
    Int(i32),
    Text(Seq<char>),
}

/// What the database said to one statement.
#[derive(Debug, PartialEq, Eq)]
pub enum Answer {
    /// The rows that a select found, possibly none.
    Rows(Vec<User>),
    /// A write went through.
    Done,
    /// The statement failed.
    Failed,
}

/// An answer as a plain value.
pub enum Outcome {
    Rows(Seq<Row>),
    Done,
    Failed,
}

/// What a handler wants next.
#[derive(Debug, PartialEq, Eq)]
pub enum Step<T> {
    /// Run this statement and come back with its answer appended.
    Run(Statement),
    /// The exchange is over: send this.
    Reply(Result<T, CustomError>),
}

/// A step as a plain value.
pub enum Plan<T> {
    Run(Command),
    Reply(Result<T, CustomError>),
}

impl View for Statement {
    type V = Command;

    open spec fn view(&self) -> Command {
        match self {
            Statement::SelectAll => Command::SelectAll,
            Statement::SelectById(id) => Command::SelectById(*id),
            Statement::Insert(user) => Command::Insert(user@),
            Statement::InsertOrSkip(user) => Command::InsertOrSkip(user@),
            Statement::Update(id, user) => Command::Update(*id, user@),
            Statement::Delete(id) => Command::Delete(*id),
        }
    }
}

impl DeepView for Bind {
    type V = Param;

    open spec fn deep_view(&self) -> Param {
        match self {
            Bind::Int(n) => Param::Int(*n),
            Bind::Text(s) => Param::Text(s@),
        }
    }
}

impl DeepView for Answer {
    type V = Outcome;

    open spec fn deep_view(&self) -> Outcome {
        match self {
            Answer::Rows(rows) => Outcome::Rows(rows.deep_view()),
            Answer::Done => Outcome::Done,
            Answer::Failed => Outcome::Failed,
        }
    }
}

impl<T: DeepView> View for Step<T> {
    type V = Plan<T::V>;

    open spec fn view(&self) -> Plan<T::V> {
        match self {
            Step::Run(statement) => Plan::Run(statement@),
            Step::Reply(Ok(body)) => Plan::Reply(Ok(body.deep_view())),
            Step::Reply(Err(error)) => Plan::Reply(Err(*error)),
        }
    }
}

impl Command {
    /// The statement's text, with `$1`, `$2`, ... for its parameters.
    pub open spec fn sql(self) -> Seq<char> {
        match self {
            Command::SelectAll => "SELECT * FROM users"@,
            Command::SelectById(_) => "SELECT * FROM users WHERE id=$1"@,
            Command::Insert(_) => "INSERT INTO users (first_name, last_name, email) VALUES ($1, $2, $3)"@,
            Command::InsertOrSkip(_) => "INSERT INTO users (id, first_name, last_name, email) VALUES ($1, $2, $3, $4) ON CONFLICT DO NOTHING"@,
            Command::Update(_, _) => "UPDATE users SET first_name=$1, last_name=$2, email=$3 WHERE id=$4"@,
            Command::Delete(_) => "DELETE FROM users WHERE id=$1"@,
        }
    }

    /// The values for `$1`, `$2`, ..., in that order.
    pub open spec fn params(self) -> Seq<Param> {
        match self {
            Command::SelectAll => seq![],
            Command::SelectById(id) => seq![Param::Int(id)],
            Command::Insert(p) => seq![
                Param::Text(p.first_name),
                Param::Text(p.last_name),
                Param::Text(p.email),
            ],
            Command::InsertOrSkip(row) => seq![
                Param::Int(row.id),
                Param::Text(row.profile.first_name),
                Param::Text(row.profile.last_name),
                Param::Text(row.profile.email),
            ],
            Command::Update(id, p) => seq![
                Param::Text(p.first_name),
                Param::Text(p.last_name),
                Param::Text(p.email),
                Param::Int(id),
            ],
            Command::Delete(id) => seq![Param::Int(id)],
        }
    }

    /// Whether the statement is a select, answered with rows.
    pub open spec fn reads(self) -> bool {
        self is SelectAll || self is SelectById
    }
}

impl Statement {
    /// The text to prepare.
    pub fn sql(&self) -> (text: &'static str)
        ensures
            text@ == self@.sql(),
    {
        match self {
            Statement::SelectAll => "SELECT * FROM users",
            Statement::SelectById(_) => "SELECT * FROM users WHERE id=$1",
            Statement::Insert(_) => "INSERT INTO users (first_name, last_name, email) VALUES ($1, $2, $3)",
            Statement::InsertOrSkip(_) => "INSERT INTO users (id, first_name, last_name, email) VALUES ($1, $2, $3, $4) ON CONFLICT DO NOTHING",
            Statement::Update(_, _) => "UPDATE users SET first_name=$1, last_name=$2, email=$3 WHERE id=$4",
            Statement::Delete(_) => "DELETE FROM users WHERE id=$1",
        }
    }

    /// The values to bind, in the order of the placeholders.
    pub fn binds(&self) -> (values: Vec<Bind>)
        ensures
            values.deep_view() == self@.params(),
    {
        let mut values: Vec<Bind> = Vec::new();
        match self {
            Statement::SelectAll => {},
            Statement::SelectById(id) => {
                values.push(Bind::Int(*id));
            },
            Statement::Insert(user) => {
                values.push(Bind::Text(user.first_name.clone()));
                values.push(Bind::Text(user.last_name.clone()));
                values.push(Bind::Text(user.email.clone()));
            },
            Statement::InsertOrSkip(user) => {
                values.push(Bind::Int(user.id));
                values.push(Bind::Text(user.first_name.clone()));
                values.push(Bind::Text(user.last_name.clone()));
                values.push(Bind::Text(user.email.clone()));
            },
            Statement::Update(id, user) => {
                values.push(Bind::Text(user.first_name.clone()));
                values.push(Bind::Text(user.last_name.clone()));
                values.push(Bind::Text(user.email.clone()));
                values.push(Bind::Int(*id));
            },
            Statement::Delete(id) => {
                values.push(Bind::Int(*id));
            },
        }
        assert(values.deep_view() =~= self@.params());
        values
    }

    /// Whether to fetch rows; otherwise the statement is only executed.
    pub fn reads(&self) -> (rows: bool)
        ensures
            rows == self@.reads(),
    {
        match self {
            Statement::SelectAll => true,
            Statement::SelectById(_) => true,
            _ => false,
        }
    }
}

/// Whether some row of the table has the identifier.
pub open spec fn has_id(table: Seq<Row>, id: i32) -> bool {
    exists|i: int| 0 <= i < table.len() && #[trigger] table[i].id == id
}

/// The rows of the table under the identifier, in the table's order.
pub open spec fn rows_with(table: Seq<Row>, id: i32) -> Seq<Row> {
    table.filter(|row: Row| row.id == id)
}

/// Whether some row of the table has these three fields.
pub open spec fn has_profile(table: Seq<Row>, profile: Profile) -> bool {
    exists|i: int| 0 <= i < table.len() && #[trigger] table[i].profile == profile
}

/// No identifier occurs twice: the table's primary key.
pub open spec fn distinct_ids(table: Seq<Row>) -> bool {
    forall|i: int, j: int|
        0 <= i < j < table.len() ==> (#[trigger] table[i]).id != (#[trigger] table[j]).id
}

/// What a statement means on a table whose database answers every statement:
/// the table after it, and the answer. `next_id` is the identifier that the
/// database would give the next plain insert.
pub open spec fn execute(table: Seq<Row>, command: Command, next_id: i32) -> (Seq<Row>, Outcome) {
    match command {
        Command::SelectAll => (table, Outcome::Rows(table)),
        Command::SelectById(id) => (table, Outcome::Rows(rows_with(table, id))),
        Command::Insert(profile) => (table.push(Row { id: next_id, profile }), Outcome::Done),
        Command::InsertOrSkip(row) => (
            if has_id(table, row.id) {
                table
            } else {
                table.push(row)
            },
            Outcome::Done,
        ),
        Command::Update(id, profile) => (
            table.map_values(
                |row: Row|
                    if row.id == id {
                        Row { id, profile }
                    } else {
                        row
                    },
            ),
            Outcome::Done,
        ),
        Command::Delete(id) => (table.filter(|row: Row| row.id != id), Outcome::Done),
    }
}

/// A handler run against a table for at most `turns` statements, from the
/// answers so far: the table afterwards and the reply, if it came to one.
pub open spec fn drive<T>(
    handler: spec_fn(Seq<Outcome>) -> Plan<T>,
    table: Seq<Row>,
    answers: Seq<Outcome>,
    next_id: i32,
    turns: nat,
) -> (Seq<Row>, Option<Result<T, CustomError>>)
    decreases turns,
{
    match handler(answers) {
        Plan::Reply(reply) => (table, Some(reply)),
        Plan::Run(command) => if turns == 0 {
            (table, None)
        } else {
            let (after, outcome) = execute(table, command, next_id);
            drive(handler, after, answers.push(outcome), next_id, (turns - 1) as nat)
        },
    }
}

/// One whole request against a table: no handler of the service runs more
/// than two statements.
pub open spec fn exchange<T>(
    handler: spec_fn(Seq<Outcome>) -> Plan<T>,
    table: Seq<Row>,
    next_id: i32,
) -> (Seq<Row>, Option<Result<T, CustomError>>) {
    drive(handler, table, Seq::empty(), next_id, 2)
}

} // verus!
