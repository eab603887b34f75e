//! Startup: the connection string, the pool's size, and the seed rows.

use vstd::prelude::*;
use vstd::string::StringExecFns;
use crate::errors::CustomError;
use crate::model::user::{Profile, Row, User};
use crate::store::{Answer, Command, Outcome, Plan, Statement, Step};

verus! {

/// The most connections that the pool hands out at one time.
pub const MAX_CONNECTIONS: u32 = 50;

/// The port that the service listens on, on every interface.
pub const PORT: u16 = 3000;

/// The connection string for the five settings:
/// `postgresql://<username>:<password>@<host>:<port>/<db_name>`.
pub open spec fn database_url(
    username: Seq<char>,
    password: Seq<char>,
    host: Seq<char>,
    port: Seq<char>,
    db_name: Seq<char>,
) -> Seq<char> {
    "postgresql://"@ + username + ":"@ + password + "@"@ + host + ":"@ + port + "/"@ + db_name
}

/// Composes the connection string. The settings go in as they are: nothing
/// is escaped and nothing is checked.
pub fn get_database_url(username: &str, password: &str, host: &str, port: &str, db_name: &str) -> (url:
    String)
    ensures
        url@ == database_url(username@, password@, host@, port@, db_name@),
{
    let mut url = String::from_str("postgresql://");
    url.append(username);
    url.append(":");
    url.append(password);
    url.append("@");
    url.append(host);
    url.append(":");
    url.append(port);
    url.append("/");
    url.append(db_name);
    url
}

/// The name of the first setting that is absent, in the order in which the
/// service asks for them: `DB_USER`, `DB_PASSWORD`, `DB_HOST`, `DB_NAME`,
/// `DB_PORT`. `None` exactly where all five are there.
pub open spec fn first_missing(
    username: bool,
    password: bool,
    host: bool,
    port: bool,
    db_name: bool,
) -> Option<Seq<char>> {
    if !username {
        Some("DB_USER"@)
    } else if !password {
        Some("DB_PASSWORD"@)
    } else if !host {
        Some("DB_HOST"@)
    } else if !db_name {
        Some("DB_NAME"@)
    } else if !port {
        Some("DB_PORT"@)
    } else {
        None
    }
}

/// Which required setting to report as missing, if any. Startup stops on it
/// before anything is connected.
pub fn missing_setting(
    username: Option<&str>,
    password: Option<&str>,
    host: Option<&str>,
    port: Option<&str>,
    db_name: Option<&str>,
) -> (name: Option<&'static str>)
    ensures
        name is Some <==> first_missing(
            username is Some,
            password is Some,
            host is Some,
            port is Some,
            db_name is Some,
        ) is Some,
        name is Some ==> Some(name->Some_0@) == first_missing(
            username is Some,
            password is Some,
            host is Some,
            port is Some,
            db_name is Some,
        ),
{
    if username.is_none() {
        Some("DB_USER")
    } else if password.is_none() {
        Some("DB_PASSWORD")
    } else if host.is_none() {
        Some("DB_HOST")
    } else if db_name.is_none() {
        Some("DB_NAME")
    } else if port.is_none() {
        Some("DB_PORT")
    } else {
        None
    }
}

/// Whether the mode setting asks for the seed rows: only the exact word `dev`
/// does, and an absent setting does not.
pub fn seeds_in(mode: Option<&str>) -> (seeding: bool)
    ensures
        seeding == (mode is Some && mode->Some_0@ == "dev"@),
{
    match mode {
        Some(word) => String::from_str(word) == String::from_str("dev"),
        None => false,
    }
}

/// The two sample rows, under the identifiers 1 and 2.
pub open spec fn sample_rows() -> Seq<Row> {
    seq![
        Row {
            id: 1i32,
            profile: Profile {
                first_name: "John"@,
                last_name: "Doe"@,
                email: "john_doe@email.com"@,
            },
        },
        Row {
            id: 2i32,
            profile: Profile {
                first_name: "Jane"@,
                last_name: "Doe"@,
                email: "jane_doe@email.com"@,
            },
        },
    ]
}

/// The two sample rows as values.
pub fn sample_users() -> (users: Vec<User>)
    ensures
        users.deep_view() == sample_rows(),
{
    let mut users: Vec<User> = Vec::new();
    users.push(
        User {
            id: 1i32,
            first_name: String::from_str("John"),
            last_name: String::from_str("Doe"),
            email: String::from_str("john_doe@email.com"),
        },
    );
    users.push(
        User {
            id: 2i32,
            first_name: String::from_str("Jane"),
            last_name: String::from_str("Doe"),
            email: String::from_str("jane_doe@email.com"),
        },
    );
    assert(users.deep_view() =~= sample_rows());
    users
}

/// Inserting `rows` one after the other, skipping taken identifiers: the first
/// insert that did not go through ends the exchange with an internal server
/// error; while every answer so far is good, the next row is inserted; after
/// the last row the exchange ends well.
pub open spec fn plan_inserts(rows: Seq<Row>, answers: Seq<Outcome>) -> Plan<()> {
    if exists|i: int| 0 <= i < rows.len() && i < answers.len() && !(#[trigger] answers[i] is Done) {
        Plan::Reply(Err(CustomError::InternalServerError))
    } else if answers.len() < rows.len() {
        Plan::Run(Command::InsertOrSkip(rows[answers.len() as int]))
    } else {
        Plan::Reply(Ok(()))
    }
}

/// The next step of inserting `users` in order, given the answers so far.
pub fn insert_each(users: &Vec<User>, answers: &Vec<Answer>) -> (step: Step<()>)
    ensures
        step@ == plan_inserts(users.deep_view(), answers.deep_view()),
{
    let ghost rows = users.deep_view();
    let ghost outcomes = answers.deep_view();
    let mut i: usize = 0;
    while i < users.len() && i < answers.len()
        invariant
            i <= users.len(),
            i <= answers.len(),
            rows == users.deep_view(),
            outcomes == answers.deep_view(),
            forall|j: int| 0 <= j < i ==> #[trigger] outcomes[j] is Done,
        decreases users.len() - i,
    {
        match &answers[i] {
            Answer::Done => {},
            _ => {
                assert(!(outcomes[i as int] is Done));
                return Step::Reply(Err(CustomError::InternalServerError));
            },
        }
        i = i + 1;
    }
    if i < users.len() {
        Step::Run(Statement::InsertOrSkip(users[i].clone()))
    } else {
        Step::Reply(Ok(()))
    }
}

/// The next step of seeding, given the answers so far: the sample rows are
/// inserted in order, each only where its identifier is free.
pub fn seed_users(answers: &Vec<Answer>) -> (step: Step<()>)
    ensures
        step@ == plan_inserts(sample_rows(), answers.deep_view()),
{
    let users = sample_users();
    insert_each(&users, answers)
}

} // verus!
