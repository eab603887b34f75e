use user_service::errors::CustomError;
use user_service::model::user::{
    all_users, delete_user, get_user, new_user, update_user, Deleted, NewUser, UpdateUser, User,
};
use user_service::store::{Answer, Statement, Step};
use user_service::util::seed_users;

/// A table in memory that answers every statement, for the exchanges below.
struct Table {
    rows: Vec<User>,
    next_id: i32,
}

fn answer(table: &mut Table, statement: &Statement) -> Answer {
    match statement {
        Statement::SelectAll => Answer::Rows(table.rows.clone()),
        Statement::SelectById(id) => {
            Answer::Rows(table.rows.iter().filter(|row| row.id == *id).cloned().collect())
        }
        Statement::Insert(user) => {
            table.rows.push(User {
                id: table.next_id,
                first_name: user.first_name.clone(),
                last_name: user.last_name.clone(),
                email: user.email.clone(),
            });
            table.next_id += 1;
            Answer::Done
        }
        Statement::InsertOrSkip(user) => {
            if !table.rows.iter().any(|row| row.id == user.id) {
                table.rows.push(user.clone());
            }
            Answer::Done
        }
        Statement::Update(id, user) => {
            for row in table.rows.iter_mut().filter(|row| row.id == *id) {
                row.first_name = user.first_name.clone();
                row.last_name = user.last_name.clone();
                row.email = user.email.clone();
            }
            Answer::Done
        }
        Statement::Delete(id) => {
            table.rows.retain(|row| row.id != *id);
            Answer::Done
        }
    }
}

fn exchange<T>(
    table: &mut Table,
    handler: impl Fn(&Vec<Answer>) -> Step<T>,
) -> (Result<T, CustomError>, usize) {
    let mut answers: Vec<Answer> = Vec::new();
    loop {
        match handler(&answers) {
            Step::Reply(reply) => return (reply, answers.len()),
            Step::Run(statement) => {
                assert!(answers.len() < 2);
                let next = answer(table, &statement);
                answers.push(next);
            }
        }
    }
}

fn empty_table() -> Table {
    Table { rows: Vec::new(), next_id: 100 }
}

fn grace() -> NewUser {
    NewUser {
        first_name: "Grace".to_string(),
        last_name: "Hopper".to_string(),
        email: "grace@navy.mil".to_string(),
    }
}

#[test]
fn created_user_shows_up_in_the_list() {
    let mut table = empty_table();
    let (reply, statements) = exchange(&mut table, |a| new_user(&grace(), a));
    assert_eq!(reply, Ok((201, grace())));
    assert_eq!(statements, 1);
    let (listed, _) = exchange(&mut table, |a| all_users(a));
    let (status, rows) = listed.unwrap();
    assert_eq!(status, 200);
    assert_eq!(
        rows,
        vec![User {
            id: 100,
            first_name: "Grace".to_string(),
            last_name: "Hopper".to_string(),
            email: "grace@navy.mil".to_string(),
        }]
    );
}

#[test]
fn incomplete_user_adds_no_row() {
    let mut table = empty_table();
    let mut user = grace();
    user.first_name = String::new();
    let (reply, statements) = exchange(&mut table, |a| new_user(&user, a));
    assert_eq!(reply, Err(CustomError::BadRequest));
    assert_eq!(reply.unwrap_err().status(), 400);
    assert_eq!(statements, 0);
    assert!(table.rows.is_empty());
}

#[test]
fn absent_identifier_is_404() {
    let mut table = empty_table();
    exchange(&mut table, |a| new_user(&grace(), a)).0.unwrap();
    let (reply, _) = exchange(&mut table, |a| get_user(999999, a));
    assert_eq!(reply, Err(CustomError::UserNotFound));
    assert_eq!(reply.unwrap_err().status(), 404);
}

#[test]
fn updated_user_is_read_back() {
    let mut table = empty_table();
    exchange(&mut table, |a| new_user(&grace(), a)).0.unwrap();
    let change = UpdateUser {
        first_name: "Grace".to_string(),
        last_name: "Murray".to_string(),
        email: "grace@vassar.edu".to_string(),
    };
    let (reply, statements) = exchange(&mut table, |a| update_user(100, &change, a));
    assert_eq!(reply, Ok((200, change.clone())));
    assert_eq!(statements, 2);
    let (read, _) = exchange(&mut table, |a| get_user(100, a));
    assert_eq!(
        read,
        Ok(User {
            id: 100,
            first_name: "Grace".to_string(),
            last_name: "Murray".to_string(),
            email: "grace@vassar.edu".to_string(),
        })
    );
}

#[test]
fn update_of_an_absent_identifier_is_404_not_200() {
    let mut table = empty_table();
    let change = UpdateUser {
        first_name: "Grace".to_string(),
        last_name: "Murray".to_string(),
        email: "grace@vassar.edu".to_string(),
    };
    let (reply, statements) = exchange(&mut table, |a| update_user(5, &change, a));
    assert_eq!(reply, Err(CustomError::UserNotFound));
    assert_eq!(statements, 1);
    assert!(table.rows.is_empty());
}

#[test]
fn deleted_user_is_gone() {
    let mut table = empty_table();
    exchange(&mut table, |a| new_user(&grace(), a)).0.unwrap();
    let (reply, _) = exchange(&mut table, |a| delete_user(100, a));
    assert_eq!(reply, Ok((200, Deleted { msg: "User Deleted".to_string() })));
    let (read, _) = exchange(&mut table, |a| get_user(100, a));
    assert_eq!(read, Err(CustomError::UserNotFound));
    assert!(table.rows.is_empty());
}

#[test]
fn seeding_twice_leaves_one_row_each() {
    let mut table = empty_table();
    assert_eq!(exchange(&mut table, |a| seed_users(a)), (Ok(()), 2));
    let once = table.rows.clone();
    assert_eq!(once.len(), 2);
    assert_eq!(exchange(&mut table, |a| seed_users(a)), (Ok(()), 2));
    assert_eq!(table.rows, once);
    assert_eq!(table.rows.iter().filter(|row| row.id == 1).count(), 1);
    assert_eq!(table.rows.iter().filter(|row| row.id == 2).count(), 1);
}

#[test]
fn seeding_skips_a_taken_identifier() {
    let mut table = empty_table();
    table.rows.push(User {
        id: 1,
        first_name: "Someone".to_string(),
        last_name: "Else".to_string(),
        email: "else@where.org".to_string(),
    });
    assert_eq!(exchange(&mut table, |a| seed_users(a)), (Ok(()), 2));
    assert_eq!(table.rows.len(), 2);
    assert_eq!(table.rows[0].first_name, "Someone");
    assert_eq!(table.rows[1].first_name, "Jane");
}

#[test]
fn two_creates_echo_their_own_payloads() {
    let mut table = empty_table();
    let other = NewUser {
        first_name: "Alan".to_string(),
        last_name: "Turing".to_string(),
        email: "alan@bletchley.uk".to_string(),
    };
    let first = new_user(&grace(), &Vec::new());
    let second = new_user(&other, &Vec::new());
    let mut answers_first: Vec<Answer> = Vec::new();
    let mut answers_second: Vec<Answer> = Vec::new();
    if let Step::Run(statement) = second {
        answers_second.push(answer(&mut table, &statement));
    }
    if let Step::Run(statement) = first {
        answers_first.push(answer(&mut table, &statement));
    }
    assert_eq!(new_user(&grace(), &answers_first), Step::Reply(Ok((201, grace()))));
    assert_eq!(new_user(&other, &answers_second), Step::Reply(Ok((201, other.clone()))));
    assert_eq!(table.rows.len(), 2);
    assert_eq!(table.rows[0].first_name, "Alan");
    assert_eq!(table.rows[1].first_name, "Grace");
}

#[test]
fn rows_stay_complete_through_writes() {
    let mut table = empty_table();
    exchange(&mut table, |a| seed_users(a)).0.unwrap();
    exchange(&mut table, |a| new_user(&grace(), a)).0.unwrap();
    let blank = UpdateUser {
        first_name: "Grace".to_string(),
        last_name: String::new(),
        email: "grace@navy.mil".to_string(),
    };
    let (reply, statements) = exchange(&mut table, |a| update_user(100, &blank, a));
    assert_eq!(reply, Err(CustomError::BadRequest));
    assert_eq!(statements, 0);
    exchange(&mut table, |a| delete_user(1, a)).0.unwrap();
    assert_eq!(table.rows.len(), 2);
    for row in table.rows.iter() {
        assert!(!row.first_name.is_empty());
        assert!(!row.last_name.is_empty());
        assert!(!row.email.is_empty());
    }
}

#[test]
fn list_of_an_empty_table_is_empty() {
    let mut table = empty_table();
    assert_eq!(exchange(&mut table, |a| all_users(a)), (Ok((200, Vec::new())), 1));
}
