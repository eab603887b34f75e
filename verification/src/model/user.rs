//! The user entity, the two request payloads, and the five handlers.

use vstd::prelude::*;
use vstd::string::StringExecFns;
use crate::errors::CustomError;
use crate::store::{Answer, Command, Outcome, Plan, Statement, Step};

verus! {

/// The three text fields that every payload and every row carries.
pub struct Profile {
    pub first_name: Seq<char>,
    pub last_name: Seq<char>,
    pub email: Seq<char>,
}

/// One row of the `users` table.
pub struct Row {
    pub id: i32,
    pub profile: Profile,
}

impl Profile {
    /// No field is the empty string: what create and update ask of a payload.
    pub open spec fn complete(self) -> bool {
        self.first_name.len() > 0 && self.last_name.len() > 0 && self.email.len() > 0
    }
}

/// A persisted user. The database assigns `id`.
#[derive(Debug, PartialEq, Eq)]
pub struct User {
    pub id: i32,
    pub first_name: String,
    pub last_name: String,
    pub email: String,
}

/// The payload of a create request.
#[derive(Debug, PartialEq, Eq)]
pub struct NewUser {
    pub first_name: String,
    pub last_name: String,
    pub email: String,
}

/// The payload of an update request: a full replacement of the three fields.
#[derive(Debug, PartialEq, Eq)]
pub struct UpdateUser {
    pub first_name: String,
    pub last_name: String,
    pub email: String,
}

impl View for User {
    type V = Row;

    open spec fn view(&self) -> Row {
        Row {
            id: self.id,
            profile: Profile {
                first_name: self.first_name@,
                last_name: self.last_name@,
                email: self.email@,
            },
        }
    }
}

impl DeepView for User {
    type V = Row;

    open spec fn deep_view(&self) -> Row {
        self@
    }
}

impl View for NewUser {
    type V = Profile;

    open spec fn view(&self) -> Profile {
        Profile {
            first_name: self.first_name@,
            last_name: self.last_name@,
            email: self.email@,
        }
    }
}

impl DeepView for NewUser {
    type V = Profile;

    open spec fn deep_view(&self) -> Profile {
        self@
    }
}

impl View for UpdateUser {
    type V = Profile;

    open spec fn view(&self) -> Profile {
        Profile {
            first_name: self.first_name@,
            last_name: self.last_name@,
            email: self.email@,
        }
    }
}

impl DeepView for UpdateUser {
    type V = Profile;

    open spec fn deep_view(&self) -> Profile {
        self@
    }
}

impl Clone for User {
    fn clone(&self) -> (copy: Self)
        ensures
            copy == *self,
    {
        User {
            id: self.id,
            first_name: self.first_name.clone(),
            last_name: self.last_name.clone(),
            email: self.email.clone(),
        }
    }
}

impl Clone for NewUser {
    fn clone(&self) -> (copy: Self)
        ensures
            copy == *self,
    {
        NewUser {
            first_name: self.first_name.clone(),
            last_name: self.last_name.clone(),
            email: self.email.clone(),
        }
    }
}

impl Clone for UpdateUser {
    fn clone(&self) -> (copy: Self)
        ensures
            copy == *self,
    {
        UpdateUser {
            first_name: self.first_name.clone(),
            last_name: self.last_name.clone(),
            email: self.email.clone(),
        }
    }
}

impl NewUser {
    /// Whether the payload may be written: no field is empty.
    pub fn is_complete(&self) -> (ok: bool)
        ensures
            ok == self@.complete(),
    {
        !(self.first_name.as_str().is_empty() || self.last_name.as_str().is_empty()
            || self.email.as_str().is_empty())
    }
}

impl UpdateUser {
    /// Whether the payload may be written: no field is empty.
    pub fn is_complete(&self) -> (ok: bool)
        ensures
            ok == self@.complete(),
    {
        !(self.first_name.as_str().is_empty() || self.last_name.as_str().is_empty()
            || self.email.as_str().is_empty())
    }
}

/// The body of a successful delete: `{"msg": "User Deleted"}`.
#[derive(Debug, PartialEq, Eq)]
pub struct Deleted {
    pub msg: String,
}

impl DeepView for Deleted {
    type V = Seq<char>;

    open spec fn deep_view(&self) -> Seq<char> {
        self.msg@
    }
}

/// The row that a lookup by identifier found: the first row of the answer.
/// An answer without rows, and a failed lookup, found nothing.
pub open spec fn found(outcome: Outcome) -> Option<Row> {
    match outcome {
        Outcome::Rows(rows) => if rows.len() > 0 {
            Some(rows[0])
        } else {
            None
        },
        _ => None,
    }
}

/// List: select every row; reply 200 with the rows, or an internal server
/// error where the select did not answer with rows.
pub open spec fn plan_all_users(answers: Seq<Outcome>) -> Plan<(u16, Seq<Row>)> {
    if answers.len() == 0 {
        Plan::Run(Command::SelectAll)
    } else {
        match answers[0] {
            Outcome::Rows(rows) => Plan::Reply(Ok((200u16, rows))),
            _ => Plan::Reply(Err(CustomError::InternalServerError)),
        }
    }
}

/// Get: look the identifier up; reply with the row, or not found where the
/// lookup found nothing, whatever the reason.
pub open spec fn plan_get_user(id: i32, answers: Seq<Outcome>) -> Plan<Row> {
    if answers.len() == 0 {
        Plan::Run(Command::SelectById(id))
    } else {
        match found(answers[0]) {
            Some(row) => Plan::Reply(Ok(row)),
            None => Plan::Reply(Err(CustomError::UserNotFound)),
        }
    }
}

/// Create: a payload with an empty field is a bad request and runs nothing.
/// Otherwise insert; reply 201 with the payload, or an internal server error
/// where the insert did not go through.
pub open spec fn plan_new_user(user: Profile, answers: Seq<Outcome>) -> Plan<(u16, Profile)> {
    if !user.complete() {
        Plan::Reply(Err(CustomError::BadRequest))
    } else if answers.len() == 0 {
        Plan::Run(Command::Insert(user))
    } else if answers[0] is Done {
        Plan::Reply(Ok((201u16, user)))
    } else {
        Plan::Reply(Err(CustomError::InternalServerError))
    }
}

/// Update: a payload with an empty field is a bad request and runs nothing.
/// Otherwise look the identifier up; not found where the lookup found
/// nothing. Then update; reply 200 with the payload, or an internal server
/// error where the update did not go through.
pub open spec fn plan_update_user(id: i32, user: Profile, answers: Seq<Outcome>) -> Plan<
    (u16, Profile),
> {
    if !user.complete() {
        Plan::Reply(Err(CustomError::BadRequest))
    } else if answers.len() == 0 {
        Plan::Run(Command::SelectById(id))
    } else if found(answers[0]) is None {
        Plan::Reply(Err(CustomError::UserNotFound))
    } else if answers.len() == 1 {
        Plan::Run(Command::Update(id, user))
    } else if answers[1] is Done {
        Plan::Reply(Ok((200u16, user)))
    } else {
        Plan::Reply(Err(CustomError::InternalServerError))
    }
}

/// Delete: look the identifier up; not found where the lookup found nothing.
/// Then delete; reply 200 with the fixed message, or not found where the
/// delete did not go through.
pub open spec fn plan_delete_user(id: i32, answers: Seq<Outcome>) -> Plan<(u16, Seq<char>)> {
    if answers.len() == 0 {
        Plan::Run(Command::SelectById(id))
    } else if found(answers[0]) is None {
        Plan::Reply(Err(CustomError::UserNotFound))
    } else if answers.len() == 1 {
        Plan::Run(Command::Delete(id))
    } else if answers[1] is Done {
        Plan::Reply(Ok((200u16, "User Deleted"@)))
    } else {
        Plan::Reply(Err(CustomError::UserNotFound))
    }
}

/// The first row of an answer, if it has one.
pub fn first_row(answer: &Answer) -> (row: Option<User>)
    ensures
        row.deep_view() == found(answer.deep_view()),
{
    match answer {
        Answer::Rows(rows) => {
            if rows.len() > 0 {
                Some(rows[0].clone())
            } else {
                None
            }
        },
        _ => None,
    }
}

/// The next step of a list request, given the answers so far.
pub fn all_users(answers: &Vec<Answer>) -> (step: Step<(u16, Vec<User>)>)
    ensures
        step@ == plan_all_users(answers.deep_view()),
{
    if answers.len() == 0 {
        return Step::Run(Statement::SelectAll);
    }
    match &answers[0] {
        Answer::Rows(rows) => Step::Reply(Ok((200u16, rows.clone()))),
        _ => Step::Reply(Err(CustomError::InternalServerError)),
    }
}

/// The next step of a get request for `id`, given the answers so far.
pub fn get_user(id: i32, answers: &Vec<Answer>) -> (step: Step<User>)
    ensures
        step@ == plan_get_user(id, answers.deep_view()),
{
    if answers.len() == 0 {
        return Step::Run(Statement::SelectById(id));
    }
    match first_row(&answers[0]) {
        Some(user) => Step::Reply(Ok(user)),
        None => Step::Reply(Err(CustomError::UserNotFound)),
    }
}

/// The next step of a create request, given the answers so far.
pub fn new_user(user: &NewUser, answers: &Vec<Answer>) -> (step: Step<(u16, NewUser)>)
    ensures
        step@ == plan_new_user(user@, answers.deep_view()),
{
    if !user.is_complete() {
        return Step::Reply(Err(CustomError::BadRequest));
    }
    if answers.len() == 0 {
        return Step::Run(Statement::Insert(user.clone()));
    }
    match &answers[0] {
        Answer::Done => Step::Reply(Ok((201u16, user.clone()))),
        _ => Step::Reply(Err(CustomError::InternalServerError)),
    }
}

/// The next step of an update request for `id`, given the answers so far.
pub fn update_user(id: i32, user: &UpdateUser, answers: &Vec<Answer>) -> (step: Step<
    (u16, UpdateUser),
>)
    ensures
        step@ == plan_update_user(id, user@, answers.deep_view()),
{
    if !user.is_complete() {
        return Step::Reply(Err(CustomError::BadRequest));
    }
    if answers.len() == 0 {
        return Step::Run(Statement::SelectById(id));
    }
    if first_row(&answers[0]).is_none() {
        return Step::Reply(Err(CustomError::UserNotFound));
    }
    if answers.len() == 1 {
        return Step::Run(Statement::Update(id, user.clone()));
    }
    match &answers[1] {
        Answer::Done => Step::Reply(Ok((200u16, user.clone()))),
        _ => Step::Reply(Err(CustomError::InternalServerError)),
    }
}

/// The next step of a delete request for `id`, given the answers so far.
pub fn delete_user(id: i32, answers: &Vec<Answer>) -> (step: Step<(u16, Deleted)>)
    ensures
        step@ == plan_delete_user(id, answers.deep_view()),
{
    if answers.len() == 0 {
        return Step::Run(Statement::SelectById(id));
    }
    if first_row(&answers[0]).is_none() {
        return Step::Reply(Err(CustomError::UserNotFound));
    }
    if answers.len() == 1 {
        return Step::Run(Statement::Delete(id));
    }
    match &answers[1] {
        Answer::Done => Step::Reply(
            Ok((200u16, Deleted { msg: String::from_str("User Deleted") })),
        ),
        _ => Step::Reply(Err(CustomError::UserNotFound)),
    }
}

} // verus!
