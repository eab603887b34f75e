//! What holds of whole requests, on a database that answers every statement
//! as `store::execute` says.

use vstd::prelude::*;
use crate::errors::CustomError;
use crate::model::user::{
    plan_all_users, plan_delete_user, plan_get_user, plan_new_user, plan_update_user, Profile, Row,
};
use crate::store::{
    distinct_ids, drive, exchange, execute, has_id, has_profile, rows_with, Command, Outcome, Plan,
};
use crate::util::{plan_inserts, sample_rows};

verus! {

/// A lookup answers with at least one row exactly where the identifier is in
/// the table, and every row of the answer has that identifier and is a row of
/// the table.
pub proof fn lookup_finds_what_is_there(table: Seq<Row>, id: i32)
    ensures
        has_id(table, id) <==> rows_with(table, id).len() > 0,
        forall|i: int|
            0 <= i < rows_with(table, id).len() ==> (#[trigger] rows_with(table, id)[i]).id == id
                && table.contains(rows_with(table, id)[i]),
{
    let wanted = |row: Row| row.id == id;
    let rows = table.filter(wanted);
    broadcast use {vstd::seq_lib::group_filter_ensures, Seq::lemma_filter_contains_rev};
    if has_id(table, id) {
        let i = choose|i: int| 0 <= i < table.len() && #[trigger] table[i].id == id;
        assert(wanted(table[i]));
        assert(rows.contains(table[i]));
    }
    if rows.len() > 0 {
        assert(wanted(rows[0]));
        assert(rows.contains(rows[0]));
        assert(table.contains(rows[0]));
        let i = choose|i: int| 0 <= i < table.len() && table[i] == rows[0];
        assert(table[i].id == id);
    }
    assert forall|i: int| 0 <= i < rows.len() implies (#[trigger] rows[i]).id == id
        && table.contains(rows[i]) by {
        assert(wanted(rows[i]));
        assert(rows.contains(rows[i]));
    }
}

/// Creating a user with three non-empty fields is answered with 201 and the
/// payload, and a list that follows holds a row with those fields.
pub proof fn created_user_is_listed(table: Seq<Row>, user: Profile, next_id: i32, later_id: i32)
    requires
        user.complete(),
    ensures
        exchange(|a: Seq<Outcome>| plan_new_user(user, a), table, next_id).1 == Some(
            Ok::<(u16, Profile), CustomError>((201u16, user)),
        ),
        ({
            let after = exchange(|a: Seq<Outcome>| plan_new_user(user, a), table, next_id).0;
            &&& exchange(|a: Seq<Outcome>| plan_all_users(a), after, later_id) == (
                after,
                Some(Ok::<(u16, Seq<Row>), CustomError>((200u16, after))),
            )
            &&& has_profile(after, user)
        }),
{
    reveal_with_fuel(drive, 3);
    let after = table.push(Row { id: next_id, profile: user });
    assert(after[table.len() as int].profile == user);
}

/// Creating a user with an empty field is answered with 400, and the table
/// stays as it was.
pub proof fn incomplete_user_is_refused(table: Seq<Row>, user: Profile, next_id: i32)
    requires
        !user.complete(),
    ensures
        exchange(|a: Seq<Outcome>| plan_new_user(user, a), table, next_id) == (
            table,
            Some(Err::<(u16, Profile), CustomError>(CustomError::BadRequest)),
        ),
        CustomError::BadRequest.spec_status() == 400,
{
    reveal_with_fuel(drive, 3);
}

/// Getting an identifier that no row has is answered with 404.
pub proof fn absent_user_is_not_found(table: Seq<Row>, id: i32, next_id: i32)
    requires
        !has_id(table, id),
    ensures
        exchange(|a: Seq<Outcome>| plan_get_user(id, a), table, next_id) == (
            table,
            Some(Err::<Row, CustomError>(CustomError::UserNotFound)),
        ),
        CustomError::UserNotFound.spec_status() == 404,
{
    reveal_with_fuel(drive, 3);
    lookup_finds_what_is_there(table, id);
}

/// Updating a user that is there, with three non-empty fields, is answered
/// with 200 and the payload, and a get that follows answers with the
/// identifier and the new fields.
pub proof fn updated_user_is_read_back(
    table: Seq<Row>,
    id: i32,
    user: Profile,
    next_id: i32,
    later_id: i32,
)
    requires
        has_id(table, id),
        user.complete(),
    ensures
        exchange(|a: Seq<Outcome>| plan_update_user(id, user, a), table, next_id).1 == Some(
            Ok::<(u16, Profile), CustomError>((200u16, user)),
        ),
        ({
            let after = exchange(|a: Seq<Outcome>| plan_update_user(id, user, a), table, next_id).0;
            exchange(|a: Seq<Outcome>| plan_get_user(id, a), after, later_id) == (
                after,
                Some(Ok::<Row, CustomError>(Row { id, profile: user })),
            )
        }),
{
    reveal_with_fuel(drive, 3);
    lookup_finds_what_is_there(table, id);
    let after = table.map_values(
        |row: Row|
            if row.id == id {
                Row { id, profile: user }
            } else {
                row
            },
    );
    let i = choose|i: int| 0 <= i < table.len() && #[trigger] table[i].id == id;
    assert(after[i].id == id);
    lookup_finds_what_is_there(after, id);
    let hit = rows_with(after, id)[0];
    assert(after.contains(hit));
    let j = choose|j: int| 0 <= j < after.len() && after[j] == hit;
    assert(table[j].id == id || after[j] == table[j]);
}

/// Updating an identifier that no row has is never answered with 200: with
/// three non-empty fields it is answered with 404, with an empty field with
/// 400, and the table stays as it was.
pub proof fn absent_user_is_not_updated(table: Seq<Row>, id: i32, user: Profile, next_id: i32)
    requires
        !has_id(table, id),
    ensures
        exchange(|a: Seq<Outcome>| plan_update_user(id, user, a), table, next_id) == (
            table,
            Some(
                Err::<(u16, Profile), CustomError>(
                    if user.complete() {
                        CustomError::UserNotFound
                    } else {
                        CustomError::BadRequest
                    },
                ),
            ),
        ),
{
    reveal_with_fuel(drive, 3);
    lookup_finds_what_is_there(table, id);
}

/// Deleting a user that is there is answered with 200 and the message
/// `User Deleted`; afterwards no row has the identifier, and a get for it is
/// answered with 404.
pub proof fn deleted_user_is_gone(table: Seq<Row>, id: i32, next_id: i32, later_id: i32)
    requires
        has_id(table, id),
    ensures
        exchange(|a: Seq<Outcome>| plan_delete_user(id, a), table, next_id).1 == Some(
            Ok::<(u16, Seq<char>), CustomError>((200u16, "User Deleted"@)),
        ),
        ({
            let after = exchange(|a: Seq<Outcome>| plan_delete_user(id, a), table, next_id).0;
            &&& !has_id(after, id)
            &&& exchange(|a: Seq<Outcome>| plan_get_user(id, a), after, later_id) == (
                after,
                Some(Err::<Row, CustomError>(CustomError::UserNotFound)),
            )
        }),
{
    reveal_with_fuel(drive, 3);
    lookup_finds_what_is_there(table, id);
    let others = |row: Row| row.id != id;
    let after = table.filter(others);
    broadcast use vstd::seq_lib::group_filter_ensures;
    assert(!has_id(after, id)) by {
        if has_id(after, id) {
            let i = choose|i: int| 0 <= i < after.len() && #[trigger] after[i].id == id;
            assert(others(after[i]));
        }
    }
    lookup_finds_what_is_there(after, id);
}

/// Seeding ends well and leaves a row under 1 and a row under 2. Seeding
/// once more changes nothing, and a table without a repeated identifier
/// stays one.
pub proof fn seeding_twice_adds_nothing(table: Seq<Row>, next_id: i32, later_id: i32)
    ensures
        exchange(|a: Seq<Outcome>| plan_inserts(sample_rows(), a), table, next_id).1 == Some(
            Ok::<(), CustomError>(()),
        ),
        ({
            let once = exchange(|a: Seq<Outcome>| plan_inserts(sample_rows(), a), table, next_id).0;
            &&& has_id(once, 1)
            &&& has_id(once, 2)
            &&& distinct_ids(table) ==> distinct_ids(once)
            &&& exchange(|a: Seq<Outcome>| plan_inserts(sample_rows(), a), once, later_id) == (
                once,
                Some(Ok::<(), CustomError>(())),
            )
        }),
{
    reveal_with_fuel(drive, 3);
    let john = sample_rows()[0];
    let jane = sample_rows()[1];
    let first = if has_id(table, 1) {
        table
    } else {
        table.push(john)
    };
    let once = if has_id(first, 2) {
        first
    } else {
        first.push(jane)
    };
    if !has_id(table, 1) {
        assert(first[table.len() as int].id == 1);
    }
    let k = choose|k: int| 0 <= k < first.len() && #[trigger] first[k].id == 1;
    assert(once[k].id == 1);
    if !has_id(first, 2) {
        assert(once[first.len() as int].id == 2);
    }
    let done_once = Seq::<Outcome>::empty().push(Outcome::Done);
    let done_twice = done_once.push(Outcome::Done);
    assert(done_once[0] is Done);
    assert(done_twice[0] is Done && done_twice[1] is Done);
}

/// Whatever the database answers, no handler asks for a third statement.
pub proof fn two_answers_end_every_exchange(id: i32, user: Profile, answers: Seq<Outcome>)
    requires
        answers.len() >= 2,
    ensures
        plan_all_users(answers) is Reply,
        plan_get_user(id, answers) is Reply,
        plan_new_user(user, answers) is Reply,
        plan_update_user(id, user, answers) is Reply,
        plan_delete_user(id, answers) is Reply,
        plan_inserts(sample_rows(), answers) is Reply,
{
}

/// Every row has three non-empty fields.
pub open spec fn all_complete(table: Seq<Row>) -> bool {
    forall|i: int| 0 <= i < table.len() ==> (#[trigger] table[i]).profile.complete()
}

/// Where every row has three non-empty fields, that is still so after a
/// create, an update, a delete or the seeding, whatever the payload was.
pub proof fn writes_keep_rows_complete(table: Seq<Row>, id: i32, user: Profile, next_id: i32)
    requires
        all_complete(table),
    ensures
        all_complete(exchange(|a: Seq<Outcome>| plan_new_user(user, a), table, next_id).0),
        all_complete(exchange(|a: Seq<Outcome>| plan_update_user(id, user, a), table, next_id).0),
        all_complete(exchange(|a: Seq<Outcome>| plan_delete_user(id, a), table, next_id).0),
        all_complete(exchange(|a: Seq<Outcome>| plan_inserts(sample_rows(), a), table, next_id).0),
{
    reveal_with_fuel(drive, 3);
    broadcast use {vstd::seq_lib::group_filter_ensures, Seq::lemma_filter_contains_rev};
    let others = |row: Row| row.id != id;
    let kept = table.filter(others);
    assert forall|i: int| 0 <= i < kept.len() implies (#[trigger] kept[i]).profile.complete() by {
        assert(kept.contains(kept[i]));
        assert(table.contains(kept[i]));
    }
    reveal_strlit("John");
    reveal_strlit("Jane");
    reveal_strlit("Doe");
    reveal_strlit("john_doe@email.com");
    reveal_strlit("jane_doe@email.com");
    assert(sample_rows()[0].profile.complete());
    assert(sample_rows()[1].profile.complete());
    let a0 = Seq::<Outcome>::empty();
    let a1 = a0.push(Outcome::Done);
    let a2 = a1.push(Outcome::Done);
    assert(a1[0] is Done);
    assert(a2[0] is Done && a2[1] is Done);
}

/// Two creates with different complete payloads, their inserts run one after
/// the other: each is answered with 201 and its own payload, the two replies
/// differ, and the table gains exactly the two rows, each with the fields
/// that its request sent. Swapping the arguments gives the other order.
pub proof fn two_creates_keep_their_payloads(
    table: Seq<Row>,
    first: Profile,
    second: Profile,
    first_id: i32,
    second_id: i32,
)
    requires
        first.complete(),
        second.complete(),
        first != second,
    ensures
        ({
            let (between, first_answer) = execute(table, Command::Insert(first), first_id);
            let (after, second_answer) = execute(between, Command::Insert(second), second_id);
            let first_reply = plan_new_user(first, seq![first_answer]);
            let second_reply = plan_new_user(second, seq![second_answer]);
            &&& first_reply == Plan::Reply(Ok::<(u16, Profile), CustomError>((201u16, first)))
            &&& second_reply == Plan::Reply(Ok::<(u16, Profile), CustomError>((201u16, second)))
            &&& first_reply != second_reply
            &&& after == table.push(Row { id: first_id, profile: first }).push(
                Row { id: second_id, profile: second },
            )
            &&& has_profile(after, first)
            &&& has_profile(after, second)
        }),
{
    let after = table.push(Row { id: first_id, profile: first }).push(
        Row { id: second_id, profile: second },
    );
    assert(after[table.len() as int].profile == first);
    assert(after[table.len() as int + 1].profile == second);
}

} // verus!
