//! A request from beginning to end, and what holds of every one.
//!
//! The three steps of `student` are taken in turn by a caller that reads the
//! store when a request is let in and writes it when a changed collection is
//! handed back. What such a caller answers, and what it does to the store, is
//! stated here once for all requests.

use vstd::prelude::*;

use crate::dbpool::Record;
use crate::error::{Failure, NotFound};
use crate::payload::{member_or_null, submitted_record, Body};
use crate::security::Credential;
use crate::student::{
    admitted, answered, created, deleted, got, handled, has_id, is_first_with_id,
    lemma_no_id_no_position, lemma_position_found, lemma_position_none, lemma_position_some,
    position, updated, HandledView, ReplyView, RequestView,
};
use crate::text::{decimal_i64, without_quotes};

verus! {

/// One request served from beginning to end, by a caller that loads and saves
/// as the three steps tell it.
pub struct Exchange {
    /// The answer that goes out.
    pub answer: Result<ReplyView, Failure>,
    /// Whether the collection was read from the store.
    pub read: bool,
    /// The collection that was handed to the store to save, if one was.
    pub written: Option<Seq<Record>>,
}

/// What becomes of a request, given what the store holds and whether a save,
/// should one be made, succeeds.
pub open spec fn exchange(
    credential: Credential,
    request: RequestView,
    stored: Seq<Record>,
    save_succeeds: bool,
) -> Exchange {
    match admitted(credential, request) {
        Err(failure) => Exchange { answer: Err(failure), read: false, written: None },
        Ok(admitted) => match handled(admitted.operation, stored) {
            Err(_) => Exchange { answer: Err(Failure::NotFound), read: true, written: None },
            Ok(HandledView::Reply(reply)) => Exchange {
                answer: Ok(reply),
                read: true,
                written: None,
            },
            Ok(HandledView::Save(students, reply)) => Exchange {
                answer: match answered(reply, save_succeeds) {
                    Ok(reply) => Ok(reply),
                    Err(_) => Err(Failure::ServerFailure),
                },
                read: true,
                written: Some(students),
            },
        },
    }
}

/// The exchange that ends with a failure before the store is read.
pub open spec fn turned_away(failure: Failure) -> Exchange {
    Exchange { answer: Err(failure), read: false, written: None }
}

/// The exchange that reads the store, finds nothing to do, and fails.
pub open spec fn nothing_found() -> Exchange {
    Exchange { answer: Err(Failure::NotFound), read: true, written: None }
}

/// The exchange that reads the store, saves `students`, and answers `reply`.
pub open spec fn saved_and_answered(students: Seq<Record>, reply: ReplyView) -> Exchange {
    Exchange { answer: Ok(reply), read: true, written: Some(students) }
}

/// A request without a valid credential is answered with an authorization
/// failure, whatever it asks for, and the store is neither read nor written.
pub proof fn lemma_no_credential_no_access(
    credential: Credential,
    request: RequestView,
    stored: Seq<Record>,
    save_succeeds: bool,
)
    requires
        !(credential is Valid),
    ensures
        exchange(credential, request, stored, save_succeeds) == turned_away(Failure::FailAuth),
{
}

/// Listing and getting hand nothing to the store.
pub proof fn lemma_reading_writes_nothing(
    credential: Credential,
    request: RequestView,
    stored: Seq<Record>,
    save_succeeds: bool,
)
    requires
        request is List || request is Get,
    ensures
        exchange(credential, request, stored, save_succeeds).written is None,
{
}

/// Where a collection is handed to the store and the save fails, the answer
/// is a server failure. No other exchange ends in one: where nothing is
/// handed to the store the answer is the same however a save would go, and a
/// save that succeeds is never answered with a server failure. What is handed
/// to the store does not depend on how the save goes.
pub proof fn lemma_failed_save_is_server_failure(
    credential: Credential,
    request: RequestView,
    stored: Seq<Record>,
)
    ensures
        ({
            let failed = exchange(credential, request, stored, false);
            let done = exchange(credential, request, stored, true);
            &&& failed.written == done.written
            &&& failed.read == done.read
            &&& failed.written is Some ==> failed.answer == Err::<ReplyView, Failure>(
                Failure::ServerFailure,
            )
            &&& failed.written is None ==> failed.answer == done.answer
            &&& done.answer != Err::<ReplyView, Failure>(Failure::ServerFailure)
        }),
{
}

/// Creating a record whose id is no integer changes nothing: the store is
/// neither read nor written. The answer is that the id is invalid or, without
/// a valid credential, the authorization failure.
pub proof fn lemma_create_invalid_id(
    credential: Credential,
    body: Body,
    stored: Seq<Record>,
    save_succeeds: bool,
)
    requires
        decimal_i64(without_quotes(member_or_null(body.texts, "id"@))) is None,
    ensures
        exchange(credential, RequestView::Create(body), stored, save_succeeds) == turned_away(
            if credential is Valid {
                Failure::InvalidID
            } else {
                Failure::FailAuth
            },
        ),
{
}

/// Creating a record whose id is an integer and whose name and level are JSON
/// strings puts at the end of the collection, and answers with, the record
/// that has this id and the texts of the two strings, character for
/// character.
pub proof fn lemma_create_keeps_strings(user_id: i64, body: Body, stored: Seq<Record>)
    requires
        decimal_i64(without_quotes(member_or_null(body.texts, "id"@))) is Some,
        body.strings.dom().contains("name"@),
        body.strings.dom().contains("level"@),
    ensures
        ({
            let record = Record {
                id: decimal_i64(without_quotes(member_or_null(body.texts, "id"@)))->Some_0,
                name: body.strings["name"@],
                level: body.strings["level"@],
            };
            exchange(Credential::Valid(user_id), RequestView::Create(body), stored, true)
                == saved_and_answered(stored.push(record), ReplyView::Student(record))
        }),
{
}

/// Two records created one after the other are both in the collection, at
/// its end and in the order in which they came, also where they have the same
/// id.
pub proof fn lemma_create_twice(
    user_id: i64,
    first: Body,
    second: Body,
    stored: Seq<Record>,
)
    requires
        submitted_record(first) is Some,
        submitted_record(second) is Some,
    ensures
        ({
            let user = Credential::Valid(user_id);
            let a = submitted_record(first)->Some_0;
            let b = submitted_record(second)->Some_0;
            let once = stored.push(a);
            let twice = stored.push(a).push(b);
            &&& exchange(user, RequestView::Create(first), stored, true) == saved_and_answered(
                once,
                ReplyView::Student(a),
            )
            &&& exchange(user, RequestView::Create(second), once, true) == saved_and_answered(
                twice,
                ReplyView::Student(b),
            )
            &&& twice.len() == stored.len() + 2
            &&& twice[stored.len() as int] == a
            &&& twice[stored.len() as int + 1] == b
            &&& twice.take(stored.len() as int) == stored
        }),
{
}

/// Updating a record whose id is not in the collection changes nothing:
/// nothing is handed to the store. The answer is that the record was not
/// found or, without a valid credential, the authorization failure.
pub proof fn lemma_update_missing(
    credential: Credential,
    body: Body,
    stored: Seq<Record>,
    save_succeeds: bool,
)
    requires
        submitted_record(body) is Some,
        !has_id(stored, submitted_record(body)->Some_0.id),
    ensures
        exchange(credential, RequestView::Update(body), stored, save_succeeds) == if credential is Valid {
            nothing_found()
        } else {
            turned_away(Failure::FailAuth)
        },
{
    lemma_no_id_no_position(stored, submitted_record(body)->Some_0.id);
}

/// Deleting by an id that one record has, and no other, leaves a collection
/// that is shorter by exactly one, and in which getting by that id finds
/// nothing.
pub proof fn lemma_delete_only(students: Seq<Record>, id: i64)
    requires
        has_id(students, id),
        forall|i: int, j: int|
            0 <= i < students.len() && 0 <= j < students.len() && (#[trigger] students[i]).id == id
                && (#[trigger] students[j]).id == id ==> i == j,
    ensures
        deleted(students, id) matches Ok(HandledView::Save(rest, ReplyView::Deleted)) && {
            &&& rest.len() == students.len() - 1
            &&& got(rest, id) == Err::<HandledView, NotFound>(NotFound)
        },
{
    lemma_position_some(students, id);
    let at = position(students, id)->Some_0;
    let rest = students.remove(at);
    assert forall|k: int| 0 <= k < rest.len() implies (#[trigger] rest[k]).id != id by {
        if k < at {
            assert(rest[k] == students[k]);
        } else {
            assert(rest[k] == students[k + 1]);
        }
    }
    lemma_position_none(rest, id);
}

/// After an update, getting by the id of the record gives that record.
pub proof fn lemma_get_after_update(students: Seq<Record>, record: Record)
    requires
        has_id(students, record.id),
    ensures
        updated(students, record) matches Ok(HandledView::Save(after, reply)) && {
            &&& reply == ReplyView::Student(record)
            &&& after.len() == students.len()
            &&& got(after, record.id) == Ok::<HandledView, NotFound>(HandledView::Reply(reply))
        },
{
    lemma_position_some(students, record.id);
    let at = position(students, record.id)->Some_0;
    let after = students.update(at, record);
    assert(is_first_with_id(after, record.id, at));
    lemma_position_found(after, record.id, at);
}

/// After a record is created, getting by its id finds a record: the new one
/// where no other has the id, and else the first that has it.
pub proof fn lemma_get_after_create(students: Seq<Record>, record: Record)
    ensures
        created(students, record) == HandledView::Save(
            students.push(record),
            ReplyView::Student(record),
        ),
        got(students.push(record), record.id) == Ok::<HandledView, NotFound>(
            HandledView::Reply(
                ReplyView::Student(
                    match position(students, record.id) {
                        Some(i) => students[i],
                        None => record,
                    },
                ),
            ),
        ),
{
    let after = students.push(record);
    let at = match position(students, record.id) {
        Some(at) => at,
        None => students.len() as int,
    };
    assert(is_first_with_id(after, record.id, at)) by {
        assert forall|j: int| 0 <= j < at implies (#[trigger] after[j]).id != record.id by {
            assert(after[j] == students[j]);
            if students[j].id == record.id {
                assert(has_id(students, record.id));
                lemma_position_some(students, record.id);
            }
        }
    }
    lemma_position_found(after, record.id, at);
}

} // verus!
