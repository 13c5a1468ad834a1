//! The operations on the records, and the way of a request through them.
//!
//! A request is served in three steps, between which the caller reads and
//! writes the store:
//!
//! 1. `student_filter` lets the request in or turns it away: `do_auth` by
//!    its credential, then `accept` by what it submits. The store is not
//!    touched before a request is let in.
//! 2. The caller loads the collection, and `handle` applies the operation to
//!    it: the result is an answer, or a changed collection to save together
//!    with the answer that is due once it is saved.
//! 3. The caller saves, and `saved` gives the answer according to how the
//!    save went.

use serde_json::Value;
use vstd::prelude::*;

use crate::dbpool::{records, Record, Student};
use crate::error::{Failure, InvalidID, NotFound, ServerFailure};
use crate::payload::{body_of, parse_student, submitted_record, Body};
use crate::security::{authenticated, do_auth, Credential, UserCtx};

verus! {

/// What a request asks for.
#[derive(Debug, PartialEq, Eq)]
pub enum Request {
    /// All records.
    List,
    /// The record with this id.
    Get(i64),
    /// Add the record that this JSON value submits.
    Create(Value),
    /// Replace the record that has the id of the submitted one.
    Update(Value),
    /// Remove the record with this id.
    Delete(i64),
}

/// A request as a value; a submitted JSON value counts by what is read of
/// it.
pub enum RequestView {
    List,
    Get(i64),
    Create(Body),
    Update(Body),
    Delete(i64),
}

impl View for Request {
    type V = RequestView;

    open spec fn view(&self) -> RequestView {
        match *self {
            Request::List => RequestView::List,
            Request::Get(id) => RequestView::Get(id),
            Request::Create(data) => RequestView::Create(body_of(data)),
            Request::Update(data) => RequestView::Update(body_of(data)),
            Request::Delete(id) => RequestView::Delete(id),
        }
    }
}

/// An operation that is ready for the collection: what a request asks for,
/// with the submitted record read.
#[derive(Debug, PartialEq, Eq)]
pub enum Operation {
    List,
    Get(i64),
    Create(Student),
    Update(Student),
    Delete(i64),
}

/// An operation as a value.
pub enum OperationView {
    List,
    Get(i64),
    Create(Record),
    Update(Record),
    Delete(i64),
}

impl View for Operation {
    type V = OperationView;

    open spec fn view(&self) -> OperationView {
        match *self {
            Operation::List => OperationView::List,
            Operation::Get(id) => OperationView::Get(id),
            Operation::Create(student) => OperationView::Create(student@),
            Operation::Update(student) => OperationView::Update(student@),
            Operation::Delete(id) => OperationView::Delete(id),
        }
    }
}

/// A request that was let in: the user who asks, and the operation.
#[derive(Debug, PartialEq, Eq)]
pub struct Admitted {
    pub user_ctx: UserCtx,
    pub operation: Operation,
}

/// An admitted request as a value.
pub struct AdmittedView {
    pub user_ctx: UserCtx,
    pub operation: OperationView,
}

impl View for Admitted {
    type V = AdmittedView;

    open spec fn view(&self) -> AdmittedView {
        AdmittedView { user_ctx: self.user_ctx, operation: self.operation@ }
    }
}

/// The answer to a request that succeeds.
#[derive(Debug, PartialEq, Eq)]
pub enum Reply {
    /// The collection, in its order.
    Students(Vec<Student>),
    /// One record: the one found, added or put in place.
    Student(Student),
    /// The record is removed.
    Deleted,
}

/// An answer as a value.
pub enum ReplyView {
    Students(Seq<Record>),
    Student(Record),
    Deleted,
}

impl View for Reply {
    type V = ReplyView;

    open spec fn view(&self) -> ReplyView {
        match *self {
            Reply::Students(students) => ReplyView::Students(records(students@)),
            Reply::Student(student) => ReplyView::Student(student@),
            Reply::Deleted => ReplyView::Deleted,
        }
    }
}

/// What an operation made of the collection.
#[derive(Debug, PartialEq, Eq)]
pub enum Handled {
    /// The store stays as it is, and this is the answer.
    Reply(Reply),
    /// This collection is to be saved; the answer is due once it is.
    Save(Vec<Student>, Reply),
}

/// The result of an operation as a value.
pub enum HandledView {
    Reply(ReplyView),
    Save(Seq<Record>, ReplyView),
}

impl View for Handled {
    type V = HandledView;

    open spec fn view(&self) -> HandledView {
        match *self {
            Handled::Reply(reply) => HandledView::Reply(reply@),
            Handled::Save(students, reply) => HandledView::Save(records(students@), reply@),
        }
    }
}

/// The words that confirm a removal.
pub const DELETED_MESSAGE: &'static str = "Deleted student info";

/// A result as a value: what succeeded by its view, a failure as it is.
pub open spec fn result_view<T: View, E>(result: Result<T, E>) -> Result<T::V, E> {
    match result {
        Ok(value) => Ok(value@),
        Err(failure) => Err(failure),
    }
}

/// `i` is the place of the first record with `id`.
pub open spec fn is_first_with_id(students: Seq<Record>, id: i64, i: int) -> bool {
    &&& 0 <= i < students.len()
    &&& students[i].id == id
    &&& forall|j: int| 0 <= j < i ==> (#[trigger] students[j]).id != id
}

/// The place of the first record with `id`, if there is one.
pub open spec fn position(students: Seq<Record>, id: i64) -> Option<int> {
    if exists|i: int| is_first_with_id(students, id, i) {
        Some(choose|i: int| is_first_with_id(students, id, i))
    } else {
        None
    }
}

/// What becomes of the request of a user who has passed the guard: the
/// operation that it asks for, with the submitted record read. A request that
/// submits a record with an id that is no integer is turned away.
pub open spec fn accepted(user_ctx: UserCtx, request: RequestView) -> Result<
    AdmittedView,
    InvalidID,
> {
    match request {
        RequestView::List => Ok(AdmittedView { user_ctx, operation: OperationView::List }),
        RequestView::Get(id) => Ok(AdmittedView { user_ctx, operation: OperationView::Get(id) }),
        RequestView::Create(body) => match submitted_record(body) {
            Some(record) => Ok(AdmittedView { user_ctx, operation: OperationView::Create(record) }),
            None => Err(InvalidID),
        },
        RequestView::Update(body) => match submitted_record(body) {
            Some(record) => Ok(AdmittedView { user_ctx, operation: OperationView::Update(record) }),
            None => Err(InvalidID),
        },
        RequestView::Delete(id) => Ok(AdmittedView { user_ctx, operation: OperationView::Delete(id) }),
    }
}

/// Whether a request is let in, and as what. A request without a valid
/// credential is turned away whatever it asks for, and before anything of it
/// is read; one that submits a record with an id that is no integer is turned
/// away as well.
pub open spec fn admitted(credential: Credential, request: RequestView) -> Result<
    AdmittedView,
    Failure,
> {
    match authenticated(credential) {
        Err(_) => Err(Failure::FailAuth),
        Ok(user_ctx) => match accepted(user_ctx, request) {
            Ok(admitted) => Ok(admitted),
            Err(_) => Err(Failure::InvalidID),
        },
    }
}

/// Listing answers with the whole collection and changes nothing.
pub open spec fn listed(students: Seq<Record>) -> HandledView {
    HandledView::Reply(ReplyView::Students(students))
}

/// Getting answers with the first record that has the id.
pub open spec fn got(students: Seq<Record>, id: i64) -> Result<HandledView, NotFound> {
    match position(students, id) {
        Some(i) => Ok(HandledView::Reply(ReplyView::Student(students[i]))),
        None => Err(NotFound),
    }
}

/// Creating puts the record at the end, whatever ids are there already.
pub open spec fn created(students: Seq<Record>, record: Record) -> HandledView {
    HandledView::Save(students.push(record), ReplyView::Student(record))
}

/// Updating puts the record in the place of the first one that has its id.
pub open spec fn updated(students: Seq<Record>, record: Record) -> Result<HandledView, NotFound> {
    match position(students, record.id) {
        Some(i) => Ok(HandledView::Save(students.update(i, record), ReplyView::Student(record))),
        None => Err(NotFound),
    }
}

/// Deleting takes out the first record that has the id; the others close up.
pub open spec fn deleted(students: Seq<Record>, id: i64) -> Result<HandledView, NotFound> {
    match position(students, id) {
        Some(i) => Ok(HandledView::Save(students.remove(i), ReplyView::Deleted)),
        None => Err(NotFound),
    }
}

/// What an operation makes of a collection.
pub open spec fn handled(operation: OperationView, students: Seq<Record>) -> Result<
    HandledView,
    NotFound,
> {
    match operation {
        OperationView::List => Ok(listed(students)),
        OperationView::Get(id) => got(students, id),
        OperationView::Create(record) => Ok(created(students, record)),
        OperationView::Update(record) => updated(students, record),
        OperationView::Delete(id) => deleted(students, id),
    }
}

/// The answer after a save: the one that was due if the save succeeded, a
/// server failure if it did not.
pub open spec fn answered(reply: ReplyView, saved: bool) -> Result<ReplyView, ServerFailure> {
    if saved {
        Ok(reply)
    } else {
        Err(ServerFailure)
    }
}

/// The first place with the id is the position.
pub proof fn lemma_position_found(students: Seq<Record>, id: i64, i: int)
    requires
        is_first_with_id(students, id, i),
    ensures
        position(students, id) == Some(i),
{
    let chosen = choose|k: int| is_first_with_id(students, id, k);
    assert(is_first_with_id(students, id, chosen));
    if chosen < i {
        assert(students[chosen].id != id);
    }
    if i < chosen {
        assert(students[i].id != id);
    }
}

/// Where no record has the id, there is no position.
pub proof fn lemma_position_none(students: Seq<Record>, id: i64)
    requires
        forall|i: int| 0 <= i < students.len() ==> (#[trigger] students[i]).id != id,
    ensures
        position(students, id) is None,
{
}

/// Reads the request of a user who has passed the guard: gives the operation
/// that it asks for, or turns it away where it submits a record with an id
/// that is no integer.
pub fn accept(user_ctx: UserCtx, request: Request) -> (outcome: Result<Admitted, InvalidID>)
    ensures
        result_view(outcome) == accepted(user_ctx, request@),
{
    match request {
        Request::List => Ok(Admitted { user_ctx, operation: Operation::List }),
        Request::Get(id) => Ok(Admitted { user_ctx, operation: Operation::Get(id) }),
        Request::Create(data) => match parse_student(&data) {
            Ok(student) => Ok(Admitted { user_ctx, operation: Operation::Create(student) }),
            Err(invalid) => Err(invalid),
        },
        Request::Update(data) => match parse_student(&data) {
            Ok(student) => Ok(Admitted { user_ctx, operation: Operation::Update(student) }),
            Err(invalid) => Err(invalid),
        },
        Request::Delete(id) => Ok(Admitted { user_ctx, operation: Operation::Delete(id) }),
    }
}

/// Lets a request in or turns it away: first by its credential, then, where
/// it submits a record, by the id of that record.
pub fn student_filter(credential: Credential, request: Request) -> (outcome: Result<
    Admitted,
    Failure,
>)
    ensures
        result_view(outcome) == admitted(credential, request@),
        !(credential is Valid) ==> outcome == Err::<Admitted, Failure>(Failure::FailAuth),
{
    let user_ctx = match do_auth(credential) {
        Ok(user_ctx) => user_ctx,
        Err(refused) => {
            return Err(Failure::from(refused));
        },
    };
    match accept(user_ctx, request) {
        Ok(admitted) => Ok(admitted),
        Err(invalid) => Err(Failure::from(invalid)),
    }
}

/// Looks for the first student with `id`, from the front.
pub fn find_position(students: &Vec<Student>, id: i64) -> (found: Option<usize>)
    ensures
        match found {
            Some(i) => position(records(students@), id) == Some(i as int),
            None => position(records(students@), id) is None,
        },
{
    let mut i: usize = 0;
    while i < students.len()
        invariant
            i <= students.len(),
            forall|j: int| 0 <= j < i ==> (#[trigger] records(students@)[j]).id != id,
        decreases students.len() - i,
    {
        if students[i].id == id {
            proof {
                lemma_position_found(records(students@), id, i as int);
            }
            return Some(i);
        }
        i += 1;
    }
    proof {
        lemma_position_none(records(students@), id);
    }
    None
}

/// Answers with all students, in their order.
pub fn find_all(_user_ctx: &UserCtx, students: Vec<Student>) -> (outcome: Handled)
    ensures
        outcome@ == listed(records(students@)),
{
    Handled::Reply(Reply::Students(students))
}

/// Answers with the first student that has `id`.
pub fn get_student(_user_ctx: &UserCtx, students: Vec<Student>, id: i64) -> (outcome: Result<
    Handled,
    NotFound,
>)
    ensures
        result_view(outcome) == got(records(students@), id),
{
    match find_position(&students, id) {
        Some(index) => Ok(Handled::Reply(Reply::Student(students[index].clone()))),
        None => Err(NotFound),
    }
}

/// Adds `student` at the end of the collection.
pub fn create_student(_user_ctx: &UserCtx, students: Vec<Student>, student: Student) -> (outcome:
    Handled)
    ensures
        outcome@ == created(records(students@), student@),
{
    let mut changed = students;
    let reply = student.clone();
    changed.push(student);
    assert(records(changed@) == records(students@).push(student@));
    Handled::Save(changed, Reply::Student(reply))
}

/// Puts `student` in the place of the first student that has its id.
pub fn update_student(_user_ctx: &UserCtx, students: Vec<Student>, student: Student) -> (outcome:
    Result<Handled, NotFound>)
    ensures
        result_view(outcome) == updated(records(students@), student@),
{
    let mut changed = students;
    match find_position(&changed, student.id) {
        Some(index) => {
            let reply = student.clone();
            changed.set(index, student);
            assert(records(changed@) == records(students@).update(index as int, student@));
            Ok(Handled::Save(changed, Reply::Student(reply)))
        },
        None => Err(NotFound),
    }
}

/// Takes out the first student that has `id`.
pub fn delete_student(_user_ctx: &UserCtx, students: Vec<Student>, id: i64) -> (outcome: Result<
    Handled,
    NotFound,
>)
    ensures
        result_view(outcome) == deleted(records(students@), id),
{
    let mut changed = students;
    match find_position(&changed, id) {
        Some(index) => {
            changed.remove(index);
            assert(records(changed@) == records(students@).remove(index as int));
            Ok(Handled::Save(changed, Reply::Deleted))
        },
        None => Err(NotFound),
    }
}

/// Applies the operation of an admitted request to the collection that the
/// caller has loaded.
pub fn handle(admitted: Admitted, students: Vec<Student>) -> (outcome: Result<Handled, NotFound>)
    ensures
        result_view(outcome) == handled(admitted@.operation, records(students@)),
{
    let Admitted { user_ctx, operation } = admitted;
    match operation {
        Operation::List => Ok(find_all(&user_ctx, students)),
        Operation::Get(id) => get_student(&user_ctx, students, id),
        Operation::Create(student) => Ok(create_student(&user_ctx, students, student)),
        Operation::Update(student) => update_student(&user_ctx, students, student),
        Operation::Delete(id) => delete_student(&user_ctx, students, id),
    }
}

/// Gives the answer once the caller has saved the changed collection: the
/// answer that was due, or a server failure where the save failed.
pub fn saved(reply: Reply, outcome: Result<(), String>) -> (answer: Result<Reply, ServerFailure>)
    ensures
        result_view(answer) == answered(reply@, outcome is Ok),
{
    match outcome {
        Ok(_) => Ok(reply),
        Err(_) => Err(ServerFailure),
    }
}

/// Some record has `id`.
pub open spec fn has_id(students: Seq<Record>, id: i64) -> bool {
    exists|i: int| 0 <= i < students.len() && (#[trigger] students[i]).id == id
}

/// Where some record has the id, the position is the place of the first such
/// record.
pub proof fn lemma_position_some(students: Seq<Record>, id: i64)
    requires
        has_id(students, id),
    ensures
        position(students, id) is Some,
        is_first_with_id(students, id, position(students, id)->Some_0),
{
    let i = choose|i: int| 0 <= i < students.len() && (#[trigger] students[i]).id == id;
    lemma_first_before(students, id, i);
}

/// Where no record has the id, there is no position for it.
pub proof fn lemma_no_id_no_position(students: Seq<Record>, id: i64)
    requires
        !has_id(students, id),
    ensures
        position(students, id) is None,
{
    assert forall|i: int| 0 <= i < students.len() implies (#[trigger] students[i]).id != id by {
        if students[i].id == id {
            assert(has_id(students, id));
        }
    }
    lemma_position_none(students, id);
}

/// Before a place that holds the id there is a first one that does.
proof fn lemma_first_before(students: Seq<Record>, id: i64, i: int)
    requires
        0 <= i < students.len(),
        students[i].id == id,
    ensures
        exists|k: int| is_first_with_id(students, id, k),
    decreases i,
{
    if exists|j: int| 0 <= j < i && (#[trigger] students[j]).id == id {
        let j = choose|j: int| 0 <= j < i && (#[trigger] students[j]).id == id;
        lemma_first_before(students, id, j);
    } else {
        assert(is_first_with_id(students, id, i));
    }
}

} // verus!
