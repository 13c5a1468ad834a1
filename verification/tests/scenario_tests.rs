use serde_json::Value;
use student_records::dbpool::{save_db, DbPool, SaveStep, Stored, Student};
use student_records::error::Failure;
use student_records::security::Credential;
use student_records::student::{handle, saved, student_filter, Handled, Reply, Request};

/// A store in memory: the file, where there is one, holds a collection.
struct Store {
    file: Option<Vec<Student>>,
    reads: usize,
    writes: usize,
    fails: bool,
}

fn empty_store() -> Store {
    Store { file: None, reads: 0, writes: 0, fails: false }
}

fn read(store: &mut Store) -> Stored {
    store.reads += 1;
    match &store.file {
        Some(students) => Stored::Collection(students.clone()),
        None => Stored::Missing,
    }
}

fn write(store: &mut Store, students: Vec<Student>) -> Result<(), String> {
    store.writes += 1;
    let mut step = SaveStep::RemoveFile;
    loop {
        let outcome = match step {
            SaveStep::RemoveFile => match store.file.take() {
                Some(_) => Ok(()),
                None => Err("no such file".to_string()),
            },
            SaveStep::CreateFile => {
                if store.fails {
                    Err("read-only store".to_string())
                } else {
                    store.file = Some(Vec::new());
                    Ok(())
                }
            }
            SaveStep::WriteCollection => {
                store.file = Some(students.clone());
                Ok(())
            }
            SaveStep::Done(end) => return end,
        };
        step = save_db(step, outcome);
    }
}

/// Serves one request as a program around the library does.
fn serve(store: &mut Store, credential: Credential, request: Request) -> Result<Reply, Failure> {
    let pool = DbPool::new();
    let admitted = student_filter(credential, request)?;
    let students = pool.load(read(store));
    match handle(admitted, students)? {
        Handled::Reply(reply) => Ok(reply),
        Handled::Save(students, reply) => Ok(saved(reply, write(store, students))?),
    }
}

fn json(text: &str) -> Value {
    serde_json::from_str(text).unwrap()
}

fn student(id: i64, name: &str, level: &str) -> Student {
    Student::new(id, name.to_string(), level.to_string())
}

const USER: Credential = Credential::Valid(1);

#[test]
fn create_list_update_get_delete_get() {
    let mut store = empty_store();

    let reply = serve(
        &mut store,
        USER,
        Request::Create(json(r#"{"id":1,"name":"Ann","level":"A1"}"#)),
    );
    assert_eq!(reply, Ok(Reply::Student(student(1, "Ann", "A1"))));

    let reply = serve(&mut store, USER, Request::List);
    assert_eq!(reply, Ok(Reply::Students(vec![student(1, "Ann", "A1")])));

    let reply = serve(
        &mut store,
        USER,
        Request::Update(json(r#"{"id":1,"name":"Ann","level":"A2"}"#)),
    );
    assert_eq!(reply, Ok(Reply::Student(student(1, "Ann", "A2"))));

    let reply = serve(&mut store, USER, Request::Get(1));
    assert_eq!(reply, Ok(Reply::Student(student(1, "Ann", "A2"))));

    let reply = serve(&mut store, USER, Request::Delete(1));
    assert_eq!(reply, Ok(Reply::Deleted));

    let reply = serve(&mut store, USER, Request::Get(1));
    assert_eq!(reply, Err(Failure::NotFound));
    assert_eq!(store.file, Some(Vec::new()));
}

#[test]
fn a_name_with_a_quote_a_backslash_or_a_newline_is_stored_and_echoed_as_it_is() {
    let mut store = empty_store();
    let name = "Ann \"the\\best\"\n";
    let level = "A\\1\t\"x\"";
    let mut object = serde_json::Map::new();
    object.insert("id".to_string(), Value::from(1));
    object.insert("name".to_string(), Value::from(name));
    object.insert("level".to_string(), Value::from(level));

    let reply = serve(&mut store, USER, Request::Create(Value::Object(object)));
    assert_eq!(reply, Ok(Reply::Student(student(1, name, level))));
    assert_eq!(store.file, Some(vec![student(1, name, level)]));
    assert_eq!(serve(&mut store, USER, Request::Get(1)), Ok(Reply::Student(student(1, name, level))));

    let reply = serve(
        &mut store,
        USER,
        Request::Update(json(r#"{"id":"1","name":"say \"hi\"","level":"a\\b"}"#)),
    );
    assert_eq!(reply, Ok(Reply::Student(student(1, "say \"hi\"", "a\\b"))));
    assert_eq!(store.file, Some(vec![student(1, "say \"hi\"", "a\\b")]));
}

#[test]
fn a_list_of_an_empty_store_is_empty() {
    let mut store = empty_store();
    assert_eq!(serve(&mut store, USER, Request::List), Ok(Reply::Students(Vec::new())));
    assert_eq!(store.file, None);
    assert_eq!(store.writes, 0);
}

#[test]
fn a_request_without_a_valid_credential_leaves_the_store_alone() {
    for credential in [Credential::Missing, Credential::Invalid] {
        let mut store = empty_store();
        store.file = Some(vec![student(1, "Ann", "A1")]);
        let requests = vec![
            Request::List,
            Request::Get(1),
            Request::Create(json(r#"{"id":2,"name":"Bob","level":"B1"}"#)),
            Request::Update(json(r#"{"id":1,"name":"Amy","level":"A2"}"#)),
            Request::Delete(1),
        ];
        for request in requests {
            assert_eq!(serve(&mut store, credential, request), Err(Failure::FailAuth));
        }
        assert_eq!(store.file, Some(vec![student(1, "Ann", "A1")]));
        assert_eq!(store.reads, 0);
        assert_eq!(store.writes, 0);
    }
}

#[test]
fn creating_with_an_id_that_is_no_integer_leaves_the_store_alone() {
    let mut store = empty_store();
    store.file = Some(vec![student(1, "Ann", "A1")]);
    let reply = serve(
        &mut store,
        USER,
        Request::Create(json(r#"{"id":"one","name":"Bob","level":"B1"}"#)),
    );
    assert_eq!(reply, Err(Failure::InvalidID));
    assert_eq!(store.file, Some(vec![student(1, "Ann", "A1")]));
    assert_eq!(store.reads, 0);
    assert_eq!(store.writes, 0);
}

#[test]
fn updating_with_an_id_that_is_no_integer_leaves_the_store_alone() {
    let mut store = empty_store();
    store.file = Some(vec![student(1, "Ann", "A1")]);
    let reply = serve(&mut store, USER, Request::Update(json(r#"{"name":"Bob","level":"B1"}"#)));
    assert_eq!(reply, Err(Failure::InvalidID));
    assert_eq!(store.file, Some(vec![student(1, "Ann", "A1")]));
    assert_eq!(store.reads, 0);
    assert_eq!(store.writes, 0);
}

#[test]
fn creating_two_records_with_one_id_keeps_both() {
    let mut store = empty_store();
    let first = serve(
        &mut store,
        USER,
        Request::Create(json(r#"{"id":1,"name":"Ann","level":"A1"}"#)),
    );
    assert_eq!(first, Ok(Reply::Student(student(1, "Ann", "A1"))));
    let second = serve(
        &mut store,
        USER,
        Request::Create(json(r#"{"id":"1","name":"Amy","level":"A2"}"#)),
    );
    assert_eq!(second, Ok(Reply::Student(student(1, "Amy", "A2"))));
    assert_eq!(store.file, Some(vec![student(1, "Ann", "A1"), student(1, "Amy", "A2")]));
    assert_eq!(
        serve(&mut store, USER, Request::List),
        Ok(Reply::Students(vec![student(1, "Ann", "A1"), student(1, "Amy", "A2")]))
    );
    assert_eq!(
        serve(&mut store, USER, Request::Get(1)),
        Ok(Reply::Student(student(1, "Ann", "A1")))
    );
}

#[test]
fn updating_an_id_that_is_not_there_leaves_the_store_alone() {
    let mut store = empty_store();
    store.file = Some(vec![student(1, "Ann", "A1")]);
    let reply = serve(
        &mut store,
        USER,
        Request::Update(json(r#"{"id":2,"name":"Bob","level":"B1"}"#)),
    );
    assert_eq!(reply, Err(Failure::NotFound));
    assert_eq!(store.file, Some(vec![student(1, "Ann", "A1")]));
    assert_eq!(store.writes, 0);
}

#[test]
fn deleting_an_id_that_is_not_there_leaves_the_store_alone() {
    let mut store = empty_store();
    store.file = Some(vec![student(1, "Ann", "A1")]);
    assert_eq!(serve(&mut store, USER, Request::Delete(2)), Err(Failure::NotFound));
    assert_eq!(store.file, Some(vec![student(1, "Ann", "A1")]));
    assert_eq!(store.writes, 0);
}

#[test]
fn deleting_the_only_record_with_an_id_shrinks_the_store_by_one() {
    let mut store = empty_store();
    store.file = Some(vec![student(1, "Ann", "A1"), student(2, "Bob", "B1"), student(3, "Cy", "C1")]);
    assert_eq!(serve(&mut store, USER, Request::Delete(2)), Ok(Reply::Deleted));
    assert_eq!(store.file, Some(vec![student(1, "Ann", "A1"), student(3, "Cy", "C1")]));
    assert_eq!(serve(&mut store, USER, Request::Get(2)), Err(Failure::NotFound));
}

#[test]
fn a_save_that_fails_is_a_server_failure() {
    let mut store = empty_store();
    store.fails = true;
    let reply = serve(
        &mut store,
        USER,
        Request::Create(json(r#"{"id":1,"name":"Ann","level":"A1"}"#)),
    );
    assert_eq!(reply, Err(Failure::ServerFailure));
    assert_eq!(store.writes, 1);

    store.file = Some(vec![student(1, "Ann", "A1")]);
    let reply = serve(
        &mut store,
        USER,
        Request::Update(json(r#"{"id":1,"name":"Amy","level":"A2"}"#)),
    );
    assert_eq!(reply, Err(Failure::ServerFailure));

    store.file = Some(vec![student(1, "Ann", "A1")]);
    assert_eq!(serve(&mut store, USER, Request::Delete(1)), Err(Failure::ServerFailure));
}

#[test]
fn every_user_sees_every_record() {
    let mut store = empty_store();
    let reply = serve(
        &mut store,
        Credential::Valid(1),
        Request::Create(json(r#"{"id":1,"name":"Ann","level":"A1"}"#)),
    );
    assert_eq!(reply, Ok(Reply::Student(student(1, "Ann", "A1"))));
    assert_eq!(
        serve(&mut store, Credential::Valid(2), Request::List),
        Ok(Reply::Students(vec![student(1, "Ann", "A1")]))
    );
    assert_eq!(
        serve(&mut store, Credential::Valid(2), Request::Get(1)),
        Ok(Reply::Student(student(1, "Ann", "A1")))
    );
}
