use student_records::dbpool::{save_db, DbPool, SaveStep, Stored, Student, DATABASE_PATH, JSON_FILE};

fn student(id: i64, name: &str, level: &str) -> Student {
    Student::new(id, name.to_string(), level.to_string())
}

#[test]
fn student_new_keeps_what_it_is_given() {
    let ann = Student::new(1, "Ann".to_string(), "A1".to_string());
    assert_eq!(ann.id, 1);
    assert_eq!(ann.name, "Ann");
    assert_eq!(ann.level, "A1");
}

#[test]
fn student_clone_is_equal() {
    let ann = student(i64::MIN, "Ann", "");
    let copy = ann.clone();
    assert_eq!(copy, ann);
    assert_eq!(copy.id, i64::MIN);
    assert_eq!(copy.name, "Ann");
    assert_eq!(copy.level, "");
}

#[test]
fn the_default_path_is_under_data() {
    assert_eq!(JSON_FILE, "data/students.json");
    assert_eq!(DbPool::new().get_db_path(), "data/students.json");
    assert_eq!(DbPool::configured(None).get_db_path(), "data/students.json");
}

#[test]
fn the_variable_that_configures_the_path() {
    assert_eq!(DATABASE_PATH, "DATABASE_PATH");
}

#[test]
fn a_configured_path_wins() {
    let pool = DbPool::configured(Some("/tmp/other.json".to_string()));
    assert_eq!(pool.get_db_path(), "/tmp/other.json");
    let pool = DbPool::configured(Some(String::new()));
    assert_eq!(pool.get_db_path(), "");
}

#[test]
fn the_path_stays_the_same_for_every_call() {
    let pool = DbPool::configured(Some("a/b.json".to_string()));
    let first = pool.get_db_path();
    let second = pool.get_db_path();
    assert_eq!(first, second);
    assert_eq!(pool.clone().get_db_path(), first);
}

#[test]
fn load_of_a_missing_file_is_empty() {
    let pool = DbPool::new();
    assert_eq!(pool.load(Stored::Missing), Vec::<Student>::new());
}

#[test]
fn load_of_an_unreadable_file_is_empty() {
    let pool = DbPool::new();
    assert_eq!(pool.load(Stored::Unreadable), Vec::<Student>::new());
}

#[test]
fn load_gives_the_stored_collection_in_its_order() {
    let pool = DbPool::new();
    let stored = vec![student(2, "Bob", "B1"), student(1, "Ann", "A1"), student(2, "Bea", "B2")];
    let loaded = pool.load(Stored::Collection(stored.clone()));
    assert_eq!(loaded, stored);
    assert_eq!(pool.load(Stored::Collection(Vec::new())), Vec::<Student>::new());
}

#[test]
fn what_is_saved_is_what_is_loaded() {
    let pool = DbPool::new();
    let saved = vec![student(1, "Ann", "A1"), student(3, "Cy", "C1")];
    let mut file: Option<Vec<Student>> = None;
    let mut step = SaveStep::RemoveFile;
    loop {
        let outcome = match step {
            SaveStep::RemoveFile => {
                file = None;
                Ok(())
            }
            SaveStep::CreateFile => {
                file = Some(Vec::new());
                Ok(())
            }
            SaveStep::WriteCollection => {
                file = Some(saved.clone());
                Ok(())
            }
            SaveStep::Done(_) => break,
        };
        step = save_db(step, outcome);
    }
    assert_eq!(step, SaveStep::Done(Ok(())));
    let found = match file {
        Some(students) => Stored::Collection(students),
        None => Stored::Missing,
    };
    assert_eq!(pool.load(found), saved);
}

#[test]
fn a_save_removes_then_creates_then_writes() {
    let step = save_db(SaveStep::RemoveFile, Ok(()));
    assert_eq!(step, SaveStep::CreateFile);
    let step = save_db(step, Ok(()));
    assert_eq!(step, SaveStep::WriteCollection);
    let step = save_db(step, Ok(()));
    assert_eq!(step, SaveStep::Done(Ok(())));
}

#[test]
fn a_save_goes_on_when_there_was_no_file_to_remove() {
    let step = save_db(SaveStep::RemoveFile, Err("No such file or directory".to_string()));
    assert_eq!(step, SaveStep::CreateFile);
}

#[test]
fn a_save_ends_with_the_message_when_the_file_cannot_be_created() {
    let step = save_db(SaveStep::CreateFile, Err("Permission denied".to_string()));
    assert_eq!(step, SaveStep::Done(Err("Permission denied".to_string())));
}

#[test]
fn a_save_ends_with_the_message_when_the_collection_cannot_be_written() {
    let step = save_db(SaveStep::WriteCollection, Err("No space left on device".to_string()));
    assert_eq!(step, SaveStep::Done(Err("No space left on device".to_string())));
}

#[test]
fn a_save_that_is_over_stays_over() {
    let step = save_db(SaveStep::Done(Ok(())), Err("late".to_string()));
    assert_eq!(step, SaveStep::Done(Ok(())));
    let step = save_db(SaveStep::Done(Err("first".to_string())), Ok(()));
    assert_eq!(step, SaveStep::Done(Err("first".to_string())));
}
