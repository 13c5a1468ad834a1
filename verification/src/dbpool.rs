//! The records and the store that keeps them.
//!
//! The store is one file that holds the whole collection. Reading and writing
//! it is the caller's part; what a read amounts to, in which order a write
//! goes about the file, and how it ends, is decided here.

use vstd::prelude::*;

verus! {

/// One student.
#[derive(Debug, PartialEq, Eq)]
pub struct Student {
    pub id: i64,
    pub name: String,
    pub level: String,
}

/// A student as a value: the id, and the two texts character by character.
pub struct Record {
    pub id: i64,
    pub name: Seq<char>,
    pub level: Seq<char>,
}

impl View for Student {
    type V = Record;

    open spec fn view(&self) -> Record {
        Record { id: self.id, name: self.name@, level: self.level@ }
    }
}

/// A collection as values: the record of each student, in order.
pub open spec fn records(students: Seq<Student>) -> Seq<Record> {
    students.map_values(|student: Student| student@)
}

impl Student {
    /// The student with this id, name and level.
    pub fn new(id: i64, name: String, level: String) -> (student: Self)
        ensures
            student == (Student { id, name, level }),
    {
        Self { id, name, level }
    }
}

impl Clone for Student {
    fn clone(&self) -> (copy: Self)
        ensures
            copy == *self,
    {
        Self { id: self.id, name: self.name.clone(), level: self.level.clone() }
    }
}

/// The variable of the environment that configures the path of the storage
/// file.
pub const DATABASE_PATH: &'static str = "DATABASE_PATH";

/// Where the collection is kept when nothing else is configured.
pub const JSON_FILE: &'static str = "data/students.json";

/// The path of the storage file: the configured one, or `JSON_FILE`.
pub open spec fn resolved_path(configured: Option<String>) -> Seq<char> {
    match configured {
        Some(path) => path@,
        None => JSON_FILE@,
    }
}

/// What a read of the storage file found.
#[derive(Debug, PartialEq, Eq)]
pub enum Stored {
    /// There is no file at the path, or it cannot be opened.
    Missing,
    /// The file does not hold a collection.
    Unreadable,
    /// The file holds this collection.
    Collection(Vec<Student>),
}

/// The collection that a read amounts to: a store without a readable
/// collection is a store without records.
pub open spec fn stored_students(found: Stored) -> Seq<Student> {
    match found {
        Stored::Collection(students) => students@,
        Stored::Missing | Stored::Unreadable => Seq::empty(),
    }
}

/// The store. Its path is settled when it is made, so that every request
/// served from it agrees on the file.
#[derive(Debug)]
pub struct DbPool {
    path: String,
}

impl View for DbPool {
    type V = Seq<char>;

    /// The path of the storage file.
    closed spec fn view(&self) -> Seq<char> {
        self.path@
    }
}

impl DbPool {
    /// The store at `JSON_FILE`.
    pub fn new() -> (pool: Self)
        ensures
            pool@ == JSON_FILE@,
    {
        Self { path: JSON_FILE.to_owned() }
    }

    /// The store at the configured path, or at `JSON_FILE` where none is
    /// configured.
    pub fn configured(path: Option<String>) -> (pool: Self)
        ensures
            pool@ == resolved_path(path),
    {
        match path {
            Some(path) => Self { path },
            None => Self::new(),
        }
    }

    /// The path of the storage file.
    pub fn get_db_path(&self) -> (path: String)
        ensures
            path@ == self@,
    {
        self.path.clone()
    }

    /// The collection in the store, from what a read of its file found. A
    /// missing or unreadable file is no error: the store is then empty.
    pub fn load(&self, found: Stored) -> (students: Vec<Student>)
        ensures
            students@ == stored_students(found),
            found is Missing || found is Unreadable ==> students@.len() == 0,
    {
        match found {
            Stored::Collection(students) => students,
            Stored::Missing | Stored::Unreadable => Vec::new(),
        }
    }
}

impl Clone for DbPool {
    fn clone(&self) -> (copy: Self)
        ensures
            copy == *self,
    {
        Self { path: self.path.clone() }
    }
}

/// A save under way: the file operation that is due, or how the save ended.
///
/// A save replaces the file. It removes the old file first, then creates the
/// file anew, or empties it where the old one could not be removed, and
/// writes the collection into it, so that nothing of a longer collection
/// stays behind a shorter one.
#[derive(Debug, PartialEq, Eq)]
pub enum SaveStep {
    /// Remove the old file.
    RemoveFile,
    /// Create the file, or empty it where the old one is still there, and
    /// open it for writing.
    CreateFile,
    /// Write the whole collection into the file.
    WriteCollection,
    /// The save is over: done, or failed with this message.
    Done(Result<(), String>),
}

/// The step after `step`, given how `step` went.
///
/// A removal that fails is no failure: there may have been no file. A file
/// that cannot be created, or a collection that cannot be written, ends the
/// save with the message of that failure.
pub open spec fn save_next(step: SaveStep, outcome: Result<(), String>) -> SaveStep {
    match step {
        SaveStep::RemoveFile => SaveStep::CreateFile,
        SaveStep::CreateFile => match outcome {
            Ok(_) => SaveStep::WriteCollection,
            Err(message) => SaveStep::Done(Err(message)),
        },
        SaveStep::WriteCollection => SaveStep::Done(outcome),
        SaveStep::Done(end) => SaveStep::Done(end),
    }
}

/// Leads a save through its file operations: the caller begins with
/// `SaveStep::RemoveFile`, performs the operation that is due, and hands back
/// how it went, until the save is `Done`.
pub fn save_db(step: SaveStep, outcome: Result<(), String>) -> (next: SaveStep)
    ensures
        next == save_next(step, outcome),
{
    match step {
        SaveStep::RemoveFile => SaveStep::CreateFile,
        SaveStep::CreateFile => match outcome {
            Ok(_) => SaveStep::WriteCollection,
            Err(message) => SaveStep::Done(Err(message)),
        },
        SaveStep::WriteCollection => SaveStep::Done(outcome),
        SaveStep::Done(end) => SaveStep::Done(end),
    }
}

/// What a save comes to, from how creating the file and writing the
/// collection went: it succeeds where both did, and fails with the message of
/// the first that did not.
pub open spec fn save_end(created: Result<(), String>, written: Result<(), String>) -> Result<
    (),
    String,
> {
    match created {
        Ok(_) => written,
        Err(message) => Err(message),
    }
}

/// A save is over after its three file operations, or after two where the
/// file cannot be created; how removing the old file went does not count.
pub proof fn lemma_save_ends(
    removed: Result<(), String>,
    created: Result<(), String>,
    written: Result<(), String>,
)
    ensures
        save_next(SaveStep::RemoveFile, removed) == SaveStep::CreateFile,
        created is Ok ==> save_next(SaveStep::CreateFile, created) == SaveStep::WriteCollection
            && save_next(SaveStep::WriteCollection, written) == SaveStep::Done(
            save_end(created, written),
        ),
        created is Err ==> save_next(SaveStep::CreateFile, created) == SaveStep::Done(
            save_end(created, written),
        ),
{
}

} // verus!
