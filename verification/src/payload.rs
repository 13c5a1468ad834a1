//! The body of a request that submits a record: a JSON value, of which the
//! members `id`, `name` and `level` are read.
//!
//! A name or level that is a JSON string is the text of that string,
//! character for character. A name or level that is anything else, and the id
//! whatever it is, is taken as the JSON text that writes the member, without
//! its double quotes. So an id may come as a number or as a string of digits,
//! a member that is absent reads as `null`, and an id that is no decimal
//! 64-bit integer is refused.

use serde_json::Value;
use vstd::prelude::*;

use crate::dbpool::{Record, Student};
use crate::error::InvalidID;
use crate::text::{
    decimal_i64, digits_of, is_digit, lemma_quotes_around_are_dropped, parse_id, quoted,
    strip_quotes, without_quotes,
};

verus! {

/// `Value` of serde_json: a JSON value. It is carried as it comes; what is
/// read of it is read through `member_text` and `member_string`.
#[verifier::external_type_specification]
#[verifier::external_body]
pub struct ExValue(Value);

/// What a JSON value holds as an object: for each member's name, the compact
/// JSON text of the member. A value that is no object has no members.
pub uninterp spec fn members(data: Value) -> Map<Seq<char>, Seq<char>>;

/// The strings that a JSON value holds as an object: for the name of each
/// member that is a JSON string, the text of that string itself. A value that
/// is no object has none.
pub uninterp spec fn strings(data: Value) -> Map<Seq<char>, Seq<char>>;

/// A submitted JSON value as far as it is read: the JSON text of its members,
/// and the strings among them.
pub struct Body {
    pub texts: Map<Seq<char>, Seq<char>>,
    pub strings: Map<Seq<char>, Seq<char>>,
}

/// The body that a JSON value is.
pub open spec fn body_of(data: Value) -> Body {
    Body { texts: members(data), strings: strings(data) }
}

/// The text of the member `key`; of a member that is not there, the text of
/// the JSON null.
pub open spec fn member_or_null(members: Map<Seq<char>, Seq<char>>, key: Seq<char>) -> Seq<char> {
    if members.dom().contains(key) {
        members[key]
    } else {
        "null"@
    }
}

/// `data[key].to_string()` of serde_json. Indexing a `Value` by a string
/// gives the member of that name where `data` is an object that has one, and
/// the null value otherwise; it does not fail. `to_string` writes the value
/// it is given as compact JSON, and `null` for the null value.
#[verifier::external_body]
fn member_text(data: &Value, key: &str) -> (text: String)
    ensures
        text@ == member_or_null(members(*data), key@),
{
    data[key].to_string()
}

/// `data[key].as_str()` of serde_json. Indexing is as in `member_text`;
/// `as_str` gives the text of a value that is a JSON string, and nothing for
/// any other value. So there is a result exactly where `data` is an object
/// with a member of that name that is a string.
#[verifier::external_body]
fn member_string<'a>(data: &'a Value, key: &str) -> (text: Option<&'a str>)
    ensures
        text is Some <==> strings(*data).dom().contains(key@),
        text is Some ==> text->Some_0@ == strings(*data)[key@],
{
    data[key].as_str()
}

/// A name or a level, from what was read of the member: the string where the
/// member is one, and else the member's JSON text without its quotes.
pub open spec fn field_of(string: Option<Seq<char>>, text: Seq<char>) -> Seq<char> {
    match string {
        Some(string) => string,
        None => without_quotes(text),
    }
}

/// The string of the member `key`, if the member is a string.
pub open spec fn string_of(body: Body, key: Seq<char>) -> Option<Seq<char>> {
    if body.strings.dom().contains(key) {
        Some(body.strings[key])
    } else {
        None
    }
}

/// The name or level that the member `key` of a body gives.
pub open spec fn member_field(body: Body, key: Seq<char>) -> Seq<char> {
    field_of(string_of(body, key), member_or_null(body.texts, key))
}

/// The record with the id that the JSON text `id` writes, once its quotes are
/// dropped, as a decimal 64-bit signed integer, and with this name and level.
/// No record where the text writes no such integer.
pub open spec fn record_of_texts(id: Seq<char>, name: Seq<char>, level: Seq<char>) -> Option<
    Record,
> {
    match decimal_i64(without_quotes(id)) {
        Some(id) => Some(Record { id, name, level }),
        None => None,
    }
}

/// The record that a submitted body gives, from its members `id`, `name` and
/// `level`.
pub open spec fn submitted_record(body: Body) -> Option<Record> {
    record_of_texts(
        member_or_null(body.texts, "id"@),
        member_field(body, "name"@),
        member_field(body, "level"@),
    )
}

/// A name and a level that are JSON strings are stored as the texts of those
/// strings, character for character, whatever the strings hold.
pub proof fn lemma_strings_are_kept(body: Body)
    requires
        body.strings.dom().contains("name"@),
        body.strings.dom().contains("level"@),
    ensures
        submitted_record(body) matches Some(record) ==> {
            &&& record.name == body.strings["name"@]
            &&& record.level == body.strings["level"@]
        },
{
}

/// A body without a member `id` submits no record: its id reads as `null`,
/// which is no integer.
pub proof fn lemma_no_id_no_record(body: Body)
    requires
        !body.texts.dom().contains("id"@),
    ensures
        submitted_record(body) is None,
{
    let null = "null"@;
    reveal_strlit("null");
    assert(null.len() == 4 && null[0] == 'n');
    assert(without_quotes(null) == null) by {
        reveal_with_fuel(Seq::filter, 5);
        assert(null.drop_last().len() == 3);
        assert(null.drop_last().drop_last().len() == 2);
        assert(null.drop_last().drop_last().drop_last().len() == 1);
        assert(null.drop_last().drop_last().drop_last().drop_last().len() == 0);
        assert(without_quotes(null) =~= null);
    }
    assert(!is_digit(digits_of(null)[0]));
}

/// An id gives the same record whether it comes in double quotes or without:
/// as a JSON string of digits or as a JSON number.
pub proof fn lemma_id_quoted_or_not(id: Seq<char>, name: Seq<char>, level: Seq<char>)
    ensures
        record_of_texts(quoted(id), name, level) == record_of_texts(id, name, level),
{
    lemma_quotes_around_are_dropped(id);
}

/// Gives a name or a level from what was read of the member: its string,
/// where it is one, and its JSON text.
pub fn field_text(string: Option<&str>, text: &str) -> (field: String)
    ensures
        field@ == field_of(
            match string {
                Some(string) => Some(string@),
                None => None,
            },
            text@,
        ),
{
    match string {
        Some(string) => string.to_owned(),
        None => strip_quotes(text),
    }
}

/// Makes a student of the JSON text of an id, a name and a level.
pub fn student_of_texts(id: &str, name: String, level: String) -> (student: Result<
    Student,
    InvalidID,
>)
    ensures
        match student {
            Ok(student) => record_of_texts(id@, name@, level@) == Some(student@),
            Err(_) => record_of_texts(id@, name@, level@) is None,
        },
{
    let id = strip_quotes(id);
    match parse_id(id.as_str()) {
        Some(id) => Ok(Student::new(id, name, level)),
        None => Err(InvalidID),
    }
}

/// Reads the member `key` of a submitted JSON value as a name or a level.
fn read_field(data: &Value, key: &str) -> (field: String)
    ensures
        field@ == member_field(body_of(*data), key@),
{
    let string = member_string(data, key);
    let text = member_text(data, key);
    field_text(string, text.as_str())
}

/// Makes a student of a submitted JSON value.
pub fn parse_student(data: &Value) -> (student: Result<Student, InvalidID>)
    ensures
        match student {
            Ok(student) => submitted_record(body_of(*data)) == Some(student@),
            Err(_) => submitted_record(body_of(*data)) is None,
        },
{
    let id = member_text(data, "id");
    let name = read_field(data, "name");
    let level = read_field(data, "level");
    student_of_texts(id.as_str(), name, level)
}

} // verus!
