//! The document format: a JSON array with one object for each task.

use vstd::prelude::*;
use vstd::string::*;
use vstd::utf8::encode_utf8;
use serde_json::Value;
use crate::storage::views;
use crate::storage::FileRead;
use crate::storage::Storage;
use crate::storage::StorageError;
use crate::task::fields_of;
use crate::task::reads_back;
use crate::task::task_of;
use crate::task::Task;
use crate::task::TaskView;

verus! {

#[verifier::external_type_specification]
#[verifier::external_body]
pub struct ExValue(Value);

/// A JSON document, as far as a task file is concerned.
pub ghost enum Json {
    /// A string.
    Text(Seq<char>),
    /// An array.
    List(Seq<Json>),
    /// An object: its members in order, each a name and a document.
    Object(Seq<(Seq<char>, Json)>),
    /// `null`, a boolean or a number.
    Other,
}

/// The last member of `members` that is called `name`, if there is one.
pub open spec fn lookup(members: Seq<(Seq<char>, Json)>, name: Seq<char>) -> Option<Json>
    decreases members.len(),
{
    if members.len() == 0 {
        None
    } else if members.last().0 == name {
        Some(members.last().1)
    } else {
        lookup(members.drop_last(), name)
    }
}

impl Json {
    /// The member of an object that is called `name`.
    pub open spec fn member(self, name: Seq<char>) -> Option<Json> {
        match self {
            Json::Object(members) => lookup(members, name),
            _ => None,
        }
    }

    /// The text of the member called `name`, where there is such a member and
    /// it is a string.
    pub open spec fn text_member(self, name: Seq<char>) -> Option<Seq<char>> {
        match self.member(name) {
            Some(Json::Text(text)) => Some(text),
            _ => None,
        }
    }

    /// Whether the document is an object whose members are strings, no two of
    /// them under one name.
    pub open spec fn is_record(self) -> bool {
        match self {
            Json::Object(members) => {
                &&& forall|i: int| 0 <= i < members.len() ==> (#[trigger] members[i]).1 is Text
                &&& forall|i: int, j: int|
                    0 <= i < j < members.len() ==> (#[trigger] members[i]).0 != (
                    #[trigger] members[j]).0
            },
            _ => false,
        }
    }

    /// Whether the document is an array of such objects.
    pub open spec fn is_table(self) -> bool {
        match self {
            Json::List(items) => forall|i: int|
                0 <= i < items.len() ==> (#[trigger] items[i]).is_record(),
            _ => false,
        }
    }
}

/// The document that a `serde_json::Value` holds.
pub uninterp spec fn json_of(value: Value) -> Json;

/// The text that `serde_json::to_string_pretty` writes for a document.
pub uninterp spec fn pretty_text(document: Json) -> Seq<char>;

/// The document that `serde_json::from_slice` reads from bytes, if it reads one.
pub uninterp spec fn json_read(content: Seq<u8>) -> Option<Json>;

/// The documents that a sequence of values holds.
pub open spec fn documents(values: Seq<Value>) -> Seq<Json> {
    values.map_values(|value: Value| json_of(value))
}

/// The members that a sequence of named values holds.
pub open spec fn members_of(pairs: Seq<(String, Value)>) -> Seq<(Seq<char>, Json)> {
    pairs.map_values(|pair: (String, Value)| (pair.0@, json_of(pair.1)))
}

/// Makes a JSON string with `Value::from`.
#[verifier::external_body]
fn text_value(text: String) -> (value: Value)
    ensures
        json_of(value) == Json::Text(text@),
{
    Value::from(text)
}

/// Makes a JSON array with `Value::from`, the items in the order given.
#[verifier::external_body]
fn list_value(items: Vec<Value>) -> (value: Value)
    ensures
        json_of(value) == Json::List(documents(items@)),
{
    Value::from(items)
}

/// Makes a JSON object by collecting names and values into a `Value`, which
/// keeps the members in the order given where no name occurs twice.
#[verifier::external_body]
fn object_value(pairs: Vec<(String, Value)>) -> (value: Value)
    requires
        forall|i: int, j: int|
            0 <= i < j < pairs.len() ==> (#[trigger] pairs[i]).0@ != (#[trigger] pairs[j]).0@,
    ensures
        json_of(value) == Json::Object(members_of(pairs@)),
{
    pairs.into_iter().collect()
}

/// Writes a value with `serde_json::to_string_pretty`. For an array of objects
/// whose members are strings the writing succeeds: it fails only where a
/// value refuses to be written or a map has a name that is no string, and it
/// writes into memory. The text is then a function of the document, and
/// `serde_json` reads the same document from it.
#[verifier::external_body]
fn to_pretty(value: &Value) -> (out: Result<String, serde_json::Error>)
    ensures
        json_of(*value).is_table() ==> out is Ok,
        out matches Ok(text) ==> json_of(*value).is_table() ==> text@ == pretty_text(
            json_of(*value),
        ) && json_read(encode_utf8(text@)) == Some(json_of(*value)),
{
    serde_json::to_string_pretty(value)
}

/// Reads a value with `serde_json::from_slice`.
#[verifier::external_body]
fn from_bytes(content: &[u8]) -> (out: Result<Value, serde_json::Error>)
    ensures
        match out {
            Ok(value) => json_read(content@) == Some(json_of(value)),
            Err(_) => json_read(content@) is None,
        },
{
    serde_json::from_slice(content)
}

/// The text of a JSON string, by `Value::as_str`; nothing for any other value.
#[verifier::external_body]
fn as_text(value: &Value) -> (out: Option<&str>)
    ensures
        match json_of(*value) {
            Json::Text(text) => out matches Some(found) && found@ == text,
            _ => out is None,
        },
{
    value.as_str()
}

/// The items of a JSON array, by `Value::as_array`; nothing for any other value.
#[verifier::external_body]
fn as_list(value: &Value) -> (out: Option<&Vec<Value>>)
    ensures
        match json_of(*value) {
            Json::List(items) => out matches Some(found) && documents(found@) == items,
            _ => out is None,
        },
{
    value.as_array()
}

/// The member of a JSON object under a name, by `Value::get`; nothing where
/// the value is no object or has no such member.
#[verifier::external_body]
fn member<'a>(value: &'a Value, name: &str) -> (out: Option<&'a Value>)
    ensures
        match json_of(*value).member(name@) {
            Some(document) => out matches Some(found) && json_of(*found) == document,
            None => out is None,
        },
{
    value.get(name)
}

/// An error of `serde_json` for a document that is well-formed JSON and holds
/// no collection of tasks, made with `serde::de::Error::custom`.
#[verifier::external_body]
fn data_error(message: &str) -> serde_json::Error {
    <serde_json::Error as serde::de::Error>::custom(message)
}

/// The object that stands for a task: its four texts under the names `id`,
/// `description`, `status` and `created`, in this order.
pub open spec fn record_of(task: TaskView) -> Json {
    Json::Object(
        seq![
            ("id"@, Json::Text(fields_of(task)[0])),
            ("description"@, Json::Text(fields_of(task)[1])),
            ("status"@, Json::Text(fields_of(task)[2])),
            ("created"@, Json::Text(fields_of(task)[3])),
        ],
    )
}

/// The document that stands for a collection: the array of its tasks' objects.
pub open spec fn document_of(tasks: Seq<TaskView>) -> Json {
    Json::List(tasks.map_values(|task: TaskView| record_of(task)))
}

/// The task that a document stands for: an object with strings under the four
/// names, which stand for a task. Other members are passed over.
pub open spec fn task_in(item: Json) -> Option<TaskView> {
    match (
        item.text_member("id"@),
        item.text_member("description"@),
        item.text_member("status"@),
        item.text_member("created"@),
    ) {
        (Some(id), Some(description), Some(status), Some(created)) => task_of(
            id,
            description,
            status,
            created,
        ),
        _ => None,
    }
}

/// The collection that a document stands for: an array whose items each stand
/// for a task.
pub open spec fn tasks_in(document: Json) -> Option<Seq<TaskView>> {
    match document {
        Json::List(items) => if forall|i: int|
            0 <= i < items.len() ==> (#[trigger] task_in(items[i])) is Some {
            Some(items.map_values(|item: Json| task_in(item).unwrap()))
        } else {
            None
        },
        _ => None,
    }
}

/// A task's object has four string members under four names, and stands for
/// the task where the task's texts do.
pub proof fn lemma_record_reads_back(task: TaskView)
    requires
        reads_back(task),
    ensures
        record_of(task).is_record(),
        task_in(record_of(task)) == Some(task),
{
    reveal_strlit("id");
    reveal_strlit("description");
    reveal_strlit("status");
    reveal_strlit("created");
    reveal_with_fuel(lookup, 5);
    let members = record_of(task)->Object_0;
    assert(members.len() == 4);
    assert("id"@.len() == 2 && "description"@.len() == 11 && "status"@.len() == 6 && "created"@.len()
        == 7);
    assert(members.drop_last() == members.subrange(0, 3));
    assert(members.drop_last().drop_last() == members.subrange(0, 2));
    assert(members.drop_last().drop_last().drop_last() == members.subrange(0, 1));
    assert(record_of(task).text_member("id"@) == Some(fields_of(task)[0]));
    assert(record_of(task).text_member("description"@) == Some(fields_of(task)[1]));
    assert(record_of(task).text_member("status"@) == Some(fields_of(task)[2]));
    assert(record_of(task).text_member("created"@) == Some(fields_of(task)[3]));
}

/// The document of a collection is an array of such objects, and stands for the
/// collection where each task's texts stand for the task.
pub proof fn lemma_document_reads_back(tasks: Seq<TaskView>)
    requires
        forall|i: int| 0 <= i < tasks.len() ==> reads_back(#[trigger] tasks[i]),
    ensures
        document_of(tasks).is_table(),
        tasks_in(document_of(tasks)) == Some(tasks),
{
    let items = tasks.map_values(|task: TaskView| record_of(task));
    assert forall|i: int| 0 <= i < items.len() implies (#[trigger] items[i]).is_record() && (
    #[trigger] task_in(items[i])) == Some(tasks[i]) by {
        lemma_record_reads_back(tasks[i]);
    }
    assert(items.map_values(|item: Json| task_in(item).unwrap()) =~= tasks);
}

/// The bytes of a file, out of what writing the document gave.
pub fn written(text: Result<String, serde_json::Error>) -> (out: Result<Vec<u8>, StorageError>)
    ensures
        match text {
            Ok(text) => out matches Ok(content) && content@ == encode_utf8(text@),
            Err(error) => out matches Err(StorageError::JsonError(found)) && found == error,
        },
{
    match text {
        Ok(text) => Ok(text.as_str().as_bytes_vec()),
        Err(error) => Err(StorageError::JsonError(error)),
    }
}

fn text_member<'a>(value: &'a Value, name: &str) -> (out: Option<&'a str>)
    ensures
        match json_of(*value).text_member(name@) {
            Some(text) => out matches Some(found) && found@ == text,
            None => out is None,
        },
{
    match member(value, name) {
        Some(found) => as_text(found),
        None => None,
    }
}

/// The object that stands for a task.
fn encode_task(task: &Task) -> (value: Value)
    ensures
        json_of(value) == record_of(task@),
        reads_back(task@),
{
    let fields = task.to_fields();
    let ghost texts = fields.deep_view();
    assert(texts[0] == fields[0]@ && texts[1] == fields[1]@ && texts[2] == fields[2]@ && texts[3]
        == fields[3]@);
    let mut pairs: Vec<(String, Value)> = Vec::new();
    pairs.push((String::from_str("id"), text_value(fields[0].clone())));
    pairs.push((String::from_str("description"), text_value(fields[1].clone())));
    pairs.push((String::from_str("status"), text_value(fields[2].clone())));
    pairs.push((String::from_str("created"), text_value(fields[3].clone())));
    proof {
        lemma_record_reads_back(task@);
        assert(members_of(pairs@) =~= record_of(task@)->Object_0);
        assert forall|i: int, j: int| 0 <= i < j < pairs.len() implies (#[trigger] pairs[i]).0@ != (
        #[trigger] pairs[j]).0@ by {
            let members = record_of(task@)->Object_0;
            assert(members[i].0 == pairs[i].0@);
            assert(members[j].0 == pairs[j].0@);
        }
    }
    object_value(pairs)
}

/// The task that a value stands for.
fn decode_task(value: &Value) -> (out: Option<Task>)
    ensures
        match out {
            Some(task) => task_in(json_of(*value)) == Some(task@),
            None => task_in(json_of(*value)) is None,
        },
{
    let id = match text_member(value, "id") {
        Some(text) => text,
        None => {
            return None;
        },
    };
    let description = match text_member(value, "description") {
        Some(text) => text,
        None => {
            return None;
        },
    };
    let status = match text_member(value, "status") {
        Some(text) => text,
        None => {
            return None;
        },
    };
    let created = match text_member(value, "created") {
        Some(text) => text,
        None => {
            return None;
        },
    };
    Task::from_fields(id, description, status, created)
}

/// The value that stands for a collection.
fn encode_document(data: &[Task]) -> (value: Value)
    ensures
        json_of(value) == document_of(views(data@)),
        forall|i: int| 0 <= i < data.len() ==> reads_back(#[trigger] data[i]@),
{
    let mut items: Vec<Value> = Vec::new();
    let mut i: usize = 0;
    while i < data.len()
        invariant
            i <= data.len(),
            items.len() == i,
            forall|j: int| 0 <= j < i ==> json_of(#[trigger] items[j]) == record_of(data[j]@),
            forall|j: int| 0 <= j < i ==> reads_back(#[trigger] data[j]@),
        decreases data.len() - i,
    {
        let item = encode_task(&data[i]);
        items.push(item);
        i = i + 1;
    }
    proof {
        assert(documents(items@) =~= views(data@).map_values(|task: TaskView| record_of(task)));
    }
    list_value(items)
}

/// The collection that a value stands for.
fn decode_document(value: &Value) -> (out: Result<Vec<Task>, StorageError>)
    ensures
        match tasks_in(json_of(*value)) {
            Some(tasks) => out matches Ok(loaded) && views(loaded@) == tasks,
            None => out matches Err(StorageError::JsonError(_)),
        },
{
    let items = match as_list(value) {
        Some(items) => items,
        None => {
            return Err(StorageError::JsonError(data_error("a task file holds an array of tasks")));
        },
    };
    let ghost held = documents(items@);
    let mut tasks: Vec<Task> = Vec::new();
    let mut i: usize = 0;
    while i < items.len()
        invariant
            i <= items.len(),
            tasks.len() == i,
            held == documents(items@),
            json_of(*value) == Json::List(held),
            forall|j: int| 0 <= j < i ==> task_in(held[j]) == Some(#[trigger] tasks[j]@),
        decreases items.len() - i,
    {
        assert(held[i as int] == json_of(items[i as int]));
        match decode_task(&items[i]) {
            Some(task) => {
                tasks.push(task);
            },
            None => {
                assert(task_in(held[i as int]) is None);
                return Err(
                    StorageError::JsonError(
                        data_error("an item of the task file does not describe a task"),
                    ),
                );
            },
        }
        i = i + 1;
    }
    proof {
        assert forall|j: int| 0 <= j < held.len() implies (#[trigger] task_in(held[j])) is Some by {
            assert(task_in(held[j]) == Some(tasks[j]@));
        }
        assert(views(tasks@) =~= held.map_values(|item: Json| task_in(item).unwrap()));
    }
    Ok(tasks)
}

/// The document backend and the file it keeps.
pub struct JsonStorage {
    file_path: String,
}

impl JsonStorage {
    /// The path of the backend's file.
    pub closed spec fn path(&self) -> Seq<char> {
        self.file_path@
    }

    /// A backend that keeps the collection in the file at `file_path`.
    pub fn new(file_path: String) -> (out: JsonStorage)
        ensures
            out.path() == file_path@,
    {
        JsonStorage { file_path }
    }

    /// The path of the backend's file.
    pub fn file_path(&self) -> (out: &str)
        ensures
            out@ == self.path(),
    {
        self.file_path.as_str()
    }
}

impl Storage<Task> for JsonStorage {
    type Error = StorageError;

    /// The pretty-printed document of the collection, in UTF-8.
    open spec fn encoded(&self, items: Seq<TaskView>) -> Seq<u8> {
        encode_utf8(pretty_text(document_of(items)))
    }

    /// The collection that the document in the bytes stands for.
    open spec fn decoded(&self, content: Seq<u8>) -> Option<Seq<TaskView>> {
        match json_read(content) {
            Some(document) => tasks_in(document),
            None => None,
        }
    }

    /// Every collection has a document.
    open spec fn stores(&self, items: Seq<TaskView>) -> bool {
        true
    }

    /// The I/O error itself, as an error of storage.
    open spec fn read_error(&self, error: std::io::Error) -> StorageError {
        StorageError::IoError(error)
    }

    /// The errors under `JsonError`.
    open spec fn is_format_error(&self, error: StorageError) -> bool {
        error is JsonError
    }

    fn save(&self, data: &[Task]) -> (out: Result<Vec<u8>, StorageError>) {
        let document = encode_document(data);
        proof {
            lemma_document_reads_back(views(data@));
        }
        written(to_pretty(&document))
    }

    fn load(&self, file: FileRead) -> (out: Result<Vec<Task>, StorageError>) {
        match file {
            FileRead::Missing => Ok(Vec::new()),
            FileRead::Failed(error) => Err(StorageError::IoError(error)),
            FileRead::Content(content) => match from_bytes(content.as_slice()) {
                Ok(value) => decode_document(&value),
                Err(error) => Err(StorageError::JsonError(error)),
            },
        }
    }
}

} // verus!
