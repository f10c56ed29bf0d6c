//! Keeping a collection between runs: what a storage backend does, the errors
//! it reports, and the choice between the two formats. A backend turns a
//! collection into the bytes of a file and a file's bytes into a collection;
//! reading and writing the file itself is the caller's part.

pub mod csv_storage;
pub mod json_storage;

use vstd::prelude::*;
use vstd::string::*;
use crate::storage::csv_storage::CsvStorage;
use crate::storage::json_storage::JsonStorage;
use crate::task::Task;
use crate::task::TaskView;
use crate::text::same_text;

verus! {

#[verifier::external_type_specification]
#[verifier::external_body]
pub struct ExIoError(std::io::Error);

#[verifier::external_type_specification]
#[verifier::external_body]
pub struct ExJsonError(serde_json::Error);

#[verifier::external_type_specification]
#[verifier::external_body]
pub struct ExCsvError(csv::Error);

/// Why a collection could not be saved or loaded.
#[derive(Debug)]
pub enum StorageError {
    /// The file could not be read or written.
    IoError(std::io::Error),
    /// The file does not hold a JSON document of tasks.
    JsonError(serde_json::Error),
    /// The file does not hold a CSV table of tasks.
    CsvError(csv::Error),
}

impl From<std::io::Error> for StorageError {
    fn from(error: std::io::Error) -> (out: StorageError) {
        StorageError::IoError(error)
    }
}

impl vstd::std_specs::convert::FromSpecImpl<std::io::Error> for StorageError {
    open spec fn obeys_from_spec() -> bool {
        true
    }

    open spec fn from_spec(error: std::io::Error) -> StorageError {
        StorageError::IoError(error)
    }
}

impl From<serde_json::Error> for StorageError {
    fn from(error: serde_json::Error) -> (out: StorageError) {
        StorageError::JsonError(error)
    }
}

impl vstd::std_specs::convert::FromSpecImpl<serde_json::Error> for StorageError {
    open spec fn obeys_from_spec() -> bool {
        true
    }

    open spec fn from_spec(error: serde_json::Error) -> StorageError {
        StorageError::JsonError(error)
    }
}

impl From<csv::Error> for StorageError {
    fn from(error: csv::Error) -> (out: StorageError) {
        StorageError::CsvError(error)
    }
}

impl vstd::std_specs::convert::FromSpecImpl<csv::Error> for StorageError {
    open spec fn obeys_from_spec() -> bool {
        true
    }

    open spec fn from_spec(error: csv::Error) -> StorageError {
        StorageError::CsvError(error)
    }
}

/// What came of reading a backend's file.
#[derive(Debug)]
pub enum FileRead {
    /// There is no such file.
    Missing,
    /// The file is there and could not be read.
    Failed(std::io::Error),
    /// The bytes of the file.
    Content(Vec<u8>),
}

/// Whether an I/O error says that there is no such file: whether
/// `io::Error::kind` gives `NotFound` for it.
pub uninterp spec fn names_no_file(error: std::io::Error) -> bool;

/// Whether an I/O error says that there is no such file, by `io::Error::kind`.
#[verifier::external_body]
fn is_not_found(error: &std::io::Error) -> (found: bool)
    ensures
        found == names_no_file(*error),
{
    error.kind() == std::io::ErrorKind::NotFound
}

impl FileRead {
    /// What a read that failed came to: a missing file where the error says
    /// that there is none, a failure with this error otherwise.
    pub fn of_failure(error: std::io::Error, not_found: bool) -> (out: FileRead)
        ensures
            not_found ==> out is Missing,
            !not_found ==> (out matches FileRead::Failed(found) && found == error),
    {
        if not_found {
            FileRead::Missing
        } else {
            FileRead::Failed(error)
        }
    }

    /// What a read of the whole file came to. An error that says that there
    /// is no such file stands for a missing file, every other for a failure.
    pub fn of(read: Result<Vec<u8>, std::io::Error>) -> (out: FileRead)
        ensures
            match read {
                Ok(content) => out matches FileRead::Content(found) && found == content,
                Err(error) => if names_no_file(error) {
                    out is Missing
                } else {
                    out matches FileRead::Failed(found) && found == error
                },
            },
    {
        match read {
            Ok(content) => FileRead::Content(content),
            Err(error) => {
                let not_found = is_not_found(&error);
                FileRead::of_failure(error, not_found)
            },
        }
    }
}

/// The values of the items in a sequence, in order.
pub open spec fn views<T: View>(items: Seq<T>) -> Seq<T::V> {
    items.map_values(|item: T| item@)
}

/// A file format for a collection of items.
pub trait Storage<T: View> {
    type Error;

    /// The bytes that stand for a collection in this format.
    spec fn encoded(&self, items: Seq<T::V>) -> Seq<u8>;

    /// The collection that the bytes of a file stand for, if they stand for one.
    spec fn decoded(&self, content: Seq<u8>) -> Option<Seq<T::V>>;

    /// Whether the format has bytes for a collection: `save` owes them for
    /// every collection of which this holds.
    spec fn stores(&self, items: Seq<T::V>) -> bool;

    /// The error for a file that could not be read.
    spec fn read_error(&self, error: std::io::Error) -> Self::Error;

    /// Whether an error is one of the format: what it reports for bytes that
    /// stand for no collection, and for a collection that it has no bytes for.
    spec fn is_format_error(&self, error: Self::Error) -> bool;

    /// The bytes to write to the file for a collection, which are owed for
    /// every collection that the format stores. What is returned stands for
    /// that collection: loading it gives the same items in the same order.
    fn save(&self, data: &[T]) -> (out: Result<Vec<u8>, Self::Error>)
        ensures
            self.stores(views(data@)) ==> out is Ok,
            out matches Ok(content) ==> content@ == self.encoded(views(data@)) && self.decoded(
                content@,
            ) == Some(views(data@)),
            out matches Err(error) ==> self.is_format_error(error),
    ;

    /// The collection in a file. A file that is missing holds the empty
    /// collection. A file that could not be read is the error for it; bytes
    /// that stand for no collection are an error of the format.
    fn load(&self, file: FileRead) -> (out: Result<Vec<T>, Self::Error>)
        ensures
            match file {
                FileRead::Missing => out matches Ok(items) && items@.len() == 0,
                FileRead::Failed(error) => out matches Err(found) && found == self.read_error(
                    error,
                ),
                FileRead::Content(content) => match self.decoded(content@) {
                    Some(items) => out matches Ok(loaded) && views(loaded@) == items,
                    None => out matches Err(error) && self.is_format_error(error),
                },
            },
    ;
}

/// The lower-case form of a text: what `str::to_lowercase` returns.
pub uninterp spec fn lowercase(text: Seq<char>) -> Seq<char>;

/// The lower-case form of a text, by `str::to_lowercase`.
#[verifier::external_body]
fn lower(text: &str) -> (out: String)
    ensures
        out@ == lowercase(text@),
{
    text.to_lowercase()
}

/// One of the two backends.
pub enum AnyStorage {
    Json(JsonStorage),
    Csv(CsvStorage),
}

impl AnyStorage {
    /// The path of the backend's file.
    pub open spec fn path(&self) -> Seq<char> {
        match self {
            AnyStorage::Json(storage) => storage.path(),
            AnyStorage::Csv(storage) => storage.path(),
        }
    }

    /// The path of the backend's file.
    pub fn file_path(&self) -> (out: &str)
        ensures
            out@ == self.path(),
    {
        match self {
            AnyStorage::Json(storage) => storage.file_path(),
            AnyStorage::Csv(storage) => storage.file_path(),
        }
    }
}

impl Storage<Task> for AnyStorage {
    type Error = StorageError;

    open spec fn encoded(&self, items: Seq<TaskView>) -> Seq<u8> {
        match self {
            AnyStorage::Json(storage) => storage.encoded(items),
            AnyStorage::Csv(storage) => storage.encoded(items),
        }
    }

    open spec fn decoded(&self, content: Seq<u8>) -> Option<Seq<TaskView>> {
        match self {
            AnyStorage::Json(storage) => storage.decoded(content),
            AnyStorage::Csv(storage) => storage.decoded(content),
        }
    }

    /// Both backends store every collection.
    open spec fn stores(&self, items: Seq<TaskView>) -> bool {
        match self {
            AnyStorage::Json(storage) => storage.stores(items),
            AnyStorage::Csv(storage) => storage.stores(items),
        }
    }

    /// Both backends hand the I/O error on.
    open spec fn read_error(&self, error: std::io::Error) -> StorageError {
        match self {
            AnyStorage::Json(storage) => storage.read_error(error),
            AnyStorage::Csv(storage) => storage.read_error(error),
        }
    }

    /// The errors of the backend that it is.
    open spec fn is_format_error(&self, error: StorageError) -> bool {
        match self {
            AnyStorage::Json(storage) => storage.is_format_error(error),
            AnyStorage::Csv(storage) => storage.is_format_error(error),
        }
    }

    fn save(&self, data: &[Task]) -> (out: Result<Vec<u8>, StorageError>) {
        match self {
            AnyStorage::Json(storage) => storage.save(data),
            AnyStorage::Csv(storage) => storage.save(data),
        }
    }

    fn load(&self, file: FileRead) -> (out: Result<Vec<Task>, StorageError>) {
        match self {
            AnyStorage::Json(storage) => storage.load(file),
            AnyStorage::Csv(storage) => storage.load(file),
        }
    }
}

/// The backend that a kind in lower case names: the tabular one with the file
/// `tasks.csv` for `csv`, the document one with the file `tasks.json` for
/// every other kind.
pub fn storage_for(kind: &str) -> (out: AnyStorage)
    ensures
        match out {
            AnyStorage::Csv(storage) => kind@ == "csv"@ && storage.path() == "tasks.csv"@,
            AnyStorage::Json(storage) => kind@ != "csv"@ && storage.path() == "tasks.json"@,
        },
{
    if same_text(kind, "csv") {
        AnyStorage::Csv(CsvStorage::new(String::from_str("tasks.csv")))
    } else {
        AnyStorage::Json(JsonStorage::new(String::from_str("tasks.json")))
    }
}

/// The backend that a setting selects: the one that its lower-case form
/// names, and the document backend where nothing is set.
pub fn create_storage(setting: Option<String>) -> (out: AnyStorage)
    ensures
        match out {
            AnyStorage::Csv(storage) => setting matches Some(kind) && lowercase(kind@) == "csv"@
                && storage.path() == "tasks.csv"@,
            AnyStorage::Json(storage) => !(setting matches Some(kind) && lowercase(kind@)
                == "csv"@) && storage.path() == "tasks.json"@,
        },
{
    match setting {
        Some(kind) => {
            let kind = lower(kind.as_str());
            storage_for(kind.as_str())
        },
        None => AnyStorage::Json(JsonStorage::new(String::from_str("tasks.json"))),
    }
}

} // verus!
