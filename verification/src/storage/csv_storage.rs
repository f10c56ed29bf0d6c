//! The tabular format: comma-separated rows under a header, one row for each task.

use vstd::prelude::*;
use vstd::string::*;
use crate::storage::views;
use crate::storage::FileRead;
use crate::storage::Storage;
use crate::storage::StorageError;
use crate::task::fields_of;
use crate::task::reads_back;
use crate::task::task_of;
use crate::task::Task;
use crate::task::TaskView;
use crate::text::same_text;

verus! {

/// A `csv::Writer` that writes into memory.
#[verifier::external_body]
pub struct TableWriter {
    inner: csv::Writer<Vec<u8>>,
}

#[verifier::external_type_specification]
#[verifier::external_body]
#[verifier::reject_recursive_types(R)]
pub struct ExReader<R>(csv::Reader<R>);

/// The rows that have been written to a writer, first to last, each a sequence
/// of fields.
pub uninterp spec fn rows_written(writer: TableWriter) -> Seq<Seq<Seq<char>>>;

/// The bytes that `csv` writes for a table with its default settings.
pub uninterp spec fn csv_text(rows: Seq<Seq<Seq<char>>>) -> Seq<u8>;

/// The records that a reader has still to give, first to last; nothing in
/// place of a record that it fails to read.
pub uninterp spec fn rows_ahead(reader: csv::Reader<&[u8]>) -> Seq<Option<Seq<Seq<char>>>>;

/// The records that `csv` reads from bytes with its default settings, the
/// first line as a record like the others: nothing in place of a record that
/// it fails to read.
pub uninterp spec fn csv_records(content: Seq<u8>) -> Seq<Option<Seq<Seq<char>>>>;

/// Whether a table has at least one row, each row as many fields as the first
/// and at least one, and a first field that does not begin with a byte order
/// mark.
pub open spec fn is_grid(rows: Seq<Seq<Seq<char>>>) -> bool {
    &&& rows.len() > 0
    &&& rows[0].len() > 0
    &&& forall|i: int| 0 <= i < rows.len() ==> (#[trigger] rows[i]).len() == rows[0].len()
    &&& (rows[0][0].len() > 0 ==> rows[0][0][0] != '\u{feff}')
}

/// A writer into memory, by `csv::Writer::from_writer`: nothing written yet.
#[verifier::external_body]
fn new_writer() -> (writer: TableWriter)
    ensures
        rows_written(writer) == Seq::<Seq<Seq<char>>>::empty(),
{
    TableWriter { inner: csv::Writer::from_writer(Vec::new()) }
}

/// Writes one row with `Writer::write_record` and hands the writer on; a
/// writer that failed is given up. Writing into memory, `csv` refuses a row
/// only for having another number of fields than the first row. Where it
/// succeeds the row stands after those written before.
#[verifier::external_body]
fn write_row(writer: TableWriter, row: &Vec<String>) -> (out: Result<TableWriter, csv::Error>)
    ensures
        rows_written(writer).len() == 0 || rows_written(writer)[0].len() == row.len()
            ==> out is Ok,
        out matches Ok(after) ==> rows_written(after) == rows_written(writer).push(
            row.deep_view(),
        ),
{
    let mut writer = writer;
    match writer.inner.write_record(row) {
        Ok(()) => Ok(writer),
        Err(error) => Err(error),
    }
}

/// Ends the writing with `Writer::into_inner` and gives the bytes, which
/// fails only where the underlying writer does, and memory does not. The
/// bytes are a function of the rows written, and from the bytes of a grid
/// `csv` reads the rows again, each without failing.
#[verifier::external_body]
fn finish(writer: TableWriter) -> (out: Result<Vec<u8>, csv::Error>)
    ensures
        out is Ok,
        out matches Ok(content) ==> content@ == csv_text(rows_written(writer)) && (is_grid(
            rows_written(writer),
        ) ==> csv_records(content@) == rows_written(writer).map_values(
            |row: Seq<Seq<char>>| Some(row),
        )),
{
    writer.inner.into_inner().map_err(|failed| csv::Error::from(failed.into_error()))
}

/// A reader over bytes, by `csv::ReaderBuilder`, that takes the first line as a
/// record like the others.
#[verifier::external_body]
fn reader_of<'a>(content: &'a [u8]) -> (reader: csv::Reader<&'a [u8]>)
    ensures
        rows_ahead(reader) == csv_records(content@),
{
    csv::ReaderBuilder::new().has_headers(false).from_reader(content)
}

/// Takes the next record off a reader with `Reader::records`, its fields as
/// strings: nothing at the end, an error where the record cannot be read.
#[verifier::external_body]
fn next_row(reader: &mut csv::Reader<&[u8]>) -> (out: Option<Result<Vec<String>, csv::Error>>)
    ensures
        match out {
            None => rows_ahead(*old(reader)).len() == 0,
            Some(Ok(row)) => {
                &&& rows_ahead(*old(reader)).len() > 0
                &&& rows_ahead(*old(reader))[0] == Some(row.deep_view())
                &&& rows_ahead(*final(reader)) == rows_ahead(*old(reader)).drop_first()
            },
            Some(Err(_)) => rows_ahead(*old(reader)).len() > 0 && rows_ahead(*old(reader))[0]
                is None,
        },
{
    reader.records().next().map(|row| row.map(|fields| fields.iter().map(String::from).collect()))
}

/// An error of `csv` for a table that holds no collection of tasks: `csv` makes
/// its errors from I/O errors, here one of the kind `InvalidData`.
#[verifier::external_body]
fn data_error(message: &str) -> csv::Error {
    csv::Error::from(std::io::Error::new(std::io::ErrorKind::InvalidData, message))
}

/// The first row of a task file: the names of the four columns.
pub open spec fn header() -> Seq<Seq<char>> {
    seq!["id"@, "description"@, "status"@, "created"@]
}

/// The table that stands for a collection: the header, then each task's four
/// texts as a row.
pub open spec fn table_of(tasks: Seq<TaskView>) -> Seq<Seq<Seq<char>>> {
    seq![header()] + tasks.map_values(|task: TaskView| fields_of(task))
}

/// The task that a record stands for: four fields that stand for a task.
pub open spec fn task_in(record: Option<Seq<Seq<char>>>) -> Option<TaskView> {
    match record {
        Some(fields) => if fields.len() == 4 {
            task_of(fields[0], fields[1], fields[2], fields[3])
        } else {
            None
        },
        None => None,
    }
}

/// The collection that the records of a file stand for. No record at all is
/// the empty collection. Otherwise the first record is the header and each
/// record after it stands for a task.
pub open spec fn tasks_in(records: Seq<Option<Seq<Seq<char>>>>) -> Option<Seq<TaskView>> {
    if records.len() == 0 {
        Some(Seq::empty())
    } else if records[0] != Some(header()) {
        None
    } else if forall|i: int| 1 <= i < records.len() ==> (#[trigger] task_in(records[i])) is Some {
        Some(Seq::new((records.len() - 1) as nat, |i: int| task_in(records[i + 1]).unwrap()))
    } else {
        None
    }
}

/// The table of a collection is a grid, and its rows stand for the
/// collection where each task's texts stand for the task.
pub proof fn lemma_table_reads_back(tasks: Seq<TaskView>)
    requires
        forall|i: int| 0 <= i < tasks.len() ==> reads_back(#[trigger] tasks[i]),
    ensures
        is_grid(table_of(tasks)),
        tasks_in(table_of(tasks).map_values(|row: Seq<Seq<char>>| Some(row))) == Some(tasks),
{
    reveal_strlit("id");
    let rows = table_of(tasks);
    let records = rows.map_values(|row: Seq<Seq<char>>| Some(row));
    assert(rows[0] == header());
    assert(rows[0][0] == "id"@);
    assert forall|i: int| 0 <= i < rows.len() implies (#[trigger] rows[i]).len() == 4 by {
        if i > 0 {
            assert(rows[i] == fields_of(tasks[i - 1]));
        }
    }
    assert forall|i: int| 1 <= i < records.len() implies (#[trigger] task_in(records[i])) == Some(
        tasks[i - 1],
    ) by {
        assert(rows[i] == fields_of(tasks[i - 1]));
    }
    assert(Seq::new((records.len() - 1) as nat, |i: int| task_in(records[i + 1]).unwrap())
        =~= tasks);
}

/// The names of the four columns.
fn header_row() -> (row: Vec<String>)
    ensures
        row.len() == 4,
        row.deep_view() == header(),
{
    let mut row: Vec<String> = Vec::new();
    row.push(String::from_str("id"));
    row.push(String::from_str("description"));
    row.push(String::from_str("status"));
    row.push(String::from_str("created"));
    assert(row.deep_view() =~= header());
    row
}

/// Whether a row holds the names of the four columns.
fn is_header(row: &Vec<String>) -> (out: bool)
    ensures
        out == (row.deep_view() == header()),
{
    let ghost fields = row.deep_view();
    assert(fields.len() == row.len() && header().len() == 4);
    if row.len() != 4 {
        return false;
    }
    assert(fields[0] == row[0]@ && fields[1] == row[1]@ && fields[2] == row[2]@ && fields[3]
        == row[3]@);
    let out = same_text(row[0].as_str(), "id") && same_text(row[1].as_str(), "description")
        && same_text(row[2].as_str(), "status") && same_text(row[3].as_str(), "created");
    proof {
        if out {
            assert(fields =~= header());
        }
    }
    out
}

/// The task that a row stands for.
fn decode_row(row: &Vec<String>) -> (out: Option<Task>)
    ensures
        match out {
            Some(task) => task_in(Some(row.deep_view())) == Some(task@),
            None => task_in(Some(row.deep_view())) is None,
        },
{
    let ghost fields = row.deep_view();
    if row.len() != 4 {
        return None;
    }
    assert(fields[0] == row[0]@ && fields[1] == row[1]@ && fields[2] == row[2]@ && fields[3]
        == row[3]@);
    Task::from_fields(row[0].as_str(), row[1].as_str(), row[2].as_str(), row[3].as_str())
}

/// The bytes of a file, out of what ending the writing gave.
pub fn written(content: Result<Vec<u8>, csv::Error>) -> (out: Result<Vec<u8>, StorageError>)
    ensures
        match content {
            Ok(content) => out matches Ok(kept) && kept == content,
            Err(error) => out matches Err(StorageError::CsvError(found)) && found == error,
        },
{
    match content {
        Ok(content) => Ok(content),
        Err(error) => Err(StorageError::CsvError(error)),
    }
}

/// The tabular backend and the file it keeps.
pub struct CsvStorage {
    file_path: String,
}

impl CsvStorage {
    /// The path of the backend's file.
    pub closed spec fn path(&self) -> Seq<char> {
        self.file_path@
    }

    /// A backend that keeps the collection in the file at `file_path`.
    pub fn new(file_path: String) -> (out: CsvStorage)
        ensures
            out.path() == file_path@,
    {
        CsvStorage { file_path }
    }

    /// The path of the backend's file.
    pub fn file_path(&self) -> (out: &str)
        ensures
            out@ == self.path(),
    {
        self.file_path.as_str()
    }

    /// The collection in the bytes of a file.
    pub fn read(content: &[u8]) -> (out: Result<Vec<Task>, StorageError>)
        ensures
            match tasks_in(csv_records(content@)) {
                Some(tasks) => out matches Ok(loaded) && views(loaded@) == tasks,
                None => out matches Err(StorageError::CsvError(_)),
            },
    {
        let ghost records = csv_records(content@);
        let mut reader = reader_of(content);
        let mut tasks: Vec<Task> = Vec::new();
        match next_row(&mut reader) {
            None => {
                return Ok(tasks);
            },
            Some(Err(error)) => {
                return Err(StorageError::CsvError(error));
            },
            Some(Ok(row)) => {
                if !is_header(&row) {
                    return Err(
                        StorageError::CsvError(
                            data_error("a task file begins with the names of its four columns"),
                        ),
                    );
                }
            },
        }
        loop
            invariant
                records == csv_records(content@),
                records.len() > 0,
                records[0] == Some(header()),
                tasks.len() + 1 <= records.len(),
                rows_ahead(reader) == records.skip(tasks.len() + 1),
                forall|j: int|
                    0 <= j < tasks.len() ==> task_in(records[j + 1]) == Some(#[trigger] tasks[j]@),
            decreases rows_ahead(reader).len(),
        {
            let ghost at = tasks.len() + 1;
            let next = next_row(&mut reader);
            match next {
                None => {
                    proof {
                        assert(at == records.len());
                        assert forall|i: int| 1 <= i < records.len() implies (#[trigger] task_in(
                            records[i],
                        )) is Some by {
                            assert(task_in(records[i]) == Some(tasks[i - 1]@));
                        }
                        assert(views(tasks@) =~= Seq::new(
                            (records.len() - 1) as nat,
                            |i: int| task_in(records[i + 1]).unwrap(),
                        ));
                    }
                    return Ok(tasks);
                },
                Some(Err(error)) => {
                    proof {
                        assert(records.skip(at)[0] == records[at]);
                        assert(task_in(records[at]) is None);
                    }
                    return Err(StorageError::CsvError(error));
                },
                Some(Ok(row)) => {
                    proof {
                        assert(records.skip(at)[0] == records[at]);
                        assert(records.skip(at).drop_first() =~= records.skip(at + 1));
                    }
                    match decode_row(&row) {
                        Some(task) => {
                            tasks.push(task);
                        },
                        None => {
                            assert(task_in(records[at]) is None);
                            return Err(
                                StorageError::CsvError(
                                    data_error("a row of the task file does not describe a task"),
                                ),
                            );
                        },
                    }
                },
            }
        }
    }
}

impl Storage<Task> for CsvStorage {
    type Error = StorageError;

    /// What `csv` writes for the table of the collection.
    open spec fn encoded(&self, items: Seq<TaskView>) -> Seq<u8> {
        csv_text(table_of(items))
    }

    /// The collection that the records in the bytes stand for.
    open spec fn decoded(&self, content: Seq<u8>) -> Option<Seq<TaskView>> {
        tasks_in(csv_records(content))
    }

    /// Every collection has a table.
    open spec fn stores(&self, items: Seq<TaskView>) -> bool {
        true
    }

    /// The I/O error itself, as an error of storage.
    open spec fn read_error(&self, error: std::io::Error) -> StorageError {
        StorageError::IoError(error)
    }

    /// The errors under `CsvError`.
    open spec fn is_format_error(&self, error: StorageError) -> bool {
        error is CsvError
    }

    fn save(&self, data: &[Task]) -> (out: Result<Vec<u8>, StorageError>) {
        let mut writer = match write_row(new_writer(), &header_row()) {
            Ok(writer) => writer,
            Err(error) => {
                return Err(StorageError::CsvError(error));
            },
        };
        let mut i: usize = 0;
        while i < data.len()
            invariant
                i <= data.len(),
                rows_written(writer) == table_of(views(data@).take(i as int)),
                forall|j: int| 0 <= j < i ==> reads_back(#[trigger] data[j]@),
            decreases data.len() - i,
        {
            let row = data[i].to_fields();
            proof {
                let before = views(data@).take(i as int);
                let after = views(data@).take(i + 1);
                assert(after.map_values(|task: TaskView| fields_of(task)) =~= before.map_values(
                    |task: TaskView| fields_of(task),
                ).push(fields_of(data[i as int]@)));
                assert(table_of(after) =~= table_of(before).push(fields_of(data[i as int]@)));
                assert(table_of(before)[0] == header());
                assert(header().len() == 4);
            }
            writer = match write_row(writer, &row) {
                Ok(writer) => writer,
                Err(error) => {
                    return Err(StorageError::CsvError(error));
                },
            };
            i = i + 1;
        }
        proof {
            assert(views(data@).take(data.len() as int) =~= views(data@));
            lemma_table_reads_back(views(data@));
        }
        written(finish(writer))
    }

    fn load(&self, file: FileRead) -> (out: Result<Vec<Task>, StorageError>) {
        match file {
            FileRead::Missing => Ok(Vec::new()),
            FileRead::Failed(error) => Err(StorageError::IoError(error)),
            FileRead::Content(content) => CsvStorage::read(content.as_slice()),
        }
    }
}

} // verus!
