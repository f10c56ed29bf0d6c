//! The task manager: the collection of one run, and the operations on it.

use vstd::prelude::*;
use vstd::string::*;
use crate::cli::TaskStatusShortcut;
use crate::random::is_id;
use crate::storage::views;
use crate::storage::FileRead;
use crate::storage::Storage;
use crate::storage::StorageError;
use crate::task::Task;
use crate::task::TaskStatus;
use crate::task::TaskView;
use crate::text::first_chars;
use crate::text::has_prefix;
use crate::text::head;
use crate::text::join;
use crate::text::join_from;
use crate::text::pad;
use crate::text::padded;
use crate::text::repeat;
use crate::text::run;
use crate::text::same_text;
use crate::timestamp::minute_text;

verus! {

/// The positions of the tasks whose identifier begins with `prefix`, in
/// rising order.
pub open spec fn matching(tasks: Seq<TaskView>, prefix: Seq<char>) -> Seq<int>
    decreases tasks.len(),
{
    if tasks.len() == 0 {
        Seq::empty()
    } else if prefix.is_prefix_of(tasks.last().id) {
        matching(tasks.drop_last(), prefix).push(tasks.len() - 1)
    } else {
        matching(tasks.drop_last(), prefix)
    }
}

/// The message for a prefix with which no identifier begins.
pub open spec fn not_found(prefix: Seq<char>) -> Seq<char> {
    "No task found with ID starting with '"@ + prefix + "'"@
}

/// The line that names one of several tasks: the first four characters of its
/// identifier and its description.
pub open spec fn suggestion(task: TaskView) -> Seq<char> {
    "  "@ + head(task.id, 4) + " - "@ + task.description
}

/// The message for a prefix with which several identifiers begin: a line for
/// each of the tasks, in the order of the collection.
pub open spec fn ambiguous(prefix: Seq<char>, candidates: Seq<TaskView>) -> Seq<char> {
    "Ambiguous ID '"@ + prefix + "'. Multiple tasks match:\n"@ + join(
        candidates.map_values(|task: TaskView| suggestion(task)),
        "\n"@,
    ) + "\nPlease be more specific."@
}

/// The task that a prefix names: the position of the only task whose
/// identifier begins with it, or the message that says why there is none.
pub open spec fn resolve(tasks: Seq<TaskView>, prefix: Seq<char>) -> Result<int, Seq<char>> {
    let found = matching(tasks, prefix);
    if found.len() == 1 {
        Ok(found[0])
    } else if found.len() == 0 {
        Err(not_found(prefix))
    } else {
        Err(ambiguous(prefix, found.map_values(|at: int| tasks[at])))
    }
}

/// The status that a shortcut stands for.
pub open spec fn status_of(shortcut: TaskStatusShortcut) -> TaskStatus {
    match shortcut {
        TaskStatusShortcut::T => TaskStatus::Todo,
        TaskStatusShortcut::P => TaskStatus::InProgress,
        TaskStatusShortcut::C => TaskStatus::Complete,
    }
}

/// A task with another status.
pub open spec fn with_status(task: TaskView, status: TaskStatus) -> TaskView {
    TaskView { status, ..task }
}

/// The positions that `matching` gives are those of the tasks whose
/// identifier begins with the prefix, each once and in rising order.
pub proof fn lemma_matching(tasks: Seq<TaskView>, prefix: Seq<char>)
    ensures
        forall|k: int|
            0 <= k < matching(tasks, prefix).len() ==> 0 <= (#[trigger] matching(tasks, prefix)[k])
                < tasks.len() && prefix.is_prefix_of(tasks[matching(tasks, prefix)[k]].id),
        forall|k: int, l: int|
            0 <= k < l < matching(tasks, prefix).len() ==> (#[trigger] matching(tasks, prefix)[k])
                < (#[trigger] matching(tasks, prefix)[l]),
        forall|i: int|
            0 <= i < tasks.len() && prefix.is_prefix_of((#[trigger] tasks[i]).id) ==> matching(
                tasks,
                prefix,
            ).contains(i),
    decreases tasks.len(),
{
    if tasks.len() > 0 {
        let before = tasks.drop_last();
        lemma_matching(before, prefix);
        let found = matching(tasks, prefix);
        let earlier = matching(before, prefix);
        assert forall|i: int|
            0 <= i < tasks.len() && prefix.is_prefix_of((#[trigger] tasks[i]).id) implies found.contains(
            i,
        ) by {
            if i < tasks.len() - 1 {
                assert(before[i] == tasks[i]);
                assert(earlier.contains(i));
                let k = choose|k: int| 0 <= k < earlier.len() && earlier[k] == i;
                assert(found[k] == i);
            } else {
                assert(found[found.len() - 1] == i);
            }
        }
        assert forall|k: int| 0 <= k < found.len() implies 0 <= (#[trigger] found[k]) < tasks.len()
            && prefix.is_prefix_of(tasks[found[k]].id) by {
            if k < earlier.len() {
                assert(found[k] == earlier[k]);
                assert(before[earlier[k]] == tasks[earlier[k]]);
            }
        }
        assert forall|k: int, l: int| 0 <= k < l < found.len() implies (#[trigger] found[k]) < (
        #[trigger] found[l]) by {
            assert(found[k] == earlier[k]);
            if l < earlier.len() {
                assert(found[l] == earlier[l]);
            }
        }
    }
}

/// A prefix names a task exactly when one identifier, and no other, begins
/// with it; the task named is that one.
pub proof fn lemma_resolve_one(tasks: Seq<TaskView>, prefix: Seq<char>, at: int)
    requires
        0 <= at < tasks.len(),
    ensures
        resolve(tasks, prefix) == Ok::<int, Seq<char>>(at) <==> forall|i: int|
            0 <= i < tasks.len() ==> (prefix.is_prefix_of((#[trigger] tasks[i]).id) <==> i == at),
{
    lemma_matching(tasks, prefix);
    let found = matching(tasks, prefix);
    if resolve(tasks, prefix) == Ok::<int, Seq<char>>(at) {
        assert(found.len() == 1 && found[0] == at);
        assert forall|i: int| 0 <= i < tasks.len() implies (prefix.is_prefix_of(
            (#[trigger] tasks[i]).id,
        ) <==> i == at) by {
            if prefix.is_prefix_of(tasks[i].id) {
                assert(found.contains(i));
            }
        }
    }
    if forall|i: int|
        0 <= i < tasks.len() ==> (prefix.is_prefix_of((#[trigger] tasks[i]).id) <==> i == at) {
        assert(prefix.is_prefix_of(tasks[at].id));
        assert(found.contains(at));
        if found.len() > 1 {
            assert(found[0] < found[1]);
            assert(prefix.is_prefix_of(tasks[found[0]].id));
            assert(prefix.is_prefix_of(tasks[found[1]].id));
        }
        assert(found[0] == at);
    }
}

/// A description as a listing shows it: one of more than eighteen characters
/// is cut to its first fifteen, with three dots after them.
pub open spec fn shortened(description: Seq<char>) -> Seq<char> {
    if description.len() > 18 {
        description.subrange(0, 15) + "..."@
    } else {
        description
    }
}

/// A line of a listing: three columns of eight, twenty and twelve characters
/// and a last one, with a space between each two.
pub open spec fn columns(first: Seq<char>, second: Seq<char>, third: Seq<char>, last: Seq<char>)
    -> Seq<char> {
    padded(first, 8) + " "@ + padded(second, 20) + " "@ + padded(third, 12) + " "@ + last
}

/// The line of a listing for a task: identifier, description, status, and the
/// creation time to the minute.
pub open spec fn row_of(task: TaskView) -> Seq<char> {
    columns(
        task.id,
        shortened(task.description),
        task.status.tag(),
        minute_text(task.created.0, task.created.1),
    )
}

/// The lines of a listing: the headings, a rule of sixty dashes, and a line
/// for each task in the order of the collection.
pub open spec fn listing(tasks: Seq<TaskView>) -> Seq<Seq<char>> {
    seq![columns("ID"@, "Description"@, "Status"@, "Created"@), run('-', 60)] + tasks.map_values(
        |task: TaskView| row_of(task),
    )
}

fn shorten(description: &str) -> (out: String)
    ensures
        out@ == shortened(description@),
{
    if description.unicode_len() > 18 {
        let mut out = String::from_str(description.substring_char(0, 15));
        out.append("...");
        out
    } else {
        String::from_str(description)
    }
}

fn line(first: &str, second: &str, third: &str, last: &str) -> (out: String)
    ensures
        out@ == columns(first@, second@, third@, last@),
{
    let mut out = pad(first, 8);
    out.append(" ");
    out.append(pad(second, 20).as_str());
    out.append(" ");
    out.append(pad(third, 12).as_str());
    out.append(" ");
    out.append(last);
    out
}

/// The manager of one run: the collection, and the backend that keeps it.
pub struct TaskManager<S> {
    tasks: Vec<Task>,
    storage: S,
}

impl<S> View for TaskManager<S> {
    type V = Seq<TaskView>;

    /// The collection, in the order in which the tasks were added.
    closed spec fn view(&self) -> Seq<TaskView> {
        views(self.tasks@)
    }
}

impl<S: Storage<Task, Error = StorageError>> TaskManager<S> {
    /// The backend that keeps the collection.
    pub closed spec fn backend(&self) -> S {
        self.storage
    }

    /// A manager with an empty collection.
    pub fn new(storage: S) -> (out: Self)
        ensures
            out@ == Seq::<TaskView>::empty(),
            out.backend() == storage,
    {
        let out = TaskManager { tasks: Vec::new(), storage };
        assert(out@ =~= Seq::<TaskView>::empty());
        out
    }

    /// The backend that keeps the collection.
    pub fn storage(&self) -> (out: &S)
        ensures
            *out == self.backend(),
    {
        &self.storage
    }

    /// The bytes to write to the backend's file for the collection as it is,
    /// which are owed where the backend stores the collection. Loading them
    /// gives the collection again.
    pub fn save(&self) -> (out: Result<Vec<u8>, StorageError>)
        ensures
            self.backend().stores(self@) ==> out is Ok,
            out matches Ok(content) ==> content@ == self.backend().encoded(self@)
                && self.backend().decoded(content@) == Some(self@),
            out matches Err(error) ==> self.backend().is_format_error(error),
    {
        self.storage.save(self.tasks.as_slice())
    }

    /// Replaces the collection by the one in the backend's file: the empty one
    /// where the file is missing. Where the file could not be read or holds
    /// no collection, the manager keeps what it has and hands on the
    /// backend's error.
    pub fn load(&mut self, file: FileRead) -> (out: Result<(), StorageError>)
        ensures
            final(self).backend() == old(self).backend(),
            match file {
                FileRead::Missing => out is Ok && final(self)@ == Seq::<TaskView>::empty(),
                FileRead::Failed(error) => out matches Err(found) && found == old(
                    self,
                ).backend().read_error(error) && final(self)@ == old(self)@,
                FileRead::Content(content) => match old(self).backend().decoded(content@) {
                    Some(tasks) => out is Ok && final(self)@ == tasks,
                    None => out matches Err(error) && old(self).backend().is_format_error(error)
                        && final(self)@ == old(self)@,
                },
            },
    {
        match self.storage.load(file) {
            Ok(tasks) => {
                self.tasks = tasks;
                assert(file is Missing ==> self@ =~= Seq::<TaskView>::empty());
                Ok(())
            },
            Err(error) => Err(error),
        }
    }

    /// Adds a new task with the given description at the end of the collection.
    pub fn add_task(&mut self, description: String)
        ensures
            final(self).backend() == old(self).backend(),
            final(self)@.len() == old(self)@.len() + 1,
            final(self)@.drop_last() == old(self)@,
            final(self)@.last().description == description@,
            final(self)@.last().status == TaskStatus::Todo,
            is_id(final(self)@.last().id),
            final(self)@.last().wf(),
    {
        let task = Task::create(description);
        self.tasks.push(task);
        assert(self@.drop_last() =~= old(self)@);
    }

    /// Marks the first task with exactly this identifier as complete, and
    /// says whether there is one.
    pub fn complete_task(&mut self, id: &str) -> (out: bool)
        ensures
            final(self).backend() == old(self).backend(),
            out == exists|i: int| 0 <= i < old(self)@.len() && old(self)@[i].id == id@,
            !out ==> final(self)@ == old(self)@,
            out ==> exists|i: int|
                {
                    &&& 0 <= i < old(self)@.len()
                    &&& old(self)@[i].id == id@
                    &&& forall|j: int| 0 <= j < i ==> old(self)@[j].id != id@
                    &&& final(self)@ == old(self)@.update(
                        i,
                        with_status(old(self)@[i], TaskStatus::Complete),
                    )
                },
    {
        let mut i: usize = 0;
        while i < self.tasks.len()
            invariant
                i <= self.tasks.len(),
                *self == *old(self),
                forall|j: int| 0 <= j < i ==> self@[j].id != id@,
            decreases self.tasks.len() - i,
        {
            assert(self@[i as int] == self.tasks[i as int]@);
            if same_text(self.tasks[i].id.as_str(), id) {
                self.tasks[i].status = TaskStatus::Complete;
                assert(self@ =~= old(self)@.update(
                    i as int,
                    with_status(old(self)@[i as int], TaskStatus::Complete),
                ));
                return true;
            }
            i = i + 1;
        }
        false
    }

    /// The positions of the tasks whose identifier begins with `prefix`.
    fn find_matching(&self, prefix: &str) -> (found: Vec<usize>)
        ensures
            found.len() == matching(self@, prefix@).len(),
            forall|k: int| 0 <= k < found.len() ==> found[k] == matching(self@, prefix@)[k],
            forall|k: int| 0 <= k < found.len() ==> found[k] < self@.len(),
    {
        let mut found: Vec<usize> = Vec::new();
        let mut i: usize = 0;
        while i < self.tasks.len()
            invariant
                i <= self.tasks.len(),
                found.len() == matching(self@.take(i as int), prefix@).len(),
                forall|k: int|
                    0 <= k < found.len() ==> found[k] == matching(self@.take(i as int), prefix@)[k],
                forall|k: int| 0 <= k < found.len() ==> found[k] < i,
            decreases self.tasks.len() - i,
        {
            proof {
                assert(self@.take(i + 1).drop_last() =~= self@.take(i as int));
                assert(self@.take(i + 1).last() == self.tasks[i as int]@);
            }
            if has_prefix(self.tasks[i].id.as_str(), prefix) {
                found.push(i);
            }
            i = i + 1;
        }
        proof {
            assert(self@.take(self.tasks.len() as int) =~= self@);
        }
        found
    }

    /// The message that lists the tasks at several positions.
    fn list_candidates(&self, prefix: &str, found: &Vec<usize>) -> (message: String)
        requires
            forall|k: int| 0 <= k < found.len() ==> found[k] < self@.len(),
        ensures
            message@ == ambiguous(
                prefix@,
                Seq::new(found.len() as nat, |k: int| self@[found[k] as int]),
            ),
    {
        let ghost candidates = Seq::new(found.len() as nat, |k: int| self@[found[k] as int]);
        let mut lines: Vec<String> = Vec::new();
        let mut k: usize = 0;
        while k < found.len()
            invariant
                k <= found.len(),
                lines.len() == k,
                forall|j: int| 0 <= j < found.len() ==> found[j] < self@.len(),
                candidates == Seq::new(found.len() as nat, |k: int| self@[found[k] as int]),
                forall|j: int| 0 <= j < k ==> (#[trigger] lines[j])@ == suggestion(candidates[j]),
            decreases found.len() - k,
        {
            let task = &self.tasks[found[k]];
            assert(task@ == candidates[k as int]);
            let mut line = String::from_str("  ");
            line.append(first_chars(task.id.as_str(), 4).as_str());
            line.append(" - ");
            line.append(task.description.as_str());
            lines.push(line);
            k = k + 1;
        }
        let listed = join_from(&lines, 0, "\n");
        proof {
            assert(crate::text::rest(lines.deep_view(), 0) =~= candidates.map_values(
                |task: TaskView| suggestion(task),
            ));
        }
        let mut message = String::from_str("Ambiguous ID '");
        message.append(prefix);
        message.append("'. Multiple tasks match:\n");
        message.append(listed.as_str());
        message.append("\nPlease be more specific.");
        message
    }

    /// The position of the task that a prefix names.
    fn resolve_prefix(&self, prefix: &str) -> (out: Result<usize, String>)
        ensures
            match out {
                Ok(at) => resolve(self@, prefix@) == Ok::<int, Seq<char>>(at as int) && at
                    < self@.len(),
                Err(message) => resolve(self@, prefix@) == Err::<int, Seq<char>>(message@),
            },
    {
        let found = self.find_matching(prefix);
        if found.len() == 1 {
            Ok(found[0])
        } else if found.len() == 0 {
            let mut message = String::from_str("No task found with ID starting with '");
            message.append(prefix);
            message.append("'");
            Err(message)
        } else {
            proof {
                assert(Seq::new(found.len() as nat, |k: int| self@[found[k] as int]) =~= matching(
                    self@,
                    prefix@,
                ).map_values(|at: int| self@[at]));
            }
            Err(self.list_candidates(prefix, &found))
        }
    }

    /// The task that a prefix names: the only one whose identifier begins
    /// with it. Where none does, or more than one, the message says so; for
    /// more than one it lists them.
    pub fn find_task_by_prefix(&self, prefix: &str) -> (out: Result<&Task, String>)
        ensures
            match out {
                Ok(task) => resolve(self@, prefix@) matches Ok(at) && 0 <= at < self@.len()
                    && task@ == self@[at],
                Err(message) => resolve(self@, prefix@) == Err::<int, Seq<char>>(message@),
            },
    {
        match self.resolve_prefix(prefix) {
            Ok(at) => Ok(&self.tasks[at]),
            Err(message) => Err(message),
        }
    }

    /// Gives the task that a prefix names the status that a shortcut stands
    /// for. Where the prefix names no task, nothing changes.
    pub fn update_task_status(&mut self, id_prefix: &str, status_shortcut: TaskStatusShortcut) -> (out:
        Result<(), String>)
        ensures
            final(self).backend() == old(self).backend(),
            match resolve(old(self)@, id_prefix@) {
                Ok(at) => out is Ok && 0 <= at < old(self)@.len() && final(self)@ == old(
                    self,
                )@.update(at, with_status(old(self)@[at], status_of(status_shortcut))),
                Err(message) => out matches Err(found) && found@ == message && final(self)@ == old(
                    self,
                )@,
            },
    {
        let at = match self.resolve_prefix(id_prefix) {
            Ok(at) => at,
            Err(message) => {
                return Err(message);
            },
        };
        let status = match status_shortcut {
            TaskStatusShortcut::T => TaskStatus::Todo,
            TaskStatusShortcut::P => TaskStatus::InProgress,
            TaskStatusShortcut::C => TaskStatus::Complete,
        };
        assert(self@[at as int] == self.tasks[at as int]@);
        self.tasks[at].status = status;
        assert(self@ =~= old(self)@.update(
            at as int,
            with_status(old(self)@[at as int], status_of(status_shortcut)),
        ));
        Ok(())
    }

    /// Removes the task that a prefix names; the others keep their order.
    /// Where the prefix names no task, nothing changes.
    pub fn delete_task(&mut self, id_prefix: &str) -> (out: Result<(), String>)
        ensures
            final(self).backend() == old(self).backend(),
            match resolve(old(self)@, id_prefix@) {
                Ok(at) => out is Ok && 0 <= at < old(self)@.len() && final(self)@ == old(
                    self,
                )@.remove(at),
                Err(message) => out matches Err(found) && found@ == message && final(self)@ == old(
                    self,
                )@,
            },
    {
        let at = match self.resolve_prefix(id_prefix) {
            Ok(at) => at,
            Err(message) => {
                return Err(message);
            },
        };
        self.tasks.remove(at);
        assert(self@ =~= old(self)@.remove(at as int));
        Ok(())
    }

    /// The lines of a listing of the collection.
    pub fn show_tasks(&self) -> (lines: Vec<String>)
        ensures
            lines.deep_view() == listing(self@),
    {
        let mut lines: Vec<String> = Vec::new();
        lines.push(line("ID", "Description", "Status", "Created"));
        proof {
            reveal_strlit("-");
        }
        lines.push(repeat("-", 60));
        let mut i: usize = 0;
        while i < self.tasks.len()
            invariant
                i <= self.tasks.len(),
                lines.len() == i + 2,
                lines[0]@ == columns("ID"@, "Description"@, "Status"@, "Created"@),
                lines[1]@ == run('-', 60),
                forall|j: int| 0 <= j < i ==> (#[trigger] lines[j + 2])@ == row_of(self@[j]),
            decreases self.tasks.len() - i,
        {
            let task = &self.tasks[i];
            assert(task@ == self@[i as int]);
            let description = shorten(task.description.as_str());
            let created = task.created.to_minute();
            lines.push(
                line(
                    task.id.as_str(),
                    description.as_str(),
                    task.status.name(),
                    created.as_str(),
                ),
            );
            i = i + 1;
        }
        proof {
            let shown = listing(self@);
            assert(shown.len() == lines.len());
            assert forall|k: int| 0 <= k < lines.len() implies lines.deep_view()[k] == shown[k] by {
                if k >= 2 {
                    let j = k - 2;
                    assert(lines[j + 2]@ == row_of(self@[j]));
                    assert(shown[k] == self@.map_values(|task: TaskView| row_of(task))[j]);
                }
            }
            assert(lines.deep_view() =~= shown);
        }
        lines
    }

    /// The tasks of the collection, in order.
    pub fn list_tasks(&self) -> (out: &Vec<Task>)
        ensures
            views(out@) == self@,
    {
        &self.tasks
    }
}

} // verus!
