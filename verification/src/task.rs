//! The task record and its status.

use vstd::prelude::*;
use vstd::string::*;
use crate::random::generate_id;
use crate::random::is_id;
use crate::text::same_text;
use crate::timestamp::is_instant;
use crate::timestamp::read_instant;
use crate::timestamp::rfc3339_text;
use crate::timestamp::Timestamp;

verus! {

/// Where a task stands. Any status may follow any other.
#[derive(Debug, Clone, Copy, PartialEq, Eq, Structural)]
pub enum TaskStatus {
    Todo,
    InProgress,
    Complete,
}

impl TaskStatus {
    /// The tag under which a status is written to a file and shown in a listing.
    pub open spec fn tag(self) -> Seq<char> {
        match self {
            TaskStatus::Todo => "Todo"@,
            TaskStatus::InProgress => "InProgress"@,
            TaskStatus::Complete => "Complete"@,
        }
    }

    /// The status that a tag stands for, if it is one of the three tags.
    pub open spec fn of_tag(tag: Seq<char>) -> Option<TaskStatus> {
        if tag == "Todo"@ {
            Some(TaskStatus::Todo)
        } else if tag == "InProgress"@ {
            Some(TaskStatus::InProgress)
        } else if tag == "Complete"@ {
            Some(TaskStatus::Complete)
        } else {
            None
        }
    }

    /// Reading a status's own tag gives the status back.
    pub proof fn lemma_tag_round_trip(self)
        ensures
            TaskStatus::of_tag(self.tag()) == Some(self),
    {
        reveal_strlit("Todo");
        reveal_strlit("InProgress");
        reveal_strlit("Complete");
        assert("Todo"@.len() == 4);
        assert("InProgress"@.len() == 10);
        assert("Complete"@.len() == 8);
    }

    pub fn name(&self) -> (out: &'static str)
        ensures
            out@ == self.tag(),
    {
        match self {
            TaskStatus::Todo => "Todo",
            TaskStatus::InProgress => "InProgress",
            TaskStatus::Complete => "Complete",
        }
    }

    pub fn from_name(name: &str) -> (out: Option<TaskStatus>)
        ensures
            out == TaskStatus::of_tag(name@),
    {
        if same_text(name, "Todo") {
            Some(TaskStatus::Todo)
        } else if same_text(name, "InProgress") {
            Some(TaskStatus::InProgress)
        } else if same_text(name, "Complete") {
            Some(TaskStatus::Complete)
        } else {
            None
        }
    }
}

/// One unit of work.
#[derive(Debug, Clone, PartialEq, Eq)]
pub struct Task {
    /// The identifier by which the task is found. It is fixed when the task is made.
    pub id: String,
    /// What is to be done.
    pub description: String,
    /// Where the task stands.
    pub status: TaskStatus,
    /// When the task was made.
    pub created: Timestamp,
}

/// A task as a value: its texts as sequences of characters, its creation time
/// as seconds and nanoseconds.
pub ghost struct TaskView {
    pub id: Seq<char>,
    pub description: Seq<char>,
    pub status: TaskStatus,
    pub created: (int, int),
}

impl View for Task {
    type V = TaskView;

    open spec fn view(&self) -> TaskView {
        TaskView {
            id: self.id@,
            description: self.description@,
            status: self.status,
            created: self.created@,
        }
    }
}

impl TaskView {
    /// Whether the creation time is an instant that a task can hold. Every
    /// `Task` is well formed.
    pub open spec fn wf(self) -> bool {
        is_instant(self.created.0, self.created.1)
    }
}

/// The four texts under which a task is written to a file, in the order of the
/// file's columns: identifier, description, status and creation time.
pub open spec fn fields_of(task: TaskView) -> Seq<Seq<char>> {
    seq![
        task.id,
        task.description,
        task.status.tag(),
        rfc3339_text(task.created.0, task.created.1),
    ]
}

/// The task that four texts from a file stand for, if the status is one of the
/// three tags and the creation time reads as an instant.
pub open spec fn task_of(
    id: Seq<char>,
    description: Seq<char>,
    status: Seq<char>,
    created: Seq<char>,
) -> Option<TaskView> {
    match (TaskStatus::of_tag(status), read_instant(created)) {
        (Some(status), Some(created)) => Some(TaskView { id, description, status, created }),
        _ => None,
    }
}

/// Whether a task's four texts stand for the task again. `Task::to_fields`
/// returns texts of which this holds.
pub open spec fn reads_back(task: TaskView) -> bool {
    task_of(fields_of(task)[0], fields_of(task)[1], fields_of(task)[2], fields_of(task)[3])
        == Some(task)
}

impl Task {
    /// A task out of its four parts, as a file gives them back.
    pub fn new(id: String, description: String, status: TaskStatus, created: Timestamp) -> (task:
        Task)
        ensures
            task.id == id,
            task.description == description,
            task.status == status,
            task.created == created,
    {
        Task { id, description, status, created }
    }

    /// A new task: a fresh identifier, the present time, nothing done yet.
    pub fn create(description: String) -> (task: Task)
        ensures
            task.description == description,
            task.status == TaskStatus::Todo,
            is_id(task.id@),
            task@.wf(),
    {
        let created = Timestamp::now();
        Task::new(generate_id(), description, TaskStatus::Todo, created)
    }

    /// The four texts under which the task is written to a file. Read again
    /// with `from_fields`, they give the same task.
    pub fn to_fields(&self) -> (fields: Vec<String>)
        ensures
            fields.len() == 4,
            fields.deep_view() == fields_of(self@),
            reads_back(self@),
    {
        let mut fields: Vec<String> = Vec::new();
        fields.push(self.id.clone());
        fields.push(self.description.clone());
        fields.push(String::from_str(self.status.name()));
        fields.push(self.created.to_rfc3339());
        proof {
            self.status.lemma_tag_round_trip();
            assert(fields.deep_view() =~= fields_of(self@));
        }
        fields
    }

    /// The task that four texts from a file stand for.
    pub fn from_fields(id: &str, description: &str, status: &str, created: &str) -> (out: Option<
        Task,
    >)
        ensures
            match out {
                Some(task) => task_of(id@, description@, status@, created@) == Some(task@),
                None => task_of(id@, description@, status@, created@) is None,
            },
    {
        let status = match TaskStatus::from_name(status) {
            Some(status) => status,
            None => {
                return None;
            },
        };
        let created = match Timestamp::parse(created) {
            Some(created) => created,
            None => {
                return None;
            },
        };
        Some(Task::new(String::from_str(id), String::from_str(description), status, created))
    }
}

} // verus!
