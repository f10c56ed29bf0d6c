use tm::task::Task;
use tm::task::TaskStatus;
use tm::text::first_chars;
use tm::text::join_from;
use tm::text::pad;
use tm::text::repeat;
use tm::timestamp::Timestamp;

#[test]
fn name_is_the_tag_of_a_status() {
    assert_eq!(TaskStatus::Todo.name(), "Todo");
    assert_eq!(TaskStatus::InProgress.name(), "InProgress");
    assert_eq!(TaskStatus::Complete.name(), "Complete");
}

#[test]
fn from_name_reads_the_three_tags() {
    assert_eq!(TaskStatus::from_name("Todo"), Some(TaskStatus::Todo));
    assert_eq!(TaskStatus::from_name("InProgress"), Some(TaskStatus::InProgress));
    assert_eq!(TaskStatus::from_name("Complete"), Some(TaskStatus::Complete));
    assert_eq!(TaskStatus::from_name("todo"), None);
    assert_eq!(TaskStatus::from_name("In Progress"), None);
    assert_eq!(TaskStatus::from_name(""), None);
    assert_eq!(TaskStatus::from_name("Todo "), None);
}

#[test]
fn from_name_reads_back_each_name() {
    for status in [TaskStatus::Todo, TaskStatus::InProgress, TaskStatus::Complete] {
        assert_eq!(TaskStatus::from_name(status.name()), Some(status));
    }
}

#[test]
fn new_keeps_its_four_parts() {
    let created = Timestamp::new(1_704_164_645, 7).unwrap();
    let task =
        Task::new(String::from("abc123"), String::from("Buy milk"), TaskStatus::Complete, created);
    assert_eq!(task.id, "abc123");
    assert_eq!(task.description, "Buy milk");
    assert_eq!(task.status, TaskStatus::Complete);
    assert_eq!(task.created, created);
}

#[test]
fn create_makes_a_task_to_do_now() {
    let before = Timestamp::now();
    let task = Task::create(String::from("Buy milk"));
    let after = Timestamp::now();
    assert_eq!(task.description, "Buy milk");
    assert_eq!(task.status, TaskStatus::Todo);
    assert_eq!(task.id.chars().count(), 6);
    assert!(task.id.chars().all(|symbol| symbol.is_ascii_alphanumeric()));
    assert!(before.seconds() <= task.created.seconds());
    assert!(task.created.seconds() <= after.seconds());
}

#[test]
fn to_fields_gives_the_four_texts_of_a_task() {
    let created = Timestamp::new(1_704_164_645, 123_000_000).unwrap();
    let task =
        Task::new(String::from("abc123"), String::from("a, b"), TaskStatus::InProgress, created);
    assert_eq!(task.to_fields(), vec!["abc123", "a, b", "InProgress", "2024-01-02T03:04:05.123Z"]);
}

#[test]
fn from_fields_reads_the_four_texts_of_a_task() {
    let created = Timestamp::new(1_704_164_645, 123_000_000).unwrap();
    let task =
        Task::new(String::from("abc123"), String::from("a, b"), TaskStatus::InProgress, created);
    assert_eq!(
        Task::from_fields("abc123", "a, b", "InProgress", "2024-01-02T03:04:05.123Z"),
        Some(task)
    );
    assert_eq!(Task::from_fields("abc123", "a, b", "Started", "2024-01-02T03:04:05.123Z"), None);
    assert_eq!(Task::from_fields("abc123", "a, b", "InProgress", "2024-01-02"), None);
    assert_eq!(Task::from_fields("abc123", "a, b", "InProgress", "2016-12-31T23:59:60Z"), None);
}

#[test]
fn from_fields_reads_back_what_to_fields_gave() {
    let created = Timestamp::new(-5, 999).unwrap();
    let task = Task::new(String::from("é"), String::from(""), TaskStatus::Todo, created);
    let fields = task.to_fields();
    assert_eq!(Task::from_fields(&fields[0], &fields[1], &fields[2], &fields[3]), Some(task));
}

#[test]
fn from_name_tells_texts_of_one_length_apart() {
    assert_eq!(TaskStatus::from_name("Tod0"), None);
    assert_eq!(TaskStatus::from_name("todo"), None);
    assert_eq!(TaskStatus::from_name("Tödo"), None);
    assert_eq!(TaskStatus::from_name("Completé"), None);
}

#[test]
fn first_chars_counts_characters() {
    assert_eq!(first_chars("abc123", 4), "abc1");
    assert_eq!(first_chars("abcd", 4), "abcd");
    assert_eq!(first_chars("abc", 4), "abc");
    assert_eq!(first_chars("", 4), "");
    assert_eq!(first_chars("日本語のテキスト", 4), "日本語の");
    assert_eq!(first_chars("abc", 0), "");
}

#[test]
fn pad_fills_up_with_spaces() {
    assert_eq!(pad("ID", 8), "ID      ");
    assert_eq!(pad("abc123", 8), "abc123  ");
    assert_eq!(pad("12345678", 8), "12345678");
    assert_eq!(pad("123456789", 8), "123456789");
    assert_eq!(pad("", 3), "   ");
    assert_eq!(pad("日本", 4), "日本  ");
}

#[test]
fn repeat_writes_one_character_over_and_over() {
    assert_eq!(repeat("-", 0), "");
    assert_eq!(repeat("-", 5), "-----");
    assert_eq!(repeat("é", 3), "ééé");
    assert_eq!(repeat("ab", 3), "");
    assert_eq!(repeat("", 3), "");
}

#[test]
fn join_from_puts_the_separator_between() {
    let words =
        vec![String::from("./tm"), String::from("add"), String::from("Buy"), String::from("milk")];
    assert_eq!(join_from(&words, 2, " "), "Buy milk");
    assert_eq!(join_from(&words, 0, ", "), "./tm, add, Buy, milk");
    assert_eq!(join_from(&words, 3, " "), "milk");
    assert_eq!(join_from(&words, 4, " "), "");
    assert_eq!(join_from(&words, 5, " "), "");
    assert_eq!(join_from(&Vec::new(), 0, " "), "");
}
