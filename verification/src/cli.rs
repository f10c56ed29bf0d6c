//! The command line: which of the four operations a list of arguments asks for.

use vstd::prelude::*;
use vstd::string::*;
use crate::text::join;
use crate::text::join_from;
use crate::text::rest;
use crate::text::same_text;

verus! {

/// One letter for each status, as it is typed after an identifier.
#[derive(Debug, Clone, Copy)]
pub enum TaskStatusShortcut {
    T,
    P,
    C,
}

/// What to do with the task that an identifier names.
#[derive(Debug)]
pub enum IdAction {
    Delete,
    Status(TaskStatusShortcut),
}

/// An operation of the task manager.
pub enum Command {
    List,
    Add(String),
    WithId { id: String, action: IdAction },
}

/// A command as a value, its texts as sequences of characters.
pub ghost enum CommandView {
    List,
    Add(Seq<char>),
    WithId { id: Seq<char>, action: IdAction },
}

impl View for Command {
    type V = CommandView;

    open spec fn view(&self) -> CommandView {
        match self {
            Command::List => CommandView::List,
            Command::Add(description) => CommandView::Add(description@),
            Command::WithId { id, action } => CommandView::WithId { id: id@, action: *action },
        }
    }
}

/// The action that a word after an identifier asks for.
pub open spec fn action_of(word: Seq<char>) -> Option<IdAction> {
    if word == "delete"@ {
        Some(IdAction::Delete)
    } else if word == "t"@ {
        Some(IdAction::Status(TaskStatusShortcut::T))
    } else if word == "p"@ {
        Some(IdAction::Status(TaskStatusShortcut::P))
    } else if word == "c"@ {
        Some(IdAction::Status(TaskStatusShortcut::C))
    } else {
        None
    }
}

/// The message for a first word that begins no command.
pub open spec fn unknown_command(word: Seq<char>) -> Seq<char> {
    "Unknown command: "@ + word
}

/// The command that a list of arguments asks for. The first argument is the
/// program's name. Nothing after it, or `list` alone, lists the tasks; `add`
/// and at least one word adds a task described by the words, joined by single
/// spaces; an identifier and one of `delete`, `t`, `p`, `c` acts on that task.
/// Everything else is refused with a message that names the first word.
pub open spec fn command_of(args: Seq<Seq<char>>) -> Result<CommandView, Seq<char>> {
    if args.len() <= 1 {
        Ok(CommandView::List)
    } else if args.len() == 2 {
        if args[1] == "list"@ {
            Ok(CommandView::List)
        } else {
            Err(unknown_command(args[1]))
        }
    } else if args[1] == "add"@ {
        Ok(CommandView::Add(join(rest(args, 2), " "@)))
    } else if args.len() == 3 {
        match action_of(args[2]) {
            Some(action) => Ok(CommandView::WithId { id: args[1], action }),
            None => Err(unknown_command(args[1])),
        }
    } else {
        Err(unknown_command(args[1]))
    }
}

/// The action that a word after an identifier asks for, if it asks for one.
pub fn parse_action(word: &str) -> (out: Option<IdAction>)
    ensures
        out == action_of(word@),
{
    if same_text(word, "delete") {
        Some(IdAction::Delete)
    } else if same_text(word, "t") {
        Some(IdAction::Status(TaskStatusShortcut::T))
    } else if same_text(word, "p") {
        Some(IdAction::Status(TaskStatusShortcut::P))
    } else if same_text(word, "c") {
        Some(IdAction::Status(TaskStatusShortcut::C))
    } else {
        None
    }
}

fn unknown(word: &str) -> (message: String)
    ensures
        message@ == unknown_command(word@),
{
    let mut message = String::from_str("Unknown command: ");
    message.append(word);
    message
}

/// Reads the command out of the program's arguments, the program's name first.
pub fn parse_args(args: &Vec<String>) -> (out: Result<Command, String>)
    ensures
        match out {
            Ok(command) => command_of(args.deep_view()) == Ok::<CommandView, Seq<char>>(command@),
            Err(message) => command_of(args.deep_view()) == Err::<CommandView, Seq<char>>(
                message@,
            ),
        },
{
    let ghost words = args.deep_view();
    if args.len() <= 1 {
        return Ok(Command::List);
    }
    assert(words[1] == args[1]@);
    if args.len() == 2 {
        if same_text(args[1].as_str(), "list") {
            return Ok(Command::List);
        }
        return Err(unknown(args[1].as_str()));
    }
    assert(words[2] == args[2]@);
    if same_text(args[1].as_str(), "add") {
        return Ok(Command::Add(join_from(args, 2, " ")));
    }
    if args.len() == 3 {
        return match parse_action(args[2].as_str()) {
            Some(action) => Ok(Command::WithId { id: args[1].clone(), action }),
            None => Err(unknown(args[1].as_str())),
        };
    }
    Err(unknown(args[1].as_str()))
}

} // verus!
