use crate::list::{added, marked, removed, TaskModel, TodoList};
use crate::text::{decimal_of, lower_of, parse_usize, to_lower, trim, trim_of};
use vstd::prelude::*;

verus! {

/// A menu choice of the interactive shell.
#[derive(Clone, Copy, Debug, PartialEq, Eq, Structural)]
pub enum Command {
    Quit,
    Add,
    List,
    MarkDone,
    Remove,
    Invalid,
}

/// The command that a trimmed, lowercased menu line selects.
pub open spec fn command_of(s: Seq<char>) -> Command {
    if s == seq!['q'] {
        Command::Quit
    } else if s == seq!['1'] {
        Command::Add
    } else if s == seq!['2'] {
        Command::List
    } else if s == seq!['3'] {
        Command::MarkDone
    } else if s == seq!['4'] {
        Command::Remove
    } else {
        Command::Invalid
    }
}

impl Command {
    /// The command selected by a line that is already trimmed and lowercased.
    pub fn from_normalized(s: &str) -> (r: Command)
        ensures
            r == command_of(s@),
    {
        if s.unicode_len() != 1 {
            return Command::Invalid;
        }
        let c = s.get_char(0);
        assert(s@ =~= seq![c]);
        if c == 'q' {
            Command::Quit
        } else if c == '1' {
            Command::Add
        } else if c == '2' {
            Command::List
        } else if c == '3' {
            Command::MarkDone
        } else if c == '4' {
            Command::Remove
        } else {
            Command::Invalid
        }
    }

    /// The command selected by a menu line as the user typed it: the line is
    /// trimmed and lowercased, so `" Q\n"` quits.
    pub fn parse(line: &str) -> (r: Command)
        ensures
            r == command_of(lower_of(trim_of(line@))),
    {
        let t = trim(line);
        let l = to_lower(t);
        Command::from_normalized(l.as_str())
    }
}

/// What a mark-done or remove action came to.
#[derive(Clone, Copy, Debug, PartialEq, Eq, Structural)]
pub enum Outcome {
    /// The task was changed; the list is to be stored again.
    Updated,
    /// The number was read but names no task.
    InvalidNumber,
    /// The input was not a number.
    InvalidInput,
}

/// The 1-based position that a user's answer gives, if it is a number.
pub open spec fn position_of(input: Seq<char>) -> Option<usize> {
    decimal_of(trim_of(input))
}

/// The outcome of an action on a list of `len` tasks at a 1-based position.
pub open spec fn outcome_of(len: nat, position: Option<usize>) -> Outcome {
    match position {
        None => Outcome::InvalidInput,
        Some(p) => if 1 <= p <= len {
            Outcome::Updated
        } else {
            Outcome::InvalidNumber
        },
    }
}

/// The zero-based index of a 1-based position, or -1 for no position.
pub open spec fn index_of(position: Option<usize>) -> int {
    match position {
        None => -1,
        Some(p) => p - 1,
    }
}

/// The zero-based index of a 1-based position; position 0 names no task.
pub fn position_to_index(position: usize) -> (r: Option<usize>)
    ensures
        position == 0 ==> r is None,
        position > 0 ==> r == Some((position - 1) as usize),
{
    if position == 0 {
        None
    } else {
        Some(position - 1)
    }
}

/// Reads a 1-based task position from a line of input, ignoring the
/// whitespace around it.
pub fn parse_position(input: &str) -> (r: Option<usize>)
    ensures
        r == position_of(input@),
{
    parse_usize(trim(input))
}

/// Marks the task at a 1-based `position` as done, where it names one.
pub fn mark_done_at(list: &mut TodoList, position: Option<usize>) -> (r: Outcome)
    ensures
        r == outcome_of(old(list)@.len(), position),
        final(list)@ == marked(old(list)@, index_of(position)),
{
    match position {
        None => Outcome::InvalidInput,
        Some(p) => match position_to_index(p) {
            None => Outcome::InvalidNumber,
            Some(i) => if list.mark_done(i) {
                Outcome::Updated
            } else {
                Outcome::InvalidNumber
            },
        },
    }
}

/// Removes the task at a 1-based `position`, where it names one.
pub fn remove_at(list: &mut TodoList, position: Option<usize>) -> (r: Outcome)
    ensures
        r == outcome_of(old(list)@.len(), position),
        final(list)@ == removed(old(list)@, index_of(position)),
{
    match position {
        None => Outcome::InvalidInput,
        Some(p) => match position_to_index(p) {
            None => Outcome::InvalidNumber,
            Some(i) => if list.remove_task(i) {
                Outcome::Updated
            } else {
                Outcome::InvalidNumber
            },
        },
    }
}

/// The mark-done action on the user's answer to "which task?".
pub fn mark_done_from_input(list: &mut TodoList, input: &str) -> (r: Outcome)
    ensures
        r == outcome_of(old(list)@.len(), position_of(input@)),
        final(list)@ == marked(old(list)@, index_of(position_of(input@))),
{
    let position = parse_position(input);
    mark_done_at(list, position)
}

/// The remove action on the user's answer to "which task?".
pub fn remove_from_input(list: &mut TodoList, input: &str) -> (r: Outcome)
    ensures
        r == outcome_of(old(list)@.len(), position_of(input@)),
        final(list)@ == removed(old(list)@, index_of(position_of(input@))),
{
    let position = parse_position(input);
    remove_at(list, position)
}

/// The add action on the user's description: the trimmed text becomes a new
/// task at the end of the list.
pub fn add_from_input(list: &mut TodoList, input: &str)
    ensures
        final(list)@ == added(old(list)@, trim_of(input@)),
{
    let t = trim(input);
    list.add_task(String::from_str(t));
}

impl TodoList {
    /// The list that a stored file yields: empty for an empty file, else the
    /// decoded list, or an empty list when the contents did not decode.
    pub fn from_contents(contents: &str, decoded: Option<TodoList>) -> (r: TodoList)
        ensures
            contents@.len() == 0 ==> r@ == Seq::<TaskModel>::empty(),
            contents@.len() > 0 && decoded is Some ==> r@ == decoded->0@,
            contents@.len() > 0 && decoded is None ==> r@ == Seq::<TaskModel>::empty(),
    {
        if contents.is_empty() {
            return TodoList::new();
        }
        match decoded {
            Some(l) => l,
            None => TodoList::new(),
        }
    }
}

} // verus!
