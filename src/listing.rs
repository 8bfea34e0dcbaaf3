use crate::list::{added, TaskModel, TodoItem, TodoList};
use vstd::prelude::*;

verus! {

/// The character of a decimal digit `d < 10`.
pub open spec fn digit_char(d: nat) -> char {
    if d == 0 { '0' }
    else if d == 1 { '1' }
    else if d == 2 { '2' }
    else if d == 3 { '3' }
    else if d == 4 { '4' }
    else if d == 5 { '5' }
    else if d == 6 { '6' }
    else if d == 7 { '7' }
    else if d == 8 { '8' }
    else { '9' }
}

/// The decimal numeral of `n`, without leading zeros.
pub open spec fn decimal_digits(n: nat) -> Seq<char>
    decreases n,
{
    if n < 10 {
        seq![digit_char(n)]
    } else {
        decimal_digits(n / 10) + seq![digit_char(n % 10)]
    }
}

/// The mark shown for a task: a check mark when done, else a space.
pub open spec fn done_mark(done: bool) -> Seq<char> {
    if done {
        seq!['\u{2713}']
    } else {
        seq![' ']
    }
}

/// The line that shows a task at 1-based `position`: `"<position>. [<mark>] <task>"`.
pub open spec fn entry_line(position: nat, t: TaskModel) -> Seq<char> {
    decimal_digits(position) + seq!['.', ' ', '['] + done_mark(t.1) + seq![']', ' '] + t.0
}

/// Adding a task to an empty list and then listing shows exactly one
/// entry: the task, numbered 1, not marked as done.
pub proof fn lemma_add_then_list(task: Seq<char>)
    ensures
        added(Seq::<TaskModel>::empty(), task).len() == 1,
        added(Seq::<TaskModel>::empty(), task)[0] == (task, false),
        entry_line(1, added(Seq::<TaskModel>::empty(), task)[0])
            == seq!['1', '.', ' ', '[', ' ', ']', ' '] + task,
{
    assert(decimal_digits(1) == seq!['1']);
    assert(entry_line(1, (task, false)) =~= seq!['1', '.', ' ', '[', ' ', ']', ' '] + task);
}

fn digit_str(d: usize) -> (r: &'static str)
    requires
        d < 10,
    ensures
        r@ == seq![digit_char(d as nat)],
{
    proof {
        reveal_strlit("0");
        reveal_strlit("1");
        reveal_strlit("2");
        reveal_strlit("3");
        reveal_strlit("4");
        reveal_strlit("5");
        reveal_strlit("6");
        reveal_strlit("7");
        reveal_strlit("8");
        reveal_strlit("9");
    }
    let r = if d == 0 { "0" }
    else if d == 1 { "1" }
    else if d == 2 { "2" }
    else if d == 3 { "3" }
    else if d == 4 { "4" }
    else if d == 5 { "5" }
    else if d == 6 { "6" }
    else if d == 7 { "7" }
    else if d == 8 { "8" }
    else { "9" };
    assert(r@ =~= seq![digit_char(d as nat)]);
    r
}

/// The decimal numeral of `n`.
pub fn decimal(n: usize) -> (r: String)
    ensures
        r@ == decimal_digits(n as nat),
    decreases n,
{
    if n < 10 {
        String::from_str(digit_str(n))
    } else {
        let mut s = decimal(n / 10);
        s.append(digit_str(n % 10));
        s
    }
}

impl TodoItem {
    /// The line that shows the item at 1-based `position`.
    pub fn entry_line(&self, position: usize) -> (r: String)
        ensures
            r@ == entry_line(position as nat, self@),
    {
        proof {
            reveal_strlit(". [");
            reveal_strlit("\u{2713}");
            reveal_strlit(" ");
            reveal_strlit("] ");
        }
        let mut s = decimal(position);
        s.append(". [");
        if self.done {
            s.append("\u{2713}");
        } else {
            s.append(" ");
        }
        s.append("] ");
        s.append(self.task.as_str());
        assert(s@ =~= entry_line(position as nat, self@));
        s
    }
}

impl TodoList {
    /// The lines that show the list, one per task in order, numbered from 1.
    pub fn listing(&self) -> (r: Vec<String>)
        ensures
            r@.len() == self@.len(),
            forall|j: int| 0 <= j < r@.len() ==> #[trigger] r@[j]@ == entry_line((j + 1) as nat, self@[j]),
    {
        let mut out: Vec<String> = Vec::new();
        let n = self.tasks.len();
        let mut i: usize = 0;
        while i < n
            invariant
                n == self@.len(),
                i <= n,
                out@.len() == i,
                forall|j: int| 0 <= j < i ==> #[trigger] out@[j]@ == entry_line((j + 1) as nat, self@[j]),
            decreases n - i,
        {
            let line = self.tasks[i].entry_line(i + 1);
            out.push(line);
            i = i + 1;
        }
        out
    }
}

} // verus!
