use crate::list::{TaskModel, TodoItem, TodoList};
use vstd::prelude::*;

verus! {

/// The JSON string literal that serde_json writes for `s`: quoted, with
/// quotes, backslashes and control characters escaped.
pub uninterp spec fn json_quoted(s: Seq<char>) -> Seq<char>;

/// Relies on serde_json::to_string on a `str`: the JSON string literal of
/// `s`, which depends on the characters alone. Serializing a `str` into
/// memory has no failing path (no map keys, and a `Vec` writer never fails).
#[verifier::external_body]
fn quote(s: &str) -> (r: String)
    ensures
        r@ == json_quoted(s@),
{
    serde_json::to_string(s).unwrap()
}

/// The JSON text of one task: `{"task":<description>,"done":<flag>}`.
pub open spec fn task_json(t: TaskModel) -> Seq<char> {
    "{\"task\":"@ + json_quoted(t.0) + ",\"done\":"@ + (if t.1 {
        "true"@
    } else {
        "false"@
    }) + "}"@
}

/// The JSON texts of the tasks, separated by commas.
pub open spec fn tasks_json(s: Seq<TaskModel>) -> Seq<char>
    decreases s.len(),
{
    if s.len() == 0 {
        Seq::empty()
    } else if s.len() == 1 {
        task_json(s[0])
    } else {
        tasks_json(s.drop_last()) + ","@ + task_json(s.last())
    }
}

/// The stored form of a list: `{"tasks":[...]}` with the tasks in order.
pub open spec fn list_json(s: Seq<TaskModel>) -> Seq<char> {
    "{\"tasks\":["@ + tasks_json(s) + "]}"@
}

impl TodoItem {
    /// Encodes the task as `{"task":...,"done":...}`.
    pub fn to_json(&self) -> (r: String)
        ensures
            r@ == task_json(self@),
    {
        let mut out = String::from_str("{\"task\":");
        let q = quote(self.task.as_str());
        out.append(q.as_str());
        out.append(",\"done\":");
        if self.done {
            out.append("true");
        } else {
            out.append("false");
        }
        out.append("}");
        out
    }
}

impl TodoList {
    /// The JSON document that stores this list.
    pub fn to_json(&self) -> (r: String)
        ensures
            r@ == list_json(self@),
    {
        let mut body = String::new();
        let n = self.tasks.len();
        let mut i: usize = 0;
        while i < n
            invariant
                n == self@.len(),
                i <= n,
                body@ == tasks_json(self@.take(i as int)),
            decreases n - i,
        {
            let t = self.tasks[i].to_json();
            assert(self@.take(i as int + 1).drop_last() =~= self@.take(i as int));
            if i > 0 {
                body.append(",");
            } else {
                assert(self@.take(0) =~= Seq::<TaskModel>::empty());
            }
            body.append(t.as_str());
            i = i + 1;
        }
        assert(self@.take(n as int) =~= self@);
        let mut out = String::from_str("{\"tasks\":[");
        out.append(body.as_str());
        out.append("]}");
        out
    }
}

} // verus!
