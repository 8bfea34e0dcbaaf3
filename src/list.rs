use vstd::prelude::*;

verus! {

/// One task: its description and whether it has been completed.
pub struct TodoItem {
    pub task: String,
    pub done: bool,
}

/// The abstract value of a task: (description, done).
pub type TaskModel = (Seq<char>, bool);

impl View for TodoItem {
    type V = TaskModel;

    open spec fn view(&self) -> TaskModel {
        (self.task@, self.done)
    }
}

/// An ordered list of tasks; a task is identified by its position.
pub struct TodoList {
    pub tasks: Vec<TodoItem>,
}

impl View for TodoList {
    type V = Seq<TaskModel>;

    open spec fn view(&self) -> Seq<TaskModel> {
        self.tasks@.map_values(|t: TodoItem| t@)
    }
}

/// The list after appending a fresh, not yet completed task.
pub open spec fn added(s: Seq<TaskModel>, task: Seq<char>) -> Seq<TaskModel> {
    s.push((task, false))
}

/// The list after marking the task at `i` as done (unchanged when out of range).
pub open spec fn marked(s: Seq<TaskModel>, i: int) -> Seq<TaskModel> {
    if 0 <= i < s.len() {
        s.update(i, (s[i].0, true))
    } else {
        s
    }
}

/// The list after removing the task at `i` (unchanged when out of range).
pub open spec fn removed(s: Seq<TaskModel>, i: int) -> Seq<TaskModel> {
    if 0 <= i < s.len() {
        s.remove(i)
    } else {
        s
    }
}

impl TodoList {
    /// An empty list.
    pub fn new() -> (r: TodoList)
        ensures
            r@ == Seq::<TaskModel>::empty(),
    {
        let r = TodoList { tasks: Vec::new() };
        assert(r@ =~= Seq::<TaskModel>::empty());
        r
    }

    /// The number of tasks.
    pub fn len(&self) -> (r: usize)
        ensures
            r == self@.len(),
    {
        self.tasks.len()
    }

    /// Whether the list holds no task.
    pub fn is_empty(&self) -> (r: bool)
        ensures
            r == (self@.len() == 0),
    {
        self.tasks.len() == 0
    }

    /// Appends a task that is not done yet.
    pub fn add_task(&mut self, task: String)
        ensures
            final(self)@ == added(old(self)@, task@),
    {
        let ghost t = task@;
        self.tasks.push(TodoItem { task, done: false });
        assert(self@ =~= added(old(self)@, t));
    }

    /// Marks the task at zero-based `index` as done; false, with the list
    /// unchanged, when `index` is out of range.
    pub fn mark_done(&mut self, index: usize) -> (r: bool)
        ensures
            r == (index < old(self)@.len()),
            final(self)@ == marked(old(self)@, index as int),
            r ==> final(self)@[index as int] == (old(self)@[index as int].0, true),
            !r ==> final(self)@ == old(self)@,
    {
        if index < self.tasks.len() {
            self.tasks[index].done = true;
            assert(self@ =~= marked(old(self)@, index as int));
            true
        } else {
            false
        }
    }

    /// Removes the task at zero-based `index`, moving the later ones down by
    /// one; false, with the list unchanged, when `index` is out of range.
    pub fn remove_task(&mut self, index: usize) -> (r: bool)
        ensures
            r == (index < old(self)@.len()),
            final(self)@ == removed(old(self)@, index as int),
            r ==> final(self)@.len() == old(self)@.len() - 1,
            r ==> forall|j: int| 0 <= j < index ==> final(self)@[j] == old(self)@[j],
            r ==> forall|j: int|
                index <= j < final(self)@.len() ==> final(self)@[j] == old(self)@[j + 1],
            !r ==> final(self)@ == old(self)@,
    {
        if index < self.tasks.len() {
            self.tasks.remove(index);
            assert(self@ =~= removed(old(self)@, index as int));
            true
        } else {
            false
        }
    }
}

} // verus!
