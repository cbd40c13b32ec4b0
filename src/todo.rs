use vstd::prelude::*;
use vstd::string::StringExecFns;

use crate::codec::{encode_todos, encoded};

verus! {

/// One task as it is kept in the store and in the backing file.
pub struct Todo {
    pub title: String,
    pub description: String,
    pub due_date: String,
    pub done: bool,
}

/// The mathematical value of a [`Todo`].
pub struct TodoView {
    pub title: Seq<char>,
    pub description: Seq<char>,
    pub due_date: Seq<char>,
    pub done: bool,
}

impl View for Todo {
    type V = TodoView;

    open spec fn view(&self) -> TodoView {
        TodoView {
            title: self.title@,
            description: self.description@,
            due_date: self.due_date@,
            done: self.done,
        }
    }
}


/// What a read accessor shows for a missing task or an empty field.
pub open spec fn placeholder() -> Seq<char> {
    "N/A"@
}

/// A field as it is shown: the placeholder stands for an empty text.
pub open spec fn shown(s: Seq<char>) -> Seq<char> {
    if s.len() == 0 {
        placeholder()
    } else {
        s
    }
}

/// The list label of a task: a check or a cross, a space, then its title.
pub open spec fn label(t: TodoView) -> Seq<char> {
    (if t.done {
        "✔ "@
    } else {
        "✘ "@
    }) + shown(t.title)
}

/// The mark shown for a task's completion flag.
pub open spec fn done_mark(done: bool) -> Seq<char> {
    if done {
        "✅"@
    } else {
        "❌"@
    }
}

/// The ordered tasks and the path of the file that mirrors them.
///
/// Every call that changes the tasks hands back the full text that the file
/// must hold from then on; the caller writes it before the next call.
pub struct Todos {
    todos: Vec<Todo>,
    file_path: String,
}

impl View for Todos {
    type V = Seq<TodoView>;

    closed spec fn view(&self) -> Seq<TodoView> {
        self.todos@.map_values(|t: Todo| t@)
    }
}

impl Todos {
    /// The path of the backing file.
    pub closed spec fn path(&self) -> Seq<char> {
        self.file_path@
    }

    /// A store over tasks already read from the file at `file_path`.
    pub fn new(todos: Vec<Todo>, file_path: String) -> (r: Todos)
        ensures
            r@ == todos@.map_values(|t: Todo| t@),
            r.path() == file_path@,
    {
        Todos { todos, file_path }
    }

    /// The path of the backing file.
    pub fn get_file_path(&self) -> (r: &String)
        ensures
            r@ == self.path(),
    {
        &self.file_path
    }

    /// The number of tasks.
    pub fn len(&self) -> (r: usize)
        ensures
            r == self@.len(),
    {
        self.todos.len()
    }

    /// The text that the backing file holds for the current tasks.
    pub fn write(&self) -> (r: String)
        ensures
            r@ == encoded(self@),
    {
        encode_todos(&self.todos)
    }

    /// The task at `idx`, if there is one.
    pub fn get_todo(&self, idx: usize) -> (r: Option<&Todo>)
        ensures
            idx < self@.len() <==> r is Some,
            r matches Some(t) ==> t@ == self@[idx as int],
    {
        if idx < self.todos.len() {
            Some(&self.todos[idx])
        } else {
            None
        }
    }

    /// Appends a task; returns the new text of the backing file.
    pub fn add(&mut self, title: String, description: String, due_date: String, done: bool) -> (r:
        String)
        ensures
            final(self)@ == old(self)@.push(
                TodoView { title: title@, description: description@, due_date: due_date@, done },
            ),
            final(self).path() == old(self).path(),
            r@ == encoded(final(self)@),
    {
        let t = Todo { title, description, due_date, done };
        self.todos.push(t);
        proof {
            assert(self@ =~= old(self)@.push(t@));
        }
        self.write()
    }

    /// Replaces the texts of the task at `idx`, keeping its completion flag;
    /// returns the new text of the backing file, or `None` (nothing changed)
    /// when there is no such task.
    pub fn edit(&mut self, idx: usize, title: String, description: String, due_date: String) -> (r:
        Option<String>)
        ensures
            final(self).path() == old(self).path(),
            idx < old(self)@.len() ==> final(self)@ == old(self)@.update(
                idx as int,
                TodoView {
                    title: title@,
                    description: description@,
                    due_date: due_date@,
                    done: old(self)@[idx as int].done,
                },
            ),
            idx >= old(self)@.len() ==> final(self)@ == old(self)@,
            r is Some <==> idx < old(self)@.len(),
            r matches Some(text) ==> text@ == encoded(final(self)@),
    {
        if idx < self.todos.len() {
            let done = self.todos[idx].done;
            let t = Todo { title, description, due_date, done };
            self.todos.set(idx, t);
            proof {
                assert(self@ =~= old(self)@.update(idx as int, t@));
            }
            Some(self.write())
        } else {
            None
        }
    }

    /// Flips the completion flag of the task at `idx`; returns the new text of
    /// the backing file, or `None` (nothing changed) when there is no such task.
    pub fn toggle(&mut self, idx: usize) -> (r: Option<String>)
        ensures
            final(self).path() == old(self).path(),
            idx < old(self)@.len() ==> final(self)@ == old(self)@.update(
                idx as int,
                TodoView { done: !old(self)@[idx as int].done, ..old(self)@[idx as int] },
            ),
            idx >= old(self)@.len() ==> final(self)@ == old(self)@,
            r is Some <==> idx < old(self)@.len(),
            r matches Some(text) ==> text@ == encoded(final(self)@),
    {
        if idx < self.todos.len() {
            let old_todo = &self.todos[idx];
            let t = Todo {
                title: old_todo.title.clone(),
                description: old_todo.description.clone(),
                due_date: old_todo.due_date.clone(),
                done: !old_todo.done,
            };
            self.todos.set(idx, t);
            proof {
                assert(self@ =~= old(self)@.update(
                    idx as int,
                    TodoView { done: !old(self)@[idx as int].done, ..old(self)@[idx as int] },
                ));
            }
            Some(self.write())
        } else {
            None
        }
    }

    /// Removes the task at `idx`, shifting the later ones down by one; returns
    /// the new text of the backing file, or `None` (nothing changed) when there
    /// is no such task.
    pub fn delete(&mut self, idx: usize) -> (r: Option<String>)
        ensures
            final(self).path() == old(self).path(),
            idx < old(self)@.len() ==> final(self)@ == old(self)@.remove(idx as int),
            idx >= old(self)@.len() ==> final(self)@ == old(self)@,
            r is Some <==> idx < old(self)@.len(),
            r matches Some(text) ==> text@ == encoded(final(self)@),
    {
        if idx < self.todos.len() {
            self.todos.remove(idx);
            proof {
                assert(self@ =~= old(self)@.remove(idx as int));
            }
            Some(self.write())
        } else {
            None
        }
    }

    /// The list labels of all tasks, in order.
    pub fn get_todos_titles(&self) -> (r: Vec<String>)
        ensures
            r@.len() == self@.len(),
            forall|i: int| 0 <= i < r@.len() ==> #[trigger] r@[i]@ == label(self@[i]),
    {
        let mut out: Vec<String> = Vec::new();
        let mut i: usize = 0;
        while i < self.todos.len()
            invariant
                i <= self.todos@.len(),
                self@ == self.todos@.map_values(|t: Todo| t@),
                out@.len() == i,
                forall|j: int| 0 <= j < i ==> #[trigger] out@[j]@ == label(self@[j]),
            decreases self.todos.len() - i,
        {
            let t = &self.todos[i];
            let mut text = if t.done {
                String::from_str("✔ ")
            } else {
                String::from_str("✘ ")
            };
            if t.title.as_str().is_empty() {
                text.append("N/A");
            } else {
                text.append(t.title.as_str());
            }
            proof {
                reveal_strlit("✔ ");
                reveal_strlit("✘ ");
                reveal_strlit("N/A");
                assert(text@ == label(self@[i as int]));
            }
            out.push(text);
            i = i + 1;
        }
        out
    }

    /// The description of the task at `idx`, or the placeholder when it is
    /// empty or there is no such task.
    pub fn get_description(&self, idx: usize) -> (r: String)
        ensures
            idx < self@.len() ==> r@ == shown(self@[idx as int].description),
            idx >= self@.len() ==> r@ == placeholder(),
    {
        proof {
            reveal_strlit("N/A");
        }
        if idx < self.todos.len() && !self.todos[idx].description.as_str().is_empty() {
            self.todos[idx].description.clone()
        } else {
            String::from_str("N/A")
        }
    }

    /// The due date of the task at `idx`, or the placeholder when it is
    /// not set or there is no such task.
    pub fn get_due_date(&self, idx: usize) -> (r: String)
        ensures
            idx < self@.len() ==> r@ == shown(self@[idx as int].due_date),
            idx >= self@.len() ==> r@ == placeholder(),
    {
        proof {
            reveal_strlit("N/A");
        }
        if idx < self.todos.len() && !self.todos[idx].due_date.as_str().is_empty() {
            self.todos[idx].due_date.clone()
        } else {
            String::from_str("N/A")
        }
    }

    /// A mark for the completion of the task at `idx`, or the placeholder when
    /// there is no such task.
    pub fn is_done(&self, idx: usize) -> (r: String)
        ensures
            idx < self@.len() ==> r@ == done_mark(self@[idx as int].done),
            idx >= self@.len() ==> r@ == placeholder(),
    {
        proof {
            reveal_strlit("N/A");
            reveal_strlit("✅");
            reveal_strlit("❌");
        }
        if idx < self.todos.len() {
            if self.todos[idx].done {
                String::from_str("✅")
            } else {
                String::from_str("❌")
            }
        } else {
            String::from_str("N/A")
        }
    }
}

} // verus!
