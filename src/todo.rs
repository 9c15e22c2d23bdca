use vstd::prelude::*;

use crate::text::{eq_ignore_ascii_case, same_ignoring_ascii_case};

verus! {

/// The kind of a task.
#[derive(Clone, Copy, Debug, PartialEq, Eq, Structural)]
pub enum TodoTypes {
    Task,
    Daily,
    Weekly,
}

/// The error of reading a kind name that no kind has.
#[derive(Clone, Copy, Debug, PartialEq, Eq, Structural)]
pub enum ParseError {
    VariantNotFound,
}

/// The kind that a name stands for, its letters taken in either case.
pub open spec fn spec_parse_todo_type(s: Seq<char>) -> Result<TodoTypes, ParseError> {
    if same_ignoring_ascii_case(s, "Task"@) {
        Ok(TodoTypes::Task)
    } else if same_ignoring_ascii_case(s, "Daily"@) {
        Ok(TodoTypes::Daily)
    } else if same_ignoring_ascii_case(s, "Weekly"@) {
        Ok(TodoTypes::Weekly)
    } else {
        Err(ParseError::VariantNotFound)
    }
}

impl TodoTypes {
    /// The names of the kinds, in their order of declaration.
    pub fn variants() -> (r: Vec<&'static str>)
        ensures
            r@.len() == 3,
            r@[0]@ == "Task"@,
            r@[1]@ == "Daily"@,
            r@[2]@ == "Weekly"@,
    {
        let mut r: Vec<&'static str> = Vec::new();
        r.push("Task");
        r.push("Daily");
        r.push("Weekly");
        r
    }

    /// Reads a kind from its name; ASCII letters may be in either case.
    pub fn parse(s: &str) -> (r: Result<TodoTypes, ParseError>)
        ensures
            r == spec_parse_todo_type(s@),
    {
        if eq_ignore_ascii_case(s, "Task") {
            Ok(TodoTypes::Task)
        } else if eq_ignore_ascii_case(s, "Daily") {
            Ok(TodoTypes::Daily)
        } else if eq_ignore_ascii_case(s, "Weekly") {
            Ok(TodoTypes::Weekly)
        } else {
            Err(ParseError::VariantNotFound)
        }
    }
}

impl Default for TodoTypes {
    fn default() -> (r: TodoTypes)
        ensures
            r == TodoTypes::Task,
    {
        TodoTypes::Task
    }
}

impl core::str::FromStr for TodoTypes {
    type Err = ParseError;

    fn from_str(s: &str) -> Result<TodoTypes, ParseError> {
        TodoTypes::parse(s)
    }
}

/// One item of a task's checklist.
#[derive(Debug)]
pub struct CheckListItem {
    pub name: String,
    pub done: bool,
}

/// A task in the canonical form handed to clients.
#[derive(Debug)]
pub struct Todo {
    pub name: String,
    pub descr: Option<String>,
    pub tags: Vec<String>,
    pub todo_type: TodoTypes,
    pub checklist: Vec<CheckListItem>,
    pub due_date: Option<String>,
    pub done: bool,
}

impl Todo {
    /// A task of the default kind with only a name.
    pub open spec fn is_bare_named(self, name: Seq<char>) -> bool {
        &&& self.name@ == name
        &&& self.descr is None
        &&& self.tags@.len() == 0
        &&& self.todo_type == TodoTypes::Task
        &&& self.checklist@.len() == 0
        &&& self.due_date is None
        &&& !self.done
    }

    /// A task that holds nothing but the given name.
    pub fn from_name(name: String) -> (r: Todo)
        ensures
            r.is_bare_named(name@),
    {
        Todo {
            name,
            descr: None,
            tags: Vec::new(),
            todo_type: TodoTypes::Task,
            checklist: Vec::new(),
            due_date: None,
            done: false,
        }
    }
}

impl Default for Todo {
    fn default() -> (r: Todo)
        ensures
            r.is_bare_named(Seq::empty()),
    {
        Todo::from_name(String::new())
    }
}

/// The line of a checklist item: `  x ` before the name of a done item, `  o ` otherwise.
pub open spec fn item_text(i: CheckListItem) -> Seq<char> {
    (if i.done {
        "  x "@
    } else {
        "  o "@
    }) + i.name@
}

/// Every tag followed by a space.
pub open spec fn tags_text(tags: Seq<String>) -> Seq<char>
    decreases tags.len(),
{
    if tags.len() == 0 {
        Seq::empty()
    } else {
        tags_text(tags.drop_last()) + tags.last()@ + " "@
    }
}

/// Every item's line, each ended by a line break.
pub open spec fn checklist_text(items: Seq<CheckListItem>) -> Seq<char>
    decreases items.len(),
{
    if items.len() == 0 {
        Seq::empty()
    } else {
        checklist_text(items.drop_last()) + item_text(items.last()) + "\n"@
    }
}

/// The labels line of a task.
pub open spec fn labels_line(t: Todo) -> Seq<char> {
    if t.tags@.len() == 0 {
        "  labels: none\n"@
    } else {
        "  labels: "@ + tags_text(t.tags@) + "\n"@
    }
}

/// The due date line of a task, if it has a due date.
pub open spec fn due_line(t: Todo) -> Seq<char> {
    match t.due_date {
        Some(d) => "  due date: "@ + d@ + "\n"@,
        None => Seq::empty(),
    }
}

/// The checklist block of a task, if its checklist has items.
pub open spec fn checklist_block(t: Todo) -> Seq<char> {
    if t.checklist@.len() == 0 {
        Seq::empty()
    } else {
        "  checklist:\n"@ + checklist_text(t.checklist@)
    }
}

/// The text of a task: its name, its labels, its due date and its checklist, one per line.
pub open spec fn todo_text(t: Todo) -> Seq<char> {
    t.name@ + "\n"@ + labels_line(t) + due_line(t) + checklist_block(t)
}

impl CheckListItem {
    /// The line of the item.
    pub fn to_text(&self) -> (r: String)
        ensures
            r@ == item_text(*self),
    {
        let mut r = if self.done {
            String::from_str("  x ")
        } else {
            String::from_str("  o ")
        };
        r.append(self.name.as_str());
        r
    }
}

impl Todo {
    /// The text of the task, as `todo_text` lays it out.
    pub fn to_text(&self) -> (r: String)
        ensures
            r@ == todo_text(*self),
    {
        let mut r = self.name.clone();
        r.append("\n");
        let ghost head = r@;
        if self.tags.len() == 0 {
            r.append("  labels: none\n");
        } else {
            r.append("  labels: ");
            let mut i: usize = 0;
            while i < self.tags.len()
                invariant
                    i <= self.tags@.len(),
                    r@ == head + "  labels: "@ + tags_text(self.tags@.subrange(0, i as int)),
                decreases self.tags@.len() - i,
            {
                proof {
                    let sub = self.tags@.subrange(0, i + 1);
                    assert(sub.drop_last() =~= self.tags@.subrange(0, i as int));
                    assert(sub.last() == self.tags@[i as int]);
                }
                r.append(self.tags[i].as_str());
                r.append(" ");
                proof {
                    assert(r@ =~= head + "  labels: "@ + tags_text(
                        self.tags@.subrange(0, i + 1),
                    ));
                }
                i = i + 1;
            }
            assert(self.tags@.subrange(0, self.tags@.len() as int) =~= self.tags@);
            r.append("\n");
        }
        assert(r@ =~= head + labels_line(*self));
        let ghost head = r@;
        match &self.due_date {
            Some(d) => {
                r.append("  due date: ");
                r.append(d.as_str());
                r.append("\n");
            },
            None => {},
        }
        assert(r@ =~= head + due_line(*self));
        let ghost head = r@;
        if self.checklist.len() > 0 {
            r.append("  checklist:\n");
            let mut i: usize = 0;
            while i < self.checklist.len()
                invariant
                    i <= self.checklist@.len(),
                    r@ == head + "  checklist:\n"@ + checklist_text(
                        self.checklist@.subrange(0, i as int),
                    ),
                decreases self.checklist@.len() - i,
            {
                proof {
                    let sub = self.checklist@.subrange(0, i + 1);
                    assert(sub.drop_last() =~= self.checklist@.subrange(0, i as int));
                    assert(sub.last() == self.checklist@[i as int]);
                }
                let line = self.checklist[i].to_text();
                r.append(line.as_str());
                r.append("\n");
                proof {
                    assert(r@ =~= head + "  checklist:\n"@ + checklist_text(
                        self.checklist@.subrange(0, i + 1),
                    ));
                }
                i = i + 1;
            }
            assert(self.checklist@.subrange(0, self.checklist@.len() as int) =~= self.checklist@);
        }
        assert(r@ =~= head + checklist_block(*self));
        r
    }
}

} // verus!
