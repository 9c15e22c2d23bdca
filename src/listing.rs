use vstd::prelude::*;

use crate::todo::{CheckListItem, Todo, TodoTypes};

verus! {

/// The marker of a task's kind in a listing.
pub open spec fn type_symbol(k: TodoTypes) -> Seq<char> {
    match k {
        TodoTypes::Task => "[T]"@,
        TodoTypes::Daily => "[D]"@,
        TodoTypes::Weekly => "[W]"@,
    }
}

/// The one-line form of a task: its kind marker and its name.
pub open spec fn one_line(t: Todo) -> Seq<char> {
    type_symbol(t.todo_type) + " "@ + t.name@
}

/// A line `  [] name` for every item that is not done.
pub open spec fn open_items_text(items: Seq<CheckListItem>) -> Seq<char>
    decreases items.len(),
{
    if items.len() == 0 {
        Seq::empty()
    } else if items.last().done {
        open_items_text(items.drop_last())
    } else {
        open_items_text(items.drop_last()) + "  [] "@ + items.last().name@ + "\n"@
    }
}

/// The tags separated by `, `.
pub open spec fn comma_joined(tags: Seq<String>) -> Seq<char>
    decreases tags.len(),
{
    if tags.len() == 0 {
        Seq::empty()
    } else if tags.len() == 1 {
        tags[0]@
    } else {
        comma_joined(tags.drop_last()) + ", "@ + tags.last()@
    }
}

/// The multi-line form of a task: the one-line form, the items still open,
/// the due date and the labels.
pub open spec fn multi_line(t: Todo) -> Seq<char> {
    one_line(t) + "\n"@ + open_items_text(t.checklist@) + (match t.due_date {
        Some(d) => "  due date: "@ + d@ + "\n"@,
        None => Seq::empty(),
    }) + (if t.tags@.len() == 0 {
        Seq::empty()
    } else {
        "  labels: "@ + comma_joined(t.tags@) + "\n"@
    })
}

/// What a task adds to the count of open work: one for a task without a
/// checklist, else one for each item not done.
pub open spec fn open_items(items: Seq<CheckListItem>) -> nat
    decreases items.len(),
{
    if items.len() == 0 {
        0
    } else {
        open_items(items.drop_last()) + if items.last().done {
            0nat
        } else {
            1nat
        }
    }
}

pub open spec fn todo_count(t: Todo) -> nat {
    if t.checklist@.len() == 0 {
        1
    } else {
        open_items(t.checklist@)
    }
}

/// The open work of a list of tasks.
pub open spec fn todos_count(v: Seq<&Todo>) -> nat
    decreases v.len(),
{
    if v.len() == 0 {
        0
    } else {
        todos_count(v.drop_last()) + todo_count(*v.last())
    }
}

proof fn lemma_open_items_bound(items: Seq<CheckListItem>)
    ensures
        open_items(items) <= items.len(),
    decreases items.len(),
{
    if items.len() > 0 {
        lemma_open_items_bound(items.drop_last());
    }
}

proof fn lemma_todos_count_prefix(v: Seq<&Todo>, i: int)
    requires
        0 <= i <= v.len(),
    ensures
        todos_count(v.subrange(0, i)) <= todos_count(v),
    decreases v.len() - i,
{
    if i < v.len() {
        let w = v.subrange(0, i + 1);
        assert(w.drop_last() =~= v.subrange(0, i));
        lemma_todos_count_prefix(v, i + 1);
    } else {
        assert(v.subrange(0, i) =~= v);
    }
}

fn symbol(k: TodoTypes) -> (r: &'static str)
    ensures
        r@ == type_symbol(k),
{
    match k {
        TodoTypes::Task => "[T]",
        TodoTypes::Daily => "[D]",
        TodoTypes::Weekly => "[W]",
    }
}

/// The one-line form of a task.
pub fn todo_to_one_line(t: &&Todo) -> (r: String)
    ensures
        r@ == one_line(**t),
{
    let mut r = String::from_str(symbol(t.todo_type));
    r.append(" ");
    r.append(t.name.as_str());
    r
}

/// The multi-line form of a task.
pub fn todo_to_multi_line(t: &&Todo) -> (r: String)
    ensures
        r@ == multi_line(**t),
{
    let mut r = todo_to_one_line(t);
    r.append("\n");
    let ghost head = r@;
    let mut i: usize = 0;
    while i < t.checklist.len()
        invariant
            i <= t.checklist@.len(),
            r@ == head + open_items_text(t.checklist@.subrange(0, i as int)),
        decreases t.checklist@.len() - i,
    {
        proof {
            let sub = t.checklist@.subrange(0, i + 1);
            assert(sub.drop_last() =~= t.checklist@.subrange(0, i as int));
            assert(sub.last() == t.checklist@[i as int]);
        }
        if !t.checklist[i].done {
            r.append("  [] ");
            r.append(t.checklist[i].name.as_str());
            r.append("\n");
        }
        proof {
            assert(r@ =~= head + open_items_text(t.checklist@.subrange(0, i + 1)));
        }
        i = i + 1;
    }
    assert(t.checklist@.subrange(0, t.checklist@.len() as int) =~= t.checklist@);
    match &t.due_date {
        Some(d) => {
            r.append("  due date: ");
            r.append(d.as_str());
            r.append("\n");
        },
        None => {},
    }
    let ghost head = r@;
    if t.tags.len() > 0 {
        r.append("  labels: ");
        let mut j: usize = 0;
        while j < t.tags.len()
            invariant
                j <= t.tags@.len(),
                r@ == head + "  labels: "@ + comma_joined(t.tags@.subrange(0, j as int)),
            decreases t.tags@.len() - j,
        {
            proof {
                let sub = t.tags@.subrange(0, j + 1);
                assert(sub.drop_last() =~= t.tags@.subrange(0, j as int));
                assert(sub.last() == t.tags@[j as int]);
            }
            if j > 0 {
                r.append(", ");
            }
            r.append(t.tags[j].as_str());
            proof {
                if j == 0 {
                    assert(t.tags@.subrange(0, 1)[0] == t.tags@[0]);
                }
                assert(r@ =~= head + "  labels: "@ + comma_joined(t.tags@.subrange(0, j + 1)));
            }
            j = j + 1;
        }
        assert(t.tags@.subrange(0, t.tags@.len() as int) =~= t.tags@);
        r.append("\n");
    }
    assert(r@ =~= multi_line(**t));
    r
}

/// The open work of a list of tasks: a task without a checklist counts one,
/// a task with a checklist counts its items that are not done.
pub fn get_todos_count(v: &[&Todo]) -> (r: i32)
    requires
        todos_count(v@) <= i32::MAX,
    ensures
        r == todos_count(v@),
{
    let mut result: i32 = 0;
    let mut i: usize = 0;
    while i < v.len()
        invariant
            i <= v@.len(),
            todos_count(v@) <= i32::MAX,
            result == todos_count(v@.subrange(0, i as int)),
        decreases v@.len() - i,
    {
        proof {
            let sub = v@.subrange(0, i + 1);
            assert(sub.drop_last() =~= v@.subrange(0, i as int));
            assert(sub.last() == v@[i as int]);
            lemma_todos_count_prefix(v@, i + 1);
        }
        let t = v[i];
        if t.checklist.len() == 0 {
            result = result + 1;
        } else {
            let ghost base = result as int;
            let mut j: usize = 0;
            while j < t.checklist.len()
                invariant
                    j <= t.checklist@.len(),
                    base + todo_count(*t) <= i32::MAX,
                    t.checklist@.len() > 0,
                    result == base + open_items(t.checklist@.subrange(0, j as int)),
                decreases t.checklist@.len() - j,
            {
                proof {
                    let sub = t.checklist@.subrange(0, j + 1);
                    assert(sub.drop_last() =~= t.checklist@.subrange(0, j as int));
                    assert(sub.last() == t.checklist@[j as int]);
                    lemma_open_items_prefix(t.checklist@, j + 1);
                }
                if !t.checklist[j].done {
                    result = result + 1;
                }
                j = j + 1;
            }
            assert(t.checklist@.subrange(0, t.checklist@.len() as int) =~= t.checklist@);
        }
        i = i + 1;
    }
    assert(v@.subrange(0, v@.len() as int) =~= v@);
    result
}

proof fn lemma_open_items_prefix(items: Seq<CheckListItem>, i: int)
    requires
        0 <= i <= items.len(),
    ensures
        open_items(items.subrange(0, i)) <= open_items(items),
    decreases items.len() - i,
{
    if i < items.len() {
        let w = items.subrange(0, i + 1);
        assert(w.drop_last() =~= items.subrange(0, i));
        lemma_open_items_prefix(items, i + 1);
    } else {
        assert(items.subrange(0, i) =~= items);
    }
}

/// A line `\tname` for every item that is not done.
pub open spec fn open_items_tabbed(items: Seq<CheckListItem>) -> Seq<char>
    decreases items.len(),
{
    if items.len() == 0 {
        Seq::empty()
    } else if items.last().done {
        open_items_tabbed(items.drop_last())
    } else {
        open_items_tabbed(items.drop_last()) + "\t"@ + items.last().name@ + "\n"@
    }
}

/// The printed form of a task: the one-line form, then its open items and
/// its due date, each on a line of its own after a tab.
pub open spec fn print_text(t: Todo) -> Seq<char> {
    one_line(t) + "\n"@ + open_items_tabbed(t.checklist@) + match t.due_date {
        Some(d) => "\tdue date: "@ + d@ + "\n"@,
        None => Seq::empty(),
    }
}

/// The printed form of a task, every line ended by a line break.
pub fn todo_to_print_text(t: &&Todo) -> (r: String)
    ensures
        r@ == print_text(**t),
{
    let mut r = todo_to_one_line(t);
    r.append("\n");
    let ghost head = r@;
    let mut i: usize = 0;
    while i < t.checklist.len()
        invariant
            i <= t.checklist@.len(),
            r@ == head + open_items_tabbed(t.checklist@.subrange(0, i as int)),
        decreases t.checklist@.len() - i,
    {
        proof {
            let sub = t.checklist@.subrange(0, i + 1);
            assert(sub.drop_last() =~= t.checklist@.subrange(0, i as int));
            assert(sub.last() == t.checklist@[i as int]);
        }
        if !t.checklist[i].done {
            r.append("\t");
            r.append(t.checklist[i].name.as_str());
            r.append("\n");
        }
        proof {
            assert(r@ =~= head + open_items_tabbed(t.checklist@.subrange(0, i + 1)));
        }
        i = i + 1;
    }
    assert(t.checklist@.subrange(0, t.checklist@.len() as int) =~= t.checklist@);
    let ghost head = r@;
    match &t.due_date {
        Some(d) => {
            r.append("\tdue date: ");
            r.append(d.as_str());
            r.append("\n");
        },
        None => {},
    }
    assert(r@ =~= print_text(**t));
    r
}

/// Gives a list of lines to show.
pub trait ToStringVec {
    fn to_string_vec(&self) -> Vec<String>;
}

/// Gives the title of a view.
pub trait GetTitle {
    fn get_title(&self) -> &str;
}

/// A list of tasks with one of them selected.
pub struct TodoStatefulList<'a> {
    pub todo_list: &'a [&'a Todo],
    pub state: usize,
}

impl<'a> TodoStatefulList<'a> {
    pub fn new(todo_list: &'a [&'a Todo], state: usize) -> (r: Self)
        ensures
            r.todo_list@ == todo_list@,
            r.state == state,
    {
        Self { todo_list, state }
    }

    /// The lines of the list: the selected task in its multi-line form, the
    /// others in their one-line form.
    pub fn lines(&self) -> (r: Vec<String>)
        ensures
            r@.len() == self.todo_list@.len(),
            forall|i: int|
                0 <= i < r@.len() ==> (#[trigger] r@[i])@ == if i == self.state {
                    multi_line(*self.todo_list@[i])
                } else {
                    one_line(*self.todo_list@[i])
                },
    {
        let mut r: Vec<String> = Vec::new();
        let mut i: usize = 0;
        while i < self.todo_list.len()
            invariant
                i <= self.todo_list@.len(),
                r@.len() == i,
                forall|k: int|
                    0 <= k < i ==> (#[trigger] r@[k])@ == if k == self.state {
                        multi_line(*self.todo_list@[k])
                    } else {
                        one_line(*self.todo_list@[k])
                    },
            decreases self.todo_list@.len() - i,
        {
            let t = &self.todo_list[i];
            if i != self.state {
                r.push(todo_to_one_line(t));
            } else {
                r.push(todo_to_multi_line(t));
            }
            i = i + 1;
        }
        r
    }

    /// Moves the selection one task down, from the last back to the first.
    pub fn select_next(&mut self)
        requires
            old(self).todo_list@.len() > 0,
        ensures
            final(self).todo_list == old(self).todo_list,
            final(self).state == (old(self).state + 1) % (old(self).todo_list@.len() as int),
    {
        let n = self.todo_list.len();
        let k = self.state % n;
        proof {
            vstd::arithmetic::div_mod::lemma_add_mod_noop_right(1, old(self).state as int, n as int);
            assert(k + 1 == 1 + (old(self).state as int) % (n as int));
        }
        self.state = (k + 1) % n;
    }

    /// Moves the selection one task up, from the first to the last.
    pub fn select_previous(&mut self)
        requires
            old(self).todo_list@.len() > 0,
        ensures
            final(self).todo_list == old(self).todo_list,
            final(self).state == if old(self).state == 0 {
                old(self).todo_list@.len() - 1
            } else {
                old(self).state - 1
            },
    {
        if self.state == 0 {
            self.state = self.todo_list.len() - 1;
        } else {
            self.state = self.state - 1;
        }
    }
}

impl<'a> ToStringVec for TodoStatefulList<'a> {
    fn to_string_vec(&self) -> Vec<String> {
        self.lines()
    }
}

impl<'a> GetTitle for TodoStatefulList<'a> {
    fn get_title(&self) -> &str {
        "Todo"
    }
}

} // verus!
