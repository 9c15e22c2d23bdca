use vstd::prelude::*;

use crate::aggregate::{carries, carries_tag, opt_text};
use crate::text::{eq_ignore_ascii_case, same_ignoring_ascii_case};
use crate::todo::{ParseError, Todo};

verus! {

/// The common options of the command line clients: the server's host and
/// port, and whether to connect without TLS.
#[derive(Debug)]
pub struct CliCommonOpt {
    pub host_addr: String,
    pub port: u16,
    pub notls: bool,
}

impl CliCommonOpt {
    /// The scheme of the server's address: `http` without TLS, else `https`.
    pub fn get_proto_str(&self) -> (r: &'static str)
        ensures
            r@ == if self.notls {
                "http"@
            } else {
                "https"@
            },
    {
        if self.notls {
            "http"
        } else {
            "https"
        }
    }
}

/// The kinds of tasks that the task client can ask for.
#[derive(Clone, Copy, Debug, PartialEq, Eq, Structural)]
pub enum TodoTypes {
    Daily,
    Weekly,
    Task,
    Periodic,
}

/// The client task kind that a name stands for, its letters taken in either case.
pub open spec fn spec_parse_client_type(s: Seq<char>) -> Result<TodoTypes, ParseError> {
    if same_ignoring_ascii_case(s, "Daily"@) {
        Ok(TodoTypes::Daily)
    } else if same_ignoring_ascii_case(s, "Weekly"@) {
        Ok(TodoTypes::Weekly)
    } else if same_ignoring_ascii_case(s, "Task"@) {
        Ok(TodoTypes::Task)
    } else if same_ignoring_ascii_case(s, "Periodic"@) {
        Ok(TodoTypes::Periodic)
    } else {
        Err(ParseError::VariantNotFound)
    }
}

/// The server paths, below `/v1/`, that answer the tasks of a kind, in the order to ask them.
pub open spec fn spec_todo_paths(kind: Option<TodoTypes>) -> Seq<Seq<char>> {
    match kind {
        Some(TodoTypes::Task) => seq!["types/task/todos"@],
        Some(TodoTypes::Daily) => seq!["types/daily/todos"@],
        Some(TodoTypes::Weekly) => seq!["types/weekly/todos"@],
        Some(TodoTypes::Periodic) => seq!["types/daily/todos"@, "types/weekly/todos"@],
        None => seq!["todos"@],
    }
}

impl TodoTypes {
    /// Reads a client task kind from its name; ASCII letters may be in either case.
    pub fn parse(s: &str) -> (r: Result<TodoTypes, ParseError>)
        ensures
            r == spec_parse_client_type(s@),
    {
        if eq_ignore_ascii_case(s, "Daily") {
            Ok(TodoTypes::Daily)
        } else if eq_ignore_ascii_case(s, "Weekly") {
            Ok(TodoTypes::Weekly)
        } else if eq_ignore_ascii_case(s, "Task") {
            Ok(TodoTypes::Task)
        } else if eq_ignore_ascii_case(s, "Periodic") {
            Ok(TodoTypes::Periodic)
        } else {
            Err(ParseError::VariantNotFound)
        }
    }
}

impl core::str::FromStr for TodoTypes {
    type Err = ParseError;

    fn from_str(s: &str) -> Result<TodoTypes, ParseError> {
        TodoTypes::parse(s)
    }
}

/// The server paths to ask for the tasks of a kind, or for every task.
pub fn todo_paths(kind: Option<TodoTypes>) -> (r: Vec<&'static str>)
    ensures
        r@.len() == spec_todo_paths(kind).len(),
        forall|i: int| 0 <= i < r@.len() ==> (#[trigger] r@[i])@ == spec_todo_paths(kind)[i],
{
    let mut r: Vec<&'static str> = Vec::new();
    match kind {
        Some(TodoTypes::Task) => r.push("types/task/todos"),
        Some(TodoTypes::Daily) => r.push("types/daily/todos"),
        Some(TodoTypes::Weekly) => r.push("types/weekly/todos"),
        Some(TodoTypes::Periodic) => {
            r.push("types/daily/todos");
            r.push("types/weekly/todos");
        },
        None => r.push("todos"),
    }
    r
}

/// A task is kept for a label: one of its tags is the label, or no label is given.
pub open spec fn kept_for(t: Todo, label: Option<Seq<char>>) -> bool {
    match label {
        Some(l) => carries(t, l),
        None => true,
    }
}

/// The tasks kept for a label, in order.
pub open spec fn labelled(ds: Seq<Todo>, label: Option<Seq<char>>) -> Seq<Todo>
    decreases ds.len(),
{
    if ds.len() == 0 {
        Seq::empty()
    } else if kept_for(ds.last(), label) {
        labelled(ds.drop_last(), label).push(ds.last())
    } else {
        labelled(ds.drop_last(), label)
    }
}

/// The tasks that carry the label, in order; every task where no label is given.
pub fn filter_by_label<'a>(todos: &'a Vec<Todo>, label: &Option<String>) -> (r: Vec<&'a Todo>)
    ensures
        r@.len() == labelled(todos@, opt_text(*label)).len(),
        forall|i: int| 0 <= i < r@.len() ==> *(#[trigger] r@[i]) == labelled(todos@, opt_text(*label))[i],
{
    let ghost l = opt_text(*label);
    let mut r: Vec<&'a Todo> = Vec::new();
    let mut i: usize = 0;
    while i < todos.len()
        invariant
            l == opt_text(*label),
            i <= todos@.len(),
            r@.len() == labelled(todos@.subrange(0, i as int), l).len(),
            forall|k: int| 0 <= k < r@.len() ==> *(#[trigger] r@[k]) == labelled(todos@.subrange(0, i as int), l)[k],
        decreases todos@.len() - i,
    {
        let ghost before = labelled(todos@.subrange(0, i as int), l);
        proof {
            let sub = todos@.subrange(0, i + 1);
            assert(sub.drop_last() =~= todos@.subrange(0, i as int));
            assert(sub.last() == todos@[i as int]);
        }
        let keep = match label {
            Some(name) => carries_tag(&todos[i], name),
            None => true,
        };
        if keep {
            r.push(&todos[i]);
            proof {
                let after = labelled(todos@.subrange(0, i + 1), l);
                assert(after == before.push(todos@[i as int]));
                assert forall|k: int| 0 <= k < r@.len() implies *(#[trigger] r@[k]) == after[k] by {
                    if k < before.len() {
                        assert(after[k] == before[k]);
                    }
                }
            }
        }
        i = i + 1;
    }
    assert(todos@.subrange(0, todos@.len() as int) =~= todos@);
    r
}

/// The kinds of weather reports that the weather client can ask for.
#[derive(Clone, Copy, Debug, PartialEq, Eq, Structural)]
pub enum ForecastTypes {
    Current,
    Forecast,
    Rain,
    All,
}

impl Default for ForecastTypes {
    fn default() -> (r: ForecastTypes)
        ensures
            r == ForecastTypes::Current,
    {
        ForecastTypes::Current
    }
}

/// The label operations of the task client.
#[derive(Debug)]
pub enum Subcommands {
    Label { name: String, create: bool, delete: bool },
}

} // verus!
