use vstd::prelude::*;

use crate::labels::{lookup_name, renamed_all, Entries, TagCache};
use crate::todo::{Todo, TodoTypes};

verus! {

/// One of the tags of a task is `id`.
pub open spec fn carries(t: Todo, id: Seq<char>) -> bool {
    exists|j: int| 0 <= j < t.tags@.len() && (#[trigger] t.tags@[j])@ == id
}

/// One of the tags of a task is the identifier, where there is one.
pub open spec fn carries_opt(t: Todo, id: Option<Seq<char>>) -> bool {
    id is Some && carries(t, id->0)
}

/// The recurring tasks that carry the daily or the weekly label, in order;
/// those with the weekly label become of kind `Weekly`.
pub open spec fn kept_dailys(
    ds: Seq<Todo>,
    daily: Option<Seq<char>>,
    weekly: Option<Seq<char>>,
) -> Seq<Todo>
    decreases ds.len(),
{
    if ds.len() == 0 {
        Seq::empty()
    } else {
        let rest = kept_dailys(ds.drop_last(), daily, weekly);
        let t = ds.last();
        if carries_opt(t, weekly) {
            rest.push(Todo { todo_type: TodoTypes::Weekly, ..t })
        } else if carries_opt(t, daily) {
            rest.push(t)
        } else {
            rest
        }
    }
}

/// The tasks that carry a label, in order, each of the given kind.
pub open spec fn with_label(ds: Seq<Todo>, id: Seq<char>, kind: Option<TodoTypes>) -> Seq<Todo>
    decreases ds.len(),
{
    if ds.len() == 0 {
        Seq::empty()
    } else {
        let rest = with_label(ds.drop_last(), id, kind);
        let t = ds.last();
        if carries(t, id) {
            match kind {
                Some(k) => rest.push(Todo { todo_type: k, ..t }),
                None => rest.push(t),
            }
        } else {
            rest
        }
    }
}

/// The one-shot tasks, followed by the recurring tasks that carry the label
/// named `daily` or the label named `weekly` of the cache.
pub open spec fn spec_merged(todos: Seq<Todo>, dailys: Seq<Todo>, e: Entries) -> Seq<Todo> {
    todos + kept_dailys(dailys, lookup_name(e, "daily"@), lookup_name(e, "weekly"@))
}

/// The text of an optional string.
pub open spec fn opt_text(o: Option<String>) -> Option<Seq<char>> {
    match o {
        Some(s) => Some(s@),
        None => None,
    }
}

/// The failures of gathering tasks.
#[derive(Debug)]
pub enum TaskError {
    /// No label of the cache has the name.
    LabelNotFound(String),
}

/// Whether a task carries the tag `id`.
pub fn carries_tag(t: &Todo, id: &String) -> (r: bool)
    ensures
        r == carries(*t, id@),
{
    let mut j: usize = 0;
    while j < t.tags.len()
        invariant
            j <= t.tags@.len(),
            forall|k: int| 0 <= k < j ==> (#[trigger] t.tags@[k])@ != id@,
        decreases t.tags@.len() - j,
    {
        if t.tags[j] == *id {
            return true;
        }
        j = j + 1;
    }
    false
}

fn carries_opt_tag(t: &Todo, id: &Option<String>) -> (r: bool)
    ensures
        r == carries_opt(*t, opt_text(*id)),
{
    match id {
        Some(s) => carries_tag(t, s),
        None => false,
    }
}

/// The one-shot tasks, followed by the recurring ones that carry the label
/// named `daily` or `weekly`; those with the `weekly` label become of kind
/// `Weekly`. A name missing from the cache keeps no task.
pub fn merge_tasks(todos: Vec<Todo>, dailys: Vec<Todo>, cache: &TagCache) -> (r: Vec<Todo>)
    ensures
        r@ == spec_merged(todos@, dailys@, cache@),
{
    let daily_id = cache.get_tag_id("daily");
    let weekly_id = cache.get_tag_id("weekly");
    let ghost daily = opt_text(daily_id);
    let ghost weekly = opt_text(weekly_id);
    let ghost start = dailys@;
    let total: usize = dailys.len();
    let mut rest = dailys;
    let mut kept: Vec<Todo> = Vec::new();
    let mut n: usize = 0;
    while rest.len() > 0
        invariant
            n <= start.len(),
            start.len() == total,
            rest@.len() == start.len() - n,
            rest@ == start.subrange(n as int, start.len() as int),
            daily == opt_text(daily_id),
            weekly == opt_text(weekly_id),
            kept@ == kept_dailys(start.subrange(0, n as int), daily, weekly),
        decreases rest@.len(),
    {
        let mut t = rest.remove(0);
        proof {
            assert(start.subrange(0, n + 1).drop_last() =~= start.subrange(0, n as int));
            assert(t == start[n as int]);
            assert(start.subrange(0, n + 1).last() == t);
        }
        if carries_opt_tag(&t, &weekly_id) {
            t.todo_type = TodoTypes::Weekly;
            kept.push(t);
        } else if carries_opt_tag(&t, &daily_id) {
            kept.push(t);
        }
        n = n + 1;
        proof {
            assert(rest@ =~= start.subrange(n as int, start.len() as int));
        }
    }
    assert(start.subrange(0, n as int) =~= start);
    let mut r = todos;
    r.append(&mut kept);
    r
}

/// The tasks that carry the tag `id`, in order; each takes the kind `kind` where one is given.
pub fn select_with_label(ds: Vec<Todo>, id: &String, kind: Option<TodoTypes>) -> (r: Vec<Todo>)
    ensures
        r@ == with_label(ds@, id@, kind),
{
    let ghost start = ds@;
    let total: usize = ds.len();
    let mut rest = ds;
    let mut kept: Vec<Todo> = Vec::new();
    let mut n: usize = 0;
    while rest.len() > 0
        invariant
            n <= start.len(),
            start.len() == total,
            rest@.len() == start.len() - n,
            rest@ == start.subrange(n as int, start.len() as int),
            kept@ == with_label(start.subrange(0, n as int), id@, kind),
        decreases rest@.len(),
    {
        let mut t = rest.remove(0);
        proof {
            assert(start.subrange(0, n + 1).drop_last() =~= start.subrange(0, n as int));
            assert(start.subrange(0, n + 1).last() == t);
        }
        if carries_tag(&t, id) {
            match kind {
                Some(k) => {
                    t.todo_type = k;
                    kept.push(t);
                },
                None => kept.push(t),
            }
        }
        n = n + 1;
        proof {
            assert(rest@ =~= start.subrange(n as int, start.len() as int));
        }
    }
    assert(start.subrange(0, n as int) =~= start);
    kept
}

/// Every task for a client: the one-shot tasks, then the recurring ones kept
/// by `merge_tasks`, with each tag shown by its name where the cache knows it.
pub fn all_tasks(todos: Vec<Todo>, dailys: Vec<Todo>, cache: &TagCache) -> (r: Vec<Todo>)
    ensures
        renamed_all(cache@, spec_merged(todos@, dailys@, cache@), r@),
{
    let mut r = merge_tasks(todos, dailys, cache);
    cache.replace_tag_id(&mut r);
    r
}

/// The tasks of `all_tasks` that carry the label named `label`, with tags shown
/// by name; an error where no label has that name.
pub fn tasks_with_label(label: &str, todos: Vec<Todo>, dailys: Vec<Todo>, cache: &TagCache) -> (r:
    Result<Vec<Todo>, TaskError>)
    ensures
        r is Err <==> lookup_name(cache@, label@) is None,
        r matches Err(TaskError::LabelNotFound(l)) ==> l@ == label@,
        r matches Ok(v) ==> renamed_all(
            cache@,
            with_label(spec_merged(todos@, dailys@, cache@), lookup_name(cache@, label@)->0, None),
            v@,
        ),
{
    match cache.get_tag_id(label) {
        None => Err(TaskError::LabelNotFound(label.to_string())),
        Some(id) => {
            let merged = merge_tasks(todos, dailys, cache);
            let mut r = select_with_label(merged, &id, None);
            cache.replace_tag_id(&mut r);
            Ok(r)
        },
    }
}

/// The name of the label that marks the recurring tasks of a kind.
pub open spec fn kind_label(kind: TodoTypes) -> Seq<char> {
    match kind {
        TodoTypes::Daily => "daily"@,
        _ => "weekly"@,
    }
}

/// The tasks of one kind, with tags shown by name: the one-shot tasks for
/// `Task`; for `Daily` and `Weekly`, the recurring tasks that carry the label
/// named `daily` or `weekly`, each given that kind, and an error where no
/// label has that name.
pub fn tasks_of_kind(kind: TodoTypes, todos: Vec<Todo>, dailys: Vec<Todo>, cache: &TagCache) -> (r:
    Result<Vec<Todo>, TaskError>)
    ensures
        kind == TodoTypes::Task ==> (r matches Ok(v) && renamed_all(cache@, todos@, v@)),
        kind != TodoTypes::Task ==> {
            &&& r is Err <==> lookup_name(cache@, kind_label(kind)) is None
            &&& r matches Err(TaskError::LabelNotFound(l)) ==> l@ == kind_label(kind)
            &&& r matches Ok(v) ==> renamed_all(
                cache@,
                with_label(dailys@, lookup_name(cache@, kind_label(kind))->0, Some(kind)),
                v@,
            )
        },
{
    let label = match kind {
        TodoTypes::Task => {
            let mut r = todos;
            cache.replace_tag_id(&mut r);
            return Ok(r);
        },
        TodoTypes::Daily => "daily",
        TodoTypes::Weekly => "weekly",
    };
    match cache.get_tag_id(label) {
        None => Err(TaskError::LabelNotFound(label.to_string())),
        Some(id) => {
            let mut r = select_with_label(dailys, &id, Some(kind));
            cache.replace_tag_id(&mut r);
            Ok(r)
        },
    }
}

} // verus!
