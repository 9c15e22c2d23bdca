use vstd::prelude::*;

use chrono::{Datelike, Timelike};

use crate::date::{
    reference_date, Date, LocalDateTime, Weekday, MAX_DAYS, MIN_DAYS, SHIFT_SECONDS,
};
use crate::text::same_text;
use crate::todo::{CheckListItem, Todo, TodoTypes};

verus! {

/// The kind of a record of the remote task service.
#[derive(Clone, Copy, Debug, PartialEq, Eq, Structural)]
pub enum TaskTypes {
    Habit,
    Todo,
    Reward,
    Daily,
}

/// The collections of records that the remote service lists by kind.
#[derive(Clone, Copy, Debug, PartialEq, Eq, Structural)]
pub enum UsersTaskTypes {
    Habits,
    Todos,
    Rewards,
    Dailys,
    CompletedTodos,
}

impl UsersTaskTypes {
    /// The value of the `type` query parameter that selects this collection.
    pub fn query_value(&self) -> (r: &'static str)
        ensures
            *self == UsersTaskTypes::Habits ==> r@ == "habit"@,
            *self == UsersTaskTypes::Todos ==> r@ == "todos"@,
            *self == UsersTaskTypes::Rewards ==> r@ == "reward"@,
            *self == UsersTaskTypes::Dailys ==> r@ == "dailys"@,
            *self == UsersTaskTypes::CompletedTodos ==> r@ == "completedTodos"@,
    {
        match self {
            UsersTaskTypes::Habits => "habit",
            UsersTaskTypes::Todos => "todos",
            UsersTaskTypes::Rewards => "reward",
            UsersTaskTypes::Dailys => "dailys",
            UsersTaskTypes::CompletedTodos => "completedTodos",
        }
    }
}

/// One entry of a remote record's checklist.
#[derive(Debug)]
pub struct Checklist {
    pub completed: bool,
    pub text: String,
    pub id: String,
}

/// The checklist entry as handed to clients.
pub open spec fn converted_item(i: CheckListItem, c: Checklist) -> bool {
    i.name@ == c.text@ && i.done == c.completed
}

impl<'a> From<&'a Checklist> for CheckListItem {
    fn from(cl: &'a Checklist) -> (r: CheckListItem) {
        CheckListItem { name: cl.text.clone(), done: cl.completed }
    }
}

impl<'a> vstd::std_specs::convert::FromSpecImpl<&'a Checklist> for CheckListItem {
    open spec fn obeys_from_spec() -> bool {
        true
    }

    open spec fn from_spec(cl: &'a Checklist) -> CheckListItem {
        CheckListItem { name: cl.text, done: cl.completed }
    }
}

/// Every entry of an optional checklist is done; no checklist counts as done.
pub open spec fn checklist_done(cl: Option<Vec<Checklist>>) -> bool {
    match cl {
        None => true,
        Some(v) => forall|i: int| 0 <= i < v@.len() ==> (#[trigger] v@[i]).completed,
    }
}

/// The entries of an optional checklist as handed to clients; none for no checklist.
pub open spec fn converted_checklist(r: Seq<CheckListItem>, cl: Option<Vec<Checklist>>) -> bool {
    match cl {
        None => r.len() == 0,
        Some(v) => {
            &&& r.len() == v@.len()
            &&& forall|i: int| 0 <= i < v@.len() ==> converted_item(#[trigger] r[i], v@[i])
        },
    }
}

/// Converts an optional checklist, entry by entry.
pub fn convert_checklist(cl: &Option<Vec<Checklist>>) -> (r: Vec<CheckListItem>)
    ensures
        converted_checklist(r@, *cl),
{
    let mut r: Vec<CheckListItem> = Vec::new();
    match cl {
        None => {},
        Some(v) => {
            let mut i: usize = 0;
            while i < v.len()
                invariant
                    i <= v@.len(),
                    r@.len() == i,
                    forall|j: int| 0 <= j < i ==> converted_item(#[trigger] r@[j], v@[j]),
                decreases v@.len() - i,
            {
                r.push(CheckListItem::from(&v[i]));
                i = i + 1;
            }
        },
    }
    r
}

/// The weekdays on which a repeating task repeats.
#[derive(Clone, Copy, Debug, PartialEq, Eq, Structural)]
pub struct Repeat {
    pub su: bool,
    pub s: bool,
    pub f: bool,
    pub th: bool,
    pub w: bool,
    pub t: bool,
    pub m: bool,
}

impl Repeat {
    /// The flag of one weekday.
    pub open spec fn is_on(self, day: Weekday) -> bool {
        match day {
            Weekday::Mon => self.m,
            Weekday::Tue => self.t,
            Weekday::Wed => self.w,
            Weekday::Thu => self.th,
            Weekday::Fri => self.f,
            Weekday::Sat => self.s,
            Weekday::Sun => self.su,
        }
    }

    /// How many of the seven flags are set.
    pub open spec fn count_on(self) -> int {
        (if self.su { 1int } else { 0 }) + (if self.s { 1int } else { 0 }) + (if self.f {
            1int
        } else {
            0
        }) + (if self.th { 1int } else { 0 }) + (if self.w { 1int } else { 0 }) + (if self.t {
            1int
        } else {
            0
        }) + (if self.m { 1int } else { 0 })
    }

    pub open spec fn spec_is_all_week(self) -> bool {
        forall|d: Weekday| #[trigger] self.is_on(d)
    }

    pub open spec fn spec_is_only_sunday(self) -> bool {
        forall|d: Weekday| #[trigger] self.is_on(d) <==> d == Weekday::Sun
    }

    /// Whether the task repeats on every day of the week.
    pub fn is_all_week(&self) -> (r: bool)
        ensures
            r == self.spec_is_all_week(),
    {
        let r = self.su && self.s && self.f && self.th && self.w && self.t && self.m;
        proof {
            if !r {
                if !self.su {
                    assert(!self.is_on(Weekday::Sun));
                } else if !self.s {
                    assert(!self.is_on(Weekday::Sat));
                } else if !self.f {
                    assert(!self.is_on(Weekday::Fri));
                } else if !self.th {
                    assert(!self.is_on(Weekday::Thu));
                } else if !self.w {
                    assert(!self.is_on(Weekday::Wed));
                } else if !self.t {
                    assert(!self.is_on(Weekday::Tue));
                } else {
                    assert(!self.is_on(Weekday::Mon));
                }
            }
        }
        r
    }

    /// Whether Sunday is the one day on which the task repeats.
    pub fn is_only_sunday(&self) -> (r: bool)
        ensures
            r == self.spec_is_only_sunday(),
    {
        let r = self.su && !self.s && !self.f && !self.th && !self.w && !self.t && !self.m;
        proof {
            if !r {
                if !self.su {
                    assert(!self.is_on(Weekday::Sun));
                } else if self.s {
                    assert(self.is_on(Weekday::Sat));
                } else if self.f {
                    assert(self.is_on(Weekday::Fri));
                } else if self.th {
                    assert(self.is_on(Weekday::Thu));
                } else if self.w {
                    assert(self.is_on(Weekday::Wed));
                } else if self.t {
                    assert(self.is_on(Weekday::Tue));
                } else {
                    assert(self.is_on(Weekday::Mon));
                }
            }
        }
        r
    }

    /// Whether the task repeats on the weekday of `today`.
    pub fn is_today_on(&self, today: &Date) -> (r: bool)
        ensures
            r == self.is_on(today.weekday()),
    {
        match today.weekday() {
            Weekday::Mon => self.m,
            Weekday::Tue => self.t,
            Weekday::Wed => self.w,
            Weekday::Thu => self.th,
            Weekday::Fri => self.f,
            Weekday::Sat => self.s,
            Weekday::Sun => self.su,
        }
    }
}

/// Exactly one flag of the mask is set; then the mask stands for Sunday alone
/// if and only if that flag is Sunday's.
pub proof fn lemma_single_flag_only_sunday(r: Repeat)
    requires
        r.count_on() == 1,
    ensures
        r.spec_is_only_sunday() <==> r.su,
{
    if r.su {
        assert forall|d: Weekday| #[trigger] r.is_on(d) <==> d == Weekday::Sun by {
            match d {
                Weekday::Sun => {},
                _ => {},
            }
        }
    } else {
        assert(!r.is_on(Weekday::Sun));
    }
}

/// A one-shot task record of the remote service.
#[derive(Debug)]
pub struct Task {
    pub id: String,
    pub description: String,
    pub task_type: TaskTypes,
    pub notes: String,
    pub tags: Vec<String>,
    pub checklist: Option<Vec<Checklist>>,
    pub completed: Option<bool>,
}

/// The listing of one-shot tasks answered by the remote service.
#[derive(Debug)]
pub struct RespTask {
    pub success: bool,
    pub data: Vec<Task>,
}

/// A recurring task record of the remote service.
#[derive(Debug)]
pub struct Daily {
    pub id: String,
    pub description: String,
    pub task_type: TaskTypes,
    pub notes: String,
    pub tags: Vec<String>,
    pub checklist: Option<Vec<Checklist>>,
    pub completed: Option<bool>,
    pub repeat: Repeat,
    pub frequency: String,
    pub next_due: Vec<String>,
    pub every: u32,
}

/// The listing of recurring tasks answered by the remote service.
#[derive(Debug)]
pub struct RespDaily {
    pub success: bool,
    pub data: Vec<Daily>,
}

/// A label of the remote service: its display name and its identifier.
#[derive(Debug)]
pub struct Tag {
    pub name: String,
    pub id: String,
}

/// The listing of labels answered by the remote service.
#[derive(Debug)]
pub struct RespTags {
    pub success: bool,
    pub data: Vec<Tag>,
}

/// The same strings, one for one.
pub open spec fn same_strings(a: Seq<String>, b: Seq<String>) -> bool {
    &&& a.len() == b.len()
    &&& forall|i: int| 0 <= i < a.len() ==> (#[trigger] a[i])@ == b[i]@
}

fn copy_strings(v: &Vec<String>) -> (r: Vec<String>)
    ensures
        same_strings(r@, v@),
{
    let mut r: Vec<String> = Vec::new();
    let mut i: usize = 0;
    while i < v.len()
        invariant
            i <= v@.len(),
            r@.len() == i,
            forall|j: int| 0 <= j < i ==> (#[trigger] r@[j])@ == v@[j]@,
        decreases v@.len() - i,
    {
        r.push(v[i].clone());
        i = i + 1;
    }
    r
}

/// A recorded completion flag; an absent one counts as not completed.
pub open spec fn is_completed(c: Option<bool>) -> bool {
    c == Some(true)
}

/// The task as handed to clients: name, description, tags, checklist and
/// completion taken from the record's fields, and the given kind.
pub open spec fn converted_todo(
    r: Todo,
    description: String,
    notes: String,
    tags: Vec<String>,
    checklist: Option<Vec<Checklist>>,
    completed: Option<bool>,
    kind: TodoTypes,
) -> bool {
    &&& r.name@ == description@
    &&& r.descr is Some && r.descr->0@ == notes@
    &&& same_strings(r.tags@, tags@)
    &&& r.todo_type == kind
    &&& converted_checklist(r.checklist@, checklist)
    &&& r.done == is_completed(completed)
}

impl Task {
    /// `r` is this record in the canonical form.
    pub open spec fn converted(self, r: Todo) -> bool {
        &&& converted_todo(
            r,
            self.description,
            self.notes,
            self.tags,
            self.checklist,
            self.completed,
            TodoTypes::Task,
        )
        &&& r.due_date is None
    }

    /// The one-shot task in the canonical form: a task of kind `Task` with no due date.
    pub fn to_todo(&self) -> (r: Todo)
        ensures
            self.converted(r),
    {
        Todo {
            name: self.description.clone(),
            descr: Some(self.notes.clone()),
            tags: copy_strings(&self.tags),
            todo_type: TodoTypes::Task,
            checklist: convert_checklist(&self.checklist),
            due_date: None,
            done: match self.completed {
                Some(c) => c,
                None => false,
            },
        }
    }
}

/// The name of a day's date as the text `YYYY-MM-DD`.
pub uninterp spec fn iso_date_text(days: int) -> Seq<char>;

/// Relies on chrono's `NaiveDate::from_num_days_from_ce_opt`, which gives the
/// date of every day number in the range of `Date`, and on its `%Y-%m-%d`
/// format: the text depends on the day number alone.
#[verifier::external_body]
fn iso_date(day: Date) -> (r: String)
    requires
        day.wf(),
    ensures
        r@ == iso_date_text(day.days as int),
{
    match chrono::NaiveDate::from_num_days_from_ce_opt(day.days) {
        Some(d) => d.format("%Y-%m-%d").to_string(),
        None => String::new(),
    }
}

/// Relies on chrono's `Local::now`: the local date, within chrono's range of
/// dates, and the seconds since its midnight, below a day's length.
#[verifier::external_body]
fn local_now() -> (r: LocalDateTime)
    ensures
        r.wf(),
{
    let now = chrono::Local::now().naive_local();
    LocalDateTime {
        date: Date { days: now.date().num_days_from_ce() },
        seconds: now.time().num_seconds_from_midnight(),
    }
}

/// The reference day of the moment of the call: the local time moved back
/// by four hours. Where that would leave the range of dates, the local date
/// itself.
pub fn today() -> (r: Date)
    ensures
        r.wf(),
{
    let now = local_now();
    if now.seconds >= SHIFT_SECONDS || now.date.days > MIN_DAYS {
        reference_date(now)
    } else {
        now.date
    }
}

/// The days from a date to the next Sunday; none from a Sunday.
pub open spec fn days_until_sunday(d: Date) -> int {
    (7 - d.weekday().spec_days_from_sunday()) % 7
}

impl Daily {
    /// The frequency as the rules read it.
    pub open spec fn is_daily(self) -> bool {
        self.frequency@ == "daily"@
    }

    pub open spec fn is_weekly(self) -> bool {
        self.frequency@ == "weekly"@
    }

    /// Whether the task is due on a day with the given weekday.
    pub open spec fn spec_due_on(self, day: Weekday) -> bool {
        if is_completed(self.completed) {
            false
        } else if self.is_daily() {
            true
        } else if self.is_weekly() {
            self.repeat.is_on(day) || (self.repeat.spec_is_only_sunday() && !checklist_done(
                self.checklist,
            ))
        } else {
            true
        }
    }

    /// The day number of the due date shown for the task on `today`, if any.
    pub open spec fn spec_due_day(self, today: Date) -> Option<int> {
        if self.spec_due_on(today.weekday()) && self.repeat.is_on(today.weekday()) {
            Some(today.days as int)
        } else if self.spec_due_on(today.weekday()) && self.is_weekly() {
            Some(today.days + days_until_sunday(today))
        } else {
            None
        }
    }

    /// The due date, where there is one, lies in the range of dates.
    pub open spec fn due_day_in_range(self, today: Date) -> bool {
        self.spec_due_day(today) is Some ==> self.spec_due_day(today)->0 <= MAX_DAYS
    }

    /// `r` is this record in the canonical form on `today`.
    pub open spec fn converted_on(self, r: Todo, today: Date) -> bool {
        &&& converted_todo(
            r,
            self.description,
            self.notes,
            self.tags,
            self.checklist,
            self.completed,
            TodoTypes::Daily,
        )
        &&& r.due_date is Some <==> self.spec_due_day(today) is Some
        &&& r.due_date is Some ==> r.due_date->0@ == iso_date_text(self.spec_due_day(today)->0)
    }

    /// Whether every checklist entry is done; a task without a checklist counts as done.
    pub fn is_checklist_done(&self) -> (r: bool)
        ensures
            r == checklist_done(self.checklist),
    {
        match &self.checklist {
            None => true,
            Some(cl) => {
                let mut i: usize = 0;
                while i < cl.len()
                    invariant
                        self.checklist == Some(*cl),
                        i <= cl@.len(),
                        forall|j: int| 0 <= j < i ==> (#[trigger] cl@[j]).completed,
                    decreases cl@.len() - i,
                {
                    if !cl[i].completed {
                        assert(self.checklist->0@[i as int] == cl@[i as int]);
                        return false;
                    }
                    i = i + 1;
                }
                true
            },
        }
    }

    /// Whether the task is due on `today`: never once completed; every day for
    /// the frequency `daily` and for frequencies other than `weekly`; for
    /// `weekly`, on the weekdays of its mask, and on every day while a
    /// Sunday-only task has an unfinished checklist.
    pub fn is_due_today(&self, today: &Date) -> (r: bool)
        ensures
            r == self.spec_due_on(today.weekday()),
    {
        if let Some(done) = self.completed {
            if done {
                return false;
            }
        }
        if same_text(self.frequency.as_str(), "daily") {
            true
        } else if same_text(self.frequency.as_str(), "weekly") {
            if self.repeat.is_today_on(today) {
                true
            } else if self.repeat.is_only_sunday() {
                !self.is_checklist_done()
            } else {
                false
            }
        } else {
            true
        }
    }

    /// Whether the task is due on the reference day of the moment of the call.
    pub fn is_due(&self) -> (r: bool)
        ensures
            exists|d: Date| d.wf() && r == self.spec_due_on(#[trigger] d.weekday()),
            is_completed(self.completed) ==> !r,
            !self.is_weekly() ==> r == !is_completed(self.completed),
    {
        let d = today();
        self.is_due_today(&d)
    }

    /// The due date shown for the task on `today`: today where its mask holds
    /// today's weekday, else the coming Sunday for a weekly task, and none
    /// where the task is not due.
    pub fn due_date_on(&self, today: &Date) -> (r: Option<Date>)
        requires
            today.wf(),
            self.due_day_in_range(*today),
        ensures
            r is Some <==> self.spec_due_day(*today) is Some,
            r is Some ==> r->0.days == self.spec_due_day(*today)->0 && r->0.wf(),
    {
        let due = self.is_due_today(today);
        if due && self.repeat.is_today_on(today) {
            Some(*today)
        } else if due && same_text(self.frequency.as_str(), "weekly") {
            let k: i32 = ((7 - today.weekday().days_from_sunday()) % 7) as i32;
            Some(Date { days: today.days + k })
        } else {
            None
        }
    }

    /// The recurring task in the canonical form on `today`: a task of kind
    /// `Daily`, with the due date of `due_date_on` written as `YYYY-MM-DD`.
    pub fn to_todo_on(&self, today: &Date) -> (r: Todo)
        requires
            today.wf(),
            self.due_day_in_range(*today),
        ensures
            self.converted_on(r, *today),
    {
        let due_date = match self.due_date_on(today) {
            Some(d) => Some(iso_date(d)),
            None => None,
        };
        Todo {
            name: self.description.clone(),
            descr: Some(self.notes.clone()),
            tags: copy_strings(&self.tags),
            todo_type: TodoTypes::Daily,
            checklist: convert_checklist(&self.checklist),
            due_date,
            done: match self.completed {
                Some(c) => c,
                None => false,
            },
        }
    }
}

/// A task of frequency `daily` is due on every weekday unless it is completed,
/// and then on none.
pub proof fn lemma_daily_due_every_day(d: Daily)
    requires
        d.is_daily(),
    ensures
        forall|w: Weekday| #[trigger] d.spec_due_on(w) == !is_completed(d.completed),
{
}

/// A weekly task whose mask holds all seven days is due on every weekday while
/// it is not completed.
pub proof fn lemma_weekly_all_week_due(d: Daily)
    requires
        d.is_weekly(),
        d.repeat.spec_is_all_week(),
        !is_completed(d.completed),
    ensures
        forall|w: Weekday| #[trigger] d.spec_due_on(w),
{
}

/// No checklist, or an empty one, is complete; one with an entry not done is not.
pub proof fn lemma_checklist_completeness(cl: Option<Vec<Checklist>>)
    ensures
        cl is None ==> checklist_done(cl),
        cl is Some && cl->0@.len() == 0 ==> checklist_done(cl),
        (cl is Some && exists|i: int| 0 <= i < cl->0@.len() && !(#[trigger] cl->0@[i]).completed)
            ==> !checklist_done(cl),
{
}

/// The recurring records that are due on `today`, in order.
pub open spec fn due_sources(ds: Seq<Daily>, today: Date) -> Seq<Daily>
    decreases ds.len(),
{
    if ds.len() == 0 {
        Seq::empty()
    } else {
        let rest = due_sources(ds.drop_last(), today);
        if ds.last().spec_due_on(today.weekday()) {
            rest.push(ds.last())
        } else {
            rest
        }
    }
}

/// The one-shot records in the canonical form, one for one.
pub fn todos_from_tasks(tasks: &Vec<Task>) -> (r: Vec<Todo>)
    ensures
        r@.len() == tasks@.len(),
        forall|i: int| 0 <= i < tasks@.len() ==> (#[trigger] tasks@[i]).converted(r@[i]),
{
    let mut r: Vec<Todo> = Vec::new();
    let mut i: usize = 0;
    while i < tasks.len()
        invariant
            i <= tasks@.len(),
            r@.len() == i,
            forall|j: int| 0 <= j < i ==> (#[trigger] tasks@[j]).converted(r@[j]),
        decreases tasks@.len() - i,
    {
        r.push(tasks[i].to_todo());
        i = i + 1;
    }
    r
}

/// The recurring records that are due on `today`, in order, in the canonical form.
pub fn due_todos(dailys: &Vec<Daily>, today: &Date) -> (r: Vec<Todo>)
    requires
        today.wf(),
        forall|i: int| 0 <= i < dailys@.len() ==> (#[trigger] dailys@[i]).due_day_in_range(*today),
    ensures
        r@.len() == due_sources(dailys@, *today).len(),
        forall|i: int|
            0 <= i < r@.len() ==> (#[trigger] due_sources(dailys@, *today)[i]).converted_on(
                r@[i],
                *today,
            ),
{
    let mut r: Vec<Todo> = Vec::new();
    let mut i: usize = 0;
    while i < dailys.len()
        invariant
            today.wf(),
            forall|k: int| 0 <= k < dailys@.len() ==> (#[trigger] dailys@[k]).due_day_in_range(*today),
            i <= dailys@.len(),
            r@.len() == due_sources(dailys@.subrange(0, i as int), *today).len(),
            forall|j: int|
                0 <= j < r@.len() ==> (#[trigger] due_sources(dailys@.subrange(0, i as int), *today)[j]).converted_on(
                    r@[j],
                    *today,
                ),
        decreases dailys@.len() - i,
    {
        let ghost before = due_sources(dailys@.subrange(0, i as int), *today);
        proof {
            assert(dailys@.subrange(0, i + 1).drop_last() =~= dailys@.subrange(0, i as int));
            assert(dailys@.subrange(0, i + 1).last() == dailys@[i as int]);
        }
        if dailys[i].is_due_today(today) {
            r.push(dailys[i].to_todo_on(today));
            proof {
                let after = due_sources(dailys@.subrange(0, i + 1), *today);
                assert(after == before.push(dailys@[i as int]));
                assert forall|j: int| 0 <= j < r@.len() implies (#[trigger] after[j]).converted_on(
                    r@[j],
                    *today,
                ) by {
                    if j < before.len() {
                        assert(after[j] == before[j]);
                    }
                }
            }
        }
        i = i + 1;
    }
    assert(dailys@.subrange(0, dailys@.len() as int) =~= dailys@);
    r
}

} // verus!
