use chrono::Datelike;

use aide::{reference_date, LocalDateTime, Weekday};

use aide::{
    convert_checklist, due_todos, todos_from_tasks, CheckListItem, Checklist, Daily, Date, Repeat,
    Task, TaskTypes, TodoTypes,
};

fn date(y: i32, m: u32, d: u32) -> Date {
    Date::from_days(chrono::NaiveDate::from_ymd_opt(y, m, d).unwrap().num_days_from_ce()).unwrap()
}

fn sunday_only() -> Repeat {
    Repeat { su: true, s: false, f: false, th: false, w: false, t: false, m: false }
}

fn all_week() -> Repeat {
    Repeat { su: true, s: true, f: true, th: true, w: true, t: true, m: true }
}

fn daily(repeat: Repeat, frequency: &str) -> Daily {
    Daily {
        id: "ID".to_string(),
        description: "Short Description".to_string(),
        task_type: TaskTypes::Daily,
        notes: "Long Description".to_string(),
        tags: Vec::new(),
        checklist: None,
        completed: None,
        repeat,
        frequency: frequency.to_string(),
        next_due: Vec::new(),
        every: 1,
    }
}

fn item(completed: bool) -> Checklist {
    Checklist { completed, text: "Checklist item 1".to_string(), id: "ignored".to_string() }
}

#[test]
fn test_checklist_conversion() {
    let input = Checklist {
        completed: true,
        text: "Checklist item 1".to_string(),
        id: "ignored".to_string(),
    };
    let uut = CheckListItem::from(&input);
    assert_eq!(uut.done, input.completed);
    assert_eq!(uut.name, input.text);
}

#[test]
fn test_checklist_vector_conversion() {
    let cl1 = Checklist {
        completed: true,
        text: "Checklist item 1".to_string(),
        id: "ignored".to_string(),
    };
    let cl2 = Checklist {
        completed: false,
        text: "Checklist item 2".to_string(),
        id: "ignored".to_string(),
    };
    let input = vec![cl1, cl2];
    let uut: Vec<CheckListItem> = input.iter().map(|cl| cl.into()).collect();
    assert_eq!(uut.len(), 2);
    assert_eq!(uut[0].done, input[0].completed);
    assert_eq!(uut[0].name, input[0].text);
    assert_eq!(uut[1].done, input[1].completed);
    assert_eq!(uut[1].name, input[1].text);
}

#[test]
fn test_due_daily_with_dates() {
    let mut uut = daily(sunday_only(), "weekly");
    // without a checklist, it's a sunday only thing
    // 2021-02-27: saturday
    let saturday = date(2021, 2, 27);
    assert!(!uut.is_due_today(&saturday));
    // 2021-02-28: sunday
    let sunday = date(2021, 2, 28);
    assert!(uut.is_due_today(&sunday));
    // with a checklist, it's a weekly thing
    uut.checklist = Some(vec![item(false)]);
    assert!(!uut.is_checklist_done());
    assert!(uut.repeat.is_only_sunday());
    assert!(!uut.repeat.is_today_on(&saturday));
    assert!(uut.repeat.is_today_on(&sunday));
    assert!(uut.is_due_today(&saturday));
    assert!(uut.is_due_today(&sunday));
    // with a completed checklist, it's done, but not the task
    uut.checklist = Some(vec![item(true)]);
    assert!(uut.is_checklist_done());
    assert!(uut.repeat.is_only_sunday());
    assert!(!uut.repeat.is_today_on(&saturday));
    assert!(uut.repeat.is_today_on(&sunday));
    assert!(!uut.is_due_today(&saturday));
    assert!(uut.is_due_today(&sunday));
}

#[test]
fn test_due_daily() {
    let mut uut = daily(all_week(), "weekly");
    assert!(uut.is_due());
    uut.completed = Some(false);
    assert!(uut.is_due());
    uut.completed = Some(true);
    assert!(!uut.is_due());
}

#[test]
fn weekdays_of_known_dates() {
    assert_eq!(date(2021, 2, 27).weekday(), Weekday::Sat);
    assert_eq!(date(2021, 2, 28).weekday(), Weekday::Sun);
    assert_eq!(date(2021, 3, 1).weekday(), Weekday::Mon);
    assert_eq!(date(1, 1, 1).weekday(), Weekday::Mon);
    assert_eq!(date(0, 12, 31).weekday(), Weekday::Sun);
    assert_eq!(date(-1, 6, 15).weekday(), Weekday::Tue);
}

#[test]
fn sunday_only_mask_without_checklist() {
    let uut = daily(sunday_only(), "weekly");
    assert!(uut.is_due_today(&date(2021, 2, 28)));
    assert!(!uut.is_due_today(&date(2021, 2, 27)));
}

#[test]
fn sunday_only_mask_with_open_checklist() {
    let mut uut = daily(sunday_only(), "weekly");
    uut.checklist = Some(vec![item(false)]);
    assert!(uut.is_due_today(&date(2021, 2, 27)));
    assert!(uut.is_due_today(&date(2021, 2, 28)));
}

#[test]
fn sunday_only_mask_with_done_checklist() {
    let mut uut = daily(sunday_only(), "weekly");
    uut.checklist = Some(vec![item(true)]);
    assert!(!uut.is_due_today(&date(2021, 2, 27)));
    assert!(uut.is_due_today(&date(2021, 2, 28)));
}

#[test]
fn completed_daily_is_never_due() {
    let mut uut = daily(all_week(), "daily");
    uut.completed = Some(true);
    for d in 1..=7 {
        assert!(!uut.is_due_today(&date(2021, 3, d)));
    }
    uut.completed = None;
    for d in 1..=7 {
        assert!(uut.is_due_today(&date(2021, 3, d)));
    }
}

#[test]
fn full_week_weekly_is_due_every_day() {
    let uut = daily(all_week(), "weekly");
    for d in 1..=7 {
        assert!(uut.is_due_today(&date(2021, 3, d)));
    }
    assert!(uut.repeat.is_all_week());
    assert!(!sunday_only().is_all_week());
}

#[test]
fn other_frequency_is_always_due() {
    let uut = daily(Repeat { su: false, s: false, f: false, th: false, w: false, t: false, m: false }, "monthly");
    assert!(uut.is_due_today(&date(2021, 3, 3)));
}

#[test]
fn weekly_other_mask_not_due_off_day() {
    let mut r = sunday_only();
    r.su = false;
    r.w = true;
    let mut uut = daily(r, "weekly");
    uut.checklist = Some(vec![item(false)]);
    // 2021-03-03 is a Wednesday, 2021-03-04 a Thursday
    assert!(uut.is_due_today(&date(2021, 3, 3)));
    assert!(!uut.is_due_today(&date(2021, 3, 4)));
}

#[test]
fn checklist_completeness() {
    let mut uut = daily(all_week(), "daily");
    assert!(uut.is_checklist_done());
    uut.checklist = Some(Vec::new());
    assert!(uut.is_checklist_done());
    uut.checklist = Some(vec![item(true), item(false)]);
    assert!(!uut.is_checklist_done());
    uut.checklist = Some(vec![item(true), item(true)]);
    assert!(uut.is_checklist_done());
}

#[test]
fn due_date_is_today_or_next_sunday() {
    let mut uut = daily(sunday_only(), "weekly");
    uut.checklist = Some(vec![item(false)]);
    let saturday = date(2021, 2, 27);
    let sunday = date(2021, 2, 28);
    assert_eq!(uut.due_date_on(&saturday), Some(sunday));
    assert_eq!(uut.due_date_on(&sunday), Some(sunday));
    let todo = uut.to_todo_on(&saturday);
    assert_eq!(todo.due_date, Some("2021-02-28".to_string()));
    assert_eq!(todo.todo_type, TodoTypes::Daily);
    assert_eq!(todo.name, "Short Description");
    assert_eq!(todo.descr, Some("Long Description".to_string()));
    assert_eq!(todo.checklist.len(), 1);
    assert!(!todo.checklist[0].done);
    assert!(!todo.done);
    let todo = uut.to_todo_on(&sunday);
    assert_eq!(todo.due_date, Some("2021-02-28".to_string()));
}

#[test]
fn due_date_of_daily_and_of_tasks_not_due() {
    let uut = daily(all_week(), "daily");
    let wednesday = date(2021, 3, 3);
    assert_eq!(uut.to_todo_on(&wednesday).due_date, Some("2021-03-03".to_string()));
    let mut done = daily(sunday_only(), "weekly");
    done.completed = Some(true);
    assert_eq!(done.due_date_on(&date(2021, 2, 28)), None);
    assert_eq!(done.to_todo_on(&date(2021, 2, 28)).due_date, None);
    assert!(done.to_todo_on(&date(2021, 2, 28)).done);
    let mut r = sunday_only();
    r.su = false;
    r.m = true;
    let monday_only = daily(r, "other");
    assert_eq!(monday_only.due_date_on(&date(2021, 3, 3)), None);
}

#[test]
fn reference_date_moves_early_hours_back() {
    let sunday = date(2021, 2, 28);
    let early = LocalDateTime { date: sunday, seconds: 3 * 3600 + 59 * 60 };
    assert_eq!(reference_date(early), date(2021, 2, 27));
    let four = LocalDateTime { date: sunday, seconds: 4 * 3600 };
    assert_eq!(reference_date(four), sunday);
    assert!(aide::today().weekday() == aide::today().weekday());
}

#[test]
fn tasks_convert_one_for_one() {
    let task = Task {
        id: "t1".to_string(),
        description: "Write".to_string(),
        task_type: TaskTypes::Todo,
        notes: "notes".to_string(),
        tags: vec!["a".to_string(), "b".to_string()],
        checklist: Some(vec![item(true)]),
        completed: Some(true),
    };
    let todos = todos_from_tasks(&vec![task]);
    assert_eq!(todos.len(), 1);
    assert_eq!(todos[0].name, "Write");
    assert_eq!(todos[0].descr, Some("notes".to_string()));
    assert_eq!(todos[0].tags, vec!["a".to_string(), "b".to_string()]);
    assert_eq!(todos[0].todo_type, TodoTypes::Task);
    assert_eq!(todos[0].due_date, None);
    assert!(todos[0].done);
    assert_eq!(todos[0].checklist[0].name, "Checklist item 1");
    assert!(convert_checklist(&None).is_empty());
}

#[test]
fn only_due_dailys_are_kept() {
    let saturday = date(2021, 2, 27);
    let mut open = daily(sunday_only(), "weekly");
    open.description = "open".to_string();
    open.checklist = Some(vec![item(false)]);
    let mut closed = daily(sunday_only(), "weekly");
    closed.description = "closed".to_string();
    let every = daily(all_week(), "daily");
    let todos = due_todos(&vec![open, closed, every], &saturday);
    assert_eq!(todos.len(), 2);
    assert_eq!(todos[0].name, "open");
    assert_eq!(todos[1].name, "Short Description");
}
