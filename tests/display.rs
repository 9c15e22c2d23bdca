use aide::{get_todos_count, todo_to_multi_line, todo_to_one_line, CheckListItem, GetTitle, ToStringVec, Todo, TodoStatefulList, TodoTypes};

fn sample() -> Todo {
    let mut t = Todo::from_name("Buy milk".to_string());
    t.tags = vec!["home".to_string(), "shop".to_string()];
    t.todo_type = TodoTypes::Weekly;
    t.checklist = vec![
        CheckListItem { name: "milk".to_string(), done: false },
        CheckListItem { name: "bread".to_string(), done: true },
    ];
    t.due_date = Some("2021-02-28".to_string());
    t
}

#[test]
fn text_of_a_task() {
    assert_eq!(
        sample().to_text(),
        "Buy milk\n  labels: home shop \n  due date: 2021-02-28\n  checklist:\n  o milk\n  x bread\n"
    );
    assert_eq!(Todo::from_name("x".to_string()).to_text(), "x\n  labels: none\n");
    assert_eq!(Todo::default().name, "");
}

#[test]
fn one_and_multi_line_forms() {
    let t = sample();
    assert_eq!(todo_to_one_line(&&t), "[W] Buy milk");
    assert_eq!(
        todo_to_multi_line(&&t),
        "[W] Buy milk\n  [] milk\n  due date: 2021-02-28\n  labels: home, shop\n"
    );
    let bare = Todo::from_name("x".to_string());
    assert_eq!(todo_to_multi_line(&&bare), "[T] x\n");
}

#[test]
fn count_of_open_work() {
    let t = sample();
    let bare = Todo::from_name("x".to_string());
    let mut all_done = Todo::from_name("y".to_string());
    all_done.checklist = vec![CheckListItem { name: "z".to_string(), done: true }];
    assert_eq!(get_todos_count(&[&t, &bare, &all_done]), 2);
    assert_eq!(get_todos_count(&[]), 0);
}

#[test]
fn stateful_list_lines_and_selection() {
    let a = Todo::from_name("a".to_string());
    let b = sample();
    let list = [&a, &b];
    let mut view = TodoStatefulList::new(&list, 1);
    assert_eq!(view.get_title(), "Todo");
    let lines = view.to_string_vec();
    assert_eq!(lines, vec!["[T] a".to_string(), todo_to_multi_line(&&b)]);
    view.select_next();
    assert_eq!(view.state, 0);
    view.select_previous();
    assert_eq!(view.state, 1);
    view.select_previous();
    assert_eq!(view.state, 0);
}
