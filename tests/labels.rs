use aide::{all_tasks, merge_tasks, tasks_of_kind, tasks_with_label, Tag, TagCache, TaskError, Todo, TodoTypes};

fn tag(id: &str, name: &str) -> Tag {
    Tag { name: name.to_string(), id: id.to_string() }
}

fn cache(tags: &[(&str, &str)]) -> TagCache {
    let mut c = TagCache::new();
    let v: Vec<Tag> = tags.iter().map(|(id, name)| tag(id, name)).collect();
    c.fill(&v);
    c
}

fn todo(name: &str, tags: &[&str], kind: TodoTypes) -> Todo {
    let mut t = Todo::from_name(name.to_string());
    t.tags = tags.iter().map(|s| s.to_string()).collect();
    t.todo_type = kind;
    t
}

#[test]
fn lookup_by_id_and_by_name() {
    let c = cache(&[("id-1", "daily"), ("id-2", "weekly"), ("id-3", "home")]);
    assert_eq!(c.len(), 3);
    assert_eq!(c.get_name("id-2"), Some("weekly".to_string()));
    assert_eq!(c.get_name("id-9"), None);
    assert_eq!(c.get_tag_id("home"), Some("id-3".to_string()));
    assert_eq!(c.get_tag_id("Home"), None);
    assert_eq!(c.get_tag_id("nothing"), None);
}

#[test]
fn lookup_by_name_finds_first_inserted() {
    let mut c = cache(&[("a", "shared"), ("b", "shared")]);
    assert_eq!(c.get_tag_id("shared"), Some("a".to_string()));
    c.insert("c".to_string(), "shared".to_string());
    assert_eq!(c.get_tag_id("shared"), Some("a".to_string()));
}

#[test]
fn fill_overwrites_same_id_in_place() {
    let mut c = cache(&[("a", "one"), ("b", "two")]);
    c.fill(&vec![tag("a", "uno"), tag("c", "three")]);
    assert_eq!(c.len(), 3);
    assert_eq!(c.get_name("a"), Some("uno".to_string()));
    assert_eq!(c.get_tag_id("one"), None);
    assert_eq!(c.get_tag_id("uno"), Some("a".to_string()));
    assert_eq!(c.user_labels(), vec!["uno".to_string(), "two".to_string(), "three".to_string()]);
}

#[test]
fn user_labels_leave_out_kind_names() {
    let c = cache(&[("1", "daily"), ("2", "Weekly"), ("3", "home"), ("4", "task")]);
    assert_eq!(c.user_labels(), vec!["home".to_string()]);
}

#[test]
fn rewrite_tags_in_place() {
    let c = cache(&[("id-1", "daily"), ("id-3", "home")]);
    let mut todos = vec![todo("a", &["id-1", "unknown", "id-3"], TodoTypes::Task), todo("b", &[], TodoTypes::Daily)];
    c.replace_tag_id(&mut todos);
    assert_eq!(todos[0].tags, vec!["daily".to_string(), "unknown".to_string(), "home".to_string()]);
    assert_eq!(todos[0].name, "a");
    assert!(todos[1].tags.is_empty());
    assert_eq!(todos[1].todo_type, TodoTypes::Daily);
}

#[test]
fn merge_keeps_labelled_recurring_tasks_after_one_shot_tasks() {
    let c = cache(&[("d", "daily"), ("w", "weekly"), ("h", "home")]);
    let todos = vec![todo("one-shot", &["h"], TodoTypes::Task)];
    let dailys = vec![
        todo("plain", &["h"], TodoTypes::Daily),
        todo("every day", &["d"], TodoTypes::Daily),
        todo("every week", &["h", "w"], TodoTypes::Daily),
        todo("both", &["d", "w"], TodoTypes::Daily),
    ];
    let merged = merge_tasks(todos, dailys, &c);
    let names: Vec<&str> = merged.iter().map(|t| t.name.as_str()).collect();
    assert_eq!(names, vec!["one-shot", "every day", "every week", "both"]);
    assert_eq!(merged[1].todo_type, TodoTypes::Daily);
    assert_eq!(merged[2].todo_type, TodoTypes::Weekly);
    assert_eq!(merged[3].todo_type, TodoTypes::Weekly);
    assert_eq!(merged[2].tags, vec!["h".to_string(), "w".to_string()]);
}

#[test]
fn merge_with_missing_labels_keeps_no_recurring_task() {
    let c = cache(&[("h", "home")]);
    let todos = vec![todo("one-shot", &[], TodoTypes::Task)];
    let dailys = vec![todo("r", &["h"], TodoTypes::Daily), todo("empty", &[""], TodoTypes::Daily)];
    let merged = merge_tasks(todos, dailys, &c);
    assert_eq!(merged.len(), 1);
    assert_eq!(merged[0].name, "one-shot");
}

#[test]
fn all_tasks_show_label_names() {
    let c = cache(&[("d", "daily"), ("w", "weekly")]);
    let todos = vec![todo("one-shot", &["x"], TodoTypes::Task)];
    let dailys = vec![todo("r", &["w"], TodoTypes::Daily)];
    let all = all_tasks(todos, dailys, &c);
    assert_eq!(all.len(), 2);
    assert_eq!(all[0].tags, vec!["x".to_string()]);
    assert_eq!(all[1].tags, vec!["weekly".to_string()]);
    assert_eq!(all[1].todo_type, TodoTypes::Weekly);
}

#[test]
fn tasks_by_label() {
    let c = cache(&[("d", "daily"), ("w", "weekly"), ("h", "home")]);
    let todos = vec![todo("t1", &["h"], TodoTypes::Task), todo("t2", &[], TodoTypes::Task)];
    let dailys = vec![todo("r1", &["d", "h"], TodoTypes::Daily), todo("r2", &["h"], TodoTypes::Daily)];
    let r = tasks_with_label("home", todos, dailys, &c).unwrap();
    let names: Vec<&str> = r.iter().map(|t| t.name.as_str()).collect();
    assert_eq!(names, vec!["t1", "r1"]);
    assert_eq!(r[1].tags, vec!["daily".to_string(), "home".to_string()]);
    match tasks_with_label("work", Vec::new(), Vec::new(), &c) {
        Err(TaskError::LabelNotFound(l)) => assert_eq!(l, "work"),
        Ok(_) => panic!("a missing label is an error"),
    }
}

#[test]
fn tasks_by_kind() {
    let c = cache(&[("d", "daily"), ("w", "weekly")]);
    let dailys = || vec![todo("r1", &["d"], TodoTypes::Daily), todo("r2", &["w", "d"], TodoTypes::Daily)];
    let weekly = tasks_of_kind(TodoTypes::Weekly, Vec::new(), dailys(), &c).unwrap();
    assert_eq!(weekly.len(), 1);
    assert_eq!(weekly[0].name, "r2");
    assert_eq!(weekly[0].todo_type, TodoTypes::Weekly);
    assert_eq!(weekly[0].tags, vec!["weekly".to_string(), "daily".to_string()]);
    let daily = tasks_of_kind(TodoTypes::Daily, Vec::new(), dailys(), &c).unwrap();
    assert_eq!(daily.len(), 2);
    assert_eq!(daily[1].todo_type, TodoTypes::Daily);
    let tasks = tasks_of_kind(TodoTypes::Task, vec![todo("t", &["d"], TodoTypes::Task)], dailys(), &c).unwrap();
    assert_eq!(tasks.len(), 1);
    assert_eq!(tasks[0].tags, vec!["daily".to_string()]);
    let empty = cache(&[]);
    match tasks_of_kind(TodoTypes::Weekly, Vec::new(), dailys(), &empty) {
        Err(TaskError::LabelNotFound(l)) => assert_eq!(l, "weekly"),
        Ok(_) => panic!("a missing kind label is an error"),
    }
}
