use std::str::FromStr;

use aide::client::{filter_by_label, todo_paths, TodoTypes as ClientTodoTypes};
use aide::{CliCommonOpt, ModuleKind, ParseError, TodoTypes, WeatherTypes};

#[test]
fn module_kind_from_str() {
    assert_eq!(ModuleKind::Todo, ModuleKind::from_str("Todo").unwrap());
    assert_eq!(ModuleKind::Todo, ModuleKind::from_str("todo").unwrap());
    assert_eq!(
        ModuleKind::Reminder,
        ModuleKind::from_str("Reminder").unwrap()
    );
    assert_eq!(
        ModuleKind::Reminder,
        ModuleKind::from_str("reminder").unwrap()
    );
    assert_eq!(
        ModuleKind::Weather,
        ModuleKind::from_str("Weather").unwrap()
    );
    assert_eq!(
        ModuleKind::Weather,
        ModuleKind::from_str("weather").unwrap()
    );
}

#[test]
fn todo_type_from_str() {
    let uut: TodoTypes = TodoTypes::from_str("Task").unwrap();
    assert_eq!(TodoTypes::Task, uut);
    let uut: TodoTypes = TodoTypes::from_str("task").unwrap();
    assert_eq!(TodoTypes::Task, uut);
}

#[test]
fn it_works() {
    let result = 2 + 2;
    assert_eq!(result, 4);
}

#[test]
fn kind_names_ignore_ascii_case_only() {
    assert_eq!(TodoTypes::parse("WEEKLY"), Ok(TodoTypes::Weekly));
    assert_eq!(TodoTypes::parse("dAiLy"), Ok(TodoTypes::Daily));
    assert_eq!(TodoTypes::parse("daily "), Err(ParseError::VariantNotFound));
    assert_eq!(TodoTypes::parse(""), Err(ParseError::VariantNotFound));
    assert_eq!(ModuleKind::parse("GENERIC"), Ok(ModuleKind::Generic));
    assert_eq!(ModuleKind::parse("Events"), Err(ParseError::VariantNotFound));
    assert_eq!(WeatherTypes::from_str("rain"), Ok(WeatherTypes::Rain));
    assert_eq!(WeatherTypes::default(), WeatherTypes::Current);
    assert_eq!(TodoTypes::default(), TodoTypes::Task);
    assert_eq!(ClientTodoTypes::from_str("periodic"), Ok(ClientTodoTypes::Periodic));
}

#[test]
fn kind_variant_names() {
    assert_eq!(TodoTypes::variants(), vec!["Task", "Daily", "Weekly"]);
}

#[test]
fn proto_str_follows_tls_flag() {
    let mut opt = CliCommonOpt { host_addr: "localhost".to_string(), port: 80, notls: false };
    assert_eq!(opt.get_proto_str(), "https");
    opt.notls = true;
    assert_eq!(opt.get_proto_str(), "http");
}

#[test]
fn client_paths_per_kind() {
    assert_eq!(todo_paths(None), vec!["todos"]);
    assert_eq!(todo_paths(Some(ClientTodoTypes::Task)), vec!["types/task/todos"]);
    assert_eq!(
        todo_paths(Some(ClientTodoTypes::Periodic)),
        vec!["types/daily/todos", "types/weekly/todos"]
    );
}

#[test]
fn client_label_filter() {
    let mut a = aide::Todo::from_name("a".to_string());
    a.tags = vec!["home".to_string()];
    let b = aide::Todo::from_name("b".to_string());
    let todos = vec![a, b];
    let some = filter_by_label(&todos, &Some("home".to_string()));
    assert_eq!(some.len(), 1);
    assert_eq!(some[0].name, "a");
    let all = filter_by_label(&todos, &None);
    assert_eq!(all.len(), 2);
    let none = filter_by_label(&todos, &Some("work".to_string()));
    assert!(none.is_empty());
}
