use aide::{path_tail_of, route, split_on_slash, todo_to_print_text, CheckListItem, Route, Todo, TodoTypes};

#[test]
fn split_like_str_split() {
    assert_eq!(split_on_slash("/v1/types"), vec!["", "v1", "types"]);
    assert_eq!(split_on_slash(""), vec![""]);
    assert_eq!(split_on_slash("a//b/"), vec!["a", "", "b", ""]);
    assert_eq!(path_tail_of("/v1/types/daily/todos"), vec!["daily", "todos"]);
    assert_eq!(path_tail_of("//v1/labels/home"), vec!["home"]);
    assert!(path_tail_of("/v1").is_empty());
}

#[test]
fn routes_of_requests() {
    assert!(matches!(route(false, "/v1/todos"), Route::MethodNotAllowed));
    assert!(matches!(route(true, "/healthz"), Route::Healthz));
    assert!(matches!(route(true, "/v2/todos"), Route::InvalidPath));
    assert!(matches!(route(true, "/v1/types"), Route::TypeNames));
    assert!(matches!(route(true, "/v1/types/weekly/todos"), Route::TodosOfType(TodoTypes::Weekly)));
    assert!(matches!(route(true, "/v1/types/Task/todos"), Route::TodosOfType(TodoTypes::Task)));
    match route(true, "/v1/types/monthly/todos") {
        Route::TypeNotSupported(t) => assert_eq!(t, "monthly"),
        r => panic!("unexpected route {:?}", r),
    }
    match route(true, "/v1/types/daily") {
        Route::WrongLength(n) => assert_eq!(n, 1),
        r => panic!("unexpected route {:?}", r),
    }
    match route(true, "/v1/types/daily/list") {
        Route::UnrecognizedWord(w) => assert_eq!(w, "list"),
        r => panic!("unexpected route {:?}", r),
    }
    assert!(matches!(route(true, "/v1/labels"), Route::LabelNames));
    match route(true, "/v1/labels/home/todos") {
        Route::TodosWithLabel(l) => assert_eq!(l, "home"),
        r => panic!("unexpected route {:?}", r),
    }
    assert!(matches!(route(true, "/v1/todos"), Route::AllTodos));
    assert!(matches!(route(true, "/v1/todos/x"), Route::PathNotRecognized));
    assert!(matches!(route(true, "/v1/other"), Route::NotFound));
}

#[test]
fn printed_form_of_a_task() {
    let mut t = Todo::from_name("Buy milk".to_string());
    t.todo_type = TodoTypes::Daily;
    t.checklist = vec![
        CheckListItem { name: "milk".to_string(), done: false },
        CheckListItem { name: "bread".to_string(), done: true },
    ];
    t.due_date = Some("2021-02-28".to_string());
    assert_eq!(todo_to_print_text(&&t), "[D] Buy milk\n\tmilk\n\tdue date: 2021-02-28\n");
}
