//! Task aggregation for the aide tools: a canonical task model, the weekday
//! recurrence rules of repeating tasks, a cache of label names, the merge of
//! task sources, the routing of the task and weather services, the choices
//! of the weather reports, and the slot accounting of a bounded pool of
//! network clients.

pub mod aggregate;
pub mod client;
pub mod date;
pub mod habitica;
pub mod kind;
pub mod labels;
pub mod listing;
pub mod pool;
pub mod route;
pub mod text;
pub mod todo;
pub mod weather;

pub use aggregate::{
    all_tasks, carries_tag, merge_tasks, select_with_label, tasks_of_kind, tasks_with_label,
    TaskError,
};
pub use client::CliCommonOpt;
pub use date::{reference_date, Date, LocalDateTime, Weekday, MAX_DAYS, MIN_DAYS, SHIFT_SECONDS};
pub use habitica::{
    convert_checklist, due_todos, lemma_checklist_completeness, lemma_daily_due_every_day,
    lemma_single_flag_only_sunday, lemma_weekly_all_week_due, today, todos_from_tasks, Checklist,
    Daily, Repeat, RespDaily, RespTags, RespTask, Tag, Task, TaskTypes, UsersTaskTypes,
};
pub use kind::{
    DataResponse, DataResponseRef, GetModuleKindResponse, ModuleKind, ResultResponse, WeatherTypes,
};
pub use labels::{lemma_lookup_name_first_inserted, lemma_lookup_name_single, TagCache};
pub use listing::{
    get_todos_count, todo_to_multi_line, todo_to_one_line, todo_to_print_text, GetTitle,
    ToStringVec, TodoStatefulList,
};
pub use pool::{
    lemma_full_pool_waits_for_release, lemma_release_returns_one_permit, PoolSlots,
    ReqwestPoolBuilder, ReqwestPoolError, MAX_POOL_SIZE,
};
pub use route::{path_tail_of, route, split_on_slash, Route};
pub use text::same_text;
pub use todo::{CheckListItem, ParseError, Todo, TodoTypes};
pub use weather::{
    location_label, rain_hours, use_tomorrow, weather_route, HourMark, WeatherRoute,
};
