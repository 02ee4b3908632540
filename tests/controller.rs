use todo_fetch::app::{fetch_outcome, Command, FetchError, FetchState, Msg, ToDoApp};
use todo_fetch::list::{ListEntry, ListView};
use todo_fetch::todo::{duplicate_all, ToDo};

fn item(user_id: u64, id: u64, title: &str, completed: bool) -> ToDo {
    ToDo::new(user_id, id, title.to_string(), completed)
}

#[test]
fn create_starts_loading_and_fetches() {
    let (app, cmd) = ToDoApp::create();
    assert_eq!(*app.state(), FetchState::Loading);
    assert_eq!(cmd, Command::Fetch);
    assert_eq!(app.todos(), None);
    assert!(app.render().list.is_empty());
}

#[test]
fn success_loads_one_item() {
    let (mut app, _) = ToDoApp::create();
    let cmd = app.update(Msg::Resp(Ok(vec![item(1, 1, "A", false)])));
    assert_eq!(cmd, Command::Nothing);
    assert_eq!(*app.state(), FetchState::Loaded(vec![item(1, 1, "A", false)]));
    let page = app.render();
    assert_eq!(page.list.len(), 1);
    assert_eq!(page.list.entries[0], ListEntry { title: "A".to_string(), completed: false });
}

#[test]
fn empty_success_keeps_refresh_control() {
    let (mut app, _) = ToDoApp::create();
    app.on_fetch_complete(Ok(vec![]));
    assert_eq!(*app.state(), FetchState::Loaded(vec![]));
    let page = app.render();
    assert!(page.list.is_empty());
    assert!(matches!(page.refresh.on_click(), Msg::MakeReq));
}

#[test]
fn transport_error_fails() {
    let (mut app, _) = ToDoApp::create();
    app.update(Msg::Resp(Err(FetchError::Transport)));
    assert_eq!(*app.state(), FetchState::Failed);
    assert!(app.render().list.is_empty());
    assert_eq!(app.todos(), None);
}

#[test]
fn malformed_payload_fails() {
    let (mut app, _) = ToDoApp::create();
    app.on_fetch_complete(Ok(vec![item(2, 5, "old", true)]));
    app.refresh();
    app.on_fetch_complete(Err(FetchError::Decode));
    assert_eq!(*app.state(), FetchState::Failed);
    assert_eq!(app.render().list.len(), 0);
}

#[test]
fn refresh_supersedes_loaded_items() {
    let (mut app, _) = ToDoApp::create();
    app.on_fetch_complete(Ok(vec![item(1, 1, "A", false), item(1, 2, "B", true)]));
    assert_eq!(app.render().list.len(), 2);
    let cmd = app.update(Msg::MakeReq);
    assert_eq!(cmd, Command::Fetch);
    assert_eq!(*app.state(), FetchState::Loading);
    assert!(app.render().list.is_empty());
}

#[test]
fn refresh_while_loading_stays_loading() {
    let (mut app, _) = ToDoApp::create();
    assert_eq!(app.refresh(), Command::Fetch);
    assert_eq!(*app.state(), FetchState::Loading);
}

#[test]
fn render_twice_is_identical() {
    let (mut app, _) = ToDoApp::create();
    app.on_fetch_complete(Ok(vec![item(3, 7, "write", true), item(3, 8, "read", false)]));
    let first = app.render();
    let second = app.render();
    assert_eq!(first, second);
    assert_eq!(first.list.entries[1], ListEntry { title: "read".to_string(), completed: false });
}

#[test]
fn late_first_completion_wins() {
    let (mut app, _) = ToDoApp::create();
    app.refresh();
    app.refresh();
    app.on_fetch_complete(Ok(vec![item(1, 2, "second", false)]));
    app.on_fetch_complete(Ok(vec![item(1, 1, "first", false)]));
    assert_eq!(*app.state(), FetchState::Loaded(vec![item(1, 1, "first", false)]));
    assert_eq!(app.render().list.entries[0].title, "first");
}

#[test]
fn in_order_second_completion_wins() {
    let (mut app, _) = ToDoApp::create();
    app.refresh();
    app.refresh();
    app.on_fetch_complete(Ok(vec![item(1, 1, "first", false)]));
    app.on_fetch_complete(Err(FetchError::Transport));
    assert_eq!(*app.state(), FetchState::Failed);
}

#[test]
fn late_error_overwrites_loaded() {
    let (mut app, _) = ToDoApp::create();
    app.on_fetch_complete(Ok(vec![item(1, 1, "kept?", false)]));
    app.on_fetch_complete(Err(FetchError::Decode));
    assert_eq!(*app.state(), FetchState::Failed);
}

#[test]
fn change_requests_no_render() {
    let (mut app, _) = ToDoApp::create();
    assert!(!app.change(()));
    assert_eq!(*app.state(), FetchState::Loading);
}

#[test]
fn todos_copies_loaded_items() {
    let (mut app, _) = ToDoApp::create();
    let items = vec![item(4, 1, "x", true), item(4, 2, "y", false)];
    app.on_fetch_complete(Ok(duplicate_all(&items)));
    assert_eq!(app.todos(), Some(items));
}

#[test]
fn list_view_absent_is_empty() {
    assert!(ListView::render(None).is_empty());
    assert_eq!(ListView::render(Some(&vec![])).len(), 0);
}

#[test]
fn list_view_keeps_order_and_status() {
    let items = vec![item(9, 3, "c", true), item(9, 1, "a", false), item(8, 2, "b", true)];
    let view = ListView::render(Some(&items));
    let titles: Vec<&str> = view.entries.iter().map(|e| e.title.as_str()).collect();
    assert_eq!(titles, vec!["c", "a", "b"]);
    let done: Vec<bool> = view.entries.iter().map(|e| e.completed).collect();
    assert_eq!(done, vec![true, false, true]);
}

#[test]
fn duplicate_copies_all_fields() {
    let t = item(u64::MAX, 0, "edge", true);
    let d = t.duplicate();
    assert_eq!(d, t);
    assert_eq!(d.user_id, u64::MAX);
    assert_eq!(d.title, "edge");
}

#[test]
fn outcome_success_status_keeps_body() {
    let body = Ok(vec![item(1, 1, "A", false)]);
    assert_eq!(fetch_outcome(200, body), Ok(vec![item(1, 1, "A", false)]));
    assert_eq!(fetch_outcome(299, Err(FetchError::Decode)), Err(FetchError::Decode));
}

#[test]
fn outcome_failure_status_is_transport_error() {
    assert_eq!(fetch_outcome(404, Ok(vec![item(1, 1, "A", false)])), Err(FetchError::Transport));
    assert_eq!(fetch_outcome(300, Err(FetchError::Decode)), Err(FetchError::Transport));
    assert_eq!(fetch_outcome(199, Ok(vec![])), Err(FetchError::Transport));
}
