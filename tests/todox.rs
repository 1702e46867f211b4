use todox::body::{body, toggle_completed_button};
use todox::memory::MemoryApp;
use todox::reply::{
    accepts_text, delete_completed, delete_todo, error_reply, get_body, get_todos, patch_todo,
    post_todo, toggle_completed, STATUS_BAD_REQUEST, STATUS_NOT_FOUND, STATUS_OK,
    STATUS_SERVER_ERROR,
};
use todox::state::UserState;
use todox::store::{StoreError, TodoStore};
use todox::todo::Todo;

fn todo(id: i64, text: &str, done: bool) -> Todo {
    Todo { id, text: text.to_string(), done }
}

#[test]
fn partial_renders_exact_fragment() {
    let html = todo(7, "a", false).partial();
    let expected = "<div class=\"flex my-4\" id=\"todo-7\">\
        <form class=\"flex flex-1\" hx-patch=\"/todo/7\" hx-target=\"#todo-7\" hx-swap=\"morph:outerHTML\">\
        <button type=\"submit\" class=\"flex-1 mr-4 p-4 rounded-xl max-w-sm mx-auto cursor-pointer bg-white\">a</button>\
        <input type=\"hidden\" name=\"text\" value=\"a\"></input>\
        <input type=\"hidden\" name=\"id\" value=\"7\"></input>\
        <input type=\"hidden\" name=\"done\" value=\"true\"></input>\
        </form>\
        <button class=\"text-white border text-2xl rounded-xl w-14 mx-auto\" hx-trigger=\"click\" hx-delete=\"/todo/7\" hx-target=\"#todo-7\" hx-swap=\"outerHTML\">x</button>\
        </div>";
    assert_eq!(html, expected);
}

#[test]
fn partial_of_done_item_is_struck_through() {
    let html = todo(12, "b", true).partial();
    assert!(html.contains("cursor-pointer line-through bg-slate-400\">b</button>"));
    assert!(html.contains("name=\"done\" value=\"false\""));
    assert!(html.contains("id=\"todo-12\""));
}

#[test]
fn partial_escapes_text() {
    let html = todo(1, "<b>&\"x\"", false).partial();
    assert!(html.contains(">&lt;b&gt;&amp;&quot;x&quot;</button>"));
    assert!(html.contains("value=\"&lt;b&gt;&amp;&quot;x&quot;\""));
    assert!(!html.contains("<b>"));
}

#[test]
fn partial_writes_extreme_ids() {
    assert!(todo(-45, "a", false).partial().contains("id=\"todo--45\""));
    assert!(todo(0, "a", false).partial().contains("id=\"todo-0\""));
    assert!(todo(i64::MAX, "a", false).partial().contains("/todo/9223372036854775807\""));
    assert!(todo(i64::MIN, "a", false).partial().contains("/todo/-9223372036854775808\""));
}

#[test]
fn list_template_respects_flag() {
    let todos = vec![todo(2, "second", true), todo(1, "first", false)];
    let all = Todo::list_template(&todos, false);
    assert_eq!(all, format!("{}{}", todos[0].partial(), todos[1].partial()));
    let hidden = Todo::list_template(&todos, true);
    assert_eq!(hidden, todos[1].partial());
    assert_eq!(Todo::list_template(&Vec::new(), false), "");
}

#[test]
fn button_shows_flag() {
    assert_eq!(
        toggle_completed_button(true),
        "<button class=\"flex-1 rounded-xl p-4 mr-4 bg-slate-400\" hx-post=\"/toggle-completed\" hx-swap=\"outerHTML\">Hide completed</button>"
    );
    assert_eq!(
        toggle_completed_button(false),
        "<button class=\"flex-1 rounded-xl p-4 mr-4 bg-white\" hx-post=\"/toggle-completed\" hx-swap=\"outerHTML\">Hide completed</button>"
    );
}

#[test]
fn body_holds_button_and_list() {
    let todos = vec![todo(3, "c", true)];
    let page = body(&todos, true);
    assert!(page.starts_with("<div hx-ext=\"morph\" class=\"max-w-md mx-auto m-6\"><h1 class=\"text-white text-6xl text-center\">todox</h1>"));
    assert!(page.contains(&toggle_completed_button(true)));
    assert!(page.ends_with("hx-swap=\"morph:innerHTML\"></div></div>"));
    let shown = body(&todos, false);
    assert!(shown.contains(&todos[0].partial()));
}

#[test]
fn add_empty_text_is_rejected_without_change() {
    let mut store = TodoStore::new();
    store.add("x").unwrap();
    let before = store.list(false);
    assert_eq!(store.add("").unwrap_err(), StoreError::Validation);
    let after = store.list(false);
    assert_eq!(after.len(), before.len());
    assert_eq!(after[0].text, before[0].text);
    assert_eq!(store.add("y").unwrap().id, 2);
}

#[test]
fn add_then_list_shows_item() {
    let mut store = TodoStore::new();
    let t = store.add("buy milk").unwrap();
    let all = store.list(false);
    assert_eq!(all.len(), 1);
    assert_eq!(all[0].text, "buy milk");
    assert!(!all[0].done);
    assert_eq!(all[0].id, t.id);
}

#[test]
fn list_is_newest_first() {
    let mut store = TodoStore::new();
    store.add("one").unwrap();
    store.add("two").unwrap();
    store.add("three").unwrap();
    let ids: Vec<i64> = store.list(false).iter().map(|t| t.id).collect();
    assert_eq!(ids, vec![3, 2, 1]);
}

#[test]
fn toggle_twice_restores_flag() {
    let mut store = TodoStore::new();
    let t = store.add("a").unwrap();
    let once = store.toggle_done(t.id).unwrap();
    assert!(once.done);
    assert!(store.get(t.id).unwrap().done);
    let twice = store.toggle_done(t.id).unwrap();
    assert!(!twice.done);
    assert!(!store.get(t.id).unwrap().done);
    assert_eq!(store.toggle_done(99).unwrap_err(), StoreError::NotFound);
}

#[test]
fn hidden_list_is_subset_without_done() {
    let mut store = TodoStore::new();
    let a = store.add("a").unwrap();
    store.add("b").unwrap();
    let c = store.add("c").unwrap();
    store.toggle_done(a.id).unwrap();
    store.toggle_done(c.id).unwrap();
    let all = store.list(false);
    let shown = store.list(true);
    assert_eq!(shown.len(), 1);
    for t in &shown {
        assert!(!t.done);
        assert!(all.iter().any(|u| u.id == t.id && u.text == t.text && u.done == t.done));
    }
}

#[test]
fn delete_all_done_leaves_no_done_item() {
    let mut store = TodoStore::new();
    let a = store.add("a").unwrap();
    store.add("b").unwrap();
    store.toggle_done(a.id).unwrap();
    assert!(store.delete_all_done());
    let all = store.list(false);
    assert_eq!(all.len(), 1);
    assert!(all.iter().all(|t| !t.done));
    assert!(!store.delete_all_done());
    assert_eq!(store.len(), 1);
}

#[test]
fn delete_missing_id_is_not_found() {
    let mut store = TodoStore::new();
    store.add("a").unwrap();
    assert_eq!(store.delete(5), Err(StoreError::NotFound));
    assert_eq!(store.len(), 1);
    assert_eq!(store.delete(1), Ok(()));
    assert_eq!(store.len(), 0);
    assert!(store.get(1).is_none());
}

#[test]
fn ids_are_not_reused() {
    let mut store = TodoStore::new();
    let a = store.add("a").unwrap();
    store.delete(a.id).unwrap();
    let b = store.add("b").unwrap();
    assert_eq!(b.id, 2);
}

#[test]
fn set_text_replaces_both_fields() {
    let mut store = TodoStore::new();
    let a = store.add("a").unwrap();
    let t = store.set_text(a.id, "z", true).unwrap();
    assert_eq!(t.text, "z");
    assert!(t.done);
    let got = store.get(a.id).unwrap();
    assert_eq!(got.text, "z");
    assert!(got.done);
    assert_eq!(store.set_text(9, "q", false).unwrap_err(), StoreError::NotFound);
}

#[test]
fn preference_toggle_twice_restores_flag() {
    let mut s = UserState::new(None);
    assert!(!s.hide_done);
    s.toggle();
    assert!(s.hide_done);
    s.toggle();
    assert!(!s.hide_done);
    assert!(UserState::new(Some(true)).hide_done);
    assert!(!UserState::new(Some(false)).hide_done);
}

#[test]
fn end_to_end_in_memory() {
    let mut app = MemoryApp::new();
    let posted = app.post_todo("a");
    assert_eq!(posted.status, STATUS_OK);
    let listed = app.get_todos();
    assert!(listed.body.contains(">a</button>"));
    assert!(listed.body.contains("cursor-pointer bg-white"));
    let patched = app.patch_todo(1);
    assert_eq!(patched.status, STATUS_OK);
    assert!(patched.refresh);
    assert!(app.get_todos().body.contains("line-through bg-slate-400\">a</button>"));
    let again = app.patch_todo(1);
    assert!(!again.refresh);
    assert!(again.body.contains("cursor-pointer bg-white\">a</button>"));
    app.patch_todo(1);
    let purged = app.delete_completed();
    assert_eq!(purged.status, STATUS_OK);
    assert!(purged.refresh);
    assert_eq!(app.get_todos().body, "");
}

#[test]
fn memory_routes_report_errors() {
    let mut app = MemoryApp::new();
    let r = app.post_todo("");
    assert_eq!(r.status, STATUS_BAD_REQUEST);
    assert_eq!(app.store.len(), 0);
    assert_eq!(app.patch_todo(4).status, STATUS_NOT_FOUND);
    assert_eq!(app.delete_todo(4).status, STATUS_NOT_FOUND);
    let r = app.delete_completed();
    assert_eq!(r.status, STATUS_OK);
    assert!(!r.refresh);
    let r = app.toggle_completed();
    assert!(r.refresh);
    assert_eq!(r.body, toggle_completed_button(true));
    assert!(app.get_body().body.contains("bg-slate-400"));
}

#[test]
fn hidden_preference_filters_memory_list() {
    let mut app = MemoryApp::new();
    app.post_todo("a");
    app.post_todo("b");
    app.patch_todo(1);
    app.toggle_completed();
    let body = app.get_todos().body;
    assert!(body.contains(">b</button>"));
    assert!(!body.contains(">a</button>"));
    assert_eq!(app.delete_todo(2).status, STATUS_OK);
    assert_eq!(app.get_todos().body, "");
}

#[test]
fn error_replies_map_statuses() {
    assert_eq!(error_reply(StoreError::Validation).status, STATUS_BAD_REQUEST);
    assert_eq!(error_reply(StoreError::NotFound).status, STATUS_NOT_FOUND);
    assert_eq!(error_reply(StoreError::Storage).status, STATUS_SERVER_ERROR);
    assert!(error_reply(StoreError::Storage).body.is_empty());
}

#[test]
fn storage_replies() {
    assert!(!accepts_text(""));
    assert!(accepts_text("a"));
    assert_eq!(post_todo("", Some(todo(1, "", false))).status, STATUS_BAD_REQUEST);
    assert_eq!(post_todo("a", None).status, STATUS_SERVER_ERROR);
    assert_eq!(post_todo("a", Some(todo(1, "a", false))).body, todo(1, "a", false).partial());
    assert_eq!(patch_todo(None, None).status, STATUS_SERVER_ERROR);
    assert_eq!(patch_todo(Some(0), None).status, STATUS_NOT_FOUND);
    assert_eq!(patch_todo(Some(1), None).status, STATUS_SERVER_ERROR);
    let r = patch_todo(Some(1), Some(todo(1, "a", false)));
    assert_eq!(r.status, STATUS_OK);
    assert!(!r.refresh);
    assert_eq!(delete_todo(Some(0)).status, STATUS_NOT_FOUND);
    assert_eq!(delete_todo(Some(1)).status, STATUS_OK);
    assert_eq!(delete_todo(None).status, STATUS_SERVER_ERROR);
    assert!(!delete_completed(Some(0)).refresh);
    assert!(delete_completed(Some(3)).refresh);
    assert_eq!(delete_completed(None).status, STATUS_SERVER_ERROR);
    assert_eq!(toggle_completed(UserState { hide_done: false }, false).status, STATUS_SERVER_ERROR);
    assert_eq!(toggle_completed(UserState { hide_done: false }, true).body, toggle_completed_button(false));
    assert_eq!(get_todos(None, false).status, STATUS_SERVER_ERROR);
    assert_eq!(get_todos(Some(vec![todo(1, "a", true)]), true).body, "");
    assert_eq!(get_body(None, false).status, STATUS_SERVER_ERROR);
    assert_eq!(get_body(Some(Vec::new()), false).status, STATUS_OK);
}
