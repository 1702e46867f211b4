//! What each route answers, given what the storage reported.
use vstd::prelude::*;

use crate::body::{body, body_html, button_html, toggle_completed_button};
use crate::state::UserState;
use crate::store::StoreError;
use crate::todo::{entries, list_html, partial_html, Todo};

verus! {

/// The request succeeded.
pub const STATUS_OK: u16 = 200;

/// The request was rejected (empty text).
pub const STATUS_BAD_REQUEST: u16 = 400;

/// No item has the identifier of the request.
pub const STATUS_NOT_FOUND: u16 = 404;

/// The storage failed.
pub const STATUS_SERVER_ERROR: u16 = 500;

/// An HTTP answer: status, HTML body, and whether the client is told to
/// fetch the list again.
pub struct Reply {
    pub status: u16,
    pub body: String,
    pub refresh: bool,
}

/// A reply with an empty body.
pub open spec fn is_empty_reply(r: Reply, status: u16, refresh: bool) -> bool {
    r.status == status && r.body@.len() == 0 && r.refresh == refresh
}

/// The status that stands for a store error.
pub open spec fn error_status(e: StoreError) -> u16 {
    match e {
        StoreError::Validation => STATUS_BAD_REQUEST,
        StoreError::NotFound => STATUS_NOT_FOUND,
        StoreError::Storage => STATUS_SERVER_ERROR,
    }
}

fn empty_reply(status: u16, refresh: bool) -> (r: Reply)
    ensures
        is_empty_reply(r, status, refresh),
{
    Reply { status, body: String::new(), refresh }
}

/// The reply to a store error: its status and an empty body.
pub fn error_reply(e: StoreError) -> (r: Reply)
    ensures
        is_empty_reply(r, error_status(e), false),
{
    let status = match e {
        StoreError::Validation => STATUS_BAD_REQUEST,
        StoreError::NotFound => STATUS_NOT_FOUND,
        StoreError::Storage => STATUS_SERVER_ERROR,
    };
    empty_reply(status, false)
}

/// Whether an item may be created with `text`: it must not be empty.
pub fn accepts_text(text: &str) -> (r: bool)
    ensures
        r == (text@.len() > 0),
{
    text.unicode_len() > 0
}

/// The page body, from the listed items (`None` where listing failed).
pub fn get_body(listed: Option<Vec<Todo>>, hide_done: bool) -> (r: Reply)
    ensures
        match listed {
            Some(v) => r.status == STATUS_OK && !r.refresh && r.body@ == body_html(
                hide_done,
                list_html(entries(v@), hide_done),
            ),
            None => is_empty_reply(r, STATUS_SERVER_ERROR, false),
        },
{
    match listed {
        Some(v) => Reply { status: STATUS_OK, body: body(&v, hide_done), refresh: false },
        None => empty_reply(STATUS_SERVER_ERROR, false),
    }
}

/// The list fragment, from the listed items (`None` where listing failed).
pub fn get_todos(listed: Option<Vec<Todo>>, hide_done: bool) -> (r: Reply)
    ensures
        match listed {
            Some(v) => r.status == STATUS_OK && !r.refresh && r.body@ == list_html(entries(v@), hide_done),
            None => is_empty_reply(r, STATUS_SERVER_ERROR, false),
        },
{
    match listed {
        Some(v) => Reply {
            status: STATUS_OK,
            body: Todo::list_template(&v, hide_done),
            refresh: false,
        },
        None => empty_reply(STATUS_SERVER_ERROR, false),
    }
}

/// The reply to adding an item with `text`: a client error for empty text;
/// otherwise the new item's fragment, or a server error where storage did
/// not give the item back (`created` is `None`).
pub fn post_todo(text: &str, created: Option<Todo>) -> (r: Reply)
    ensures
        text@.len() == 0 ==> is_empty_reply(r, STATUS_BAD_REQUEST, false),
        text@.len() > 0 ==> match created {
            Some(t) => r.status == STATUS_OK && !r.refresh && r.body@ == partial_html(t@),
            None => is_empty_reply(r, STATUS_SERVER_ERROR, false),
        },
{
    if !accepts_text(text) {
        return empty_reply(STATUS_BAD_REQUEST, false);
    }
    match created {
        Some(t) => Reply { status: STATUS_OK, body: t.partial(), refresh: false },
        None => empty_reply(STATUS_SERVER_ERROR, false),
    }
}

/// The reply to updating an item, from the number of rows the update
/// affected (`None` where it failed) and the item read back afterwards.
/// The list is refreshed when the item is now done.
pub fn patch_todo(affected: Option<u64>, fetched: Option<Todo>) -> (r: Reply)
    ensures
        match affected {
            None => is_empty_reply(r, STATUS_SERVER_ERROR, false),
            Some(n) => if n == 0 {
                is_empty_reply(r, STATUS_NOT_FOUND, false)
            } else {
                match fetched {
                    Some(t) => r.status == STATUS_OK && r.refresh == t.done && r.body@ == partial_html(t@),
                    None => is_empty_reply(r, STATUS_SERVER_ERROR, false),
                }
            },
        },
{
    match affected {
        None => empty_reply(STATUS_SERVER_ERROR, false),
        Some(n) => {
            if n == 0 {
                empty_reply(STATUS_NOT_FOUND, false)
            } else {
                match fetched {
                    Some(t) => Reply { status: STATUS_OK, body: t.partial(), refresh: t.done },
                    None => empty_reply(STATUS_SERVER_ERROR, false),
                }
            }
        },
    }
}

/// The reply to deleting one item, from the number of rows removed (`None`
/// where the removal failed).
pub fn delete_todo(affected: Option<u64>) -> (r: Reply)
    ensures
        match affected {
            None => is_empty_reply(r, STATUS_SERVER_ERROR, false),
            Some(n) => is_empty_reply(r, if n == 0 { STATUS_NOT_FOUND } else { STATUS_OK }, false),
        },
{
    match affected {
        None => empty_reply(STATUS_SERVER_ERROR, false),
        Some(n) => {
            if n == 0 {
                empty_reply(STATUS_NOT_FOUND, false)
            } else {
                empty_reply(STATUS_OK, false)
            }
        },
    }
}

/// The reply to deleting the done items: success either way, with a
/// refresh only where some row was removed.
pub fn delete_completed(affected: Option<u64>) -> (r: Reply)
    ensures
        match affected {
            None => is_empty_reply(r, STATUS_SERVER_ERROR, false),
            Some(n) => is_empty_reply(r, STATUS_OK, n > 0),
        },
{
    match affected {
        None => empty_reply(STATUS_SERVER_ERROR, false),
        Some(n) => empty_reply(STATUS_OK, n > 0),
    }
}

/// The reply to flipping the preference, given the flipped value and
/// whether it was saved: the new button and a refresh, or a server error.
pub fn toggle_completed(state: UserState, saved: bool) -> (r: Reply)
    ensures
        saved ==> r.status == STATUS_OK && r.refresh && r.body@ == button_html(state.hide_done),
        !saved ==> is_empty_reply(r, STATUS_SERVER_ERROR, false),
{
    if !saved {
        return empty_reply(STATUS_SERVER_ERROR, false);
    }
    Reply { status: STATUS_OK, body: toggle_completed_button(state.hide_done), refresh: true }
}

} // verus!
