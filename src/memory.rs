//! The routes served from memory: the item store and the preference held
//! in the process.
use vstd::prelude::*;

use crate::body::{body_html, button_html};
use crate::reply::{self, error_reply, is_empty_reply, Reply, STATUS_OK};
use crate::state::{flipped, UserState};
use crate::store::{
    any_done, entry_of, flip_done, has_id, toggled, undone, visible, without_id, TodoStore,
};
use crate::todo::{list_html, partial_html, Entry};

verus! {

/// The whole state of a server that keeps everything in memory.
pub struct MemoryApp {
    pub store: TodoStore,
    pub prefs: UserState,
}

impl MemoryApp {
    /// No items, completed ones shown.
    pub fn new() -> (r: MemoryApp)
        ensures
            r.store.wf(),
            r.store.items() == Seq::<Entry>::empty(),
            r.store.next_id() == 1,
            !r.prefs.hide_done,
    {
        MemoryApp { store: TodoStore::new(), prefs: UserState::new(None) }
    }

    /// `GET /body`: the page body under the current preference.
    pub fn get_body(&self) -> (r: Reply)
        ensures
            r.status == STATUS_OK,
            !r.refresh,
            r.body@ == body_html(
                self.prefs.hide_done,
                list_html(visible(self.store.items(), self.prefs.hide_done), self.prefs.hide_done),
            ),
    {
        let listed = self.store.list(self.prefs.hide_done);
        reply::get_body(Some(listed), self.prefs.hide_done)
    }

    /// `GET /todos`: the list fragment under the current preference.
    pub fn get_todos(&self) -> (r: Reply)
        ensures
            r.status == STATUS_OK,
            !r.refresh,
            r.body@ == list_html(visible(self.store.items(), self.prefs.hide_done), self.prefs.hide_done),
    {
        let listed = self.store.list(self.prefs.hide_done);
        reply::get_todos(Some(listed), self.prefs.hide_done)
    }

    /// `POST /todo`: adds an item and answers with its fragment; empty text
    /// is a client error and changes nothing.
    pub fn post_todo(&mut self, text: &str) -> (r: Reply)
        requires
            old(self).store.wf(),
        ensures
            final(self).store.wf(),
            final(self).prefs == old(self).prefs,
            text@.len() == 0 ==> {
                &&& is_empty_reply(r, reply::STATUS_BAD_REQUEST, false)
                &&& final(self).store.items() == old(self).store.items()
            },
            text@.len() > 0 && old(self).store.next_id() < i64::MAX ==> {
                let e = Entry { id: old(self).store.next_id(), text: text@, done: false };
                &&& r.status == STATUS_OK
                &&& !r.refresh
                &&& r.body@ == partial_html(e)
                &&& final(self).store.items() == seq![e] + old(self).store.items()
            },
            text@.len() > 0 && old(self).store.next_id() == i64::MAX ==> {
                &&& is_empty_reply(r, reply::STATUS_SERVER_ERROR, false)
                &&& final(self).store.items() == old(self).store.items()
            },
    {
        match self.store.add(text) {
            Ok(t) => reply::post_todo(text, Some(t)),
            Err(e) => error_reply(e),
        }
    }

    /// `PATCH /todo/{id}`: flips the stored `done` flag of the item and
    /// answers with its fragment, asking for a refresh when it is now done.
    pub fn patch_todo(&mut self, id: i64) -> (r: Reply)
        requires
            old(self).store.wf(),
        ensures
            final(self).store.wf(),
            final(self).prefs == old(self).prefs,
            has_id(old(self).store.items(), id as int) ==> {
                let e = flip_done(entry_of(old(self).store.items(), id as int));
                &&& r.status == STATUS_OK
                &&& r.refresh == e.done
                &&& r.body@ == partial_html(e)
                &&& final(self).store.items() == toggled(old(self).store.items(), id as int)
            },
            !has_id(old(self).store.items(), id as int) ==> {
                &&& is_empty_reply(r, reply::STATUS_NOT_FOUND, false)
                &&& final(self).store.items() == old(self).store.items()
            },
    {
        match self.store.toggle_done(id) {
            Ok(t) => reply::patch_todo(Some(1), Some(t)),
            Err(e) => error_reply(e),
        }
    }

    /// `DELETE /todo/{id}`: removes the item.
    pub fn delete_todo(&mut self, id: i64) -> (r: Reply)
        requires
            old(self).store.wf(),
        ensures
            final(self).store.wf(),
            final(self).prefs == old(self).prefs,
            has_id(old(self).store.items(), id as int) ==> {
                &&& is_empty_reply(r, STATUS_OK, false)
                &&& final(self).store.items() == without_id(old(self).store.items(), id as int)
            },
            !has_id(old(self).store.items(), id as int) ==> {
                &&& is_empty_reply(r, reply::STATUS_NOT_FOUND, false)
                &&& final(self).store.items() == old(self).store.items()
            },
    {
        match self.store.delete(id) {
            Ok(_) => reply::delete_todo(Some(1)),
            Err(e) => error_reply(e),
        }
    }

    /// `DELETE /todo`: removes the done items, asking for a refresh where
    /// there were any.
    pub fn delete_completed(&mut self) -> (r: Reply)
        requires
            old(self).store.wf(),
        ensures
            final(self).store.wf(),
            final(self).prefs == old(self).prefs,
            is_empty_reply(r, STATUS_OK, any_done(old(self).store.items())),
            final(self).store.items() == undone(old(self).store.items()),
    {
        let removed = self.store.delete_all_done();
        reply::delete_completed(Some(if removed { 1 } else { 0 }))
    }

    /// `POST /toggle-completed`: flips the preference and answers with the
    /// new button and a refresh.
    pub fn toggle_completed(&mut self) -> (r: Reply)
        ensures
            final(self).store == old(self).store,
            final(self).prefs == flipped(old(self).prefs),
            r.status == STATUS_OK,
            r.refresh,
            r.body@ == button_html(final(self).prefs.hide_done),
    {
        self.prefs.toggle();
        reply::toggle_completed(self.prefs, true)
    }
}

} // verus!
