//! The item store: to-do items held newest first, with identifiers that are
//! handed out in increasing order and never reused.
use vstd::prelude::*;

use crate::todo::{entries, Entry, Todo};

verus! {

/// Why a store operation did not take place.
#[derive(Clone, Copy, Debug, PartialEq, Eq, Structural)]
pub enum StoreError {
    /// The input was rejected (empty text).
    Validation,
    /// No item has the given identifier.
    NotFound,
    /// The store could not take the change (no identifier is left).
    Storage,
}

/// Some item of `s` has identifier `id`.
pub open spec fn has_id(s: Seq<Entry>, id: int) -> bool {
    exists|i: int| 0 <= i < s.len() && #[trigger] s[i].id == id
}

/// No two items of `s` share an identifier.
pub open spec fn unique_ids(s: Seq<Entry>) -> bool {
    forall|i: int, j: int| 0 <= i < j < s.len() ==> #[trigger] s[i].id != #[trigger] s[j].id
}

/// Some item of `s` is done.
pub open spec fn any_done(s: Seq<Entry>) -> bool {
    exists|i: int| 0 <= i < s.len() && #[trigger] s[i].done
}

/// The items of `s` that are not done, in their order.
pub open spec fn undone(s: Seq<Entry>) -> Seq<Entry> {
    s.filter(|e: Entry| !e.done)
}

/// The items that a list shows: all of them, or only those not done.
pub open spec fn visible(s: Seq<Entry>, hide_done: bool) -> Seq<Entry> {
    if hide_done {
        undone(s)
    } else {
        s
    }
}

/// `s` without the item whose identifier is `id`.
pub open spec fn without_id(s: Seq<Entry>, id: int) -> Seq<Entry> {
    s.filter(|e: Entry| e.id != id)
}

/// `e` with its `done` flag flipped.
pub open spec fn flip_done(e: Entry) -> Entry {
    Entry { done: !e.done, ..e }
}

/// The item of `s` whose identifier is `id` (meaningful where `has_id(s, id)`).
pub open spec fn entry_of(s: Seq<Entry>, id: int) -> Entry {
    s[choose|i: int| 0 <= i < s.len() && #[trigger] s[i].id == id]
}

/// `s` with the `done` flag of the item `id` flipped.
pub open spec fn toggled(s: Seq<Entry>, id: int) -> Seq<Entry> {
    s.map_values(|e: Entry| if e.id == id { flip_done(e) } else { e })
}

/// `s` with the text and the flag of the item `id` replaced.
pub open spec fn rewritten(s: Seq<Entry>, id: int, text: Seq<char>, done: bool) -> Seq<Entry> {
    s.map_values(|e: Entry| if e.id == id { Entry { id: e.id, text, done } } else { e })
}

/// One more item of `s` kept by `filter` extends the filtered prefix by that item.
proof fn lemma_filter_step(s: Seq<Entry>, p: spec_fn(Entry) -> bool, i: int)
    requires
        0 <= i < s.len(),
    ensures
        s.take(i + 1).filter(p) == if p(s[i]) {
            s.take(i).filter(p).push(s[i])
        } else {
            s.take(i).filter(p)
        },
{
    reveal(Seq::filter);
    assert(s.take(i + 1).drop_last() =~= s.take(i));
}

/// Filtering keeps identifiers unique.
proof fn lemma_filter_unique(s: Seq<Entry>, p: spec_fn(Entry) -> bool)
    requires
        unique_ids(s),
    ensures
        unique_ids(s.filter(p)),
        forall|e: Entry| #[trigger] s.filter(p).contains(e) ==> s.contains(e),
    decreases s.len(),
{
    reveal(Seq::filter);
    if s.len() > 0 {
        let d = s.drop_last();
        assert(unique_ids(d));
        lemma_filter_unique(d, p);
        let f = d.filter(p);
        assert forall|j: int| 0 <= j < f.len() implies f[j].id != s.last().id by {
            assert(f.contains(f[j]));
            let k = choose|k: int| 0 <= k < d.len() && d[k] == f[j];
            assert(s[k] == d[k]);
        }
        if p(s.last()) {
            assert forall|e: Entry| #[trigger] s.filter(p).contains(e) implies s.contains(e) by {
                if e != s.last() {
                    let j = choose|j: int| 0 <= j < s.filter(p).len() && s.filter(p)[j] == e;
                    assert(f.contains(f[j]));
                    let k = choose|k: int| 0 <= k < d.len() && d[k] == f[j];
                    assert(s[k] == d[k]);
                } else {
                    assert(s[s.len() - 1] == e);
                }
            }
        } else {
            assert forall|e: Entry| #[trigger] s.filter(p).contains(e) implies s.contains(e) by {
                let k = choose|k: int| 0 <= k < d.len() && d[k] == e;
                assert(s[k] == d[k]);
            }
        }
    }
}

/// An item added in front of items none of which has its text is, in the
/// full list, the one item with that text.
pub proof fn lemma_added_item_listed_once(s: Seq<Entry>, e: Entry)
    requires
        forall|i: int| 0 <= i < s.len() ==> (#[trigger] s[i]).text != e.text,
    ensures
        visible(seq![e] + s, false)[0] == e,
        forall|i: int|
            0 < i < visible(seq![e] + s, false).len() ==> (#[trigger] visible(seq![e] + s, false)[i]).text != e.text,
{
    assert forall|i: int| 0 < i < visible(seq![e] + s, false).len() implies (#[trigger] visible(seq![e] + s, false)[i]).text != e.text by {
        assert((seq![e] + s)[i] == s[i - 1]);
    }
}

/// Flipping the `done` flag of an item twice gives back the items as they were.
pub proof fn lemma_toggle_twice(s: Seq<Entry>, id: int)
    ensures
        toggled(toggled(s, id), id) == s,
{
    assert(toggled(toggled(s, id), id) =~= s);
}

/// The list that hides done items holds only items of the full list, and
/// none of them is done.
pub proof fn lemma_hidden_list_within_full(s: Seq<Entry>)
    ensures
        forall|i: int|
            0 <= i < visible(s, true).len() ==> {
                &&& visible(s, false).contains(#[trigger] visible(s, true)[i])
                &&& !visible(s, true)[i].done
            },
{
    assert forall|i: int| 0 <= i < visible(s, true).len() implies {
        &&& visible(s, false).contains(#[trigger] visible(s, true)[i])
        &&& !visible(s, true)[i].done
    } by {
        let p = |e: Entry| !e.done;
        s.lemma_filter_pred(p, i);
        assert(s.filter(p).contains(s.filter(p)[i]));
        s.lemma_filter_contains_rev(p, s.filter(p)[i]);
    }
}

/// Once the done items are removed, the full list shows no done item.
pub proof fn lemma_no_done_after_purge(s: Seq<Entry>)
    ensures
        forall|i: int| 0 <= i < visible(undone(s), false).len() ==> !(#[trigger] visible(undone(s), false)[i]).done,
{
    assert forall|i: int| 0 <= i < visible(undone(s), false).len() implies !(#[trigger] visible(undone(s), false)[i]).done by {
        s.lemma_filter_pred(|e: Entry| !e.done, i);
    }
}

/// The to-do items, newest first.
pub struct TodoStore {
    items: Vec<Todo>,
    next_id: i64,
}

impl TodoStore {
    /// The items, newest first.
    pub closed spec fn items(&self) -> Seq<Entry> {
        entries(self.items@)
    }

    /// The identifier that the next added item gets.
    pub closed spec fn next_id(&self) -> int {
        self.next_id as int
    }

    /// Identifiers are unique, positive and below the next one handed out.
    pub open spec fn wf(&self) -> bool {
        &&& 1 <= self.next_id() <= i64::MAX
        &&& unique_ids(self.items())
        &&& forall|i: int| 0 <= i < self.items().len() ==> 1 <= #[trigger] self.items()[i].id < self.next_id()
    }

    /// An empty store whose first item gets identifier 1.
    pub fn new() -> (r: TodoStore)
        ensures
            r.wf(),
            r.items() == Seq::<Entry>::empty(),
            r.next_id() == 1,
    {
        let r = TodoStore { items: Vec::new(), next_id: 1 };
        assert(r.items() =~= Seq::<Entry>::empty());
        r
    }

    /// The number of items.
    pub fn len(&self) -> (r: usize)
        ensures
            r == self.items().len(),
    {
        self.items.len()
    }

    /// Adds a not-done item with `text` in front of the others, under the
    /// next identifier. Empty text is rejected and leaves the store as it was.
    pub fn add(&mut self, text: &str) -> (r: Result<Todo, StoreError>)
        requires
            old(self).wf(),
        ensures
            final(self).wf(),
            (text@.len() == 0) <==> (r == Err::<Todo, StoreError>(StoreError::Validation)),
            (text@.len() > 0 && old(self).next_id() == i64::MAX) <==> (r == Err::<Todo, StoreError>(StoreError::Storage)),
            r is Ok <==> (text@.len() > 0 && old(self).next_id() < i64::MAX),
            match r {
                Ok(t) => {
                    &&& t@ == (Entry { id: old(self).next_id(), text: text@, done: false })
                    &&& final(self).items() == seq![t@] + old(self).items()
                    &&& final(self).next_id() == old(self).next_id() + 1
                },
                Err(_) => {
                    &&& final(self).items() == old(self).items()
                    &&& final(self).next_id() == old(self).next_id()
                },
            },
    {
        if text.unicode_len() == 0 {
            return Err(StoreError::Validation);
        }
        if self.next_id == i64::MAX {
            return Err(StoreError::Storage);
        }
        let t = Todo { id: self.next_id, text: String::from_str(text), done: false };
        let ghost old_items = self.items@;
        self.items.insert(0, t.duplicate());
        self.next_id = self.next_id + 1;
        assert(self.items() =~= seq![t@] + entries(old_items));
        Ok(t)
    }
    /// The position of the item `id`, if there is one.
    fn find(&self, id: i64) -> (r: Option<usize>)
        requires
            self.wf(),
        ensures
            match r {
                Some(i) => i < self.items().len() && self.items()[i as int].id == id,
                None => !has_id(self.items(), id as int),
            },
    {
        let mut i: usize = 0;
        while i < self.items.len()
            invariant
                i <= self.items@.len(),
                forall|k: int| 0 <= k < i ==> #[trigger] self.items()[k].id != id,
            decreases self.items@.len() - i,
        {
            if self.items[i].id == id {
                return Some(i);
            }
            i = i + 1;
        }
        None
    }

    /// The items newest first, only those not done when `hide_done` is set.
    pub fn list(&self, hide_done: bool) -> (r: Vec<Todo>)
        ensures
            entries(r@) == visible(self.items(), hide_done),
    {
        let ghost s = self.items();
        let mut out: Vec<Todo> = Vec::new();
        let mut i: usize = 0;
        while i < self.items.len()
            invariant
                i <= self.items@.len(),
                s == self.items(),
                entries(out@) == visible(s.take(i as int), hide_done),
            decreases self.items@.len() - i,
        {
            proof {
                lemma_filter_step(s, |e: Entry| !e.done, i as int);
                assert(s.take(i as int + 1) =~= s.take(i as int).push(s[i as int]));
            }
            let t = &self.items[i];
            if !hide_done || !t.done {
                let ghost before = out@;
                out.push(t.duplicate());
                assert(entries(out@) =~= entries(before).push(s[i as int]));
            }
            i = i + 1;
        }
        assert(s.take(i as int) =~= s);
        out
    }

    /// The item `id`, if the store holds it.
    pub fn get(&self, id: i64) -> (r: Option<Todo>)
        requires
            self.wf(),
        ensures
            r is Some <==> has_id(self.items(), id as int),
            match r {
                Some(t) => t@.id == id && self.items().contains(t@),
                None => true,
            },
    {
        match self.find(id) {
            Some(i) => {
                let t = self.items[i].duplicate();
                assert(self.items()[i as int] == t@);
                Some(t)
            },
            None => None,
        }
    }

    /// Flips the `done` flag of the item `id` and returns the item as it now
    /// is; `NotFound`, with nothing changed, where there is no such item.
    pub fn toggle_done(&mut self, id: i64) -> (r: Result<Todo, StoreError>)
        requires
            old(self).wf(),
        ensures
            final(self).wf(),
            final(self).next_id() == old(self).next_id(),
            r is Ok <==> has_id(old(self).items(), id as int),
            match r {
                Ok(t) => {
                    &&& final(self).items() == toggled(old(self).items(), id as int)
                    &&& t@ == flip_done(entry_of(old(self).items(), id as int))
                },
                Err(e) => e == StoreError::NotFound && final(self).items() == old(self).items(),
            },
    {
        match self.find(id) {
            Some(i) => {
                let ghost old_items = self.items();
                let t = Todo { id, text: self.items[i].text.clone(), done: !self.items[i].done };
                proof {
                    let j = choose|j: int| 0 <= j < old_items.len() && #[trigger] old_items[j].id == id;
                    assert(j == i);
                }
                self.items.set(i, t.duplicate());
                assert(self.items() =~= toggled(old_items, id as int));
                Ok(t)
            },
            None => Err(StoreError::NotFound),
        }
    }

    /// Replaces the text and the flag of the item `id` in one step and
    /// returns the item as it now is; `NotFound`, with nothing changed, where
    /// there is no such item.
    pub fn set_text(&mut self, id: i64, text: &str, done: bool) -> (r: Result<Todo, StoreError>)
        requires
            old(self).wf(),
        ensures
            final(self).wf(),
            final(self).next_id() == old(self).next_id(),
            r is Ok <==> has_id(old(self).items(), id as int),
            match r {
                Ok(t) => {
                    &&& final(self).items() == rewritten(old(self).items(), id as int, text@, done)
                    &&& t@ == (Entry { id: id as int, text: text@, done })
                },
                Err(e) => e == StoreError::NotFound && final(self).items() == old(self).items(),
            },
    {
        match self.find(id) {
            Some(i) => {
                let ghost old_items = self.items();
                let t = Todo { id, text: String::from_str(text), done };
                self.items.set(i, t.duplicate());
                assert(self.items() =~= rewritten(old_items, id as int, text@, done));
                Ok(t)
            },
            None => Err(StoreError::NotFound),
        }
    }
    /// Removes the item `id`; `NotFound`, with nothing changed, where there
    /// is no such item.
    pub fn delete(&mut self, id: i64) -> (r: Result<(), StoreError>)
        requires
            old(self).wf(),
        ensures
            final(self).wf(),
            final(self).next_id() == old(self).next_id(),
            r is Ok <==> has_id(old(self).items(), id as int),
            match r {
                Ok(_) => final(self).items() == without_id(old(self).items(), id as int),
                Err(e) => e == StoreError::NotFound && final(self).items() == old(self).items(),
            },
    {
        let ghost s = self.items();
        let mut kept: Vec<Todo> = Vec::new();
        let mut found = false;
        let mut i: usize = 0;
        while i < self.items.len()
            invariant
                i <= self.items@.len(),
                s == self.items(),
                entries(kept@) == without_id(s.take(i as int), id as int),
                found <==> exists|k: int| 0 <= k < i && #[trigger] s[k].id == id,
            decreases self.items@.len() - i,
        {
            proof {
                lemma_filter_step(s, |e: Entry| e.id != id as int, i as int);
            }
            let t = &self.items[i];
            if t.id == id {
                found = true;
            } else {
                let ghost before = kept@;
                kept.push(t.duplicate());
                assert(entries(kept@) =~= entries(before).push(s[i as int]));
            }
            i = i + 1;
        }
        if !found {
            return Err(StoreError::NotFound);
        }
        assert(s.take(i as int) =~= s);
        proof {
            lemma_filter_unique(s, |e: Entry| e.id != id as int);
            assert forall|k: int| 0 <= k < entries(kept@).len() implies 1 <= #[trigger] entries(kept@)[k].id < self.next_id() by {
                assert(entries(kept@).contains(entries(kept@)[k]));
            }
        }
        self.items = kept;
        Ok(())
    }

    /// Removes every done item and tells whether there was any.
    pub fn delete_all_done(&mut self) -> (r: bool)
        requires
            old(self).wf(),
        ensures
            final(self).wf(),
            final(self).next_id() == old(self).next_id(),
            final(self).items() == undone(old(self).items()),
            r == any_done(old(self).items()),
    {
        let ghost s = self.items();
        let mut kept: Vec<Todo> = Vec::new();
        let mut found = false;
        let mut i: usize = 0;
        while i < self.items.len()
            invariant
                i <= self.items@.len(),
                s == self.items(),
                entries(kept@) == undone(s.take(i as int)),
                found <==> exists|k: int| 0 <= k < i && #[trigger] s[k].done,
            decreases self.items@.len() - i,
        {
            proof {
                lemma_filter_step(s, |e: Entry| !e.done, i as int);
            }
            let t = &self.items[i];
            if t.done {
                found = true;
            } else {
                let ghost before = kept@;
                kept.push(t.duplicate());
                assert(entries(kept@) =~= entries(before).push(s[i as int]));
            }
            i = i + 1;
        }
        assert(s.take(i as int) =~= s);
        proof {
            lemma_filter_unique(s, |e: Entry| !e.done);
            assert forall|k: int| 0 <= k < entries(kept@).len() implies 1 <= #[trigger] entries(kept@)[k].id < self.next_id() by {
                assert(entries(kept@).contains(entries(kept@)[k]));
            }
        }
        self.items = kept;
        found
    }
}

} // verus!
