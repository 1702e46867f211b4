//! The to-do item and its HTML fragments.
use vstd::prelude::*;

use crate::render::{bool_text, decimal, escaped, push_bool, push_decimal, push_escaped};

verus! {

/// What the contracts see of one item.
pub struct Entry {
    pub id: int,
    pub text: Seq<char>,
    pub done: bool,
}

/// One to-do item.
#[derive(Debug)]
pub struct Todo {
    pub id: i64,
    pub text: String,
    pub done: bool,
}

impl View for Todo {
    type V = Entry;

    open spec fn view(&self) -> Entry {
        Entry { id: self.id as int, text: self.text@, done: self.done }
    }
}

/// The views of a list of items.
pub open spec fn entries(v: Seq<Todo>) -> Seq<Entry> {
    v.map_values(|t: Todo| t@)
}

/// The fragment of one item: its text, struck through when done, a form that
/// sends the flipped `done` flag back, and a delete button, all addressed by id.
pub open spec fn partial_html(e: Entry) -> Seq<char> {
    "<div class=\"flex my-4\" id=\"todo-"@ + decimal(e.id)
        + "\"><form class=\"flex flex-1\" hx-patch=\"/todo/"@ + decimal(e.id)
        + "\" hx-target=\"#todo-"@ + decimal(e.id)
        + "\" hx-swap=\"morph:outerHTML\"><button type=\"submit\" class=\"flex-1 mr-4 p-4 rounded-xl max-w-sm mx-auto cursor-pointer "@
        + (if e.done { "line-through bg-slate-400"@ } else { "bg-white"@ })
        + "\">"@ + escaped(e.text)
        + "</button><input type=\"hidden\" name=\"text\" value=\""@ + escaped(e.text)
        + "\"></input><input type=\"hidden\" name=\"id\" value=\""@ + decimal(e.id)
        + "\"></input><input type=\"hidden\" name=\"done\" value=\""@ + bool_text(!e.done)
        + "\"></input></form><button class=\"text-white border text-2xl rounded-xl w-14 mx-auto\" hx-trigger=\"click\" hx-delete=\"/todo/"@
        + decimal(e.id) + "\" hx-target=\"#todo-"@ + decimal(e.id)
        + "\" hx-swap=\"outerHTML\">x</button></div>"@
}

/// Whether an item is shown under the given "hide completed" flag.
pub open spec fn shown(e: Entry, hide_done: bool) -> bool {
    !hide_done || !e.done
}

/// The fragments of the shown items, in the order of the list.
pub open spec fn list_html(s: Seq<Entry>, hide_done: bool) -> Seq<char>
    decreases s.len(),
{
    if s.len() == 0 {
        Seq::empty()
    } else {
        list_html(s.drop_last(), hide_done) + (if shown(s.last(), hide_done) {
            partial_html(s.last())
        } else {
            Seq::empty()
        })
    }
}

impl Todo {
    /// A copy of this item.
    pub fn duplicate(&self) -> (r: Todo)
        ensures
            r@ == self@,
    {
        Todo { id: self.id, text: self.text.clone(), done: self.done }
    }

    /// The HTML fragment of this item.
    pub fn partial(&self) -> (r: String)
        ensures
            r@ == partial_html(self@),
    {
        let mut out = String::from_str("<div class=\"flex my-4\" id=\"todo-");
        push_decimal(&mut out, self.id);
        out.append("\"><form class=\"flex flex-1\" hx-patch=\"/todo/");
        push_decimal(&mut out, self.id);
        out.append("\" hx-target=\"#todo-");
        push_decimal(&mut out, self.id);
        out.append(
            "\" hx-swap=\"morph:outerHTML\"><button type=\"submit\" class=\"flex-1 mr-4 p-4 rounded-xl max-w-sm mx-auto cursor-pointer ",
        );
        if self.done {
            out.append("line-through bg-slate-400");
        } else {
            out.append("bg-white");
        }
        out.append("\">");
        push_escaped(&mut out, self.text.as_str());
        out.append("</button><input type=\"hidden\" name=\"text\" value=\"");
        push_escaped(&mut out, self.text.as_str());
        out.append("\"></input><input type=\"hidden\" name=\"id\" value=\"");
        push_decimal(&mut out, self.id);
        out.append("\"></input><input type=\"hidden\" name=\"done\" value=\"");
        push_bool(&mut out, !self.done);
        out.append(
            "\"></input></form><button class=\"text-white border text-2xl rounded-xl w-14 mx-auto\" hx-trigger=\"click\" hx-delete=\"/todo/",
        );
        push_decimal(&mut out, self.id);
        out.append("\" hx-target=\"#todo-");
        push_decimal(&mut out, self.id);
        out.append("\" hx-swap=\"outerHTML\">x</button></div>");
        out
    }

    /// The fragments of `todos` in their order, leaving out the done ones
    /// when `hide_done` is set.
    pub fn list_template(todos: &Vec<Todo>, hide_done: bool) -> (r: String)
        ensures
            r@ == list_html(entries(todos@), hide_done),
    {
        let mut out = String::new();
        let mut i: usize = 0;
        while i < todos.len()
            invariant
                i <= todos@.len(),
                out@ == list_html(entries(todos@).take(i as int), hide_done),
            decreases todos@.len() - i,
        {
            let ghost s = entries(todos@);
            assert(s.take(i as int + 1).drop_last() =~= s.take(i as int));
            let t = &todos[i];
            if !hide_done || !t.done {
                let p = t.partial();
                out.append(p.as_str());
            }
            i = i + 1;
        }
        assert(entries(todos@).take(i as int) =~= entries(todos@));
        out
    }
}

} // verus!
