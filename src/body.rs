//! The page body and the "hide completed" button.
use vstd::prelude::*;

use crate::todo::{entries, list_html, Todo};

verus! {

/// The button that flips the preference; it is shaded while the flag is on.
pub open spec fn button_html(completed: bool) -> Seq<char> {
    "<button class=\"flex-1 rounded-xl p-4 mr-4 "@
        + (if completed { "bg-slate-400"@ } else { "bg-white"@ })
        + "\" hx-post=\"/toggle-completed\" hx-swap=\"outerHTML\">Hide completed</button>"@
}

/// The whole page body around the given list fragment.
pub open spec fn body_html(hide_done: bool, todos: Seq<char>) -> Seq<char> {
    "<div hx-ext=\"morph\" class=\"max-w-md mx-auto m-6\"><h1 class=\"text-white text-6xl text-center\">todox</h1><div class=\"flex my-4\">"@
        + button_html(hide_done)
        + "<button class=\"flex-1 bg-white rounded-xl p-4\" hx-swap=\"none\" hx-delete=\"/todo\">Delete completed</button></div><form class=\"flex my-4\" hx-target=\"#todos\" hx-post=\"/todo\" _=\"on htmx:afterOnLoad me.reset()\" hx-swap=\"afterbegin\"><input name=\"text\" class=\"flex-1 bg-white mr-4 p-4 rounded-xl max-w-sm mx-auto\"></input><button type=\"submit\" class=\"bg-white text-2xl rounded-xl w-14 mx-auto\">+</button></form><div id=\"todos\" hx-trigger=\"modifiedPosts from:body\" hx-get=\"/todos\" hx-swap=\"morph:innerHTML\">"@
        + todos + "</div></div>"@
}

/// The fragment of the preference button.
pub fn toggle_completed_button(completed: bool) -> (r: String)
    ensures
        r@ == button_html(completed),
{
    let mut out = String::from_str("<button class=\"flex-1 rounded-xl p-4 mr-4 ");
    if completed {
        out.append("bg-slate-400");
    } else {
        out.append("bg-white");
    }
    out.append("\" hx-post=\"/toggle-completed\" hx-swap=\"outerHTML\">Hide completed</button>");
    out
}

/// The page body: the preference button, the form that adds an item, and
/// the list of `todos` under the preference.
pub fn body(todos: &Vec<Todo>, hide_done: bool) -> (r: String)
    ensures
        r@ == body_html(hide_done, list_html(entries(todos@), hide_done)),
{
    let mut out = String::from_str(
        "<div hx-ext=\"morph\" class=\"max-w-md mx-auto m-6\"><h1 class=\"text-white text-6xl text-center\">todox</h1><div class=\"flex my-4\">",
    );
    let button = toggle_completed_button(hide_done);
    out.append(button.as_str());
    out.append(
        "<button class=\"flex-1 bg-white rounded-xl p-4\" hx-swap=\"none\" hx-delete=\"/todo\">Delete completed</button></div><form class=\"flex my-4\" hx-target=\"#todos\" hx-post=\"/todo\" _=\"on htmx:afterOnLoad me.reset()\" hx-swap=\"afterbegin\"><input name=\"text\" class=\"flex-1 bg-white mr-4 p-4 rounded-xl max-w-sm mx-auto\"></input><button type=\"submit\" class=\"bg-white text-2xl rounded-xl w-14 mx-auto\">+</button></form><div id=\"todos\" hx-trigger=\"modifiedPosts from:body\" hx-get=\"/todos\" hx-swap=\"morph:innerHTML\">",
    );
    let list = Todo::list_template(todos, hide_done);
    out.append(list.as_str());
    out.append("</div></div>");
    out
}

} // verus!
