//! A small to-do list served as HTML fragments: the item store, the
//! "hide completed" preference, the fragment renderer and the replies of
//! each route, with their contracts.
use vstd::prelude::*;

pub mod body;
pub mod memory;
pub mod render;
pub mod reply;
pub mod state;
pub mod store;
pub mod todo;

verus! {

} // verus!
