//! Entity types of the service: todo lists and the checkable items they own,
//! plus the two small response payloads that are not entities themselves.

use vstd::prelude::*;

verus! {

/// A top-level named collection of items. `id` is store-assigned, unique and
/// monotonically increasing at creation time.
pub struct TodoList {
    pub id: i32,
    pub title: String,
}

/// A checkable task belonging to exactly one [`TodoList`] through `list_id`.
/// `checked` starts `false` and only ever transitions `false -> true`.
pub struct TodoItem {
    pub id: i32,
    pub title: String,
    pub checked: bool,
    pub list_id: i32,
}

/// Body of the health endpoint's reply.
pub struct Status {
    pub status: String,
}

/// Body of the check-item endpoint's reply: whether exactly one row changed.
pub struct ResultResponse {
    pub success: bool,
}

impl Clone for TodoList {
    fn clone(&self) -> (r: Self)
        ensures
            r == *self,
    {
        TodoList { id: self.id, title: self.title.clone() }
    }
}

impl Clone for TodoItem {
    fn clone(&self) -> (r: Self)
        ensures
            r == *self,
    {
        TodoItem {
            id: self.id,
            title: self.title.clone(),
            checked: self.checked,
            list_id: self.list_id,
        }
    }
}

} // verus!
