//! A state model of the relational store: the rows the service may observe,
//! together with the guarantees the store is relied on for — generated
//! primary keys that grow monotonically, and referential integrity from
//! items to lists. The data-access operations in [`crate::db`] are verified
//! against this model.

use vstd::prelude::*;

use crate::models::TodoItem;
use crate::models::TodoList;

verus! {

/// The store's visible state: both tables in insertion order, plus the next
/// primary key each table will generate.
pub struct Store {
    pub lists: Vec<TodoList>,
    pub items: Vec<TodoItem>,
    pub next_list_id: i32,
    pub next_item_id: i32,
}

/// Every list row has a positive id below the generator, and ids grow
/// strictly in insertion order.
pub open spec fn lists_well_formed(lists: Seq<TodoList>, next_id: int) -> bool {
    &&& forall|i: int| 0 <= i < lists.len() ==> 1 <= (#[trigger] lists[i]).id < next_id
    &&& forall|i: int, j: int|
        0 <= i < j < lists.len() ==> #[trigger] lists[i].id < #[trigger] lists[j].id
}

/// Every item row has a positive id below the generator, and ids grow
/// strictly in insertion order.
pub open spec fn items_well_formed(items: Seq<TodoItem>, next_id: int) -> bool {
    &&& forall|i: int| 0 <= i < items.len() ==> 1 <= (#[trigger] items[i]).id < next_id
    &&& forall|i: int, j: int|
        0 <= i < j < items.len() ==> #[trigger] items[i].id < #[trigger] items[j].id
}

/// Whether some list row carries the given id.
pub open spec fn list_exists(lists: Seq<TodoList>, list_id: i32) -> bool {
    exists|j: int| 0 <= j < lists.len() && (#[trigger] lists[j]).id == list_id
}

impl Store {
    /// Store invariant: both tables well formed, and every item's `list_id`
    /// resolves to an existing list (the foreign-key constraint).
    pub open spec fn wf(self) -> bool {
        &&& 1 <= self.next_list_id
        &&& 1 <= self.next_item_id
        &&& lists_well_formed(self.lists@, self.next_list_id as int)
        &&& items_well_formed(self.items@, self.next_item_id as int)
        &&& forall|i: int|
            0 <= i < self.items@.len() ==> list_exists(
                self.lists@,
                (#[trigger] self.items@[i]).list_id,
            )
    }

    /// A freshly created, empty store.
    pub fn new() -> (s: Store)
        ensures
            s.wf(),
            s.lists@ == Seq::<TodoList>::empty(),
            s.items@ == Seq::<TodoItem>::empty(),
            s.next_list_id == 1,
            s.next_item_id == 1,
    {
        Store { lists: Vec::new(), items: Vec::new(), next_list_id: 1, next_item_id: 1 }
    }
}

} // verus!
