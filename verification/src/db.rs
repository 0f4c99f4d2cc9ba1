//! The five data-access operations, verified against the store model in
//! [`crate::store`]: select all lists newest first, select one list's items
//! oldest first, insert a list, insert an item, and conditionally check an
//! item. In the running service the same statements execute inside the
//! relational store; unverified glue performs that round trip and is held to
//! these contracts at the boundary.

use vstd::prelude::*;

use crate::models::TodoItem;
use crate::models::TodoList;
use crate::errors::AppError;
use crate::errors::AppErrorKind;
use crate::store::Store;
use crate::store::list_exists;

verus! {

/// What selecting all lists returns: the list table newest first, i.e. the
/// insertion order reversed.
pub open spec fn todos_of(lists: Seq<TodoList>) -> Seq<TodoList> {
    Seq::new(lists.len(), |i: int| lists[lists.len() - 1 - i])
}

/// Select all todo lists, ordered by id descending (newest first).
pub fn get_todos(s: &Store) -> (r: Vec<TodoList>)
    ensures
        r@ == todos_of(s.lists@),
{
    let n = s.lists.len();
    let mut r: Vec<TodoList> = Vec::new();
    let mut k: usize = 0;
    while k < n
        invariant
            k <= n,
            n == s.lists@.len(),
            r@.len() == k,
            forall|m: int| 0 <= m < k ==> r@[m] == s.lists@[n - 1 - m],
        decreases n - k,
    {
        r.push(s.lists[n - 1 - k].clone());
        k = k + 1;
    }
    proof {
        assert(r@ =~= todos_of(s.lists@));
    }
    r
}

/// What selecting one list's items returns: the item rows whose `list_id`
/// matches, in insertion order (id ascending).
pub open spec fn items_of(items: Seq<TodoItem>, list_id: i32) -> Seq<TodoItem> {
    items.filter(|it: TodoItem| it.list_id == list_id)
}

/// Select the items of one list, ordered by id ascending.
pub fn get_items(s: &Store, list_id: i32) -> (r: Vec<TodoItem>)
    ensures
        r@ == items_of(s.items@, list_id),
{
    let n = s.items.len();
    let mut r: Vec<TodoItem> = Vec::new();
    let mut k: usize = 0;
    while k < n
        invariant
            k <= n,
            n == s.items@.len(),
            r@ == items_of(s.items@.take(k as int), list_id),
        decreases n - k,
    {
        if s.items[k].list_id == list_id {
            r.push(s.items[k].clone());
        }
        proof {
            reveal(Seq::filter);
            assert(s.items@.take(k + 1 as int).drop_last() =~= s.items@.take(k as int));
            assert(s.items@.take(k + 1 as int).last() == s.items@[k as int]);
        }
        k = k + 1;
    }
    proof {
        assert(s.items@.take(n as int) =~= s.items@);
    }
    r
}

/// How one list insert relates the store before and after to the row it
/// created: the row takes the generated id, the generator moves past it, the
/// row lands at the end of the table, and the item table is untouched.
pub open spec fn create_list_step(pre: Store, post: Store, created: TodoList) -> bool {
    &&& created.id == pre.next_list_id
    &&& post.next_list_id == pre.next_list_id + 1
    &&& post.lists@ == pre.lists@.push(created)
    &&& post.items@ == pre.items@
    &&& post.next_item_id == pre.next_item_id
}

/// Insert one list row; the store assigns the next id. Returns the created
/// list.
pub fn create_todo(s: &mut Store, title: String) -> (r: TodoList)
    requires
        old(s).wf(),
        old(s).next_list_id < i32::MAX,
    ensures
        final(s).wf(),
        r == (TodoList { id: old(s).next_list_id, title: title }),
        create_list_step(*old(s), *final(s), r),
{
    let id = s.next_list_id;
    let row = TodoList { id, title };
    let created = row.clone();
    s.lists.push(row);
    s.next_list_id = id + 1;
    proof {
        assert forall|i: int| 0 <= i < s.items@.len() implies list_exists(
            s.lists@,
            (#[trigger] s.items@[i]).list_id,
        ) by {
            let j = choose|j: int|
                0 <= j < old(s).lists@.len() && (#[trigger] old(s).lists@[j]).id
                    == s.items@[i].list_id;
            assert(s.lists@[j].id == s.items@[i].list_id);
        }
    }
    created
}

/// The item an insert under `list_id` with the given title creates.
pub open spec fn created_item(s: Store, title: String, list_id: i32) -> TodoItem {
    TodoItem { id: s.next_item_id, title: title, checked: false, list_id: list_id }
}

/// Whether some list row carries the given id; the exec mirror of
/// [`list_exists`].
fn find_list(lists: &Vec<TodoList>, list_id: i32) -> (b: bool)
    ensures
        b == list_exists(lists@, list_id),
{
    let n = lists.len();
    let mut k: usize = 0;
    while k < n
        invariant
            k <= n,
            n == lists@.len(),
            forall|j: int| 0 <= j < k ==> (#[trigger] lists@[j]).id != list_id,
        decreases n - k,
    {
        if lists[k].id == list_id {
            return true;
        }
        k = k + 1;
    }
    false
}

/// Insert one item row with `checked = false`; the store assigns the next
/// id. The store's foreign-key constraint makes the insert fail when no list
/// carries `list_id`; that failure is classified, never suppressed.
pub fn create_todo_item(s: &mut Store, title: String, list_id: i32) -> (r: Result<
    TodoItem,
    AppError,
>)
    requires
        old(s).wf(),
        old(s).next_item_id < i32::MAX,
    ensures
        final(s).wf(),
        final(s).lists@ == old(s).lists@,
        final(s).next_list_id == old(s).next_list_id,
        list_exists(old(s).lists@, list_id) ==> {
            &&& r == Ok::<TodoItem, AppError>(created_item(*old(s), title, list_id))
            &&& final(s).items@ == old(s).items@.push(created_item(*old(s), title, list_id))
            &&& final(s).next_item_id == old(s).next_item_id + 1
        },
        !list_exists(old(s).lists@, list_id) ==> {
            &&& r matches Err(e) && e.kind == AppErrorKind::DbError
            &&& final(s).items@ == old(s).items@
            &&& final(s).next_item_id == old(s).next_item_id
        },
{
    if !find_list(&s.lists, list_id) {
        return Err(AppError::db_error("foreign key violation on todo_item.list_id".to_owned()));
    }
    let id = s.next_item_id;
    let row = TodoItem { id, title, checked: false, list_id };
    let created = row.clone();
    s.items.push(row);
    s.next_item_id = id + 1;
    proof {
        assert forall|i: int| 0 <= i < s.items@.len() implies list_exists(
            s.lists@,
            (#[trigger] s.items@[i]).list_id,
        ) by {
            if i < old(s).items@.len() {
                assert(list_exists(s.lists@, old(s).items@[i].list_id));
            }
        }
    }
    Ok(created)
}

/// Whether the row at index `j` is the one the conditional update's `WHERE`
/// clause selects: both ids match and the row is still unchecked.
pub open spec fn checkable_at(items: Seq<TodoItem>, list_id: i32, item_id: i32, j: int) -> bool {
    &&& 0 <= j < items.len()
    &&& items[j].id == item_id
    &&& items[j].list_id == list_id
    &&& !items[j].checked
}

/// The row after the update: same row, `checked` set.
pub open spec fn with_checked(it: TodoItem) -> TodoItem {
    TodoItem { id: it.id, title: it.title, checked: true, list_id: it.list_id }
}

/// How one conditional update relates the item table before and after, and
/// the reported row count: when some row matches both ids and is still
/// unchecked, exactly that row's `checked` flag is set and one modified row
/// is reported (`r == true`); otherwise nothing changes and none is reported
/// (`r == false`). There is no failing outcome.
pub open spec fn check_transition(
    pre: Seq<TodoItem>,
    post: Seq<TodoItem>,
    list_id: i32,
    item_id: i32,
    r: bool,
) -> bool {
    if exists|j: int| checkable_at(pre, list_id, item_id, j) {
        &&& r == true
        &&& exists|j: int|
            #[trigger] checkable_at(pre, list_id, item_id, j) && post == pre.update(
                j,
                with_checked(pre[j]),
            )
    } else {
        &&& r == false
        &&& post == pre
    }
}

/// Conditionally check one item: set `checked = true` only if a row exists
/// that matches both ids and is currently unchecked. Returns `true` iff
/// exactly one row was modified, so "already checked" and "no such item"
/// both come back as `false`, never as an error.
pub fn check_item(s: &mut Store, list_id: i32, item_id: i32) -> (r: bool)
    requires
        old(s).wf(),
    ensures
        final(s).wf(),
        final(s).lists@ == old(s).lists@,
        final(s).next_list_id == old(s).next_list_id,
        final(s).next_item_id == old(s).next_item_id,
        check_transition(old(s).items@, final(s).items@, list_id, item_id, r),
{
    let n = s.items.len();
    let mut k: usize = 0;
    while k < n
        invariant
            k <= n,
            n == s.items@.len(),
            *s == *old(s),
            old(s).wf(),
            forall|j: int| 0 <= j < k ==> !checkable_at(s.items@, list_id, item_id, j),
        decreases n - k,
    {
        if s.items[k].id == item_id && s.items[k].list_id == list_id && !s.items[k].checked {
            let row = &mut s.items[k];
            row.checked = true;
            proof {
                assert(checkable_at(old(s).items@, list_id, item_id, k as int));
                assert(s.items@ == old(s).items@.update(
                    k as int,
                    with_checked(old(s).items@[k as int]),
                ));
                assert forall|i: int| 0 <= i < s.items@.len() implies (#[trigger] s.items@[i]).id
                    == old(s).items@[i].id && s.items@[i].list_id == old(s).items@[i].list_id by {
                    if i != k as int {
                        assert(s.items@[i] == old(s).items@[i]);
                    }
                }
                assert forall|i: int, j: int|
                    0 <= i < j < s.items@.len() implies #[trigger] s.items@[i].id
                    < #[trigger] s.items@[j].id by {
                    assert(old(s).items@[i].id < old(s).items@[j].id);
                }
                assert forall|i: int| 0 <= i < s.items@.len() implies list_exists(
                    s.lists@,
                    (#[trigger] s.items@[i]).list_id,
                ) by {
                    assert(list_exists(s.lists@, old(s).items@[i].list_id));
                }
            }
            return true;
        }
        k = k + 1;
    }
    false
}

} // verus!
