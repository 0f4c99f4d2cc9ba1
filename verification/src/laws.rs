//! The guarantees the service gives its callers, stated once and proved over
//! the store model and the transition predicates of [`crate::db`]. Every
//! data-access operation's contract says it preserves [`Store::wf`], so each
//! law that assumes a well-formed store holds after any sequence of
//! creations and checks.

use vstd::prelude::*;

use crate::db::check_transition;
use crate::db::checkable_at;
use crate::db::create_list_step;
use crate::db::items_of;
use crate::db::todos_of;
use crate::models::TodoItem;
use crate::models::TodoList;
use crate::store::Store;

verus! {

/// No two item rows share an id. Follows from the strictly increasing ids of
/// a well-formed store; see [`lemma_wf_item_ids_distinct`].
pub open spec fn item_ids_distinct(items: Seq<TodoItem>) -> bool {
    forall|i: int, j: int|
        0 <= i < j < items.len() ==> #[trigger] items[i].id != #[trigger] items[j].id
}

/// A well-formed store never holds two item rows with one id.
pub proof fn lemma_wf_item_ids_distinct(s: Store)
    requires
        s.wf(),
    ensures
        item_ids_distinct(s.items@),
{
}

/// Ordering of `GET /todos`: whatever sequence of list creations produced a
/// well-formed store, selecting all lists returns them in strictly
/// descending id order (newest first).
pub proof fn lemma_get_todos_descending(s: Store)
    requires
        s.wf(),
    ensures
        forall|i: int, j: int|
            0 <= i < j < todos_of(s.lists@).len() ==> #[trigger] todos_of(s.lists@)[i].id
                > #[trigger] todos_of(s.lists@)[j].id,
{
}

/// Conditional-update correctness: checking a `(list_id, item_id)` pair that
/// matches no row at all reports `false` and leaves the store untouched —
/// and by the shape of [`check_transition`] there is no error outcome.
pub proof fn lemma_check_missing_pair(
    pre: Seq<TodoItem>,
    post: Seq<TodoItem>,
    list_id: i32,
    item_id: i32,
    r: bool,
)
    requires
        forall|j: int|
            0 <= j < pre.len() ==> !((#[trigger] pre[j]).id == item_id && pre[j].list_id
                == list_id),
        check_transition(pre, post, list_id, item_id, r),
    ensures
        r == false,
        post == pre,
{
    assert forall|j: int| !checkable_at(pre, list_id, item_id, j) by {
        if 0 <= j < pre.len() {
            assert(!(pre[j].id == item_id && pre[j].list_id == list_id));
        }
    }
}

/// After a successful check of `(list_id, item_id)`, no row matching that
/// pair is still unchecked.
proof fn lemma_checked_row_stays_checked(
    pre: Seq<TodoItem>,
    post: Seq<TodoItem>,
    list_id: i32,
    item_id: i32,
)
    requires
        item_ids_distinct(pre),
        exists|j: int| checkable_at(pre, list_id, item_id, j),
        check_transition(pre, post, list_id, item_id, true),
    ensures
        item_ids_distinct(post),
        !(exists|j: int| checkable_at(post, list_id, item_id, j)),
{
    let j = choose|j: int|
        #[trigger] checkable_at(pre, list_id, item_id, j) && post == pre.update(
            j,
            crate::db::with_checked(pre[j]),
        );
    assert forall|j2: int| !checkable_at(post, list_id, item_id, j2) by {
        if 0 <= j2 < post.len() && j2 != j {
            assert(post[j2] == pre[j2]);
        }
    }
    assert forall|i: int, j2: int|
        0 <= i < j2 < post.len() implies #[trigger] post[i].id != #[trigger] post[j2].id by {
        assert(pre[i].id != pre[j2].id);
        assert(post[i].id == pre[i].id && post[j2].id == pre[j2].id);
    }
}

/// Idempotence of check: on a store whose item ids are unique (as every
/// well-formed store's are), checking the same still-unchecked item twice
/// reports `true` the first time, `false` the second, and the second call
/// changes nothing.
pub proof fn lemma_check_idempotent(
    pre: Seq<TodoItem>,
    mid: Seq<TodoItem>,
    post: Seq<TodoItem>,
    list_id: i32,
    item_id: i32,
    r1: bool,
    r2: bool,
)
    requires
        item_ids_distinct(pre),
        exists|j: int| checkable_at(pre, list_id, item_id, j),
        check_transition(pre, mid, list_id, item_id, r1),
        check_transition(mid, post, list_id, item_id, r2),
    ensures
        r1 == true,
        r2 == false,
        post == mid,
{
    lemma_checked_row_stays_checked(pre, mid, list_id, item_id);
}

/// Every row of a filtered item table is a row of the table itself.
proof fn lemma_items_of_subset(items: Seq<TodoItem>, list_id: i32)
    ensures
        forall|m: int|
            0 <= m < items_of(items, list_id).len() ==> items.contains(
                #[trigger] items_of(items, list_id)[m],
            ),
    decreases items.len(),
{
    reveal(Seq::filter);
    if items.len() > 0 {
        let d = items.drop_last();
        lemma_items_of_subset(d, list_id);
        let f = items_of(items, list_id);
        let fd = items_of(d, list_id);
        assert forall|m: int| 0 <= m < f.len() implies items.contains(f[m]) by {
            if items.last().list_id == list_id && m == f.len() - 1 {
                assert(items[items.len() - 1] == f[m]);
            } else {
                assert(f[m] == fd[m]);
                assert(d.contains(fd[m]));
                let i = choose|i: int| 0 <= i < d.len() && d[i] == fd[m];
                assert(items[i] == f[m]);
            }
        }
    }
}

/// Filtering the item table by list keeps its strictly ascending id order.
proof fn lemma_items_of_ascending(items: Seq<TodoItem>, list_id: i32)
    requires
        forall|i: int, j: int|
            0 <= i < j < items.len() ==> #[trigger] items[i].id < #[trigger] items[j].id,
    ensures
        forall|a: int, b: int|
            0 <= a < b < items_of(items, list_id).len() ==> #[trigger] items_of(
                items,
                list_id,
            )[a].id < #[trigger] items_of(items, list_id)[b].id,
    decreases items.len(),
{
    reveal(Seq::filter);
    if items.len() > 0 {
        let d = items.drop_last();
        assert forall|i: int, j: int|
            0 <= i < j < d.len() implies #[trigger] d[i].id < #[trigger] d[j].id by {
            assert(d[i] == items[i] && d[j] == items[j]);
        }
        lemma_items_of_ascending(d, list_id);
        lemma_items_of_subset(d, list_id);
        let f = items_of(items, list_id);
        let fd = items_of(d, list_id);
        assert forall|a: int, b: int|
            0 <= a < b < f.len() implies #[trigger] f[a].id < #[trigger] f[b].id by {
            if items.last().list_id == list_id && b == f.len() - 1 {
                assert(f[a] == fd[a]);
                assert(d.contains(fd[a]));
                let i = choose|i: int| 0 <= i < d.len() && d[i] == fd[a];
                assert(items[i].id < items[items.len() - 1].id);
            } else {
                assert(f[a] == fd[a] && f[b] == fd[b]);
            }
        }
    }
}

/// Ordering of `GET /todos/{list}/items`: whatever sequence of item
/// creations produced a well-formed store, selecting one list's items
/// returns them in strictly ascending id order (oldest first).
pub proof fn lemma_get_items_ascending(s: Store, list_id: i32)
    requires
        s.wf(),
    ensures
        forall|a: int, b: int|
            0 <= a < b < items_of(s.items@, list_id).len() ==> #[trigger] items_of(
                s.items@,
                list_id,
            )[a].id < #[trigger] items_of(s.items@, list_id)[b].id,
{
    lemma_items_of_ascending(s.items@, list_id);
}

/// Once no row matching the pair is checkable, every further check reports
/// `false` and moves nothing: state `k` equals state 1 along the whole chain.
proof fn lemma_check_chain_frozen(
    states: Seq<Seq<TodoItem>>,
    results: Seq<bool>,
    list_id: i32,
    item_id: i32,
    k: int,
)
    requires
        states.len() == results.len() + 1,
        forall|m: int|
            0 <= m < results.len() ==> check_transition(
                #[trigger] states[m],
                states[m + 1],
                list_id,
                item_id,
                results[m],
            ),
        !(exists|j: int| checkable_at(states[1], list_id, item_id, j)),
        1 <= k <= results.len(),
    ensures
        states[k] == states[1],
        2 <= k ==> results[k - 1] == false,
    decreases k,
{
    if k >= 2 {
        lemma_check_chain_frozen(states, results, list_id, item_id, k - 1);
        assert(check_transition(states[k - 1], states[k], list_id, item_id, results[k - 1]));
    }
}

/// Isolation under concurrency: the store serializes conflicting writes, so
/// N concurrent checks of one item become some chain of N conditional
/// updates. Whatever that order, when the item starts present and unchecked,
/// the first check reports `true` and every later one `false`: exactly one
/// winner, N−1 losers.
pub proof fn lemma_concurrent_checks_one_winner(
    states: Seq<Seq<TodoItem>>,
    results: Seq<bool>,
    list_id: i32,
    item_id: i32,
)
    requires
        states.len() == results.len() + 1,
        results.len() >= 1,
        item_ids_distinct(states[0]),
        exists|j: int| checkable_at(states[0], list_id, item_id, j),
        forall|m: int|
            0 <= m < results.len() ==> check_transition(
                #[trigger] states[m],
                states[m + 1],
                list_id,
                item_id,
                results[m],
            ),
    ensures
        results[0] == true,
        forall|k: int| 1 <= k < results.len() ==> #[trigger] results[k] == false,
{
    assert(check_transition(states[0], states[1], list_id, item_id, results[0]));
    lemma_checked_row_stays_checked(states[0], states[1], list_id, item_id);
    assert forall|k: int| 1 <= k < results.len() implies #[trigger] results[k] == false by {
        lemma_check_chain_frozen(states, results, list_id, item_id, k + 1);
    }
}

/// The list-id generator advances by exactly one per creation, so after `k`
/// creations it stands `k` past where it began.
proof fn lemma_create_chain_next_id(stores: Seq<Store>, created: Seq<TodoList>, k: int)
    requires
        stores.len() == created.len() + 1,
        forall|m: int|
            0 <= m < created.len() ==> create_list_step(
                #[trigger] stores[m],
                stores[m + 1],
                created[m],
            ),
        0 <= k <= created.len(),
    ensures
        stores[k].next_list_id == stores[0].next_list_id + k,
    decreases k,
{
    if k >= 1 {
        lemma_create_chain_next_id(stores, created, k - 1);
        assert(create_list_step(stores[k - 1], stores[k], created[k - 1]));
    }
}

/// Uniqueness: the store serializes N concurrent list creations into some
/// chain of N inserts, and each insert takes the generated id and advances
/// the generator. Whatever the order, the N created ids are pairwise
/// distinct.
pub proof fn lemma_concurrent_creates_distinct_ids(stores: Seq<Store>, created: Seq<TodoList>)
    requires
        stores.len() == created.len() + 1,
        forall|m: int|
            0 <= m < created.len() ==> create_list_step(
                #[trigger] stores[m],
                stores[m + 1],
                created[m],
            ),
    ensures
        forall|a: int, b: int|
            0 <= a < b < created.len() ==> #[trigger] created[a].id != #[trigger] created[b].id,
{
    assert forall|a: int, b: int|
        0 <= a < b < created.len() implies #[trigger] created[a].id
        != #[trigger] created[b].id by {
        lemma_create_chain_next_id(stores, created, a);
        lemma_create_chain_next_id(stores, created, b);
        assert(create_list_step(stores[a], stores[a + 1], created[a]));
        assert(create_list_step(stores[b], stores[b + 1], created[b]));
    }
}

} // verus!
