use todo_service::db;
use todo_service::errors::AppError;
use todo_service::handlers;
use todo_service::handlers::Body;
use todo_service::handlers::STATUS_DB_ERROR;
use todo_service::handlers::STATUS_OK;
use todo_service::store::Store;

#[test]
fn status_reports_ok() {
    let r = handlers::status();
    assert_eq!(r.status, STATUS_OK);
    match r.body {
        Body::Health(st) => assert_eq!(st.status, "Ok"),
        _ => panic!("unexpected body"),
    }
}

#[test]
fn create_first_list_gets_id_one() {
    let mut s = Store::new();
    let r = handlers::create_todo(Ok(db::create_todo(&mut s, "Groceries".to_owned())));
    assert_eq!(r.status, STATUS_OK);
    match r.body {
        Body::List(todo) => {
            assert_eq!(todo.id, 1);
            assert_eq!(todo.title, "Groceries");
        }
        _ => panic!("unexpected body"),
    }
}

#[test]
fn create_first_item_gets_id_one_unchecked() {
    let mut s = Store::new();
    db::create_todo(&mut s, "Groceries".to_owned());
    let r = handlers::create_todo_item(db::create_todo_item(&mut s, "Milk".to_owned(), 1));
    assert_eq!(r.status, STATUS_OK);
    match r.body {
        Body::Item(item) => {
            assert_eq!(item.id, 1);
            assert_eq!(item.title, "Milk");
            assert!(!item.checked);
            assert_eq!(item.list_id, 1);
        }
        _ => panic!("unexpected body"),
    }
}

#[test]
fn check_succeeds_once_then_reports_false() {
    let mut s = Store::new();
    db::create_todo(&mut s, "Groceries".to_owned());
    db::create_todo_item(&mut s, "Milk".to_owned(), 1).ok().unwrap();

    let first = handlers::check_item(Ok(db::check_item(&mut s, 1, 1)));
    assert_eq!(first.status, STATUS_OK);
    match first.body {
        Body::Check(res) => assert!(res.success),
        _ => panic!("unexpected body"),
    }

    let second = handlers::check_item(Ok(db::check_item(&mut s, 1, 1)));
    assert_eq!(second.status, STATUS_OK);
    match second.body {
        Body::Check(res) => assert!(!res.success),
        _ => panic!("unexpected body"),
    }
}

#[test]
fn checked_item_is_returned_checked() {
    let mut s = Store::new();
    db::create_todo(&mut s, "Groceries".to_owned());
    db::create_todo_item(&mut s, "Milk".to_owned(), 1).ok().unwrap();
    assert!(db::check_item(&mut s, 1, 1));

    let r = handlers::get_items(Ok(db::get_items(&s, 1)));
    assert_eq!(r.status, STATUS_OK);
    match r.body {
        Body::Items(items) => {
            assert_eq!(items.len(), 1);
            assert_eq!(items[0].id, 1);
            assert_eq!(items[0].title, "Milk");
            assert!(items[0].checked);
            assert_eq!(items[0].list_id, 1);
        }
        _ => panic!("unexpected body"),
    }
}

#[test]
fn todos_come_back_newest_first() {
    let mut s = Store::new();
    db::create_todo(&mut s, "a".to_owned());
    db::create_todo(&mut s, "b".to_owned());
    db::create_todo(&mut s, "c".to_owned());
    let todos = db::get_todos(&s);
    let ids: Vec<i32> = todos.iter().map(|t| t.id).collect();
    assert_eq!(ids, vec![3, 2, 1]);
    assert_eq!(todos[0].title, "c");
    assert_eq!(todos[2].title, "a");
}

#[test]
fn empty_store_has_no_todos() {
    let s = Store::new();
    assert!(db::get_todos(&s).is_empty());
    assert!(db::get_items(&s, 1).is_empty());
}

#[test]
fn items_come_back_oldest_first_for_their_list_only() {
    let mut s = Store::new();
    db::create_todo(&mut s, "one".to_owned());
    db::create_todo(&mut s, "two".to_owned());
    db::create_todo_item(&mut s, "milk".to_owned(), 1).ok().unwrap();
    db::create_todo_item(&mut s, "nails".to_owned(), 2).ok().unwrap();
    db::create_todo_item(&mut s, "eggs".to_owned(), 1).ok().unwrap();
    db::create_todo_item(&mut s, "bread".to_owned(), 1).ok().unwrap();

    let items = db::get_items(&s, 1);
    let ids: Vec<i32> = items.iter().map(|t| t.id).collect();
    assert_eq!(ids, vec![1, 3, 4]);
    assert!(items.iter().all(|it| it.list_id == 1));

    let other = db::get_items(&s, 2);
    assert_eq!(other.len(), 1);
    assert_eq!(other[0].title, "nails");
}

#[test]
fn checking_missing_pair_reports_false_not_error() {
    let mut s = Store::new();
    db::create_todo(&mut s, "Groceries".to_owned());
    db::create_todo_item(&mut s, "Milk".to_owned(), 1).ok().unwrap();

    // No such item under this list.
    assert!(!db::check_item(&mut s, 1, 99));
    // Item exists but under another list id.
    assert!(!db::check_item(&mut s, 2, 1));
    // Nothing changed: the item is still unchecked and checkable.
    let items = db::get_items(&s, 1);
    assert!(!items[0].checked);
    assert!(db::check_item(&mut s, 1, 1));
}

#[test]
fn repeated_checks_yield_exactly_one_success() {
    let mut s = Store::new();
    db::create_todo(&mut s, "Groceries".to_owned());
    db::create_todo_item(&mut s, "Milk".to_owned(), 1).ok().unwrap();
    let results: Vec<bool> = (0..5).map(|_| db::check_item(&mut s, 1, 1)).collect();
    assert_eq!(results.iter().filter(|b| **b).count(), 1);
    assert!(results[0]);
}

#[test]
fn created_list_ids_are_distinct() {
    let mut s = Store::new();
    let mut ids: Vec<i32> = Vec::new();
    for k in 0..4 {
        ids.push(db::create_todo(&mut s, format!("list {}", k)).id);
    }
    for a in 0..ids.len() {
        for b in 0..ids.len() {
            if a != b {
                assert_ne!(ids[a], ids[b]);
            }
        }
    }
}

#[test]
fn creating_item_under_missing_list_is_classified() {
    let mut s = Store::new();
    let r = db::create_todo_item(&mut s, "Milk".to_owned(), 7);
    let e = r.err().expect("insert under a missing list must fail");
    let resp = handlers::create_todo_item(Err(e));
    assert_eq!(resp.status, STATUS_DB_ERROR);
    match resp.body {
        Body::Failure(body) => assert_eq!(body.message, "error with the database"),
        _ => panic!("unexpected body"),
    }
    // The failed insert left nothing behind.
    assert!(db::get_items(&s, 7).is_empty());
}

#[test]
fn failure_body_carries_message_never_cause() {
    let e = AppError::db_error("connection refused at 10.0.0.5:5432".to_owned());
    let body = e.client_body();
    assert_eq!(body.message, "error with the database");
    assert!(!body.message.contains("10.0.0.5"));

    let r = handlers::get_todos(Err(e));
    assert_eq!(r.status, STATUS_DB_ERROR);
    match r.body {
        Body::Failure(body) => {
            assert_eq!(body.message, "error with the database");
            assert!(!body.message.contains("connection refused"));
        }
        _ => panic!("unexpected body"),
    }
}

#[test]
fn missing_insert_row_is_its_own_failure() {
    let e = AppError::insert_error();
    assert!(e.cause.is_none());
    let r = handlers::create_todo(Err(e));
    assert_eq!(r.status, STATUS_DB_ERROR);
    match r.body {
        Body::Failure(body) => assert_eq!(body.message, "insert produced no result"),
        _ => panic!("unexpected body"),
    }
}
