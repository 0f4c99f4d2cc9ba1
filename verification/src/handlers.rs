//! One handler per endpoint. Each is a thin orchestration: the glue outside
//! this crate acquires a connection and performs exactly one data-access
//! round trip, then hands the classified result to the handler here, which
//! fixes the response: a uniform success status with the value as body, or a
//! uniform error status with the client-safe message as body — never the
//! underlying cause.

use vstd::prelude::*;

use crate::errors::AppError;
use crate::errors::ErrorResponse;
use crate::models::ResultResponse;
use crate::models::Status;
use crate::models::TodoItem;
use crate::models::TodoList;

verus! {

/// The one status code of every successful response.
pub const STATUS_OK: u16 = 200;

/// The one status code of every failed response.
pub const STATUS_DB_ERROR: u16 = 500;

/// Every body a handler can answer with.
pub enum Body {
    Health(Status),
    Lists(Vec<TodoList>),
    Items(Vec<TodoItem>),
    List(TodoList),
    Item(TodoItem),
    Check(ResultResponse),
    Failure(ErrorResponse),
}

/// An HTTP-shaped response: a status code and a body to serialize.
pub struct Response {
    pub status: u16,
    pub body: Body,
}

/// The one response shape of every failure: the uniform error status, and as
/// body the classified message alone. The cause is not part of the response.
pub open spec fn failure_response(e: AppError) -> Response {
    Response { status: STATUS_DB_ERROR, body: Body::Failure(ErrorResponse { message: e.message }) }
}

fn fail(e: AppError) -> (r: Response)
    ensures
        r == failure_response(e),
{
    Response { status: STATUS_DB_ERROR, body: Body::Failure(e.client_body()) }
}

/// Health endpoint: always `{"status":"Ok"}` with the success status.
pub fn status() -> (r: Response)
    ensures
        r.status == STATUS_OK,
        r.body matches Body::Health(st) && st.status@ == "Ok"@,
{
    Response { status: STATUS_OK, body: Body::Health(Status { status: "Ok".to_owned() }) }
}

/// Answer for the list-all-lists endpoint.
pub fn get_todos(result: Result<Vec<TodoList>, AppError>) -> (r: Response)
    ensures
        result matches Ok(todos) ==> r == (Response { status: STATUS_OK, body: Body::Lists(todos) }),
        result matches Err(e) ==> r == failure_response(e),
{
    match result {
        Ok(todos) => Response { status: STATUS_OK, body: Body::Lists(todos) },
        Err(e) => fail(e),
    }
}

/// Answer for the list-one-list's-items endpoint.
pub fn get_items(result: Result<Vec<TodoItem>, AppError>) -> (r: Response)
    ensures
        result matches Ok(items) ==> r == (Response { status: STATUS_OK, body: Body::Items(items) }),
        result matches Err(e) ==> r == failure_response(e),
{
    match result {
        Ok(items) => Response { status: STATUS_OK, body: Body::Items(items) },
        Err(e) => fail(e),
    }
}

/// Answer for the create-list endpoint.
pub fn create_todo(result: Result<TodoList, AppError>) -> (r: Response)
    ensures
        result matches Ok(todo) ==> r == (Response { status: STATUS_OK, body: Body::List(todo) }),
        result matches Err(e) ==> r == failure_response(e),
{
    match result {
        Ok(todo) => Response { status: STATUS_OK, body: Body::List(todo) },
        Err(e) => fail(e),
    }
}

/// Answer for the create-item endpoint.
pub fn create_todo_item(result: Result<TodoItem, AppError>) -> (r: Response)
    ensures
        result matches Ok(item) ==> r == (Response { status: STATUS_OK, body: Body::Item(item) }),
        result matches Err(e) ==> r == failure_response(e),
{
    match result {
        Ok(item) => Response { status: STATUS_OK, body: Body::Item(item) },
        Err(e) => fail(e),
    }
}

/// Answer for the check-item endpoint: `{"success": b}` where `b` reports
/// whether exactly one row was modified.
pub fn check_item(result: Result<bool, AppError>) -> (r: Response)
    ensures
        result matches Ok(updated) ==> r == (Response {
            status: STATUS_OK,
            body: Body::Check(ResultResponse { success: updated }),
        }),
        result matches Err(e) ==> r == failure_response(e),
{
    match result {
        Ok(updated) => Response {
            status: STATUS_OK,
            body: Body::Check(ResultResponse { success: updated }),
        },
        Err(e) => fail(e),
    }
}

} // verus!
