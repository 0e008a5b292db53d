//! What the adapter of the authoritative store decides for itself, before and
//! after it has talked to the store: which texts name a document at all, what
//! a document that is not there amounts to, and what the store cannot do.
use crate::errors::{CustomError, ErrorView};
use crate::models::{Record, Task, TaskView};
use vstd::prelude::*;
use vstd::string::*;

verus! {

/// The database that holds the boards and the tasks.
pub const DATABASE: &'static str = "boards_back";

/// The collection of the boards.
pub const BOARDS_COLLECTION: &'static str = "boards";

/// The collection of the tasks.
pub const TASKS_COLLECTION: &'static str = "tasks";

/// Whether `c` is a hexadecimal digit, in either case.
pub open spec fn is_hex_digit(c: char) -> bool {
    ('0' <= c && c <= '9') || ('a' <= c && c <= 'f') || ('A' <= c && c <= 'F')
}

/// Whether `text` is the text of an object identifier: twenty-four
/// hexadecimal digits.
pub open spec fn is_object_id_text(text: Seq<char>) -> bool {
    text.len() == 24 && forall|i: int| 0 <= i < text.len() ==> is_hex_digit(#[trigger] text[i])
}

/// The detail of the error that reports a document that is not there.
pub open spec fn missing(id: Seq<char>) -> ErrorView {
    ErrorView::NotFound("board with id: "@ + id)
}

/// The error that answers a subscription asked of the store itself.
pub open spec fn no_subscriptions() -> ErrorView {
    ErrorView::InternalError("Subscription isn't implemented for mongo"@)
}

/// The object identifier that `text` is the text of, where it is one: what
/// `mongodb::bson::oid::ObjectId::parse_str` makes of the text. It depends on
/// the text alone.
pub uninterp spec fn object_id_of(text: Seq<char>) -> mongodb::bson::oid::ObjectId;

/// Reads `id` as an object identifier.
///
/// Calls `mongodb::bson::oid::ObjectId::parse_str`, which decodes the text as
/// hexadecimal and accepts it if and only if that gives twelve bytes. The
/// contract claims when it succeeds, and gives the identifier its name.
#[verifier::external_body]
fn parse_object_id(id: &str) -> (parsed: Result<
    mongodb::bson::oid::ObjectId,
    mongodb::bson::oid::Error,
>)
    ensures
        parsed is Ok <==> is_object_id_text(id@),
        parsed matches Ok(found) ==> found == object_id_of(id@),
{
    mongodb::bson::oid::ObjectId::parse_str(id)
}

/// The object identifier that `id` is the text of. A text that is none names
/// nothing, so that whatever was asked for under it is not found.
pub fn object_id(id: &str) -> (out: Result<mongodb::bson::oid::ObjectId, CustomError>)
    ensures
        match out {
            Ok(found) => is_object_id_text(id@) && found == object_id_of(id@),
            Err(error) => !is_object_id_text(id@) && error@ is NotFound,
        },
{
    match parse_object_id(id) {
        Ok(parsed) => Ok(parsed),
        Err(refused) => Err(CustomError::from(refused)),
    }
}

/// What a lookup under `id` amounts to: the document found, or the report
/// that there is none.
pub fn found_or_missing(found: Option<Record>, id: &str) -> (out: Result<Record, CustomError>)
    ensures
        match found {
            Some(record) => out == Ok::<Record, CustomError>(record),
            None => out matches Err(error) && error@ == missing(id@),
        },
{
    match found {
        Some(record) => Ok(record),
        None => Err(CustomError::NotFound("board with id: ".to_owned().concat(id))),
    }
}

/// The task as it is stored for the board `board_id`: the task with that board
/// as its owner, whatever owner it named before. Fails, as not found, where
/// `board_id` is not the text of an object identifier.
pub fn owned_by(task: Task, board_id: &str) -> (out: Result<Task, CustomError>)
    ensures
        match out {
            Ok(owned) => is_object_id_text(board_id@) && owned@ == (TaskView {
                board_id: object_id_of(board_id@),
                ..task@
            }),
            Err(error) => !is_object_id_text(board_id@) && error@ is NotFound,
        },
{
    match object_id(board_id) {
        Ok(owner) => Ok(
            Task {
                id: task.id,
                board_id: owner,
                name: task.name,
                description: task.description,
                stage: task.stage,
            },
        ),
        Err(error) => Err(error),
    }
}

/// The answer to a subscription asked of the store itself, which keeps no
/// channels: an internal error.
pub fn subscribe_on_board_updates() -> (error: CustomError)
    ensures
        error@ == no_subscriptions(),
{
    CustomError::InternalError("Subscription isn't implemented for mongo".to_owned())
}

} // verus!
