//! The vocabulary spoken between the cache protocol and whoever carries its
//! commands out.
//!
//! The protocol never touches a store itself. It hands out one [`Command`]
//! at a time, is told what came of it in a [`Reply`], and answers with the next
//! command, until it hands out [`Command::Finish`] or [`Command::Close`].
pub mod cached;
pub mod mongo;
pub mod world;

use crate::errors::{CustomError, ErrorView};
use crate::models::{Board, BoardView, Record, RecordView, Task, TaskView};
use vstd::prelude::*;

verus! {

/// One call to the authoritative store. Every call is answered with the record
/// concerned or with an error.
#[derive(Debug)]
#[allow(inconsistent_fields)]
pub enum StoreCall {
    ReadBoard { id: String },
    UpdateBoard { id: String, data: Board },
    DeleteBoard { id: String },
    CreateTask { board_id: String, data: Task },
    ReadTask { board_id: String, task_id: String },
    UpdateTask { board_id: String, task_id: String, data: Task },
    DeleteTask { board_id: String, task_id: String },
}

/// The mathematical content of a [`StoreCall`].
#[allow(inconsistent_fields)]
pub enum StoreCallView {
    ReadBoard { id: Seq<char> },
    UpdateBoard { id: Seq<char>, data: BoardView },
    DeleteBoard { id: Seq<char> },
    CreateTask { board_id: Seq<char>, data: TaskView },
    ReadTask { board_id: Seq<char>, task_id: Seq<char> },
    UpdateTask { board_id: Seq<char>, task_id: Seq<char>, data: TaskView },
    DeleteTask { board_id: Seq<char>, task_id: Seq<char> },
}

impl View for StoreCall {
    type V = StoreCallView;

    open spec fn view(&self) -> StoreCallView {
        match *self {
            StoreCall::ReadBoard { id } => StoreCallView::ReadBoard { id: id@ },
            StoreCall::UpdateBoard { id, data } => StoreCallView::UpdateBoard {
                id: id@,
                data: data@,
            },
            StoreCall::DeleteBoard { id } => StoreCallView::DeleteBoard { id: id@ },
            StoreCall::CreateTask { board_id, data } => StoreCallView::CreateTask {
                board_id: board_id@,
                data: data@,
            },
            StoreCall::ReadTask { board_id, task_id } => StoreCallView::ReadTask {
                board_id: board_id@,
                task_id: task_id@,
            },
            StoreCall::UpdateTask { board_id, task_id, data } => StoreCallView::UpdateTask {
                board_id: board_id@,
                task_id: task_id@,
                data: data@,
            },
            StoreCall::DeleteTask { board_id, task_id } => StoreCallView::DeleteTask {
                board_id: board_id@,
                task_id: task_id@,
            },
        }
    }
}

/// What the protocol asks for next.
#[derive(Debug)]
pub enum Command {
    /// Fetch a hash field from the auxiliary store and decode it.
    CacheGet { key: String, field: String },
    /// Encode `value`, set the hash field to it and let the whole key expire
    /// `ttl` seconds from now.
    CacheSet { key: String, field: String, value: Record, ttl: u64 },
    /// Remove one hash field.
    CacheDeleteField { key: String, field: String },
    /// Remove a key with all its fields.
    CacheDeleteKey { key: String },
    /// Publish `payload` on `channel`.
    Publish { channel: String, payload: String },
    /// Call the authoritative store.
    Store(StoreCall),
    /// Open a connection of its own and subscribe it to `channel`.
    Subscribe { channel: String },
    /// Put `frame` into the subscriber's outbound queue, waiting while the
    /// queue is full.
    Emit { frame: String },
    /// Wait for the next message on the subscribed channel.
    Receive,
    /// The subscription is over: release its connection.
    Close,
    /// The operation is over, with this outcome.
    Finish(Result<Record, CustomError>),
}

/// The mathematical content of a [`Command`].
pub enum CommandView {
    CacheGet { key: Seq<char>, field: Seq<char> },
    CacheSet { key: Seq<char>, field: Seq<char>, value: RecordView, ttl: u64 },
    CacheDeleteField { key: Seq<char>, field: Seq<char> },
    CacheDeleteKey { key: Seq<char> },
    Publish { channel: Seq<char>, payload: Seq<char> },
    Store(StoreCallView),
    Subscribe { channel: Seq<char> },
    Emit { frame: Seq<char> },
    Receive,
    Close,
    Finish(Result<RecordView, ErrorView>),
}

/// The content of a record or the error in its place.
pub open spec fn record_outcome(outcome: Result<Record, CustomError>) -> Result<
    RecordView,
    ErrorView,
> {
    match outcome {
        Ok(record) => Ok(record@),
        Err(error) => Err(error@),
    }
}

/// Success, or the content of the error.
pub open spec fn unit_outcome(outcome: Result<(), CustomError>) -> Result<(), ErrorView> {
    match outcome {
        Ok(()) => Ok(()),
        Err(error) => Err(error@),
    }
}

/// The characters of a text or the error in its place.
pub open spec fn text_outcome(outcome: Result<String, CustomError>) -> Result<
    Seq<char>,
    ErrorView,
> {
    match outcome {
        Ok(text) => Ok(text@),
        Err(error) => Err(error@),
    }
}

impl View for Command {
    type V = CommandView;

    open spec fn view(&self) -> CommandView {
        match *self {
            Command::CacheGet { key, field } => CommandView::CacheGet { key: key@, field: field@ },
            Command::CacheSet { key, field, value, ttl } => CommandView::CacheSet {
                key: key@,
                field: field@,
                value: value@,
                ttl,
            },
            Command::CacheDeleteField { key, field } => CommandView::CacheDeleteField {
                key: key@,
                field: field@,
            },
            Command::CacheDeleteKey { key } => CommandView::CacheDeleteKey { key: key@ },
            Command::Publish { channel, payload } => CommandView::Publish {
                channel: channel@,
                payload: payload@,
            },
            Command::Store(call) => CommandView::Store(call@),
            Command::Subscribe { channel } => CommandView::Subscribe { channel: channel@ },
            Command::Emit { frame } => CommandView::Emit { frame: frame@ },
            Command::Receive => CommandView::Receive,
            Command::Close => CommandView::Close,
            Command::Finish(outcome) => CommandView::Finish(record_outcome(outcome)),
        }
    }
}

/// What came of the last command.
#[derive(Debug)]
pub enum Reply {
    /// Answers `CacheGet` and `Store`: the record, or why there is none.
    Record(Result<Record, CustomError>),
    /// Answers the commands that only have an effect: `CacheSet`,
    /// `CacheDeleteField`, `CacheDeleteKey`, `Publish`, `Subscribe` and `Emit`.
    /// For `Emit` an error means that the subscriber is gone.
    Done(Result<(), CustomError>),
    /// Answers `Receive`: the payload of the next message, or the failure to
    /// read one.
    Message(Result<String, CustomError>),
    /// Answers `Receive` when the channel has ended.
    Closed,
}

/// The mathematical content of a [`Reply`].
pub enum ReplyView {
    Record(Result<RecordView, ErrorView>),
    Done(Result<(), ErrorView>),
    Message(Result<Seq<char>, ErrorView>),
    Closed,
}

impl View for Reply {
    type V = ReplyView;

    open spec fn view(&self) -> ReplyView {
        match *self {
            Reply::Record(outcome) => ReplyView::Record(record_outcome(outcome)),
            Reply::Done(outcome) => ReplyView::Done(unit_outcome(outcome)),
            Reply::Message(outcome) => ReplyView::Message(text_outcome(outcome)),
            Reply::Closed => ReplyView::Closed,
        }
    }
}

} // verus!
