//! The cache in front of the authoritative store, as a protocol.
//!
//! Reads are served from the auxiliary store when it holds a snapshot and fall
//! through to the authoritative store when it does not; what was fetched is
//! written back with a time to live. Mutations go to the authoritative store,
//! refresh or clear the snapshot and publish a change event on the board's
//! channel. A subscription checks that the board exists, subscribes to that
//! channel, greets the subscriber and then forwards every message as a frame.
//!
//! A [`Cached`] value is one such operation in flight. It is begun by the
//! function named after the operation, which also hands out the first
//! [`Command`]; [`Cached::step`] takes the reply to the command that is pending
//! and hands out the next one.
use crate::db::{Command, CommandView, Reply, ReplyView, StoreCall, StoreCallView};
use crate::errors::{CustomError, ErrorView};
use crate::models::{Board, BoardView, Record, RecordView, Task, TaskView};
use vstd::prelude::*;
use vstd::string::*;

verus! {

/// Seconds a key of the cache lives after a snapshot was written under it.
pub const CACHE_TTL_SECS: u64 = 60;

/// Frames the outbound queue of one subscriber holds before the forwarding
/// task has to wait.
pub const EVENTS_QUEUE_CAPACITY: usize = 100;

/// The hash field that holds the snapshot of the board itself. A task's
/// snapshot is held under the task's identifier.
pub open spec fn board_field() -> Seq<char> {
    "board"@
}

/// The channel on which the changes of a board are published: a function of
/// the board's identifier alone.
pub open spec fn channel_name(board_id: Seq<char>) -> Seq<char> {
    "BOARD_EVENT_"@ + board_id
}

/// Payload of the event that tells of a changed board.
pub open spec fn updated_payload() -> Seq<char> {
    "Board updated"@
}

/// Payload of the event that tells of a deleted board.
pub open spec fn deleted_payload() -> Seq<char> {
    "Board deleted"@
}

/// The frame that greets a new subscriber.
pub open spec fn connected_frame() -> Seq<char> {
    "Connected;\n"@
}

/// The frame in which a channel message is forwarded.
pub open spec fn event_frame(payload: Seq<char>) -> Seq<char> {
    "Board event: "@ + payload + ";\n"@
}

/// The error that ends an operation which was handed a reply that cannot
/// answer its pending command.
pub open spec fn fault() -> ErrorView {
    ErrorView::InternalError("Reply does not answer the pending command"@)
}

/// The operations of the cached store.
#[derive(Clone, Copy, Debug, PartialEq, Eq, Structural)]
pub enum Kind {
    ReadBoard,
    ReadTask,
    UpdateBoard,
    UpdateTask,
    DeleteBoard,
    DeleteTask,
    CreateTask,
    Subscribe,
}

/// Which reply an operation is waiting for.
#[derive(Clone, Copy, Debug, PartialEq, Eq, Structural)]
pub enum Phase {
    /// The snapshot was asked of the cache.
    Lookup,
    /// The board's key is being removed from the cache, ahead of its deletion.
    Invalidate,
    /// The authoritative store was called.
    Store,
    /// The cache is being brought in line with what the store answered.
    Refresh,
    /// The change event is being published.
    Publish,
    /// The board's channel is being subscribed to.
    Subscribe,
    /// A frame is on its way into the subscriber's queue.
    Deliver,
    /// The next channel message is awaited.
    Receive,
    /// Nothing is pending: the operation is over.
    Done,
}

/// One operation in flight.
#[derive(Debug)]
pub struct Cached {
    kind: Kind,
    phase: Phase,
    key: String,
    field: String,
    held: Option<Record>,
}

/// The mathematical content of a [`Cached`]: the operation, the reply it waits
/// for, the cache key and hash field it works on, and the record it will
/// answer with once the store has supplied one.
pub struct CachedView {
    pub kind: Kind,
    pub phase: Phase,
    pub key: Seq<char>,
    pub field: Seq<char>,
    pub held: Option<RecordView>,
}

impl View for Cached {
    type V = CachedView;

    closed spec fn view(&self) -> CachedView {
        CachedView {
            kind: self.kind,
            phase: self.phase,
            key: self.key@,
            field: self.field@,
            held: match self.held {
                Some(record) => Some(record@),
                None => None,
            },
        }
    }
}

impl CachedView {
    /// `readBoard(id)`: look the board up in the cache first.
    pub open spec fn read_board(id: Seq<char>) -> (CachedView, CommandView) {
        (
            CachedView {
                kind: Kind::ReadBoard,
                phase: Phase::Lookup,
                key: id,
                field: board_field(),
                held: None,
            },
            CommandView::CacheGet { key: id, field: board_field() },
        )
    }

    /// `readTask(boardId, taskId)`: look the task up under the board's key first.
    pub open spec fn read_task(board_id: Seq<char>, task_id: Seq<char>) -> (
        CachedView,
        CommandView,
    ) {
        (
            CachedView {
                kind: Kind::ReadTask,
                phase: Phase::Lookup,
                key: board_id,
                field: task_id,
                held: None,
            },
            CommandView::CacheGet { key: board_id, field: task_id },
        )
    }

    /// `updateBoard(id, data)`: the authoritative store comes first.
    pub open spec fn update_board(id: Seq<char>, data: BoardView) -> (CachedView, CommandView) {
        (
            CachedView {
                kind: Kind::UpdateBoard,
                phase: Phase::Store,
                key: id,
                field: board_field(),
                held: None,
            },
            CommandView::Store(StoreCallView::UpdateBoard { id, data }),
        )
    }

    /// `deleteBoard(id)`: the cache key goes first, so that no reader can
    /// bring back a snapshot that is about to be stale.
    pub open spec fn delete_board(id: Seq<char>) -> (CachedView, CommandView) {
        (
            CachedView {
                kind: Kind::DeleteBoard,
                phase: Phase::Invalidate,
                key: id,
                field: board_field(),
                held: None,
            },
            CommandView::CacheDeleteKey { key: id },
        )
    }

    /// `createTask(boardId, data)`: straight to the authoritative store; the
    /// cache is not filled on creation.
    pub open spec fn create_task(board_id: Seq<char>, data: TaskView) -> (
        CachedView,
        CommandView,
    ) {
        (
            CachedView {
                kind: Kind::CreateTask,
                phase: Phase::Store,
                key: board_id,
                field: Seq::empty(),
                held: None,
            },
            CommandView::Store(StoreCallView::CreateTask { board_id, data }),
        )
    }

    /// `updateTask(boardId, taskId, data)`: the authoritative store comes first.
    pub open spec fn update_task(board_id: Seq<char>, task_id: Seq<char>, data: TaskView) -> (
        CachedView,
        CommandView,
    ) {
        (
            CachedView {
                kind: Kind::UpdateTask,
                phase: Phase::Store,
                key: board_id,
                field: task_id,
                held: None,
            },
            CommandView::Store(StoreCallView::UpdateTask { board_id, task_id, data }),
        )
    }

    /// `deleteTask(boardId, taskId)`: the authoritative store comes first.
    pub open spec fn delete_task(board_id: Seq<char>, task_id: Seq<char>) -> (
        CachedView,
        CommandView,
    ) {
        (
            CachedView {
                kind: Kind::DeleteTask,
                phase: Phase::Store,
                key: board_id,
                field: task_id,
                held: None,
            },
            CommandView::Store(StoreCallView::DeleteTask { board_id, task_id }),
        )
    }

    /// `subscribe(boardId)`: begins as a read of the board, which decides
    /// whether there is anything to subscribe to.
    pub open spec fn subscribe_on_board_updates(board_id: Seq<char>) -> (
        CachedView,
        CommandView,
    ) {
        (
            CachedView {
                kind: Kind::Subscribe,
                phase: Phase::Lookup,
                key: board_id,
                field: board_field(),
                held: None,
            },
            CommandView::CacheGet { key: board_id, field: board_field() },
        )
    }

    /// The operation once it is over.
    pub open spec fn over(self) -> CachedView {
        CachedView { phase: Phase::Done, held: None, ..self }
    }

    /// The operation ends with `error`.
    pub open spec fn fail(self, error: ErrorView) -> (CachedView, CommandView) {
        (self.over(), CommandView::Finish(Err(error)))
    }

    /// The operation ends with `record`.
    pub open spec fn succeed(self, record: RecordView) -> (CachedView, CommandView) {
        (self.over(), CommandView::Finish(Ok(record)))
    }

    /// The subscription ends and gives up its connection.
    pub open spec fn close(self) -> (CachedView, CommandView) {
        (self.over(), CommandView::Close)
    }

    /// The cache had nothing to offer, or the key has been cleared: ask the
    /// authoritative store.
    pub open spec fn fetch(self) -> (CachedView, CommandView) {
        let waiting = CachedView { phase: Phase::Store, ..self };
        match self.kind {
            Kind::ReadBoard | Kind::Subscribe => (
                waiting,
                CommandView::Store(StoreCallView::ReadBoard { id: self.key }),
            ),
            Kind::ReadTask => (
                waiting,
                CommandView::Store(
                    StoreCallView::ReadTask { board_id: self.key, task_id: self.field },
                ),
            ),
            Kind::DeleteBoard => (
                waiting,
                CommandView::Store(StoreCallView::DeleteBoard { id: self.key }),
            ),
            _ => self.fail(fault()),
        }
    }

    /// The board exists: subscribe to its channel.
    pub open spec fn subscribe(self) -> (CachedView, CommandView) {
        (
            CachedView { phase: Phase::Subscribe, held: None, ..self },
            CommandView::Subscribe { channel: channel_name(self.key) },
        )
    }

    /// Publish `payload` on the board's channel, and answer with `record`
    /// afterwards.
    pub open spec fn publish(self, record: RecordView, payload: Seq<char>) -> (
        CachedView,
        CommandView,
    ) {
        (
            CachedView { phase: Phase::Publish, held: Some(record), ..self },
            CommandView::Publish { channel: channel_name(self.key), payload },
        )
    }

    /// The cache held a snapshot.
    pub open spec fn hit(self, found: RecordView) -> (CachedView, CommandView) {
        match self.kind {
            Kind::ReadBoard | Kind::ReadTask => self.succeed(found),
            Kind::Subscribe => self.subscribe(),
            _ => self.fail(fault()),
        }
    }

    /// The authoritative store answered with `record`.
    pub open spec fn stored(self, record: RecordView) -> (CachedView, CommandView) {
        let refreshing = CachedView { phase: Phase::Refresh, held: Some(record), ..self };
        match self.kind {
            Kind::ReadBoard | Kind::ReadTask | Kind::Subscribe | Kind::UpdateBoard
            | Kind::UpdateTask => (
                refreshing,
                CommandView::CacheSet {
                    key: self.key,
                    field: self.field,
                    value: record,
                    ttl: CACHE_TTL_SECS,
                },
            ),
            Kind::DeleteTask => (
                refreshing,
                CommandView::CacheDeleteField { key: self.key, field: self.field },
            ),
            Kind::DeleteBoard => self.publish(record, deleted_payload()),
            Kind::CreateTask => self.publish(record, updated_payload()),
        }
    }

    /// The cache has been written to or cleared, or has failed to be: either
    /// way the operation goes on.
    pub open spec fn refreshed(self) -> (CachedView, CommandView) {
        match (self.kind, self.held) {
            (Kind::ReadBoard, Some(record)) | (Kind::ReadTask, Some(record)) => self.succeed(
                record,
            ),
            (Kind::Subscribe, _) => self.subscribe(),
            (Kind::UpdateBoard, Some(record)) | (Kind::UpdateTask, Some(record)) | (
                Kind::DeleteTask,
                Some(record),
            ) => self.publish(record, updated_payload()),
            _ => self.fail(fault()),
        }
    }

    /// The event has been published, or has failed to be: either way the
    /// mutation stands and is answered with the record the store gave.
    pub open spec fn published(self) -> (CachedView, CommandView) {
        match self.held {
            Some(record) => self.succeed(record),
            None => self.fail(fault()),
        }
    }

    /// What the operation does with the reply to its pending command.
    pub open spec fn step(self, reply: ReplyView) -> (CachedView, CommandView) {
        match (self.phase, reply) {
            (Phase::Lookup, ReplyView::Record(Ok(found))) => self.hit(found),
            (Phase::Lookup, ReplyView::Record(Err(_))) => self.fetch(),
            (Phase::Invalidate, ReplyView::Done(Ok(_))) => self.fetch(),
            (Phase::Invalidate, ReplyView::Done(Err(error))) => self.fail(error),
            (Phase::Store, ReplyView::Record(Ok(record))) => self.stored(record),
            (Phase::Store, ReplyView::Record(Err(error))) => self.fail(error),
            (Phase::Refresh, ReplyView::Done(_)) => self.refreshed(),
            (Phase::Publish, ReplyView::Done(_)) => self.published(),
            (Phase::Subscribe, ReplyView::Done(Ok(_))) => (
                CachedView { phase: Phase::Deliver, ..self },
                CommandView::Emit { frame: connected_frame() },
            ),
            (Phase::Subscribe, ReplyView::Done(Err(error))) => self.fail(error),
            (Phase::Deliver, ReplyView::Done(Ok(_))) => (
                CachedView { phase: Phase::Receive, ..self },
                CommandView::Receive,
            ),
            (Phase::Deliver, ReplyView::Done(Err(_))) => self.close(),
            (Phase::Receive, ReplyView::Message(Ok(payload))) => (
                CachedView { phase: Phase::Deliver, ..self },
                CommandView::Emit { frame: event_frame(payload) },
            ),
            (Phase::Receive, ReplyView::Message(Err(_))) => self.close(),
            (Phase::Receive, ReplyView::Closed) => self.close(),
            _ => self.fail(fault()),
        }
    }
}

/// `redis::Msg`: one message as it arrives on a subscribed channel.
#[verifier::external_type_specification]
#[verifier::external_body]
pub struct ExMessage(redis::Msg);

/// The payload of a channel message where it is text, and `None` where it is
/// not: what `redis::Msg::get_payload` makes of the message when asked for a
/// `String`. It depends on the message alone.
pub uninterp spec fn payload_of(message: redis::Msg) -> Option<Seq<char>>;

/// The payload of a channel message as text.
///
/// Calls `redis::Msg::get_payload` for a `String`. The contract gives what
/// comes back its name: a text is the payload of the message, and an error
/// means that the message has no payload that is text. Which messages those
/// are, and how the error is worded, it leaves to the client.
#[verifier::external_body]
fn payload_text(message: &redis::Msg) -> (payload: Result<String, redis::RedisError>)
    ensures
        payload matches Ok(text) ==> payload_of(*message) == Some(text@),
        payload is Err ==> payload_of(*message) is None,
{
    message.get_payload::<String>()
}

impl Cached {
    /// The command that writes a snapshot of `value` under `field` of `key`
    /// and lets the key expire [`CACHE_TTL_SECS`] from then.
    pub fn cache_set(key: &str, field: &str, value: &Record) -> (command: Command)
        ensures
            command@ == (CommandView::CacheSet {
                key: key@,
                field: field@,
                value: value@,
                ttl: CACHE_TTL_SECS,
            }),
    {
        Command::CacheSet {
            key: key.to_owned(),
            field: field.to_owned(),
            value: value.clone(),
            ttl: CACHE_TTL_SECS,
        }
    }

    /// The command that asks the cache for the snapshot under `field` of `key`.
    pub fn cache_get(key: &str, field: &str) -> (command: Command)
        ensures
            command@ == (CommandView::CacheGet { key: key@, field: field@ }),
    {
        Command::CacheGet { key: key.to_owned(), field: field.to_owned() }
    }

    /// The command that removes `field` of `key` from the cache.
    pub fn cache_delete_field(key: &str, field: &str) -> (command: Command)
        ensures
            command@ == (CommandView::CacheDeleteField { key: key@, field: field@ }),
    {
        Command::CacheDeleteField { key: key.to_owned(), field: field.to_owned() }
    }

    /// The command that removes `key` from the cache with all its fields.
    pub fn cache_delete_key(key: &str) -> (command: Command)
        ensures
            command@ == (CommandView::CacheDeleteKey { key: key@ }),
    {
        Command::CacheDeleteKey { key: key.to_owned() }
    }

    /// The name of the channel that carries the events of board `board_id`.
    pub fn pub_sub_channel_name(board_id: &str) -> (channel: String)
        ensures
            channel@ == channel_name(board_id@),
    {
        "BOARD_EVENT_".to_owned().concat(board_id)
    }

    /// The command that tells the subscribers of `board_id` that the board,
    /// or one of its tasks, has changed.
    pub fn pub_board_updated(board_id: &str) -> (command: Command)
        ensures
            command@ == (CommandView::Publish {
                channel: channel_name(board_id@),
                payload: updated_payload(),
            }),
    {
        Command::Publish {
            channel: Self::pub_sub_channel_name(board_id),
            payload: "Board updated".to_owned(),
        }
    }

    /// The command that tells the subscribers of `board_id` that the board is
    /// no more.
    pub fn pub_board_deleted(board_id: &str) -> (command: Command)
        ensures
            command@ == (CommandView::Publish {
                channel: channel_name(board_id@),
                payload: deleted_payload(),
            }),
    {
        Command::Publish {
            channel: Self::pub_sub_channel_name(board_id),
            payload: "Board deleted".to_owned(),
        }
    }

    /// The frame that forwards a channel message with this payload.
    pub fn event_frame(payload: &str) -> (frame: String)
        ensures
            frame@ == event_frame(payload@),
    {
        let mut frame = "Board event: ".to_owned();
        frame.append(payload);
        frame.append(";\n");
        frame
    }

    /// The reply that tells the operation of a message that has arrived on the
    /// channel: its payload, or, where the payload is no text, the failure to
    /// read it as an auxiliary-store error.
    pub fn received(message: &redis::Msg) -> (reply: Reply)
        ensures
            match payload_of(*message) {
                Some(text) => reply@ == ReplyView::Message(Ok(text)),
                None => reply@ matches ReplyView::Message(Err(error)) && error is RedisError,
            },
    {
        match payload_text(message) {
            Ok(payload) => Reply::Message(Ok(payload)),
            Err(refused) => Reply::Message(Err(CustomError::from(refused))),
        }
    }

    /// Begins `readBoard(id)`.
    pub fn read_board(id: &str) -> (start: (Cached, Command))
        ensures
            (start.0@, start.1@) == CachedView::read_board(id@),
    {
        (
            Cached {
                kind: Kind::ReadBoard,
                phase: Phase::Lookup,
                key: id.to_owned(),
                field: "board".to_owned(),
                held: None,
            },
            Self::cache_get(id, "board"),
        )
    }

    /// Begins `readTask(board_id, task_id)`.
    pub fn read_task(board_id: &str, task_id: &str) -> (start: (Cached, Command))
        ensures
            (start.0@, start.1@) == CachedView::read_task(board_id@, task_id@),
    {
        (
            Cached {
                kind: Kind::ReadTask,
                phase: Phase::Lookup,
                key: board_id.to_owned(),
                field: task_id.to_owned(),
                held: None,
            },
            Self::cache_get(board_id, task_id),
        )
    }

    /// Begins `updateBoard(id, data)`.
    pub fn update_board(id: &str, data: Board) -> (start: (Cached, Command))
        ensures
            (start.0@, start.1@) == CachedView::update_board(id@, data@),
    {
        (
            Cached {
                kind: Kind::UpdateBoard,
                phase: Phase::Store,
                key: id.to_owned(),
                field: "board".to_owned(),
                held: None,
            },
            Command::Store(StoreCall::UpdateBoard { id: id.to_owned(), data }),
        )
    }

    /// Begins `deleteBoard(id)`.
    pub fn delete_board(id: &str) -> (start: (Cached, Command))
        ensures
            (start.0@, start.1@) == CachedView::delete_board(id@),
    {
        (
            Cached {
                kind: Kind::DeleteBoard,
                phase: Phase::Invalidate,
                key: id.to_owned(),
                field: "board".to_owned(),
                held: None,
            },
            Self::cache_delete_key(id),
        )
    }

    /// Begins `createTask(board_id, data)`.
    pub fn create_task(board_id: &str, data: Task) -> (start: (Cached, Command))
        ensures
            (start.0@, start.1@) == CachedView::create_task(board_id@, data@),
    {
        (
            Cached {
                kind: Kind::CreateTask,
                phase: Phase::Store,
                key: board_id.to_owned(),
                field: String::new(),
                held: None,
            },
            Command::Store(StoreCall::CreateTask { board_id: board_id.to_owned(), data }),
        )
    }

    /// Begins `updateTask(board_id, task_id, data)`.
    pub fn update_task(board_id: &str, task_id: &str, data: Task) -> (start: (Cached, Command))
        ensures
            (start.0@, start.1@) == CachedView::update_task(board_id@, task_id@, data@),
    {
        (
            Cached {
                kind: Kind::UpdateTask,
                phase: Phase::Store,
                key: board_id.to_owned(),
                field: task_id.to_owned(),
                held: None,
            },
            Command::Store(
                StoreCall::UpdateTask {
                    board_id: board_id.to_owned(),
                    task_id: task_id.to_owned(),
                    data,
                },
            ),
        )
    }

    /// Begins `deleteTask(board_id, task_id)`.
    pub fn delete_task(board_id: &str, task_id: &str) -> (start: (Cached, Command))
        ensures
            (start.0@, start.1@) == CachedView::delete_task(board_id@, task_id@),
    {
        (
            Cached {
                kind: Kind::DeleteTask,
                phase: Phase::Store,
                key: board_id.to_owned(),
                field: task_id.to_owned(),
                held: None,
            },
            Command::Store(
                StoreCall::DeleteTask {
                    board_id: board_id.to_owned(),
                    task_id: task_id.to_owned(),
                },
            ),
        )
    }

    /// Begins `subscribe(board_id)`.
    pub fn subscribe_on_board_updates(board_id: &str) -> (start: (Cached, Command))
        ensures
            (start.0@, start.1@) == CachedView::subscribe_on_board_updates(board_id@),
    {
        (
            Cached {
                kind: Kind::Subscribe,
                phase: Phase::Lookup,
                key: board_id.to_owned(),
                field: "board".to_owned(),
                held: None,
            },
            Self::cache_get(board_id, "board"),
        )
    }

    /// Whether the operation is over, so that no reply is awaited any more.
    pub fn is_done(&self) -> (done: bool)
        ensures
            done == (self@.phase == Phase::Done),
    {
        match self.phase {
            Phase::Done => true,
            _ => false,
        }
    }

    fn over(self) -> (state: Cached)
        ensures
            state@ == self@.over(),
    {
        Cached { kind: self.kind, phase: Phase::Done, key: self.key, field: self.field, held: None }
    }

    fn at(self, phase: Phase) -> (state: Cached)
        ensures
            state@ == (CachedView { phase, ..self@ }),
    {
        Cached { kind: self.kind, phase, key: self.key, field: self.field, held: self.held }
    }

    fn fail(self, error: CustomError) -> (next: (Cached, Command))
        ensures
            (next.0@, next.1@) == self@.fail(error@),
    {
        (self.over(), Command::Finish(Err(error)))
    }

    fn fault(self) -> (next: (Cached, Command))
        ensures
            (next.0@, next.1@) == self@.fail(fault()),
    {
        self.fail(CustomError::InternalError("Reply does not answer the pending command".to_owned()))
    }

    fn succeed(self, record: Record) -> (next: (Cached, Command))
        ensures
            (next.0@, next.1@) == self@.succeed(record@),
    {
        (self.over(), Command::Finish(Ok(record)))
    }

    fn close(self) -> (next: (Cached, Command))
        ensures
            (next.0@, next.1@) == self@.close(),
    {
        (self.over(), Command::Close)
    }

    fn fetch(self) -> (next: (Cached, Command))
        ensures
            (next.0@, next.1@) == self@.fetch(),
    {
        match self.kind {
            Kind::ReadBoard | Kind::Subscribe => {
                let call = StoreCall::ReadBoard { id: self.key.clone() };
                (self.at(Phase::Store), Command::Store(call))
            },
            Kind::ReadTask => {
                let call = StoreCall::ReadTask {
                    board_id: self.key.clone(),
                    task_id: self.field.clone(),
                };
                (self.at(Phase::Store), Command::Store(call))
            },
            Kind::DeleteBoard => {
                let call = StoreCall::DeleteBoard { id: self.key.clone() };
                (self.at(Phase::Store), Command::Store(call))
            },
            _ => self.fault(),
        }
    }

    fn subscribe(self) -> (next: (Cached, Command))
        ensures
            (next.0@, next.1@) == self@.subscribe(),
    {
        let channel = Self::pub_sub_channel_name(self.key.as_str());
        (
            Cached {
                kind: self.kind,
                phase: Phase::Subscribe,
                key: self.key,
                field: self.field,
                held: None,
            },
            Command::Subscribe { channel },
        )
    }

    fn publish(self, record: Record, deleted: bool) -> (next: (Cached, Command))
        ensures
            (next.0@, next.1@) == self@.publish(
                record@,
                if deleted {
                    deleted_payload()
                } else {
                    updated_payload()
                },
            ),
    {
        let command = if deleted {
            Self::pub_board_deleted(self.key.as_str())
        } else {
            Self::pub_board_updated(self.key.as_str())
        };
        (
            Cached {
                kind: self.kind,
                phase: Phase::Publish,
                key: self.key,
                field: self.field,
                held: Some(record),
            },
            command,
        )
    }

    fn hit(self, found: Record) -> (next: (Cached, Command))
        ensures
            (next.0@, next.1@) == self@.hit(found@),
    {
        match self.kind {
            Kind::ReadBoard | Kind::ReadTask => self.succeed(found),
            Kind::Subscribe => self.subscribe(),
            _ => self.fault(),
        }
    }

    fn stored(self, record: Record) -> (next: (Cached, Command))
        ensures
            (next.0@, next.1@) == self@.stored(record@),
    {
        match self.kind {
            Kind::ReadBoard | Kind::ReadTask | Kind::Subscribe | Kind::UpdateBoard
            | Kind::UpdateTask => {
                let command = Self::cache_set(self.key.as_str(), self.field.as_str(), &record);
                (
                    Cached {
                        kind: self.kind,
                        phase: Phase::Refresh,
                        key: self.key,
                        field: self.field,
                        held: Some(record),
                    },
                    command,
                )
            },
            Kind::DeleteTask => {
                let command = Self::cache_delete_field(self.key.as_str(), self.field.as_str());
                (
                    Cached {
                        kind: self.kind,
                        phase: Phase::Refresh,
                        key: self.key,
                        field: self.field,
                        held: Some(record),
                    },
                    command,
                )
            },
            Kind::DeleteBoard => self.publish(record, true),
            Kind::CreateTask => self.publish(record, false),
        }
    }

    fn refreshed(self) -> (next: (Cached, Command))
        ensures
            (next.0@, next.1@) == self@.refreshed(),
    {
        let kind = self.kind;
        let held = self.held;
        let state = Cached {
            kind: self.kind,
            phase: self.phase,
            key: self.key,
            field: self.field,
            held: None,
        };
        match kind {
            Kind::Subscribe => state.subscribe(),
            Kind::ReadBoard | Kind::ReadTask => match held {
                Some(record) => state.succeed(record),
                None => state.fault(),
            },
            Kind::UpdateBoard | Kind::UpdateTask | Kind::DeleteTask => match held {
                Some(record) => state.publish(record, false),
                None => state.fault(),
            },
            _ => state.fault(),
        }
    }

    fn published(self) -> (next: (Cached, Command))
        ensures
            (next.0@, next.1@) == self@.published(),
    {
        let held = self.held;
        let state = Cached {
            kind: self.kind,
            phase: self.phase,
            key: self.key,
            field: self.field,
            held: None,
        };
        match held {
            Some(record) => state.succeed(record),
            None => state.fault(),
        }
    }

    /// Takes the reply to the pending command and hands out the next command.
    ///
    /// After [`Command::Finish`] or [`Command::Close`] the operation is over;
    /// a reply handed to it then, like any reply that cannot answer the
    /// pending command, ends it with an internal error.
    pub fn step(self, reply: Reply) -> (next: (Cached, Command))
        ensures
            (next.0@, next.1@) == self@.step(reply@),
    {
        match self.phase {
            Phase::Lookup => match reply {
                Reply::Record(Ok(found)) => self.hit(found),
                Reply::Record(Err(_)) => self.fetch(),
                _ => self.fault(),
            },
            Phase::Invalidate => match reply {
                Reply::Done(Ok(_)) => self.fetch(),
                Reply::Done(Err(error)) => self.fail(error),
                _ => self.fault(),
            },
            Phase::Store => match reply {
                Reply::Record(Ok(record)) => self.stored(record),
                Reply::Record(Err(error)) => self.fail(error),
                _ => self.fault(),
            },
            Phase::Refresh => match reply {
                Reply::Done(_) => self.refreshed(),
                _ => self.fault(),
            },
            Phase::Publish => match reply {
                Reply::Done(_) => self.published(),
                _ => self.fault(),
            },
            Phase::Subscribe => match reply {
                Reply::Done(Ok(_)) => (
                    self.at(Phase::Deliver),
                    Command::Emit { frame: "Connected;\n".to_owned() },
                ),
                Reply::Done(Err(error)) => self.fail(error),
                _ => self.fault(),
            },
            Phase::Deliver => match reply {
                Reply::Done(Ok(_)) => (self.at(Phase::Receive), Command::Receive),
                Reply::Done(Err(_)) => self.close(),
                _ => self.fault(),
            },
            Phase::Receive => match reply {
                Reply::Message(Ok(payload)) => {
                    let frame = Self::event_frame(payload.as_str());
                    (self.at(Phase::Deliver), Command::Emit { frame })
                },
                Reply::Message(Err(_)) => self.close(),
                Reply::Closed => self.close(),
                _ => self.fault(),
            },
            Phase::Done => self.fault(),
        }
    }
}

} // verus!
