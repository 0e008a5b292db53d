//! The domain records that travel between callers, the cache and the
//! authoritative store.
//!
//! The cache and the event publisher never look inside a record: they move it,
//! copy it and hand it back. Every record has a view in which its strings are
//! sequences of characters; contracts speak of those views.
use vstd::prelude::*;

verus! {

/// `mongodb::bson::oid::ObjectId`, the identifier the authoritative store
/// assigns. Nothing here reads what is inside one; it is carried through.
#[verifier::external_type_specification]
#[verifier::external_body]
pub struct ExObjectId(mongodb::bson::oid::ObjectId);

/// Where a task stands on its board.
#[derive(Clone, Copy, Debug, PartialEq, Eq, Structural)]
pub enum TaskStage {
    Backlog,
    InProgress,
    Complete,
}

/// A board. `id` is `None` until the authoritative store has assigned one.
#[derive(Debug)]
pub struct Board {
    pub id: Option<mongodb::bson::oid::ObjectId>,
    pub name: String,
    pub description: String,
}

/// A task. `board_id` names the board that owns it.
#[derive(Debug)]
pub struct Task {
    pub id: Option<mongodb::bson::oid::ObjectId>,
    pub board_id: mongodb::bson::oid::ObjectId,
    pub name: String,
    pub description: String,
    pub stage: TaskStage,
}

/// What the cache holds under one hash field and what the authoritative store
/// answers with: a board or a task.
#[derive(Debug)]
pub enum Record {
    Board(Board),
    Task(Task),
}

/// The mathematical content of a [`Board`].
pub struct BoardView {
    pub id: Option<mongodb::bson::oid::ObjectId>,
    pub name: Seq<char>,
    pub description: Seq<char>,
}

/// The mathematical content of a [`Task`].
pub struct TaskView {
    pub id: Option<mongodb::bson::oid::ObjectId>,
    pub board_id: mongodb::bson::oid::ObjectId,
    pub name: Seq<char>,
    pub description: Seq<char>,
    pub stage: TaskStage,
}

/// The mathematical content of a [`Record`].
pub enum RecordView {
    Board(BoardView),
    Task(TaskView),
}

impl View for Board {
    type V = BoardView;

    open spec fn view(&self) -> BoardView {
        BoardView { id: self.id, name: self.name@, description: self.description@ }
    }
}

impl View for Task {
    type V = TaskView;

    open spec fn view(&self) -> TaskView {
        TaskView {
            id: self.id,
            board_id: self.board_id,
            name: self.name@,
            description: self.description@,
            stage: self.stage,
        }
    }
}

impl View for Record {
    type V = RecordView;

    open spec fn view(&self) -> RecordView {
        match *self {
            Record::Board(board) => RecordView::Board(board@),
            Record::Task(task) => RecordView::Task(task@),
        }
    }
}

impl Clone for Board {
    /// The copy has the same identifier, name and description.
    fn clone(&self) -> (copy: Self)
        ensures
            copy@ == self@,
    {
        Board { id: self.id, name: self.name.clone(), description: self.description.clone() }
    }
}

impl Clone for Task {
    /// The copy agrees with the task in every field.
    fn clone(&self) -> (copy: Self)
        ensures
            copy@ == self@,
    {
        Task {
            id: self.id,
            board_id: self.board_id,
            name: self.name.clone(),
            description: self.description.clone(),
            stage: self.stage,
        }
    }
}

impl Clone for Record {
    /// The copy is a record of the same kind with the same content.
    fn clone(&self) -> (copy: Self)
        ensures
            copy@ == self@,
    {
        match self {
            Record::Board(board) => Record::Board(board.clone()),
            Record::Task(task) => Record::Task(task.clone()),
        }
    }
}

impl Record {
    /// The board inside the record, or the record back when it holds a task.
    pub fn into_board(self) -> (out: Result<Board, Record>)
        ensures
            match self {
                Record::Board(board) => out == Ok::<Board, Record>(board),
                Record::Task(_) => out == Err::<Board, Record>(self),
            },
    {
        match self {
            Record::Board(board) => Ok(board),
            other => Err(other),
        }
    }

    /// The task inside the record, or the record back when it holds a board.
    pub fn into_task(self) -> (out: Result<Task, Record>)
        ensures
            match self {
                Record::Task(task) => out == Ok::<Task, Record>(task),
                Record::Board(_) => out == Err::<Task, Record>(self),
            },
    {
        match self {
            Record::Task(task) => Ok(task),
            other => Err(other),
        }
    }
}

} // verus!
