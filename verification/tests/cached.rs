use boards_back::db::cached::{Cached, CACHE_TTL_SECS, EVENTS_QUEUE_CAPACITY};
use boards_back::db::{Command, Reply, StoreCall};
use boards_back::errors::CustomError;
use boards_back::models::{Board, Record, Task, TaskStage};
use mongodb::bson::oid::ObjectId;
use std::collections::HashMap;

const BOARD_ID: &str = "60f7d4c51a2b3c4d5e6f7a8b";
const TASK_ID: &str = "60f7d4c51a2b3c4d5e6f7a8c";

/// An auxiliary store and an authoritative store in memory, with a clock.
struct Stores {
    now: u64,
    hashes: HashMap<String, (HashMap<String, Record>, u64)>,
    boards: HashMap<String, Board>,
    tasks: HashMap<String, Task>,
    store_calls: Vec<String>,
    published: Vec<(String, String)>,
    subscriptions: Vec<String>,
    frames: Vec<String>,
    inbox: Vec<Result<String, CustomError>>,
    cache_down: bool,
    publish_down: bool,
    subscriber_gone_after: Option<usize>,
}

fn stores() -> Stores {
    Stores {
        now: 1_000,
        hashes: HashMap::new(),
        boards: HashMap::new(),
        tasks: HashMap::new(),
        store_calls: Vec::new(),
        published: Vec::new(),
        subscriptions: Vec::new(),
        frames: Vec::new(),
        inbox: Vec::new(),
        cache_down: false,
        publish_down: false,
        subscriber_gone_after: None,
    }
}

fn board(name: &str) -> Board {
    Board {
        id: Some(ObjectId::parse_str(BOARD_ID).unwrap()),
        name: name.to_string(),
        description: format!("about {}", name),
    }
}

fn task(name: &str, stage: TaskStage) -> Task {
    Task {
        id: Some(ObjectId::parse_str(TASK_ID).unwrap()),
        board_id: ObjectId::parse_str(BOARD_ID).unwrap(),
        name: name.to_string(),
        description: String::new(),
        stage,
    }
}

fn down() -> CustomError {
    CustomError::RedisError("connection refused".to_string())
}

fn missing(what: &str, id: &str) -> CustomError {
    CustomError::NotFound(format!("{} with id: {}", what, id))
}

fn live_fields<'a>(env: &'a mut Stores, key: &str) -> Option<&'a mut HashMap<String, Record>> {
    let now = env.now;
    match env.hashes.get_mut(key) {
        Some((fields, expires_at)) if now < *expires_at => Some(fields),
        _ => None,
    }
}

fn call_store(env: &mut Stores, call: StoreCall) -> Result<Record, CustomError> {
    match call {
        StoreCall::ReadBoard { id } => {
            env.store_calls.push(format!("read_board {}", id));
            env.boards.get(&id).cloned().map(Record::Board).ok_or_else(|| missing("board", &id))
        }
        StoreCall::UpdateBoard { id, data } => {
            env.store_calls.push(format!("update_board {}", id));
            if env.boards.contains_key(&id) {
                env.boards.insert(id, data.clone());
                Ok(Record::Board(data))
            } else {
                Err(missing("board", &id))
            }
        }
        StoreCall::DeleteBoard { id } => {
            env.store_calls.push(format!("delete_board {}", id));
            env.boards.remove(&id).map(Record::Board).ok_or_else(|| missing("board", &id))
        }
        StoreCall::CreateTask { board_id, data } => {
            env.store_calls.push(format!("create_task {}", board_id));
            env.tasks.insert(TASK_ID.to_string(), data.clone());
            Ok(Record::Task(data))
        }
        StoreCall::ReadTask { board_id, task_id } => {
            env.store_calls.push(format!("read_task {} {}", board_id, task_id));
            env.tasks.get(&task_id).cloned().map(Record::Task).ok_or_else(|| missing("task", &task_id))
        }
        StoreCall::UpdateTask { board_id, task_id, data } => {
            env.store_calls.push(format!("update_task {} {}", board_id, task_id));
            if env.tasks.contains_key(&task_id) {
                env.tasks.insert(task_id, data.clone());
                Ok(Record::Task(data))
            } else {
                Err(missing("task", &task_id))
            }
        }
        StoreCall::DeleteTask { board_id, task_id } => {
            env.store_calls.push(format!("delete_task {} {}", board_id, task_id));
            env.tasks.remove(&task_id).map(Record::Task).ok_or_else(|| missing("task", &task_id))
        }
    }
}

fn answer(env: &mut Stores, command: Command) -> Reply {
    match command {
        Command::CacheGet { key, field } => {
            if env.cache_down {
                return Reply::Record(Err(down()));
            }
            let found = live_fields(env, &key).and_then(|fields| fields.get(&field).cloned());
            Reply::Record(found.ok_or_else(|| {
                CustomError::RedisError("Response type not string compatible.".to_string())
            }))
        }
        Command::CacheSet { key, field, value, ttl } => {
            if env.cache_down {
                return Reply::Done(Err(down()));
            }
            let mut fields = live_fields(env, &key).cloned().unwrap_or_default();
            fields.insert(field, value);
            let expires_at = env.now + ttl;
            env.hashes.insert(key, (fields, expires_at));
            Reply::Done(Ok(()))
        }
        Command::CacheDeleteField { key, field } => {
            if env.cache_down {
                return Reply::Done(Err(down()));
            }
            if let Some(fields) = live_fields(env, &key) {
                fields.remove(&field);
            }
            Reply::Done(Ok(()))
        }
        Command::CacheDeleteKey { key } => {
            if env.cache_down {
                return Reply::Done(Err(down()));
            }
            env.hashes.remove(&key);
            Reply::Done(Ok(()))
        }
        Command::Publish { channel, payload } => {
            if env.publish_down {
                return Reply::Done(Err(down()));
            }
            env.published.push((channel, payload));
            Reply::Done(Ok(()))
        }
        Command::Store(call) => Reply::Record(call_store(env, call)),
        Command::Subscribe { channel } => {
            if env.publish_down {
                return Reply::Done(Err(down()));
            }
            env.subscriptions.push(channel);
            Reply::Done(Ok(()))
        }
        Command::Emit { frame } => {
            if env.subscriber_gone_after == Some(env.frames.len()) {
                return Reply::Done(Err(CustomError::InternalError(
                    "Events stream destroyed".to_string(),
                )));
            }
            env.frames.push(frame);
            Reply::Done(Ok(()))
        }
        Command::Receive => {
            if env.inbox.is_empty() {
                Reply::Closed
            } else {
                Reply::Message(env.inbox.remove(0))
            }
        }
        Command::Close | Command::Finish(_) => unreachable!(),
    }
}

/// Carries an operation out to its end. `None` stands for a closed stream.
fn drive(env: &mut Stores, start: (Cached, Command)) -> Option<Result<Record, CustomError>> {
    let (mut state, mut command) = start;
    loop {
        match command {
            Command::Finish(outcome) => {
                assert!(state.is_done());
                return Some(outcome);
            }
            Command::Close => {
                assert!(state.is_done());
                return None;
            }
            pending => {
                assert!(!state.is_done());
                let reply = answer(env, pending);
                let next = state.step(reply);
                state = next.0;
                command = next.1;
            }
        }
    }
}

fn board_of(outcome: Option<Result<Record, CustomError>>) -> Board {
    match outcome {
        Some(Ok(Record::Board(board))) => board,
        other => panic!("not a board: {:?}", other),
    }
}

fn task_of(outcome: Option<Result<Record, CustomError>>) -> Task {
    match outcome {
        Some(Ok(Record::Task(task))) => task,
        other => panic!("not a task: {:?}", other),
    }
}

fn error_of(outcome: Option<Result<Record, CustomError>>) -> CustomError {
    match outcome {
        Some(Err(error)) => error,
        other => panic!("not an error: {:?}", other),
    }
}

#[test]
fn constants_are_those_of_the_reference_behaviour() {
    assert_eq!(CACHE_TTL_SECS, 60);
    assert_eq!(EVENTS_QUEUE_CAPACITY, 100);
}

#[test]
fn channel_name_is_derived_from_the_board_id_alone() {
    assert_eq!(Cached::pub_sub_channel_name(BOARD_ID), format!("BOARD_EVENT_{}", BOARD_ID));
    assert_eq!(Cached::pub_sub_channel_name(""), "BOARD_EVENT_");
    assert_eq!(Cached::pub_sub_channel_name(BOARD_ID), Cached::pub_sub_channel_name(BOARD_ID));
}

#[test]
fn event_frame_wraps_the_payload() {
    assert_eq!(Cached::event_frame("Board updated"), "Board event: Board updated;\n");
    assert_eq!(Cached::event_frame(""), "Board event: ;\n");
}

#[test]
fn command_builders_name_key_field_and_ttl() {
    let value = Record::Board(board("plans"));
    match Cached::cache_set("k", "f", &value) {
        Command::CacheSet { key, field, value: Record::Board(copy), ttl } => {
            assert_eq!((key.as_str(), field.as_str(), ttl), ("k", "f", 60));
            assert_eq!(copy.name, "plans");
            assert_eq!(copy.description, "about plans");
            assert_eq!(copy.id, Some(ObjectId::parse_str(BOARD_ID).unwrap()));
        }
        other => panic!("{:?}", other),
    }
    assert!(matches!(Cached::cache_get("k", "f"),
        Command::CacheGet { key, field } if key == "k" && field == "f"));
    assert!(matches!(Cached::cache_delete_field("k", "f"),
        Command::CacheDeleteField { key, field } if key == "k" && field == "f"));
    assert!(matches!(Cached::cache_delete_key("k"),
        Command::CacheDeleteKey { key } if key == "k"));
    assert!(matches!(Cached::pub_board_updated("b"),
        Command::Publish { channel, payload }
            if channel == "BOARD_EVENT_b" && payload == "Board updated"));
    assert!(matches!(Cached::pub_board_deleted("b"),
        Command::Publish { channel, payload }
            if channel == "BOARD_EVENT_b" && payload == "Board deleted"));
}

#[test]
fn read_board_looks_in_the_cache_under_the_board_field_first() {
    let (_, first) = Cached::read_board(BOARD_ID);
    assert!(matches!(first,
        Command::CacheGet { key, field } if key == BOARD_ID && field == "board"));
}

#[test]
fn read_board_falls_through_and_fills_the_cache() {
    let mut env = stores();
    env.boards.insert(BOARD_ID.to_string(), board("plans"));
    let found = board_of(drive(&mut env, Cached::read_board(BOARD_ID)));
    assert_eq!(found.name, "plans");
    assert_eq!(env.store_calls, vec![format!("read_board {}", BOARD_ID)]);
    let (fields, expires_at) = &env.hashes[BOARD_ID];
    assert!(matches!(&fields["board"], Record::Board(kept) if kept.name == "plans"));
    assert_eq!(*expires_at, 1_060);
    assert!(env.published.is_empty());
}

#[test]
fn repeated_reads_within_the_ttl_call_the_store_once() {
    let mut env = stores();
    env.boards.insert(BOARD_ID.to_string(), board("plans"));
    for second in [0, 1, 30, 59] {
        env.now = 1_000 + second;
        let found = board_of(drive(&mut env, Cached::read_board(BOARD_ID)));
        assert_eq!((found.name.as_str(), found.description.as_str()), ("plans", "about plans"));
        assert_eq!(env.store_calls.len(), 1);
    }
    env.now = 1_060;
    board_of(drive(&mut env, Cached::read_board(BOARD_ID)));
    assert_eq!(env.store_calls.len(), 2);
}

#[test]
fn read_of_a_missing_board_is_not_found_and_not_cached() {
    let mut env = stores();
    let error = error_of(drive(&mut env, Cached::read_board(BOARD_ID)));
    assert!(matches!(&error, CustomError::NotFound(_)));
    assert_eq!(error.status_code(), 404);
    assert!(env.hashes.is_empty());
    assert_eq!(env.store_calls.len(), 1);
}

#[test]
fn read_survives_a_cache_that_is_down() {
    let mut env = stores();
    env.cache_down = true;
    env.boards.insert(BOARD_ID.to_string(), board("plans"));
    let found = board_of(drive(&mut env, Cached::read_board(BOARD_ID)));
    assert_eq!(found.name, "plans");
    assert!(env.hashes.is_empty());
}

#[test]
fn update_board_then_read_is_served_from_the_cache() {
    let mut env = stores();
    env.boards.insert(BOARD_ID.to_string(), board("plans"));
    let updated = board_of(drive(&mut env, Cached::update_board(BOARD_ID, board("roadmap"))));
    assert_eq!(updated.name, "roadmap");
    assert_eq!(env.store_calls, vec![format!("update_board {}", BOARD_ID)]);
    let read = board_of(drive(&mut env, Cached::read_board(BOARD_ID)));
    assert_eq!(read.name, "roadmap");
    assert_eq!(read.description, "about roadmap");
    assert_eq!(env.store_calls.len(), 1);
}

#[test]
fn update_board_publishes_one_updated_event() {
    let mut env = stores();
    env.boards.insert(BOARD_ID.to_string(), board("plans"));
    board_of(drive(&mut env, Cached::update_board(BOARD_ID, board("roadmap"))));
    assert_eq!(env.published,
        vec![(format!("BOARD_EVENT_{}", BOARD_ID), "Board updated".to_string())]);
}

#[test]
fn refused_update_writes_and_publishes_nothing() {
    let mut env = stores();
    let error = error_of(drive(&mut env, Cached::update_board(BOARD_ID, board("roadmap"))));
    assert!(matches!(error, CustomError::NotFound(_)));
    assert!(env.hashes.is_empty());
    assert!(env.published.is_empty());
}

#[test]
fn update_stands_when_cache_and_channel_are_down() {
    let mut env = stores();
    env.cache_down = true;
    env.publish_down = true;
    env.boards.insert(BOARD_ID.to_string(), board("plans"));
    let updated = board_of(drive(&mut env, Cached::update_board(BOARD_ID, board("roadmap"))));
    assert_eq!(updated.name, "roadmap");
    assert_eq!(env.boards[BOARD_ID].name, "roadmap");
}

#[test]
fn delete_board_clears_the_cache_first_and_publishes_deleted() {
    let mut env = stores();
    env.boards.insert(BOARD_ID.to_string(), board("plans"));
    board_of(drive(&mut env, Cached::read_board(BOARD_ID)));
    assert!(env.hashes.contains_key(BOARD_ID));
    let (state, first) = Cached::delete_board(BOARD_ID);
    assert!(matches!(&first, Command::CacheDeleteKey { key } if key == BOARD_ID));
    let gone = board_of(drive(&mut env, (state, first)));
    assert_eq!(gone.name, "plans");
    assert!(!env.hashes.contains_key(BOARD_ID));
    assert_eq!(env.published,
        vec![(format!("BOARD_EVENT_{}", BOARD_ID), "Board deleted".to_string())]);
    let error = error_of(drive(&mut env, Cached::read_board(BOARD_ID)));
    assert!(matches!(error, CustomError::NotFound(_)));
    assert!(!env.hashes.contains_key(BOARD_ID));
}

#[test]
fn refused_delete_leaves_the_cache_cold_and_publishes_nothing() {
    let mut env = stores();
    env.hashes.insert(
        BOARD_ID.to_string(),
        (HashMap::from([("board".to_string(), Record::Board(board("stale")))]), 2_000),
    );
    let error = error_of(drive(&mut env, Cached::delete_board(BOARD_ID)));
    assert!(matches!(error, CustomError::NotFound(_)));
    assert!(!env.hashes.contains_key(BOARD_ID));
    assert!(env.published.is_empty());
}

#[test]
fn delete_is_given_up_when_the_cache_cannot_be_cleared() {
    let mut env = stores();
    env.cache_down = true;
    env.boards.insert(BOARD_ID.to_string(), board("plans"));
    let error = error_of(drive(&mut env, Cached::delete_board(BOARD_ID)));
    assert!(matches!(error, CustomError::RedisError(_)));
    assert!(env.store_calls.is_empty());
    assert!(env.boards.contains_key(BOARD_ID));
    assert!(env.published.is_empty());
}

#[test]
fn create_task_goes_to_the_store_and_publishes_without_caching() {
    let mut env = stores();
    let created =
        task_of(drive(&mut env, Cached::create_task(BOARD_ID, task("draft", TaskStage::Backlog))));
    assert_eq!(created.name, "draft");
    assert_eq!(created.stage, TaskStage::Backlog);
    assert_eq!(env.store_calls, vec![format!("create_task {}", BOARD_ID)]);
    assert!(env.hashes.is_empty());
    assert_eq!(env.published,
        vec![(format!("BOARD_EVENT_{}", BOARD_ID), "Board updated".to_string())]);
}

#[test]
fn read_task_is_cached_under_the_board_key_and_the_task_id() {
    let mut env = stores();
    env.tasks.insert(TASK_ID.to_string(), task("draft", TaskStage::InProgress));
    let found = task_of(drive(&mut env, Cached::read_task(BOARD_ID, TASK_ID)));
    assert_eq!(found.stage, TaskStage::InProgress);
    assert!(matches!(&env.hashes[BOARD_ID].0[TASK_ID], Record::Task(kept) if kept.name == "draft"));
    task_of(drive(&mut env, Cached::read_task(BOARD_ID, TASK_ID)));
    assert_eq!(env.store_calls, vec![format!("read_task {} {}", BOARD_ID, TASK_ID)]);
}

#[test]
fn update_task_names_board_then_task_and_refreshes_the_cache() {
    let mut env = stores();
    env.tasks.insert(TASK_ID.to_string(), task("draft", TaskStage::Backlog));
    let updated = task_of(drive(
        &mut env,
        Cached::update_task(BOARD_ID, TASK_ID, task("final", TaskStage::Complete)),
    ));
    assert_eq!(updated.stage, TaskStage::Complete);
    assert_eq!(env.store_calls, vec![format!("update_task {} {}", BOARD_ID, TASK_ID)]);
    let read = task_of(drive(&mut env, Cached::read_task(BOARD_ID, TASK_ID)));
    assert_eq!(read.name, "final");
    assert_eq!(env.store_calls.len(), 1);
    assert_eq!(env.published,
        vec![(format!("BOARD_EVENT_{}", BOARD_ID), "Board updated".to_string())]);
}

#[test]
fn delete_task_clears_its_field_and_keeps_the_board_snapshot() {
    let mut env = stores();
    env.boards.insert(BOARD_ID.to_string(), board("plans"));
    env.tasks.insert(TASK_ID.to_string(), task("draft", TaskStage::Backlog));
    board_of(drive(&mut env, Cached::read_board(BOARD_ID)));
    task_of(drive(&mut env, Cached::read_task(BOARD_ID, TASK_ID)));
    let gone = task_of(drive(&mut env, Cached::delete_task(BOARD_ID, TASK_ID)));
    assert_eq!(gone.name, "draft");
    assert!(!env.hashes[BOARD_ID].0.contains_key(TASK_ID));
    assert!(env.hashes[BOARD_ID].0.contains_key("board"));
    assert_eq!(env.published,
        vec![(format!("BOARD_EVENT_{}", BOARD_ID), "Board updated".to_string())]);
}

#[test]
fn subscriber_to_a_missing_board_gets_not_found_and_no_stream() {
    let mut env = stores();
    env.inbox.push(Ok("Board updated".to_string()));
    let error = error_of(drive(&mut env, Cached::subscribe_on_board_updates(BOARD_ID)));
    assert!(matches!(error, CustomError::NotFound(_)));
    assert!(env.subscriptions.is_empty());
    assert!(env.frames.is_empty());
    assert_eq!(env.inbox.len(), 1);
}

#[test]
fn subscriber_is_greeted_even_if_nothing_ever_happens() {
    let mut env = stores();
    env.boards.insert(BOARD_ID.to_string(), board("plans"));
    assert!(drive(&mut env, Cached::subscribe_on_board_updates(BOARD_ID)).is_none());
    assert_eq!(env.subscriptions, vec![format!("BOARD_EVENT_{}", BOARD_ID)]);
    assert_eq!(env.frames, vec!["Connected;\n".to_string()]);
}

#[test]
fn subscriber_gets_every_event_in_order_after_the_greeting() {
    let mut env = stores();
    env.boards.insert(BOARD_ID.to_string(), board("plans"));
    env.inbox.push(Ok("Board updated".to_string()));
    env.inbox.push(Ok("Board updated".to_string()));
    env.inbox.push(Ok("Board deleted".to_string()));
    assert!(drive(&mut env, Cached::subscribe_on_board_updates(BOARD_ID)).is_none());
    assert_eq!(env.frames, vec![
        "Connected;\n".to_string(),
        "Board event: Board updated;\n".to_string(),
        "Board event: Board updated;\n".to_string(),
        "Board event: Board deleted;\n".to_string(),
    ]);
}

#[test]
fn stream_ends_at_the_first_failure_of_the_channel() {
    let mut env = stores();
    env.boards.insert(BOARD_ID.to_string(), board("plans"));
    env.inbox.push(Ok("Board updated".to_string()));
    env.inbox.push(Err(down()));
    env.inbox.push(Ok("Board deleted".to_string()));
    assert!(drive(&mut env, Cached::subscribe_on_board_updates(BOARD_ID)).is_none());
    assert_eq!(env.frames,
        vec!["Connected;\n".to_string(), "Board event: Board updated;\n".to_string()]);
    assert_eq!(env.inbox.len(), 1);
}

#[test]
fn stream_ends_when_the_subscriber_is_gone() {
    let mut env = stores();
    env.boards.insert(BOARD_ID.to_string(), board("plans"));
    env.subscriber_gone_after = Some(1);
    env.inbox.push(Ok("Board updated".to_string()));
    env.inbox.push(Ok("Board deleted".to_string()));
    assert!(drive(&mut env, Cached::subscribe_on_board_updates(BOARD_ID)).is_none());
    assert_eq!(env.frames, vec!["Connected;\n".to_string()]);
    assert_eq!(env.inbox.len(), 1);
}

#[test]
fn failed_subscription_is_reported_before_any_frame() {
    let mut env = stores();
    env.publish_down = true;
    env.boards.insert(BOARD_ID.to_string(), board("plans"));
    let error = error_of(drive(&mut env, Cached::subscribe_on_board_updates(BOARD_ID)));
    assert!(matches!(error, CustomError::RedisError(_)));
    assert!(env.frames.is_empty());
}

#[test]
fn reply_that_cannot_answer_ends_the_operation_with_an_internal_error() {
    let (state, _) = Cached::read_board(BOARD_ID);
    let (state, command) = state.step(Reply::Closed);
    assert!(state.is_done());
    match command {
        Command::Finish(Err(error)) => {
            assert_eq!(error.to_string(),
                "Internal error: Reply does not answer the pending command");
            assert_eq!(error.status_code(), 500);
        }
        other => panic!("{:?}", other),
    }
    let (state, command) = state.step(Reply::Done(Ok(())));
    assert!(state.is_done());
    assert!(matches!(command, Command::Finish(Err(CustomError::InternalError(_)))));
}

#[test]
fn records_give_up_what_they_hold() {
    assert_eq!(Record::Board(board("plans")).into_board().unwrap().name, "plans");
    assert!(matches!(Record::Board(board("plans")).into_task(), Err(Record::Board(_))));
    let held = Record::Task(task("draft", TaskStage::Complete)).into_task().unwrap();
    assert_eq!(held.stage, TaskStage::Complete);
    assert_eq!(held.board_id, ObjectId::parse_str(BOARD_ID).unwrap());
    assert!(matches!(Record::Task(task("draft", TaskStage::Backlog)).into_board(),
        Err(Record::Task(_))));
}

fn channel_message(payload: &[u8]) -> redis::Msg {
    redis::Msg::from_value(&redis::Value::Bulk(vec![
        redis::Value::Data(b"message".to_vec()),
        redis::Value::Data(format!("BOARD_EVENT_{}", BOARD_ID).into_bytes()),
        redis::Value::Data(payload.to_vec()),
    ]))
    .unwrap()
}

#[test]
fn arrived_message_is_handed_on_with_its_payload() {
    match Cached::received(&channel_message(b"Board updated")) {
        Reply::Message(Ok(payload)) => assert_eq!(payload, "Board updated"),
        other => panic!("{:?}", other),
    }
}

#[test]
fn message_that_is_no_text_is_a_failure_of_the_channel() {
    match Cached::received(&channel_message(&[0xff, 0xfe])) {
        Reply::Message(Err(CustomError::RedisError(detail))) => assert_eq!(detail, "Invalid UTF-8"),
        other => panic!("{:?}", other),
    }
}

#[test]
fn arrived_messages_reach_the_subscriber_as_frames() {
    let (state, _) = Cached::subscribe_on_board_updates(BOARD_ID);
    let (state, _) = state.step(Reply::Record(Ok(Record::Board(board("plans")))));
    let (state, _) = state.step(Reply::Done(Ok(())));
    let (state, receive) = state.step(Reply::Done(Ok(())));
    assert!(matches!(receive, Command::Receive));
    let (state, emit) = state.step(Cached::received(&channel_message(b"Board deleted")));
    assert!(matches!(emit, Command::Emit { frame } if frame == "Board event: Board deleted;\n"));
    let (state, receive) = state.step(Reply::Done(Ok(())));
    assert!(matches!(receive, Command::Receive));
    let (state, close) = state.step(Cached::received(&channel_message(&[0xc3])));
    assert!(matches!(close, Command::Close));
    assert!(state.is_done());
}
