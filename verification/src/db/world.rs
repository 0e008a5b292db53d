//! What the cache protocol achieves, shown against a model of its surroundings.
//!
//! The model is the auxiliary store as the protocol relies on it: a hash lives
//! under its key until the key's time to live has run out, every command takes
//! effect at once and does not fail, and what is published on a channel is
//! added to the channel's log. Of the authoritative store nothing is modelled:
//! what it answers is a parameter of every statement, so that each statement
//! holds whatever the store answers. Time is counted in seconds.
use crate::db::cached::{
    board_field, channel_name, connected_frame, deleted_payload, event_frame, updated_payload,
    CachedView, Phase, CACHE_TTL_SECS,
};
use crate::db::{CommandView, ReplyView, StoreCallView};
use crate::errors::ErrorView;
use crate::models::{BoardView, RecordView, TaskView};
use vstd::prelude::*;

verus! {

/// One hash of the auxiliary store: its fields, and the instant from which it
/// is gone.
pub struct Hash {
    pub fields: Map<Seq<char>, RecordView>,
    pub expires_at: nat,
}

/// One published event: the channel and the payload.
pub struct Event {
    pub channel: Seq<char>,
    pub payload: Seq<char>,
}

/// Everything around one protocol run that the run can change or observe.
pub struct World {
    /// The cache: hashes by key.
    pub hashes: Map<Seq<char>, Hash>,
    /// Every event published so far, oldest first.
    pub published: Seq<Event>,
    /// Every call made to the authoritative store so far, oldest first.
    pub store_calls: Seq<StoreCallView>,
    /// Every channel subscribed to so far.
    pub subscriptions: Seq<Seq<char>>,
    /// Every frame handed to the subscriber so far, oldest first.
    pub frames: Seq<Seq<char>>,
    /// What the subscribed channel is going to deliver, next first: payloads,
    /// or failures to read one.
    pub inbox: Seq<Result<Seq<char>, ErrorView>>,
}

/// What the cache answers when it holds no snapshot.
pub open spec fn miss() -> ErrorView {
    ErrorView::RedisError("Response type not string compatible."@)
}

impl World {
    /// The fields under `key` at the instant `now`: those of the hash if
    /// there is one that has not expired, and none otherwise.
    pub open spec fn fields(self, key: Seq<char>, now: nat) -> Map<Seq<char>, RecordView> {
        if self.hashes.contains_key(key) && now < self.hashes[key].expires_at {
            self.hashes[key].fields
        } else {
            Map::empty()
        }
    }

    /// The snapshot held under `field` of `key` at the instant `now`, if any.
    pub open spec fn cached(self, key: Seq<char>, field: Seq<char>, now: nat) -> Option<
        RecordView,
    > {
        if self.fields(key, now).contains_key(field) {
            Some(self.fields(key, now)[field])
        } else {
            None
        }
    }

    /// How the surroundings answer `command` at the instant `now`, where the
    /// authoritative store answers every call with `stored`: the world
    /// afterwards, and the reply.
    pub open spec fn answer(
        self,
        command: CommandView,
        now: nat,
        stored: Result<RecordView, ErrorView>,
    ) -> (World, ReplyView) {
        match command {
            CommandView::CacheGet { key, field } => (
                self,
                ReplyView::Record(
                    match self.cached(key, field, now) {
                        Some(record) => Ok(record),
                        None => Err(miss()),
                    },
                ),
            ),
            CommandView::CacheSet { key, field, value, ttl } => (
                World {
                    hashes: self.hashes.insert(
                        key,
                        Hash {
                            fields: self.fields(key, now).insert(field, value),
                            expires_at: (now + ttl) as nat,
                        },
                    ),
                    ..self
                },
                ReplyView::Done(Ok(())),
            ),
            CommandView::CacheDeleteField { key, field } => (
                if self.hashes.contains_key(key) {
                    World {
                        hashes: self.hashes.insert(
                            key,
                            Hash {
                                fields: self.hashes[key].fields.remove(field),
                                expires_at: self.hashes[key].expires_at,
                            },
                        ),
                        ..self
                    }
                } else {
                    self
                },
                ReplyView::Done(Ok(())),
            ),
            CommandView::CacheDeleteKey { key } => (
                World { hashes: self.hashes.remove(key), ..self },
                ReplyView::Done(Ok(())),
            ),
            CommandView::Publish { channel, payload } => (
                World { published: self.published.push(Event { channel, payload }), ..self },
                ReplyView::Done(Ok(())),
            ),
            CommandView::Store(call) => (
                World { store_calls: self.store_calls.push(call), ..self },
                ReplyView::Record(stored),
            ),
            CommandView::Subscribe { channel } => (
                World { subscriptions: self.subscriptions.push(channel), ..self },
                ReplyView::Done(Ok(())),
            ),
            CommandView::Emit { frame } => (
                World { frames: self.frames.push(frame), ..self },
                ReplyView::Done(Ok(())),
            ),
            CommandView::Receive => if self.inbox.len() > 0 {
                (
                    World { inbox: self.inbox.drop_first(), ..self },
                    ReplyView::Message(self.inbox.first()),
                )
            } else {
                (self, ReplyView::Closed)
            },
            CommandView::Close => (self, ReplyView::Closed),
            CommandView::Finish(_) => (self, ReplyView::Closed),
        }
    }

    /// The operation `state`, whose pending command is `command`, carried on
    /// at the instant `now` for at most `fuel` commands, or until it is over:
    /// the world afterwards, and the last command handed out.
    pub open spec fn run(
        self,
        state: CachedView,
        command: CommandView,
        now: nat,
        stored: Result<RecordView, ErrorView>,
        fuel: nat,
    ) -> (World, CommandView)
        decreases fuel,
    {
        if fuel == 0 || command is Finish || command is Close {
            (self, command)
        } else {
            let (world, reply) = self.answer(command, now, stored);
            let (next, then) = state.step(reply);
            world.run(next, then, now, stored, (fuel - 1) as nat)
        }
    }

    /// An operation without a stream, from its first command to its end.
    pub open spec fn perform(
        self,
        start: (CachedView, CommandView),
        now: nat,
        stored: Result<RecordView, ErrorView>,
    ) -> (World, CommandView) {
        self.run(start.0, start.1, now, stored, 5)
    }
}

/// A read that finds its snapshot in the cache answers with the snapshot and
/// leaves everything as it was: the authoritative store is not called.
pub proof fn lemma_read_hit(
    world: World,
    id: Seq<char>,
    now: nat,
    stored: Result<RecordView, ErrorView>,
    found: RecordView,
)
    requires
        world.cached(id, board_field(), now) == Some(found),
    ensures
        world.perform(CachedView::read_board(id), now, stored) == (
            world,
            CommandView::Finish(Ok(found)),
        ),
{
    reveal_with_fuel(World::run, 3);
}

/// A read that finds nothing in the cache calls the authoritative store once.
/// What the store answers is the answer of the read; a record is written to the
/// cache on the way, an error is not.
pub proof fn lemma_read_miss(
    world: World,
    id: Seq<char>,
    now: nat,
    stored: Result<RecordView, ErrorView>,
)
    requires
        world.cached(id, board_field(), now) is None,
    ensures
        ({
            let (after, last) = world.perform(CachedView::read_board(id), now, stored);
            &&& last == CommandView::Finish(stored)
            &&& after.store_calls == world.store_calls.push(StoreCallView::ReadBoard { id })
            &&& after.published == world.published
            &&& match stored {
                Ok(record) => forall|later: nat|
                    now <= later < now + CACHE_TTL_SECS ==> #[trigger] after.cached(
                        id,
                        board_field(),
                        later,
                    ) == Some(record),
                Err(_) => after.hashes == world.hashes,
            }
        }),
{
    reveal_with_fuel(World::run, 5);
}

/// The same for a task: found in the cache it is answered from there, not
/// found it is fetched with one call and, if the store has it, written to the
/// cache under the board's key and the task's identifier.
pub proof fn lemma_read_task(
    world: World,
    board_id: Seq<char>,
    task_id: Seq<char>,
    now: nat,
    stored: Result<RecordView, ErrorView>,
)
    ensures
        ({
            let (after, last) = world.perform(CachedView::read_task(board_id, task_id), now, stored);
            match world.cached(board_id, task_id, now) {
                Some(found) => after == world && last == CommandView::Finish(Ok(found)),
                None => {
                    &&& last == CommandView::Finish(stored)
                    &&& after.store_calls == world.store_calls.push(
                        StoreCallView::ReadTask { board_id, task_id },
                    )
                    &&& after.published == world.published
                    &&& match stored {
                        Ok(record) => forall|later: nat|
                            now <= later < now + CACHE_TTL_SECS ==> #[trigger] after.cached(
                                board_id,
                                task_id,
                                later,
                            ) == Some(record),
                        Err(_) => after.hashes == world.hashes,
                    }
                },
            }
        }),
{
    reveal_with_fuel(World::run, 5);
}

/// After a board has been updated, a read of it answers with the updated
/// board for as long as the snapshot lives, and does so from the cache: the
/// authoritative store has been called once, by the update, and is not called
/// again.
pub proof fn lemma_update_then_read(
    world: World,
    id: Seq<char>,
    data: BoardView,
    updated: RecordView,
    now: nat,
    later: nat,
    then_stored: Result<RecordView, ErrorView>,
)
    requires
        now <= later < now + CACHE_TTL_SECS,
    ensures
        ({
            let (after, last) = world.perform(CachedView::update_board(id, data), now, Ok(updated));
            let (at_last, read) = after.perform(CachedView::read_board(id), later, then_stored);
            &&& last == CommandView::Finish(Ok(updated))
            &&& after.store_calls == world.store_calls.push(StoreCallView::UpdateBoard { id, data })
            &&& read == CommandView::Finish(Ok(updated))
            &&& at_last == after
        }),
{
    reveal_with_fuel(World::run, 5);
    let after = world.perform(CachedView::update_board(id, data), now, Ok(updated)).0;
    assert(after.cached(id, board_field(), later) == Some(updated));
    lemma_read_hit(after, id, later, then_stored, updated);
}

/// An update that the authoritative store refuses changes nothing else: the
/// cache is not written, no event is published, and the store's error is the
/// answer.
pub proof fn lemma_update_refused(
    world: World,
    id: Seq<char>,
    data: BoardView,
    error: ErrorView,
    now: nat,
)
    ensures
        ({
            let (after, last) = world.perform(CachedView::update_board(id, data), now, Err(error));
            &&& last == CommandView::Finish(Err(error))
            &&& after.hashes == world.hashes
            &&& after.published == world.published
        }),
{
    reveal_with_fuel(World::run, 5);
}

/// After a board has been deleted the cache holds nothing under its key, at
/// any instant, and a read of it goes to the authoritative store and answers
/// what the store answers, which for a board that is gone is that it was not
/// found; nothing is cached on the way.
pub proof fn lemma_delete_then_read(
    world: World,
    id: Seq<char>,
    deleted: RecordView,
    now: nat,
    later: nat,
    error: ErrorView,
)
    ensures
        ({
            let (after, last) = world.perform(CachedView::delete_board(id), now, Ok(deleted));
            let (at_last, read) = after.perform(CachedView::read_board(id), later, Err(error));
            &&& last == CommandView::Finish(Ok(deleted))
            &&& !after.hashes.contains_key(id)
            &&& forall|field: Seq<char>, at: nat| #[trigger] after.cached(id, field, at) is None
            &&& read == CommandView::Finish(Err(error))
            &&& !at_last.hashes.contains_key(id)
        }),
{
    reveal_with_fuel(World::run, 5);
    let after = world.perform(CachedView::delete_board(id), now, Ok(deleted)).0;
    assert(!after.hashes.contains_key(id));
    lemma_read_miss(after, id, later, Err(error));
}

/// A deletion that the authoritative store refuses leaves the cache cold and
/// publishes nothing.
pub proof fn lemma_delete_refused(world: World, id: Seq<char>, error: ErrorView, now: nat)
    ensures
        ({
            let (after, last) = world.perform(CachedView::delete_board(id), now, Err(error));
            &&& last == CommandView::Finish(Err(error))
            &&& !after.hashes.contains_key(id)
            &&& after.published == world.published
        }),
{
    reveal_with_fuel(World::run, 5);
}

/// The event that a mutation of `board_id` is to publish.
pub open spec fn change_event(board_id: Seq<char>, payload: Seq<char>) -> Event {
    Event { channel: channel_name(board_id), payload }
}

/// What a mutation that the authoritative store carried out leaves behind:
/// the store's record as the answer, one call to the store, and exactly one
/// event more on the board's channel.
pub open spec fn mutated(
    world: World,
    outcome: (World, CommandView),
    call: StoreCallView,
    record: RecordView,
    event: Event,
) -> bool {
    &&& outcome.1 == CommandView::Finish(Ok(record))
    &&& outcome.0.store_calls == world.store_calls.push(call)
    &&& outcome.0.published == world.published.push(event)
}

/// Every mutation that the authoritative store carries out publishes exactly
/// one event, on the channel of the board concerned: `updated` for a changed
/// board and for a created, changed or deleted task, `deleted` for a deleted
/// board.
pub proof fn lemma_mutation_publishes_once(
    world: World,
    board_id: Seq<char>,
    task_id: Seq<char>,
    board: BoardView,
    task: TaskView,
    record: RecordView,
    now: nat,
)
    ensures
        mutated(
            world,
            world.perform(CachedView::update_board(board_id, board), now, Ok(record)),
            StoreCallView::UpdateBoard { id: board_id, data: board },
            record,
            change_event(board_id, updated_payload()),
        ),
        mutated(
            world,
            world.perform(CachedView::delete_board(board_id), now, Ok(record)),
            StoreCallView::DeleteBoard { id: board_id },
            record,
            change_event(board_id, deleted_payload()),
        ),
        mutated(
            world,
            world.perform(CachedView::create_task(board_id, task), now, Ok(record)),
            StoreCallView::CreateTask { board_id, data: task },
            record,
            change_event(board_id, updated_payload()),
        ),
        mutated(
            world,
            world.perform(CachedView::update_task(board_id, task_id, task), now, Ok(record)),
            StoreCallView::UpdateTask { board_id, task_id, data: task },
            record,
            change_event(board_id, updated_payload()),
        ),
        mutated(
            world,
            world.perform(CachedView::delete_task(board_id, task_id), now, Ok(record)),
            StoreCallView::DeleteTask { board_id, task_id },
            record,
            change_event(board_id, updated_payload()),
        ),
{
    reveal_with_fuel(World::run, 5);
}

/// A mutation that the authoritative store refuses publishes nothing and
/// answers with the store's error.
pub proof fn lemma_refused_mutation_is_silent(
    world: World,
    board_id: Seq<char>,
    task_id: Seq<char>,
    board: BoardView,
    task: TaskView,
    error: ErrorView,
    now: nat,
)
    ensures
        world.perform(CachedView::update_board(board_id, board), now, Err(error)).1
            == CommandView::Finish(Err(error)),
        world.perform(CachedView::update_board(board_id, board), now, Err(error)).0.published
            == world.published,
        world.perform(CachedView::delete_board(board_id), now, Err(error)).1
            == CommandView::Finish(Err(error)),
        world.perform(CachedView::delete_board(board_id), now, Err(error)).0.published
            == world.published,
        world.perform(CachedView::create_task(board_id, task), now, Err(error)).1
            == CommandView::Finish(Err(error)),
        world.perform(CachedView::create_task(board_id, task), now, Err(error)).0.published
            == world.published,
        world.perform(CachedView::update_task(board_id, task_id, task), now, Err(error)).1
            == CommandView::Finish(Err(error)),
        world.perform(CachedView::update_task(board_id, task_id, task), now, Err(error)).0.published
            == world.published,
        world.perform(CachedView::delete_task(board_id, task_id), now, Err(error)).1
            == CommandView::Finish(Err(error)),
        world.perform(CachedView::delete_task(board_id, task_id), now, Err(error)).0.published
            == world.published,
{
    reveal_with_fuel(World::run, 5);
}

/// A task that has been updated is answered from the cache afterwards, and a
/// task that has been deleted is no longer in it.
pub proof fn lemma_task_cache_follows_mutations(
    world: World,
    board_id: Seq<char>,
    task_id: Seq<char>,
    task: TaskView,
    record: RecordView,
    now: nat,
    later: nat,
)
    requires
        now <= later < now + CACHE_TTL_SECS,
    ensures
        world.perform(CachedView::update_task(board_id, task_id, task), now, Ok(record)).0.cached(
            board_id,
            task_id,
            later,
        ) == Some(record),
        world.perform(CachedView::delete_task(board_id, task_id), now, Ok(record)).0.cached(
            board_id,
            task_id,
            later,
        ) is None,
{
    reveal_with_fuel(World::run, 5);
}

/// Reads of one board at the instants `times`, one after the other: the world
/// afterwards, and the answers in that order.
pub open spec fn read_all(
    world: World,
    id: Seq<char>,
    times: Seq<nat>,
    stored: Result<RecordView, ErrorView>,
) -> (World, Seq<CommandView>)
    decreases times.len(),
{
    if times.len() == 0 {
        (world, Seq::empty())
    } else {
        let (before, answers) = read_all(world, id, times.drop_last(), stored);
        let (after, answer) = before.perform(CachedView::read_board(id), times.last(), stored);
        (after, answers.push(answer))
    }
}

/// Reads of a board that is not in the cache, repeated within the time to
/// live of the snapshot that the first of them writes and with no write in
/// between, all answer with the same record, and the authoritative store is
/// called by the first of them only.
pub proof fn lemma_repeated_reads(
    world: World,
    id: Seq<char>,
    times: Seq<nat>,
    record: RecordView,
)
    requires
        times.len() > 0,
        world.cached(id, board_field(), times[0]) is None,
        forall|i: int| 0 <= i < times.len() ==> times[0] <= #[trigger] times[i] < times[0] + CACHE_TTL_SECS,
    ensures
        read_all(world, id, times, Ok(record)).1.len() == times.len(),
        forall|i: int|
            0 <= i < times.len() ==> #[trigger] read_all(world, id, times, Ok(record)).1[i]
                == CommandView::Finish(Ok(record)),
        read_all(world, id, times, Ok(record)).0.store_calls == world.store_calls.push(
            StoreCallView::ReadBoard { id },
        ),
        forall|later: nat|
            times[0] <= later < times[0] + CACHE_TTL_SECS ==> #[trigger] read_all(
                world,
                id,
                times,
                Ok(record),
            ).0.cached(id, board_field(), later) == Some(record),
    decreases times.len(),
{
    let earlier = times.drop_last();
    if earlier.len() == 0 {
        assert(times.last() == times[0]);
        assert(read_all(world, id, earlier, Ok(record)) == (world, Seq::<CommandView>::empty()));
        lemma_read_miss(world, id, times[0], Ok(record));
    } else {
        assert(earlier[0] == times[0]);
        assert forall|i: int| 0 <= i < earlier.len() implies times[0] <= #[trigger] earlier[i]
            < times[0] + CACHE_TTL_SECS by {
            assert(earlier[i] == times[i]);
        }
        lemma_repeated_reads(world, id, earlier, record);
        let before = read_all(world, id, earlier, Ok(record)).0;
        assert(times.last() == times[times.len() - 1]);
        assert(before.cached(id, board_field(), times.last()) == Some(record));
        lemma_read_hit(before, id, times.last(), Ok(record), record);
    }
}

/// The frames in which a channel's deliveries reach the subscriber: one for
/// every payload, in order, up to the first failure to read one.
pub open spec fn forwarded(inbox: Seq<Result<Seq<char>, ErrorView>>) -> Seq<Seq<char>>
    decreases inbox.len(),
{
    if inbox.len() == 0 {
        Seq::empty()
    } else {
        match inbox.first() {
            Ok(payload) => seq![event_frame(payload)] + forwarded(inbox.drop_first()),
            Err(_) => Seq::empty(),
        }
    }
}

/// A subscription that waits for the next message forwards every payload that
/// the channel delivers, in the order of delivery and without dropping one,
/// and ends when the channel ends or fails.
pub proof fn lemma_stream_forwards_in_order(
    world: World,
    state: CachedView,
    now: nat,
    stored: Result<RecordView, ErrorView>,
    fuel: nat,
)
    requires
        state.phase == Phase::Receive,
        fuel >= 2 * world.inbox.len() + 2,
    ensures
        world.run(state, CommandView::Receive, now, stored, fuel).1 == CommandView::Close,
        world.run(state, CommandView::Receive, now, stored, fuel).0.frames == world.frames
            + forwarded(world.inbox),
        world.run(state, CommandView::Receive, now, stored, fuel).0.hashes == world.hashes,
        world.run(state, CommandView::Receive, now, stored, fuel).0.published == world.published,
        world.run(state, CommandView::Receive, now, stored, fuel).0.store_calls
            == world.store_calls,
        world.run(state, CommandView::Receive, now, stored, fuel).0.subscriptions
            == world.subscriptions,
    decreases world.inbox.len(),
{
    reveal_with_fuel(World::run, 3);
    if world.inbox.len() == 0 {
        assert(world.frames + forwarded(world.inbox) =~= world.frames);
    } else {
        match world.inbox.first() {
            Ok(payload) => {
                let taken = World { inbox: world.inbox.drop_first(), ..world };
                let emitted = World { frames: taken.frames.push(event_frame(payload)), ..taken };
                let delivering = CachedView { phase: Phase::Deliver, ..state };
                let receiving = CachedView { phase: Phase::Receive, ..delivering };
                assert(world.run(state, CommandView::Receive, now, stored, fuel) == emitted.run(
                    receiving,
                    CommandView::Receive,
                    now,
                    stored,
                    (fuel - 2) as nat,
                ));
                lemma_stream_forwards_in_order(emitted, receiving, now, stored, (fuel - 2) as nat);
                assert(emitted.frames + forwarded(emitted.inbox) =~= world.frames + forwarded(
                    world.inbox,
                ));
            },
            Err(_) => {
                assert(world.frames + forwarded(world.inbox) =~= world.frames);
            },
        }
    }
}

/// A subscription from its first command to its end, where the channel
/// delivers what the world's inbox holds.
pub open spec fn subscribe(
    world: World,
    board_id: Seq<char>,
    now: nat,
    stored: Result<RecordView, ErrorView>,
) -> (World, CommandView) {
    let start = CachedView::subscribe_on_board_updates(board_id);
    world.run(start.0, start.1, now, stored, 2 * world.inbox.len() + 8)
}

/// Whoever subscribes to a board that neither the cache nor the
/// authoritative store knows is answered with the store's error, which for a
/// missing board is that it was not found, and nothing is set up: no channel
/// is subscribed to and no frame is sent.
pub proof fn lemma_subscribe_to_missing_board(
    world: World,
    board_id: Seq<char>,
    now: nat,
    error: ErrorView,
)
    requires
        world.cached(board_id, board_field(), now) is None,
    ensures
        subscribe(world, board_id, now, Err(error)).1 == CommandView::Finish(Err(error)),
        subscribe(world, board_id, now, Err(error)).0.subscriptions == world.subscriptions,
        subscribe(world, board_id, now, Err(error)).0.frames == world.frames,
        subscribe(world, board_id, now, Err(error)).0.inbox == world.inbox,
{
    reveal_with_fuel(World::run, 4);
}

/// Whoever subscribes to a board that exists, in the cache or in the
/// authoritative store, is subscribed to the board's channel and to no
/// other, and is sent the greeting first, whether or not anything follows,
/// and then one frame for every message, in the order of the messages.
pub proof fn lemma_subscribe_greets_then_forwards(
    world: World,
    board_id: Seq<char>,
    now: nat,
    stored: Result<RecordView, ErrorView>,
)
    requires
        world.cached(board_id, board_field(), now) is Some || stored is Ok,
    ensures
        subscribe(world, board_id, now, stored).1 == CommandView::Close,
        subscribe(world, board_id, now, stored).0.subscriptions == world.subscriptions.push(
            channel_name(board_id),
        ),
        subscribe(world, board_id, now, stored).0.frames == world.frames.push(connected_frame())
            + forwarded(world.inbox),
        subscribe(world, board_id, now, stored).0.published == world.published,
{
    reveal_with_fuel(World::run, 6);
    let start = CachedView::subscribe_on_board_updates(board_id);
    let fuel = 2 * world.inbox.len() + 8;
    let receiving = CachedView { phase: Phase::Receive, held: None, ..start.0 };
    if world.cached(board_id, board_field(), now) is Some {
        let subscribed = World {
            subscriptions: world.subscriptions.push(channel_name(board_id)),
            ..world
        };
        let greeted = World { frames: subscribed.frames.push(connected_frame()), ..subscribed };
        assert(subscribe(world, board_id, now, stored) == greeted.run(
            receiving,
            CommandView::Receive,
            now,
            stored,
            (fuel - 3) as nat,
        ));
        lemma_stream_forwards_in_order(greeted, receiving, now, stored, (fuel - 3) as nat);
    } else {
        let record = stored->Ok_0;
        let asked = World {
            store_calls: world.store_calls.push(StoreCallView::ReadBoard { id: board_id }),
            ..world
        };
        let filled = asked.answer(
            CommandView::CacheSet {
                key: board_id,
                field: board_field(),
                value: record,
                ttl: CACHE_TTL_SECS,
            },
            now,
            stored,
        ).0;
        let subscribed = World {
            subscriptions: filled.subscriptions.push(channel_name(board_id)),
            ..filled
        };
        let greeted = World { frames: subscribed.frames.push(connected_frame()), ..subscribed };
        assert(subscribe(world, board_id, now, stored) == greeted.run(
            receiving,
            CommandView::Receive,
            now,
            stored,
            (fuel - 5) as nat,
        ));
        lemma_stream_forwards_in_order(greeted, receiving, now, stored, (fuel - 5) as nat);
    }
}

} // verus!
