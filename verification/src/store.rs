use vstd::prelude::*;

verus! {

/// A command sent to the Redis store that holds budgets and usage counters.
#[derive(Debug)]
pub enum Command {
    /// `GET key`, read as an unsigned integer; absent keys read as nothing.
    Get { key: String },
    /// `SET key value`.
    Put { key: String, value: u64 },
    /// `INCRBY key delta`; an absent key counts as 0.
    IncrBy { key: String, delta: u64 },
    /// Atomic decrement with a floor at 0; an absent key is left absent and reads as 0.
    DecrFloor { key: String, delta: u64 },
    /// `DEL first second`.
    Delete { first: String, second: String },
}

/// Why a command could not be carried out.
#[derive(Debug)]
pub enum StoreFailure {
    /// No connection could be taken from the pool.
    Pool(deadpool_redis::PoolError),
    /// The store answered the command with an error.
    Command(deadpool_redis::redis::RedisError),
}

/// What the store answered to a command.
#[derive(Debug)]
pub enum Reply {
    /// Answer to `Get`.
    Value(Option<u64>),
    /// Answer to `IncrBy` and `DecrFloor`: the counter's new value.
    Count(u64),
    /// Answer to `Put` and `Delete`.
    Written,
    /// The command failed.
    Failed(StoreFailure),
}

/// The largest value that the store's integer counters can hold (a signed 64-bit integer).
pub open spec fn counter_max() -> int {
    0x7fff_ffff_ffff_ffff
}

/// The contents of the store: each present key with its unsigned value.
pub type StoreState = Map<Seq<char>, u64>;

/// The value stored under `key`, if any.
pub open spec fn stored(store: StoreState, key: Seq<char>) -> Option<u64> {
    if store.dom().contains(key) { Some(store[key]) } else { None }
}

/// The counter under `key`, with an absent key counting as 0.
pub open spec fn counter(store: StoreState, key: Seq<char>) -> u64 {
    match stored(store, key) {
        Some(v) => v,
        None => 0,
    }
}

/// The store after `INCRBY key delta`, or `None` where the counter would pass `counter_max()`.
pub open spec fn incremented(store: StoreState, key: Seq<char>, delta: u64) -> Option<StoreState> {
    if counter(store, key) + delta <= counter_max() {
        Some(store.insert(key, (counter(store, key) + delta) as u64))
    } else {
        None
    }
}

/// The store after decrementing the counter under `key` by `delta`, with a floor at 0.
/// An absent key is left absent.
pub open spec fn decremented(store: StoreState, key: Seq<char>, delta: u64) -> StoreState {
    match stored(store, key) {
        Some(v) => store.insert(key, if v >= delta { (v - delta) as u64 } else { 0 }),
        None => store,
    }
}

/// The store after a command and the store's answer, or `None` where the store refuses it.
pub open spec fn apply(store: StoreState, cmd: Command) -> Option<(StoreState, Reply)> {
    match cmd {
        Command::Get { key } => Some((store, Reply::Value(stored(store, key@)))),
        Command::Put { key, value } => Some((store.insert(key@, value), Reply::Written)),
        Command::IncrBy { key, delta } => match incremented(store, key@, delta) {
            Some(next) => Some((next, Reply::Count(counter(next, key@)))),
            None => None,
        },
        Command::DecrFloor { key, delta } => {
            let next = decremented(store, key@, delta);
            Some((next, Reply::Count(counter(next, key@))))
        },
        Command::Delete { first, second } => Some(
            (store.remove(first@).remove(second@), Reply::Written),
        ),
    }
}

} // verus!
