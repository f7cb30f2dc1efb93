//! Decisions of the station's main loop: how much audio to keep prepared,
//! when to start streaming, and what to do next with the schedule.
use vstd::prelude::*;
use vstd::string::*;
use std::collections::VecDeque;

use crate::radio::RadioSegment;

verus! {

/// How chatty the station's log is.
#[derive(Debug, PartialEq, Eq, Structural, Clone, Copy)]
pub enum LogVerbosity {
    OFF,
    MINIMAL,
    INCREASED,
    FULL,
}

/// Verbosity for the number of `-v` flags given; more than three is off.
pub fn verbosity_from_count(count: u8) -> (v: LogVerbosity)
    ensures
        v == if count == 1 {
            LogVerbosity::MINIMAL
        } else if count == 2 {
            LogVerbosity::INCREASED
        } else if count == 3 {
            LogVerbosity::FULL
        } else {
            LogVerbosity::OFF
        },
{
    match count {
        0 => LogVerbosity::OFF,
        1 => LogVerbosity::MINIMAL,
        2 => LogVerbosity::INCREASED,
        3 => LogVerbosity::FULL,
        _ => LogVerbosity::OFF,
    }
}

/// Segments the pre-caching task keeps ready: fewer when only (short) callouts play.
pub fn pre_cache_threshold(callouts_only: bool) -> (n: usize)
    ensures
        n == if callouts_only { 3usize } else { 5usize },
{
    if callouts_only { 3 } else { 5 }
}

/// Segments that must be ready before streaming starts.
pub fn initial_cache_minimum(callouts_only: bool) -> (n: usize)
    ensures
        n == if callouts_only { 1usize } else { 2usize },
{
    if callouts_only { 1 } else { 2 }
}

/// Capacity of the queue of prepared audio.
pub const MAX_CACHED_SEGMENTS: usize = 10;
/// Chunks the broadcast channel buffers.
pub const BROADCAST_BUFFER_CHUNKS: usize = 500;
/// The port the HTTP server listens on.
pub const SERVER_PORT: u16 = 3000;
/// Track type codes in the database.
pub const SONG_TRACK_TYPE: i8 = 0;
pub const SHOW_TRACK_TYPE: i8 = 1;
/// Connections of the database pool.
pub const DATABASE_CONNECTIONS: u32 = 3;

pub const SQLITE_SCHEME: &'static str = "sqlite://";

/// The connection URL of the SQLite database at `location`.
pub fn database_url(location: &str) -> (url: String)
    ensures
        url@ == SQLITE_SCHEME@ + location@,
{
    let mut url = String::from_str(SQLITE_SCHEME);
    url.append(location);
    url
}

/// What the pre-caching task does next.
#[derive(Debug)]
pub enum PreCacheAction {
    /// Prepare this segment, taken from the front of the schedule.
    Cache(RadioSegment),
    /// Enough audio is ready: wait a little.
    Wait,
    /// The schedule has run out: wait longer.
    Exhausted,
}

/// One decision of the pre-caching task: below the threshold take the next
/// segment of the schedule, if any.
pub fn next_pre_cache_action(cached_count: usize, threshold: usize, schedule: &mut VecDeque<RadioSegment>) -> (a: PreCacheAction)
    ensures
        cached_count < threshold && old(schedule)@.len() > 0 ==> a == PreCacheAction::Cache(old(schedule)@[0])
            && final(schedule)@ == old(schedule)@.drop_first(),
        cached_count < threshold && old(schedule)@.len() == 0 ==> a is Exhausted && final(schedule)@ == old(schedule)@,
        cached_count >= threshold ==> a is Wait && final(schedule)@ == old(schedule)@,
{
    if cached_count < threshold {
        match schedule.pop_front() {
            Some(segment) => {
                assert(old(schedule)@.drop_first() =~= old(schedule)@.subrange(1, old(schedule)@.len() as int));
                PreCacheAction::Cache(segment)
            },
            None => PreCacheAction::Exhausted,
        }
    } else {
        PreCacheAction::Wait
    }
}

/// Progress of the wait for the first segments, after one more pause.
#[derive(Debug, Clone, Copy)]
pub struct WaitStep {
    pub iterations: u32,
    /// Time to report how many segments are ready.
    pub report: bool,
    /// Waited long enough: start anyway.
    pub give_up: bool,
}

/// Counts one more pause of the initial wait: a report every tenth pause,
/// giving up after sixty.
pub fn initial_wait_step(iterations: u32) -> (s: WaitStep)
    requires
        iterations <= 60,
    ensures
        s.iterations == iterations + 1,
        s.report == (s.iterations % 10 == 0),
        s.give_up == (s.iterations > 60),
{
    let it = iterations + 1;
    WaitStep { iterations: it, report: it % 10 == 0, give_up: it > 60 }
}

} // verus!
