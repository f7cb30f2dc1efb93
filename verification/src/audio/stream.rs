//! Pacing the broadcast: chunks of a file go out at the rate the audio plays.
use vstd::prelude::*;

verus! {

/// Bytes per broadcast chunk.
pub const CHUNK_SIZE: usize = 4096;
/// Assumed MP3 bitrate in kbit/s.
pub const BITRATE_KBPS: u32 = 192;
/// Time between chunks in microseconds: 4096 bytes at 24000 bytes/s, rounded down.
pub const CHUNK_DELAY_MICROS: u64 = 170666;
/// A progress report is due after every this many delivered chunks.
pub const REPORT_EVERY: u64 = 100;

/// Bytes per second at the assumed bitrate.
pub fn bytes_per_second() -> (b: u32)
    ensures
        b == BITRATE_KBPS * 1000 / 8,
        b == 24000,
{
    BITRATE_KBPS * 1000 / 8
}

/// Sending schedule of one file's chunks: chunk `k` goes out `k` delays after
/// the start, however long earlier sends took.
pub struct ChunkPacer {
    delay_micros: u64,
    next_send_micros: u64,
    chunks_sent: u64,
    rounds: Ghost<nat>,
}

impl ChunkPacer {
    pub closed spec fn delay(&self) -> nat {
        self.delay_micros as nat
    }

    /// When the next chunk is due, in microseconds since the start.
    pub closed spec fn next_send(&self) -> nat {
        self.next_send_micros as nat
    }

    /// Chunks delivered to at least one listener.
    pub closed spec fn delivered(&self) -> nat {
        self.chunks_sent as nat
    }

    /// Chunks sent so far, delivered or not.
    pub closed spec fn rounds(&self) -> nat {
        self.rounds@
    }

    /// The schedule has not drifted.
    pub open spec fn wf(&self) -> bool {
        &&& self.next_send() == self.rounds() * self.delay()
        &&& self.delivered() <= self.rounds()
    }

    pub fn new(delay_micros: u64) -> (p: Self)
        ensures
            p.delay() == delay_micros,
            p.next_send() == 0,
            p.delivered() == 0,
            p.rounds() == 0,
            p.wf(),
    {
        ChunkPacer { delay_micros, next_send_micros: 0, chunks_sent: 0, rounds: Ghost(0) }
    }

    /// How long to wait at `now_micros` before sending the next chunk.
    pub fn wait_before_send(&self, now_micros: u64) -> (wait: u64)
        ensures
            wait == if now_micros < self.next_send() { self.next_send() - now_micros } else { 0 },
    {
        if now_micros < self.next_send_micros {
            self.next_send_micros - now_micros
        } else {
            0
        }
    }

    /// When the next chunk is due, in microseconds since the start.
    pub fn next_send_micros(&self) -> (t: u64)
        ensures
            t == self.next_send(),
    {
        self.next_send_micros
    }

    /// Number of chunks delivered so far.
    pub fn chunks_sent(&self) -> (n: u64)
        ensures
            n == self.delivered(),
    {
        self.chunks_sent
    }

    /// Records one send, delivered or dropped, and schedules the next chunk;
    /// tells whether a progress report is due.
    pub fn record_send(&mut self, delivered: bool) -> (report: bool)
        requires
            old(self).wf(),
            old(self).next_send() + old(self).delay() <= u64::MAX,
            old(self).delivered() < u64::MAX,
        ensures
            final(self).wf(),
            final(self).delay() == old(self).delay(),
            final(self).rounds() == old(self).rounds() + 1,
            final(self).next_send() == old(self).next_send() + old(self).delay(),
            final(self).delivered() == old(self).delivered() + if delivered { 1nat } else { 0nat },
            report == (delivered && final(self).delivered() % (REPORT_EVERY as nat) == 0),
    {
        let mut report = false;
        if delivered {
            self.chunks_sent = self.chunks_sent + 1;
            report = self.chunks_sent % REPORT_EVERY == 0;
        }
        self.next_send_micros = self.next_send_micros + self.delay_micros;
        proof {
            let r = self.rounds@;
            assert((r + 1) * self.delay() == r * self.delay() + self.delay()) by (nonlinear_arith);
            self.rounds = Ghost(r + 1);
        }
        report
    }
}

/// What a cached file found at streaming time calls for.
#[derive(Debug, PartialEq, Eq, Structural, Clone, Copy)]
pub enum CachedFileCheck {
    /// The file is gone: skip the segment.
    Missing,
    /// The file is empty: delete it and skip the segment.
    Empty,
    /// Stream the file.
    Ready,
}

/// Classifies a cached file by its size, `None` when it could not be read.
pub fn check_cached_file(size: Option<u64>) -> (c: CachedFileCheck)
    ensures
        c == match size {
            None => CachedFileCheck::Missing,
            Some(0) => CachedFileCheck::Empty,
            Some(_) => CachedFileCheck::Ready,
        },
{
    match size {
        None => CachedFileCheck::Missing,
        Some(n) => if n == 0 { CachedFileCheck::Empty } else { CachedFileCheck::Ready },
    }
}

} // verus!
