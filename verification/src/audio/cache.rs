//! The queue of prepared audio segments: bounded, first in first out, with
//! the oldest entries evicted when it overflows; and which segments may be
//! prepared at all.
use vstd::prelude::*;
use vstd::string::*;
use std::collections::VecDeque;

use crate::radio::{segment_track, RadioSegment};

verus! {

/// A bounded first-in-first-out queue of cached entries.
pub struct CacheQueue<T> {
    entries: VecDeque<T>,
    max_cache_size: usize,
}

impl<T> View for CacheQueue<T> {
    type V = Seq<T>;

    closed spec fn view(&self) -> Seq<T> {
        self.entries@
    }
}

/// The suffix of `all` that a queue holding at most `capacity` entries keeps.
pub open spec fn kept_entries<T>(all: Seq<T>, capacity: nat) -> Seq<T> {
    if all.len() <= capacity {
        all
    } else {
        all.subrange(all.len() - capacity, all.len() as int)
    }
}

/// The prefix of `all` that such a queue evicts.
pub open spec fn evicted_entries<T>(all: Seq<T>, capacity: nat) -> Seq<T> {
    if all.len() <= capacity {
        Seq::empty()
    } else {
        all.subrange(0, all.len() - capacity)
    }
}

impl<T> CacheQueue<T> {
    /// The most entries the queue keeps.
    pub closed spec fn capacity(&self) -> nat {
        self.max_cache_size as nat
    }

    /// The queue holds no more than its capacity.
    pub open spec fn wf(&self) -> bool {
        self@.len() <= self.capacity()
    }

    /// An empty queue keeping at most `max_cache_size` entries.
    pub fn new(max_cache_size: usize) -> (q: Self)
        ensures
            q@ == Seq::<T>::empty(),
            q.capacity() == max_cache_size,
            q.wf(),
    {
        CacheQueue { entries: VecDeque::new(), max_cache_size }
    }

    /// How many entries are cached.
    pub fn cached_count(&self) -> (n: usize)
        ensures
            n == self@.len(),
    {
        self.entries.len()
    }

    /// Takes the oldest entry out.
    pub fn pop_next(&mut self) -> (e: Option<T>)
        requires
            old(self).wf(),
        ensures
            final(self).wf(),
            final(self).capacity() == old(self).capacity(),
            match e {
                Some(x) => old(self)@.len() > 0 && x == old(self)@[0] && final(self)@ == old(self)@.drop_first(),
                None => old(self)@.len() == 0 && final(self)@ == old(self)@,
            },
    {
        let e = self.entries.pop_front();
        proof {
            if e is Some {
                assert(old(self)@.drop_first() =~= old(self)@.subrange(1, old(self)@.len() as int));
            }
        }
        e
    }

    /// Adds an entry at the back, then evicts from the front until the queue
    /// fits its capacity; returns the evicted entries, oldest first.
    pub fn push_evicting(&mut self, entry: T) -> (evicted: Vec<T>)
        ensures
            final(self)@ == kept_entries(old(self)@.push(entry), old(self).capacity()),
            evicted@ == evicted_entries(old(self)@.push(entry), old(self).capacity()),
            final(self).capacity() == old(self).capacity(),
            final(self).wf(),
    {
        let ghost all = old(self)@.push(entry);
        let ghost cap = self.max_cache_size as nat;
        self.entries.push_back(entry);
        let mut evicted: Vec<T> = Vec::new();
        while self.entries.len() > self.max_cache_size
            invariant
                self.max_cache_size == cap,
                evicted@ + self.entries@ == all,
                all.len() > cap ==> evicted@.len() <= all.len() - cap,
                all.len() <= cap ==> evicted@.len() == 0,
            decreases self.entries@.len(),
        {
            let ghost before = self.entries@;
            match self.entries.pop_front() {
                Some(old_entry) => {
                    evicted.push(old_entry);
                    assert(evicted@ + self.entries@ =~= all);
                },
                None => {},
            }
        }
        proof {
            if all.len() <= cap {
                assert(self.entries@ =~= all);
            } else {
                assert(evicted@ =~= all.subrange(0, all.len() - cap));
                assert(self.entries@ =~= all.subrange(all.len() - cap, all.len() as int));
            }
        }
        evicted
    }

    /// Empties the queue, returning everything it held, oldest first.
    pub fn drain_all(&mut self) -> (all: Vec<T>)
        ensures
            all@ == old(self)@,
            final(self)@ == Seq::<T>::empty(),
            final(self).capacity() == old(self).capacity(),
            final(self).wf(),
    {
        let mut all: Vec<T> = Vec::new();
        while self.entries.len() > 0
            invariant
                all@ + self.entries@ == old(self)@,
                self.max_cache_size == old(self).max_cache_size,
            decreases self.entries@.len(),
        {
            match self.entries.pop_front() {
                Some(e) => {
                    all.push(e);
                    assert(all@ + self.entries@ =~= old(self)@);
                },
                None => {},
            }
        }
        assert(all@ =~= old(self)@);
        all
    }
}

} // verus!

verus! {

pub const SKIP_SONG: &'static str = "Skipping song in callouts-only mode";
pub const SKIP_SHOW: &'static str = "Skipping show in callouts-only mode";

/// Whether a segment may be cached: in callouts-only mode songs and shows are refused.
pub open spec fn admission(callouts_only: bool, segment: RadioSegment) -> Result<(), Seq<char>> {
    if callouts_only && segment is Song {
        Err(SKIP_SONG@)
    } else if callouts_only && segment is Show {
        Err(SKIP_SHOW@)
    } else {
        Ok(())
    }
}

pub fn admit_for_caching(callouts_only: bool, segment: &RadioSegment) -> (r: Result<(), String>)
    ensures
        match (r, admission(callouts_only, *segment)) {
            (Ok(()), Ok(())) => true,
            (Err(e), Err(s)) => e@ == s,
            _ => false,
        },
        !callouts_only ==> r is Ok,
        callouts_only ==> (r is Err <==> (*segment is Song || *segment is Show)),
{
    if callouts_only {
        match segment {
            RadioSegment::Song(_) => {
                return Err(String::from_str(SKIP_SONG));
            },
            RadioSegment::Show(_) => {
                return Err(String::from_str(SKIP_SHOW));
            },
            _ => {},
        }
    }
    Ok(())
}

/// Where a segment's audio comes from: a recording found online for a track,
/// or synthesized speech.
#[derive(Debug)]
pub enum AudioSource {
    Recording { track_name: String, artist: String, album_name: String },
    Speech,
}

/// Songs and shows are recordings of their track; everything else is spoken.
pub open spec fn source_of(segment: RadioSegment, source: AudioSource) -> bool {
    match segment {
        RadioSegment::Song(t) | RadioSegment::Show(t) => source matches AudioSource::Recording { track_name, artist, album_name }
            && track_name == t.name && artist == t.artist && album_name == t.album_name,
        _ => source is Speech,
    }
}

pub fn audio_source(segment: &RadioSegment) -> (source: AudioSource)
    ensures
        source_of(*segment, source),
        (*segment is Song || *segment is Show) <==> source is Recording,
{
    match segment {
        RadioSegment::Song(t) | RadioSegment::Show(t) => AudioSource::Recording {
            track_name: t.name.clone(),
            artist: t.artist.clone(),
            album_name: t.album_name.clone(),
        },
        _ => AudioSource::Speech,
    }
}

} // verus!

verus! {

/// Outside callouts-only mode every segment, songs and shows included, is
/// admitted; in callouts-only mode exactly the songs and the shows are refused.
pub proof fn lemma_admission_refuses_only_tracks_in_callouts_mode(segment: RadioSegment)
    ensures
        admission(false, segment) == Ok::<(), Seq<char>>(()),
        admission(true, segment) is Err <==> (segment is Song || segment is Show),
        segment is Song ==> admission(true, segment) == Err::<(), Seq<char>>(SKIP_SONG@),
        segment is Show ==> admission(true, segment) == Err::<(), Seq<char>>(SKIP_SHOW@),
{
}

/// Every segment that plays a track (a song or a show) has that track's
/// recording as its audio, found by the track's name, artist and album; every
/// other segment is spoken.
pub proof fn lemma_tracks_play_their_recording(segment: RadioSegment, source: AudioSource, shows: bool)
    requires
        source_of(segment, source),
    ensures
        segment_track(segment, shows) matches Some(t) ==> source matches AudioSource::Recording {
            track_name,
            artist,
            album_name,
        } && track_name == t.name && artist == t.artist && album_name == t.album_name,
        segment_track(segment, false) is None && segment_track(segment, true) is None ==> source is Speech,
{
}

} // verus!
