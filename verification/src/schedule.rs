//! Building the broadcast: a planner that, round by round, appends song
//! blocks, callouts, reports and shows to the schedule, driven by random rolls.
use rand::Rng;
use vstd::prelude::*;

use crate::radio::{clone_optional_track, peek_next_song, pool_peek, segment_context, segment_track, CalloutContext, RadioSegment, YoursFMTrack};

verus! {

/// Number of segments a schedule is filled up to.
pub const TARGET_SEGMENTS: usize = 64;

/// Rolls are uniform integers below 2^24; a roll `k` stands for the
/// probability value `k / 2^24`, which is exactly how an `f32` in `[0, 1)` is
/// drawn. Each `*_BELOW` bound is `ceil(p * 2^24)` for the `f32` threshold `p`,
/// so `k < BOUND` holds exactly when `k / 2^24 < p`.
pub const ROLL_RANGE: u32 = 16777216;
/// 0.75: a round is a song block.
pub const SONG_BLOCK_BELOW: u32 = 12582912;
/// 0.85: otherwise a news report.
pub const NEWS_BELOW: u32 = 14260634;
/// 0.93: otherwise a weather report.
pub const WEATHER_BELOW: u32 = 15602811;
/// 0.97: otherwise a show; above it a station callout.
pub const SHOW_BELOW: u32 = 16273900;
/// 0.4: a song block has several songs.
pub const MULTI_SONG_BELOW: u32 = 6710887;
/// 0.55: a song block opens with a next-song callout.
pub const OPENING_CALLOUT_BELOW: u32 = 9227469;
/// 0.6: that callout is the plain one.
pub const PLAIN_CALLOUT_BELOW: u32 = 10066330;
/// 0.8: otherwise the detailed one; above it the history one.
pub const DETAILED_CALLOUT_BELOW: u32 = 13421773;
/// 0.1: a station callout between two songs of a block.
pub const INTERLUDE_BELOW: u32 = 1677722;
/// 0.25: a block closes with a last-song callout.
pub const CLOSING_CALLOUT_BELOW: u32 = 4194304;

/// The kind of the last spoken segment that must not repeat; songs and shows reset it.
#[derive(Debug, PartialEq, Eq, Structural, Clone, Copy)]
pub enum LastSegmentType {
    Cleared,
    RadioCallout,
    NewsReport,
    WeatherReport,
}

/// The random choices of one planning round.
#[derive(Debug, Clone, Copy)]
pub struct SegmentRolls {
    /// Which kind of round this is.
    pub kind: u32,
    /// Whether a song block has several songs.
    pub multi_song: u32,
    /// How many songs a multi-song block has (2 to 4).
    pub block_len: u32,
    /// Whether the block opens with a next-song callout.
    pub opening_callout: u32,
    /// Which next-song callout opens it.
    pub opening_callout_kind: u32,
    /// For each gap between songs of the block, whether a station callout fills it.
    pub interludes: [u32; 3],
    /// Whether the block closes with a last-song callout.
    pub closing_callout: u32,
}

impl SegmentRolls {
    pub open spec fn wf(&self) -> bool {
        &&& self.kind < ROLL_RANGE
        &&& self.multi_song < ROLL_RANGE
        &&& 2 <= self.block_len <= 4
        &&& self.opening_callout < ROLL_RANGE
        &&& self.opening_callout_kind < ROLL_RANGE
        &&& forall|j: int| 0 <= j < 3 ==> #[trigger] self.interludes@[j] < ROLL_RANGE
        &&& self.closing_callout < ROLL_RANGE
    }

    /// Number of songs the block of these rolls plays (at most).
    pub open spec fn songs_in_block(&self) -> nat {
        if self.multi_song < MULTI_SONG_BELOW {
            self.block_len as nat
        } else {
            1
        }
    }
}

/// The planner's state: the schedule so far, what remains of both pools, the
/// last song that played and the kind of the last spoken segment that must not repeat.
pub struct PlanState {
    pub segments: Seq<RadioSegment>,
    pub tracks: Seq<YoursFMTrack>,
    pub shows: Seq<YoursFMTrack>,
    pub last_song: Option<YoursFMTrack>,
    pub last_type: LastSegmentType,
}

/// Context for a callout about the song pool: the last song and the song up next.
pub open spec fn song_context(s: PlanState) -> CalloutContext {
    CalloutContext { last_song: s.last_song, next_song: pool_peek(s.tracks) }
}

pub open spec fn with_segment(s: PlanState, seg: RadioSegment) -> PlanState {
    PlanState { segments: s.segments.push(seg), ..s }
}

/// Play the next song of the pool, if any is left.
pub open spec fn play_next_song(s: PlanState) -> PlanState {
    if s.tracks.len() > 0 {
        let t = s.tracks.last();
        PlanState {
            segments: s.segments.push(RadioSegment::Song(t)),
            tracks: s.tracks.drop_last(),
            last_song: Some(t),
            last_type: LastSegmentType::Cleared,
            ..s
        }
    } else {
        s
    }
}

/// A station callout, unless the last spoken segment was one.
pub open spec fn add_station_callout(s: PlanState) -> PlanState {
    if s.last_type != LastSegmentType::RadioCallout {
        PlanState {
            last_type: LastSegmentType::RadioCallout,
            ..with_segment(s, RadioSegment::RadioCallout(song_context(s)))
        }
    } else {
        s
    }
}

/// The next-song callout a block opens with.
pub open spec fn opening_callout(kind: u32, c: CalloutContext) -> RadioSegment {
    if kind < PLAIN_CALLOUT_BELOW {
        RadioSegment::NextSongCallout(c)
    } else if kind < DETAILED_CALLOUT_BELOW {
        RadioSegment::NextSongCalloutDetailed(c)
    } else {
        RadioSegment::NextSongCalloutHistory(c)
    }
}

/// Song `j` of a block of `n`: play a song, then maybe a station callout in the gap.
pub open spec fn block_song(s: PlanState, j: nat, n: nat, r: SegmentRolls) -> PlanState {
    let s1 = play_next_song(s);
    if j + 1 < n && r.interludes@[j as int] < INTERLUDE_BELOW {
        add_station_callout(s1)
    } else {
        s1
    }
}

/// Songs `j..n` of a block, stopping once the schedule is full.
pub open spec fn block_songs(s: PlanState, j: nat, n: nat, r: SegmentRolls) -> PlanState
    decreases n - j,
{
    if j < n && s.segments.len() < TARGET_SEGMENTS {
        block_songs(block_song(s, j, n, r), j + 1, n, r)
    } else {
        s
    }
}

/// A last-song callout, always followed by a next-song callout while there is room.
pub open spec fn closing_callouts(s: PlanState) -> PlanState {
    let s1 = with_segment(s, RadioSegment::LastSongCallout(song_context(s)));
    if s1.segments.len() < TARGET_SEGMENTS {
        with_segment(s1, RadioSegment::NextSongCallout(song_context(s1)))
    } else {
        s1
    }
}

/// A song block: maybe an opening callout, the songs, maybe the closing callouts.
pub open spec fn song_block(s: PlanState, r: SegmentRolls) -> PlanState {
    let s1 = if r.opening_callout < OPENING_CALLOUT_BELOW {
        with_segment(s, opening_callout(r.opening_callout_kind, song_context(s)))
    } else {
        s
    };
    let s2 = block_songs(s1, 0, r.songs_in_block(), r);
    if r.closing_callout < CLOSING_CALLOUT_BELOW && s2.segments.len() < TARGET_SEGMENTS {
        closing_callouts(s2)
    } else {
        s2
    }
}

/// A news report, unless the last spoken segment was one.
pub open spec fn news_round(s: PlanState) -> PlanState {
    if s.last_type != LastSegmentType::NewsReport {
        PlanState {
            last_type: LastSegmentType::NewsReport,
            ..with_segment(s, RadioSegment::NewsReport(song_context(s)))
        }
    } else {
        s
    }
}

/// A weather report, unless the last spoken segment was one.
pub open spec fn weather_round(s: PlanState) -> PlanState {
    if s.last_type != LastSegmentType::WeatherReport {
        PlanState {
            last_type: LastSegmentType::WeatherReport,
            ..with_segment(s, RadioSegment::WeatherReport(song_context(s)))
        }
    } else {
        s
    }
}

/// A show: its introduction, then (room and pool permitting) the show and its close.
pub open spec fn show_round(s: PlanState) -> PlanState {
    let intro = CalloutContext { last_song: s.last_song, next_song: pool_peek(s.shows) };
    let s1 = with_segment(s, RadioSegment::ShowIntroduction(intro));
    if s1.segments.len() < TARGET_SEGMENTS && s1.shows.len() > 0 {
        let s2 = PlanState {
            segments: s1.segments.push(RadioSegment::Show(s1.shows.last())),
            shows: s1.shows.drop_last(),
            ..s1
        };
        let s3 = if s2.segments.len() < TARGET_SEGMENTS {
            with_segment(s2, RadioSegment::ShowClose(song_context(s2)))
        } else {
            s2
        };
        PlanState { last_type: LastSegmentType::Cleared, ..s3 }
    } else {
        s1
    }
}

/// One planning round.
pub open spec fn plan_step(s: PlanState, r: SegmentRolls) -> PlanState {
    if r.kind < SONG_BLOCK_BELOW {
        song_block(s, r)
    } else if r.kind < NEWS_BELOW {
        news_round(s)
    } else if r.kind < WEATHER_BELOW {
        weather_round(s)
    } else if r.kind < SHOW_BELOW {
        show_round(s)
    } else {
        add_station_callout(s)
    }
}

} // verus!

verus! {

/// Builds a schedule round by round from two pools, taking tracks from their backs.
pub struct SegmentPlanner {
    segments: Vec<RadioSegment>,
    tracks: Vec<YoursFMTrack>,
    shows: Vec<YoursFMTrack>,
    last_song: Option<YoursFMTrack>,
    last_type: LastSegmentType,
    initial_tracks: Ghost<Seq<YoursFMTrack>>,
    initial_shows: Ghost<Seq<YoursFMTrack>>,
}

impl View for SegmentPlanner {
    type V = PlanState;

    closed spec fn view(&self) -> PlanState {
        PlanState {
            segments: self.segments@,
            tracks: self.tracks@,
            shows: self.shows@,
            last_song: self.last_song,
            last_type: self.last_type,
        }
    }
}

impl SegmentPlanner {
    /// The song pool the planner started from.
    pub closed spec fn initial_tracks(&self) -> Seq<YoursFMTrack> {
        self.initial_tracks@
    }

    /// The show pool the planner started from.
    pub closed spec fn initial_shows(&self) -> Seq<YoursFMTrack> {
        self.initial_shows@
    }

    /// A planner with an empty schedule over the given pools.
    pub fn new(track_pool: Vec<YoursFMTrack>, show_pool: Vec<YoursFMTrack>) -> (p: Self)
        ensures
            p@ == (PlanState {
                segments: Seq::empty(),
                tracks: track_pool@,
                shows: show_pool@,
                last_song: None,
                last_type: LastSegmentType::Cleared,
            }),
            p.initial_tracks() == track_pool@,
            p.initial_shows() == show_pool@,
            p.wf(),
    {
        let ghost t = track_pool@;
        let ghost s = show_pool@;
        let p = SegmentPlanner {
            segments: Vec::new(),
            tracks: track_pool,
            shows: show_pool,
            last_song: None,
            last_type: LastSegmentType::Cleared,
            initial_tracks: Ghost(t),
            initial_shows: Ghost(s),
        };
        proof {
            assert(played(p@.segments, false).reverse() =~= Seq::<YoursFMTrack>::empty());
            assert(played(p@.segments, true).reverse() =~= Seq::<YoursFMTrack>::empty());
            assert(t + Seq::<YoursFMTrack>::empty() =~= t);
            assert(s + Seq::<YoursFMTrack>::empty() =~= s);
        }
        p
    }

    /// The planner keeps the plan invariant for the pools it started from.
    pub open spec fn wf(&self) -> bool {
        plan_invariant(self@, self.initial_tracks(), self.initial_shows())
    }

    /// Whether the schedule has reached its target length.
    pub fn is_complete(&self) -> (done: bool)
        ensures
            done == (self@.segments.len() >= TARGET_SEGMENTS),
    {
        self.segments.len() >= TARGET_SEGMENTS
    }

    /// The schedule and what is left of both pools.
    pub fn into_parts(self) -> (parts: (Vec<RadioSegment>, Vec<YoursFMTrack>, Vec<YoursFMTrack>))
        ensures
            parts.0@ == self@.segments,
            parts.1@ == self@.tracks,
            parts.2@ == self@.shows,
    {
        (self.segments, self.tracks, self.shows)
    }

    fn song_context(&self) -> (c: CalloutContext)
        ensures
            c == song_context(self@),
    {
        CalloutContext { last_song: clone_optional_track(&self.last_song), next_song: peek_next_song(&self.tracks) }
    }

    fn push_segment(&mut self, seg: RadioSegment)
        ensures
            final(self)@ == with_segment(old(self)@, seg),
            final(self).initial_tracks() == old(self).initial_tracks(),
            final(self).initial_shows() == old(self).initial_shows(),
    {
        self.segments.push(seg);
    }

    fn play_next_song(&mut self)
        ensures
            final(self)@ == play_next_song(old(self)@),
            final(self).initial_tracks() == old(self).initial_tracks(),
            final(self).initial_shows() == old(self).initial_shows(),
    {
        if let Some(track) = self.tracks.pop() {
            self.segments.push(RadioSegment::Song(track.clone()));
            self.last_song = Some(track);
            self.last_type = LastSegmentType::Cleared;
        }
    }

    fn add_station_callout(&mut self)
        ensures
            final(self)@ == add_station_callout(old(self)@),
            final(self).initial_tracks() == old(self).initial_tracks(),
            final(self).initial_shows() == old(self).initial_shows(),
    {
        if self.last_type != LastSegmentType::RadioCallout {
            let c = self.song_context();
            self.segments.push(RadioSegment::RadioCallout(c));
            self.last_type = LastSegmentType::RadioCallout;
        }
    }

    fn block_songs(&mut self, n: u32, rolls: &SegmentRolls)
        requires
            n <= 4,
        ensures
            final(self)@ == block_songs(old(self)@, 0, n as nat, *rolls),
            final(self).initial_tracks() == old(self).initial_tracks(),
            final(self).initial_shows() == old(self).initial_shows(),
    {
        let ghost start = self@;
        let mut j: u32 = 0;
        while j < n && self.segments.len() < TARGET_SEGMENTS
            invariant
                j <= n <= 4,
                block_songs(self@, j as nat, n as nat, *rolls) == block_songs(start, 0, n as nat, *rolls),
                self.initial_tracks() == old(self).initial_tracks(),
                self.initial_shows() == old(self).initial_shows(),
            decreases n - j,
        {
            self.play_next_song();
            if j + 1 < n && rolls.interludes[j as usize] < INTERLUDE_BELOW {
                self.add_station_callout();
            }
            j = j + 1;
        }
    }

    fn song_block(&mut self, rolls: &SegmentRolls)
        requires
            rolls.wf(),
        ensures
            final(self)@ == song_block(old(self)@, *rolls),
            final(self).initial_tracks() == old(self).initial_tracks(),
            final(self).initial_shows() == old(self).initial_shows(),
    {
        let n: u32 = if rolls.multi_song < MULTI_SONG_BELOW { rolls.block_len } else { 1 };
        if rolls.opening_callout < OPENING_CALLOUT_BELOW {
            let c = self.song_context();
            let seg = if rolls.opening_callout_kind < PLAIN_CALLOUT_BELOW {
                RadioSegment::NextSongCallout(c)
            } else if rolls.opening_callout_kind < DETAILED_CALLOUT_BELOW {
                RadioSegment::NextSongCalloutDetailed(c)
            } else {
                RadioSegment::NextSongCalloutHistory(c)
            };
            self.push_segment(seg);
        }
        self.block_songs(n, rolls);
        if rolls.closing_callout < CLOSING_CALLOUT_BELOW && self.segments.len() < TARGET_SEGMENTS {
            let c = self.song_context();
            self.push_segment(RadioSegment::LastSongCallout(c));
            if self.segments.len() < TARGET_SEGMENTS {
                let c2 = self.song_context();
                self.push_segment(RadioSegment::NextSongCallout(c2));
            }
        }
    }

    fn news_round(&mut self)
        ensures
            final(self)@ == news_round(old(self)@),
            final(self).initial_tracks() == old(self).initial_tracks(),
            final(self).initial_shows() == old(self).initial_shows(),
    {
        if self.last_type != LastSegmentType::NewsReport {
            let c = self.song_context();
            self.segments.push(RadioSegment::NewsReport(c));
            self.last_type = LastSegmentType::NewsReport;
        }
    }

    fn weather_round(&mut self)
        ensures
            final(self)@ == weather_round(old(self)@),
            final(self).initial_tracks() == old(self).initial_tracks(),
            final(self).initial_shows() == old(self).initial_shows(),
    {
        if self.last_type != LastSegmentType::WeatherReport {
            let c = self.song_context();
            self.segments.push(RadioSegment::WeatherReport(c));
            self.last_type = LastSegmentType::WeatherReport;
        }
    }

    fn show_round(&mut self)
        ensures
            final(self)@ == show_round(old(self)@),
            final(self).initial_tracks() == old(self).initial_tracks(),
            final(self).initial_shows() == old(self).initial_shows(),
    {
        let intro = CalloutContext {
            last_song: clone_optional_track(&self.last_song),
            next_song: peek_next_song(&self.shows),
        };
        self.segments.push(RadioSegment::ShowIntroduction(intro));
        if self.segments.len() < TARGET_SEGMENTS {
            if let Some(show) = self.shows.pop() {
                self.segments.push(RadioSegment::Show(show));
                if self.segments.len() < TARGET_SEGMENTS {
                    let c = self.song_context();
                    self.segments.push(RadioSegment::ShowClose(c));
                }
                self.last_type = LastSegmentType::Cleared;
            }
        }
    }

    /// One planning round, as the rolls decide.
    pub fn step(&mut self, rolls: &SegmentRolls)
        requires
            rolls.wf(),
            old(self).wf(),
            old(self)@.segments.len() < TARGET_SEGMENTS,
        ensures
            final(self)@ == plan_step(old(self)@, *rolls),
            final(self).initial_tracks() == old(self).initial_tracks(),
            final(self).initial_shows() == old(self).initial_shows(),
            final(self).wf(),
    {
        proof {
            lemma_plan_step(self@, *rolls, self.initial_tracks(), self.initial_shows());
        }
        if rolls.kind < SONG_BLOCK_BELOW {
            self.song_block(rolls);
        } else if rolls.kind < NEWS_BELOW {
            self.news_round();
        } else if rolls.kind < WEATHER_BELOW {
            self.weather_round();
        } else if rolls.kind < SHOW_BELOW {
            self.show_round();
        } else {
            self.add_station_callout();
        }
    }
}

} // verus!

verus! {

/// The song that played last before position `k` of the schedule.
pub open spec fn previous_song(segs: Seq<RadioSegment>, k: int) -> Option<YoursFMTrack>
    decreases k,
{
    if k <= 0 {
        None
    } else if segment_track(segs[k - 1], false) is Some {
        segment_track(segs[k - 1], false)
    } else {
        previous_song(segs, k - 1)
    }
}

/// The track (a song, or a show when `shows`) that plays first from position
/// `i` on; when none is scheduled, the one the pool would give next.
pub open spec fn upcoming_track(segs: Seq<RadioSegment>, i: int, pool: Seq<YoursFMTrack>, shows: bool) -> Option<YoursFMTrack>
    decreases segs.len() - i,
{
    if i >= segs.len() {
        pool_peek(pool)
    } else if segment_track(segs[i], shows) is Some {
        segment_track(segs[i], shows)
    } else {
        upcoming_track(segs, i + 1, pool, shows)
    }
}

/// The tracks (songs, or shows when `shows`) the schedule plays, in order.
pub open spec fn played(segs: Seq<RadioSegment>, shows: bool) -> Seq<YoursFMTrack>
    decreases segs.len(),
{
    if segs.len() == 0 {
        Seq::empty()
    } else {
        let rest = played(segs.drop_last(), shows);
        match segment_track(segs.last(), shows) {
            Some(t) => rest.push(t),
            None => rest,
        }
    }
}

/// Every spoken segment names the song that last played and, for a show
/// introduction, the show that follows, otherwise the song that follows.
pub open spec fn contexts_accurate(s: PlanState) -> bool {
    forall|k: int|
        0 <= k < s.segments.len() && (#[trigger] segment_context(s.segments[k])) is Some ==> {
            let c = segment_context(s.segments[k])->0;
            let intro = s.segments[k] is ShowIntroduction;
            &&& c.last_song == previous_song(s.segments, k)
            &&& c.next_song == upcoming_track(s.segments, k + 1, if intro { s.shows } else { s.tracks }, intro)
        }
}

/// Both pools lose exactly what was played, from their backs.
pub open spec fn pools_conserved(s: PlanState, initial_tracks: Seq<YoursFMTrack>, initial_shows: Seq<YoursFMTrack>) -> bool {
    &&& initial_tracks == s.tracks + played(s.segments, false).reverse()
    &&& initial_shows == s.shows + played(s.segments, true).reverse()
}

/// Two adjacent segments of the same kind that must not repeat.
pub open spec fn repeats(a: RadioSegment, b: RadioSegment) -> bool {
    ||| (a is NewsReport && b is NewsReport)
    ||| (a is WeatherReport && b is WeatherReport)
    ||| (a is RadioCallout && b is RadioCallout)
}

pub open spec fn no_repeats(segs: Seq<RadioSegment>) -> bool {
    forall|k: int| 0 <= k && k + 1 < segs.len() ==> !repeats(#[trigger] segs[k], segs[k + 1])
}

/// The repeat guard remembers the kind of a last segment that must not repeat,
/// and is cleared once a song or a show has played.
pub open spec fn guard_matches(s: PlanState) -> bool {
    s.segments.len() > 0 ==> match s.segments.last() {
        RadioSegment::NewsReport(_) => s.last_type == LastSegmentType::NewsReport,
        RadioSegment::WeatherReport(_) => s.last_type == LastSegmentType::WeatherReport,
        RadioSegment::RadioCallout(_) => s.last_type == LastSegmentType::RadioCallout,
        RadioSegment::Song(_) | RadioSegment::Show(_) => s.last_type == LastSegmentType::Cleared,
        _ => true,
    }
}

/// A last-song callout is always followed by a next-song callout.
pub open spec fn closings_paired(segs: Seq<RadioSegment>) -> bool {
    forall|k: int| 0 <= k && k + 1 < segs.len() && (#[trigger] segs[k]) is LastSongCallout ==> segs[k + 1] is NextSongCallout
}

/// A show is always introduced, and always followed by its close.
pub open spec fn shows_framed(segs: Seq<RadioSegment>) -> bool {
    forall|k: int| 0 <= k < segs.len() && (#[trigger] segs[k]) is Show ==> {
        &&& 1 <= k
        &&& segs[k - 1] is ShowIntroduction
        &&& k + 1 < segs.len() ==> segs[k + 1] is ShowClose
    }
}

/// The schedule does not end in a segment that still owes its follower.
pub open spec fn closed_tail(segs: Seq<RadioSegment>) -> bool {
    segs.len() > 0 ==> !(segs.last() is LastSongCallout) && !(segs.last() is Show)
}

/// What holds of the planner after every round, for the pools it started from.
pub open spec fn plan_invariant(s: PlanState, initial_tracks: Seq<YoursFMTrack>, initial_shows: Seq<YoursFMTrack>) -> bool {
    &&& s.last_song == previous_song(s.segments, s.segments.len() as int)
    &&& contexts_accurate(s)
    &&& pools_conserved(s, initial_tracks, initial_shows)
    &&& guard_matches(s)
    &&& no_repeats(s.segments)
    &&& closings_paired(s.segments)
    &&& shows_framed(s.segments)
    &&& s.segments.len() <= TARGET_SEGMENTS + 1
    &&& !closed_tail(s.segments) ==> s.segments.len() >= TARGET_SEGMENTS
}

} // verus!

verus! {

/// The pool a kind of track comes from.
pub open spec fn pool_of(s: PlanState, shows: bool) -> Seq<YoursFMTrack> {
    if shows { s.shows } else { s.tracks }
}

/// `s2` is `s` with the segment `x` appended: a played track leaves the back of
/// its pool, a spoken segment carries the context of `s`.
pub open spec fn appends(s: PlanState, x: RadioSegment, s2: PlanState) -> bool {
    &&& s2.segments == s.segments.push(x)
    &&& forall|b: bool| #[trigger] pool_of(s2, b) == match segment_track(x, b) {
        Some(t) => pool_of(s, b).drop_last(),
        None => pool_of(s, b),
    }
    &&& forall|b: bool| #[trigger] segment_track(x, b) matches Some(t) ==> pool_of(s, b).len() > 0 && t == pool_of(s, b).last()
    &&& s2.last_song == match segment_track(x, false) {
        Some(t) => Some(t),
        None => s.last_song,
    }
    &&& segment_context(x) matches Some(c) ==> {
        &&& c.last_song == s.last_song
        &&& c.next_song == pool_peek(pool_of(s, x is ShowIntroduction))
    }
}

/// The facts about contexts and pools that every appended segment keeps.
pub open spec fn core_invariant(s: PlanState, initial_tracks: Seq<YoursFMTrack>, initial_shows: Seq<YoursFMTrack>) -> bool {
    &&& s.last_song == previous_song(s.segments, s.segments.len() as int)
    &&& contexts_accurate(s)
    &&& pools_conserved(s, initial_tracks, initial_shows)
}

proof fn lemma_previous_prefix(segs: Seq<RadioSegment>, x: RadioSegment, k: int)
    requires
        0 <= k <= segs.len(),
    ensures
        previous_song(segs.push(x), k) == previous_song(segs, k),
    decreases k,
{
    if k > 0 {
        lemma_previous_prefix(segs, x, k - 1);
    }
}

proof fn lemma_upcoming_append(s: PlanState, x: RadioSegment, s2: PlanState, i: int, b: bool)
    requires
        appends(s, x, s2),
        0 <= i <= s.segments.len(),
    ensures
        upcoming_track(s2.segments, i, pool_of(s2, b), b) == upcoming_track(s.segments, i, pool_of(s, b), b),
    decreases s.segments.len() - i,
{
    let p = pool_of(s, b);
    let p2 = pool_of(s2, b);
    assert(p2 == match segment_track(x, b) { Some(t) => p.drop_last(), None => p });
    if i == s.segments.len() {
        assert(s2.segments[i] == x);
        if segment_track(x, b) is None {
            assert(upcoming_track(s2.segments, i + 1, p2, b) == pool_peek(p2));
        }
    } else {
        assert(s2.segments[i] == s.segments[i]);
        lemma_upcoming_append(s, x, s2, i + 1, b);
    }
}

proof fn lemma_played_push(segs: Seq<RadioSegment>, x: RadioSegment, b: bool)
    ensures
        played(segs.push(x), b) == match segment_track(x, b) {
            Some(t) => played(segs, b).push(t),
            None => played(segs, b),
        },
{
    assert(segs.push(x).drop_last() =~= segs);
}

proof fn lemma_pool_after_append(s: PlanState, x: RadioSegment, s2: PlanState, initial: Seq<YoursFMTrack>, b: bool)
    requires
        appends(s, x, s2),
        initial == pool_of(s, b) + played(s.segments, b).reverse(),
    ensures
        initial == pool_of(s2, b) + played(s2.segments, b).reverse(),
{
    lemma_played_push(s.segments, x, b);
    let p = pool_of(s, b);
    let p2 = pool_of(s2, b);
    assert(p2 == match segment_track(x, b) { Some(t) => p.drop_last(), None => p });
    match segment_track(x, b) {
        Some(t) => {
            assert(segment_track(x, b) matches Some(t) ==> p.len() > 0 && t == p.last());
            let r = played(s.segments, b);
            assert(r.push(t).reverse() =~= seq![t] + r.reverse());
            assert(p2 + r.push(t).reverse() =~= p + r.reverse());
        },
        None => {},
    }
}

/// Appending a segment as the planner does keeps the core invariant.
proof fn lemma_core_append(s: PlanState, x: RadioSegment, s2: PlanState, initial_tracks: Seq<YoursFMTrack>, initial_shows: Seq<YoursFMTrack>)
    requires
        core_invariant(s, initial_tracks, initial_shows),
        appends(s, x, s2),
    ensures
        core_invariant(s2, initial_tracks, initial_shows),
{
    let n = s.segments.len() as int;
    assert(pool_of(s, false) == s.tracks && pool_of(s, true) == s.shows);
    assert(pool_of(s2, false) == s2.tracks && pool_of(s2, true) == s2.shows);
    lemma_pool_after_append(s, x, s2, initial_tracks, false);
    lemma_pool_after_append(s, x, s2, initial_shows, true);
    lemma_previous_prefix(s.segments, x, n);
    assert(s2.segments[n] == x);
    assert forall|k: int|
        0 <= k < s2.segments.len() && (#[trigger] segment_context(s2.segments[k])) is Some implies {
            let c = segment_context(s2.segments[k])->0;
            let intro = s2.segments[k] is ShowIntroduction;
            &&& c.last_song == previous_song(s2.segments, k)
            &&& c.next_song == upcoming_track(s2.segments, k + 1, if intro { s2.shows } else { s2.tracks }, intro)
        } by {
        let intro = s2.segments[k] is ShowIntroduction;
        lemma_previous_prefix(s.segments, x, k);
        if k < n {
            assert(s2.segments[k] == s.segments[k]);
            lemma_upcoming_append(s, x, s2, k + 1, intro);
        } else {
            assert(k == n);
            assert(segment_track(x, intro) is None);
            assert(pool_of(s2, intro) == pool_of(s, intro));
        }
    }
}

} // verus!

verus! {

/// Everything of the plan invariant but the bounds on the length.
pub open spec fn shape_invariant(s: PlanState, initial_tracks: Seq<YoursFMTrack>, initial_shows: Seq<YoursFMTrack>) -> bool {
    &&& core_invariant(s, initial_tracks, initial_shows)
    &&& guard_matches(s)
    &&& no_repeats(s.segments)
    &&& closings_paired(s.segments)
    &&& shows_framed(s.segments)
}

/// Appending `x` keeps the shape of the schedule when `x` may follow the last segment.
proof fn lemma_shape_append(s: PlanState, x: RadioSegment, s2: PlanState, it: Seq<YoursFMTrack>, is: Seq<YoursFMTrack>)
    requires
        shape_invariant(s, it, is),
        appends(s, x, s2),
        guard_matches(s2),
        s.segments.len() > 0 ==> !repeats(s.segments.last(), x),
        s.segments.len() > 0 && s.segments.last() is LastSongCallout ==> x is NextSongCallout,
        s.segments.len() > 0 && s.segments.last() is Show ==> x is ShowClose,
        x is Show ==> s.segments.len() > 0 && s.segments.last() is ShowIntroduction,
    ensures
        shape_invariant(s2, it, is),
{
    lemma_core_append(s, x, s2, it, is);
    let segs = s.segments;
    let n = segs.len() as int;
    let segs2 = s2.segments;
    assert(segs2[n] == x);
    assert forall|k: int| 0 <= k && k + 1 < segs2.len() implies !repeats(#[trigger] segs2[k], segs2[k + 1]) by {
        if k + 1 < n {
            assert(segs2[k] == segs[k] && segs2[k + 1] == segs[k + 1]);
        } else {
            assert(segs2[k] == segs.last());
        }
    }
    assert forall|k: int| 0 <= k && k + 1 < segs2.len() && (#[trigger] segs2[k]) is LastSongCallout implies segs2[k + 1] is NextSongCallout by {
        if k + 1 < n {
            assert(segs2[k] == segs[k] && segs2[k + 1] == segs[k + 1]);
        } else {
            assert(segs2[k] == segs.last());
        }
    }
    assert forall|k: int| 0 <= k < segs2.len() && (#[trigger] segs2[k]) is Show implies {
        &&& 1 <= k
        &&& segs2[k - 1] is ShowIntroduction
        &&& k + 1 < segs2.len() ==> segs2[k + 1] is ShowClose
    } by {
        if k < n {
            assert(segs2[k] == segs[k]);
            assert(segs2[k - 1] == segs[k - 1]);
            if k + 1 < n {
                assert(segs2[k + 1] == segs[k + 1]);
            } else if k + 1 == n + 1 {
                assert(segs[k] == segs.last());
            }
        } else {
            assert(segs2[k - 1] == segs.last());
        }
    }
}

proof fn lemma_appends_spoken(s: PlanState, x: RadioSegment, s2: PlanState)
    requires
        s2.segments == s.segments.push(x),
        s2.tracks == s.tracks,
        s2.shows == s.shows,
        s2.last_song == s.last_song,
        segment_context(x) matches Some(c) && c.last_song == s.last_song
            && c.next_song == pool_peek(pool_of(s, x is ShowIntroduction)),
    ensures
        appends(s, x, s2),
{
    assert forall|b: bool| #[trigger] pool_of(s2, b) == match segment_track(x, b) {
        Some(t) => pool_of(s, b).drop_last(),
        None => pool_of(s, b),
    } by {}
    assert forall|b: bool| #[trigger] segment_track(x, b) matches Some(t) ==> pool_of(s, b).len() > 0 && t == pool_of(s, b).last() by {}
}

proof fn lemma_station_callout(s: PlanState, it: Seq<YoursFMTrack>, is: Seq<YoursFMTrack>)
    requires
        shape_invariant(s, it, is),
        closed_tail(s.segments),
    ensures
        shape_invariant(add_station_callout(s), it, is),
        closed_tail(add_station_callout(s).segments),
        add_station_callout(s).segments.len() <= s.segments.len() + 1,
{
    if s.last_type != LastSegmentType::RadioCallout {
        let x = RadioSegment::RadioCallout(song_context(s));
        let s2 = add_station_callout(s);
        lemma_appends_spoken(s, x, s2);
        lemma_shape_append(s, x, s2, it, is);
    }
}

proof fn lemma_play_next_song(s: PlanState, it: Seq<YoursFMTrack>, is: Seq<YoursFMTrack>)
    requires
        shape_invariant(s, it, is),
        closed_tail(s.segments),
    ensures
        shape_invariant(play_next_song(s), it, is),
        closed_tail(play_next_song(s).segments),
        play_next_song(s).segments.len() <= s.segments.len() + 1,
{
    if s.tracks.len() > 0 {
        let t = s.tracks.last();
        let x = RadioSegment::Song(t);
        let s2 = play_next_song(s);
        assert forall|b: bool| #[trigger] pool_of(s2, b) == match segment_track(x, b) {
            Some(t) => pool_of(s, b).drop_last(),
            None => pool_of(s, b),
        } by {}
        assert forall|b: bool| #[trigger] segment_track(x, b) matches Some(t) ==> pool_of(s, b).len() > 0 && t == pool_of(s, b).last() by {}
        lemma_shape_append(s, x, s2, it, is);
    }
}

proof fn lemma_block_songs(s: PlanState, j: nat, n: nat, r: SegmentRolls, it: Seq<YoursFMTrack>, is: Seq<YoursFMTrack>)
    requires
        shape_invariant(s, it, is),
        closed_tail(s.segments),
        s.segments.len() <= TARGET_SEGMENTS + 1,
    ensures
        shape_invariant(block_songs(s, j, n, r), it, is),
        closed_tail(block_songs(s, j, n, r).segments),
        block_songs(s, j, n, r).segments.len() <= TARGET_SEGMENTS + 1,
    decreases n - j,
{
    if j < n && s.segments.len() < TARGET_SEGMENTS {
        let s1 = play_next_song(s);
        lemma_play_next_song(s, it, is);
        lemma_station_callout(s1, it, is);
        lemma_block_songs(block_song(s, j, n, r), j + 1, n, r, it, is);
    }
}

} // verus!

verus! {

proof fn lemma_song_block(s: PlanState, r: SegmentRolls, it: Seq<YoursFMTrack>, is: Seq<YoursFMTrack>)
    requires
        shape_invariant(s, it, is),
        closed_tail(s.segments),
        s.segments.len() < TARGET_SEGMENTS,
    ensures
        plan_invariant(song_block(s, r), it, is),
{
    let s1 = if r.opening_callout < OPENING_CALLOUT_BELOW {
        with_segment(s, opening_callout(r.opening_callout_kind, song_context(s)))
    } else {
        s
    };
    if r.opening_callout < OPENING_CALLOUT_BELOW {
        let x = opening_callout(r.opening_callout_kind, song_context(s));
        lemma_appends_spoken(s, x, s1);
        lemma_shape_append(s, x, s1, it, is);
    }
    let s2 = block_songs(s1, 0, r.songs_in_block(), r);
    lemma_block_songs(s1, 0, r.songs_in_block(), r, it, is);
    if r.closing_callout < CLOSING_CALLOUT_BELOW && s2.segments.len() < TARGET_SEGMENTS {
        let x = RadioSegment::LastSongCallout(song_context(s2));
        let s3 = with_segment(s2, x);
        lemma_appends_spoken(s2, x, s3);
        lemma_shape_append(s2, x, s3, it, is);
        if s3.segments.len() < TARGET_SEGMENTS {
            let y = RadioSegment::NextSongCallout(song_context(s3));
            let s4 = with_segment(s3, y);
            lemma_appends_spoken(s3, y, s4);
            lemma_shape_append(s3, y, s4, it, is);
        }
    }
}

proof fn lemma_news_round(s: PlanState, it: Seq<YoursFMTrack>, is: Seq<YoursFMTrack>)
    requires
        shape_invariant(s, it, is),
        closed_tail(s.segments),
        s.segments.len() < TARGET_SEGMENTS,
    ensures
        plan_invariant(news_round(s), it, is),
{
    if s.last_type != LastSegmentType::NewsReport {
        let x = RadioSegment::NewsReport(song_context(s));
        lemma_appends_spoken(s, x, news_round(s));
        lemma_shape_append(s, x, news_round(s), it, is);
    }
}

proof fn lemma_weather_round(s: PlanState, it: Seq<YoursFMTrack>, is: Seq<YoursFMTrack>)
    requires
        shape_invariant(s, it, is),
        closed_tail(s.segments),
        s.segments.len() < TARGET_SEGMENTS,
    ensures
        plan_invariant(weather_round(s), it, is),
{
    if s.last_type != LastSegmentType::WeatherReport {
        let x = RadioSegment::WeatherReport(song_context(s));
        lemma_appends_spoken(s, x, weather_round(s));
        lemma_shape_append(s, x, weather_round(s), it, is);
    }
}

proof fn lemma_show_round(s: PlanState, it: Seq<YoursFMTrack>, is: Seq<YoursFMTrack>)
    requires
        shape_invariant(s, it, is),
        closed_tail(s.segments),
        s.segments.len() < TARGET_SEGMENTS,
    ensures
        plan_invariant(show_round(s), it, is),
{
    let intro = CalloutContext { last_song: s.last_song, next_song: pool_peek(s.shows) };
    let x = RadioSegment::ShowIntroduction(intro);
    let s1 = with_segment(s, x);
    lemma_appends_spoken(s, x, s1);
    lemma_shape_append(s, x, s1, it, is);
    if s1.segments.len() < TARGET_SEGMENTS && s1.shows.len() > 0 {
        let y = RadioSegment::Show(s1.shows.last());
        let s2 = PlanState {
            segments: s1.segments.push(y),
            shows: s1.shows.drop_last(),
            last_type: LastSegmentType::Cleared,
            ..s1
        };
        assert forall|b: bool| #[trigger] pool_of(s2, b) == match segment_track(y, b) {
            Some(t) => pool_of(s1, b).drop_last(),
            None => pool_of(s1, b),
        } by {}
        assert forall|b: bool| #[trigger] segment_track(y, b) matches Some(t) ==> pool_of(s1, b).len() > 0 && t == pool_of(s1, b).last() by {}
        assert(s1.segments.last() == x);
        lemma_shape_append(s1, y, s2, it, is);
        if s2.segments.len() < TARGET_SEGMENTS {
            let z = RadioSegment::ShowClose(song_context(s2));
            let s3 = with_segment(s2, z);
            lemma_appends_spoken(s2, z, s3);
            lemma_shape_append(s2, z, s3, it, is);
        }
    }
}

/// Every planning round keeps the plan invariant.
pub proof fn lemma_plan_step(s: PlanState, r: SegmentRolls, initial_tracks: Seq<YoursFMTrack>, initial_shows: Seq<YoursFMTrack>)
    requires
        plan_invariant(s, initial_tracks, initial_shows),
        s.segments.len() < TARGET_SEGMENTS,
    ensures
        plan_invariant(plan_step(s, r), initial_tracks, initial_shows),
{
    let it = initial_tracks;
    let is = initial_shows;
    if r.kind < SONG_BLOCK_BELOW {
        lemma_song_block(s, r, it, is);
    } else if r.kind < NEWS_BELOW {
        lemma_news_round(s, it, is);
    } else if r.kind < WEATHER_BELOW {
        lemma_weather_round(s, it, is);
    } else if r.kind < SHOW_BELOW {
        lemma_show_round(s, it, is);
    } else {
        lemma_station_callout(s, it, is);
    }
}

} // verus!

verus! {

/// Songs leave the song pool from its back, one per `Song` segment, and shows
/// likewise leave the show pool: the starting pool is what remains followed by
/// what was played, in reverse order of play.
pub proof fn lemma_pools_consumed_from_back(p: SegmentPlanner)
    requires
        p.wf(),
    ensures
        p.initial_tracks() == p@.tracks + played(p@.segments, false).reverse(),
        p.initial_shows() == p@.shows + played(p@.segments, true).reverse(),
{
}

/// No news report, weather report or station callout directly follows one of its own kind.
pub proof fn lemma_no_back_to_back_repeats(p: SegmentPlanner)
    requires
        p.wf(),
    ensures
        forall|k: int| 0 <= k && k + 1 < p@.segments.len() ==> !repeats(#[trigger] p@.segments[k], p@.segments[k + 1]),
{
}

/// A last-song callout is always followed by a next-song callout, unless it
/// ends a full schedule.
pub proof fn lemma_last_song_callout_then_next(p: SegmentPlanner)
    requires
        p.wf(),
    ensures
        forall|k: int| 0 <= k < p@.segments.len() && (#[trigger] p@.segments[k]) is LastSongCallout ==>
            if k + 1 < p@.segments.len() {
                p@.segments[k + 1] is NextSongCallout
            } else {
                p@.segments.len() >= TARGET_SEGMENTS
            },
{
}

/// A show is always preceded by its introduction and followed by its close,
/// unless it ends a full schedule.
pub proof fn lemma_shows_introduced_and_closed(p: SegmentPlanner)
    requires
        p.wf(),
    ensures
        forall|k: int| 0 <= k < p@.segments.len() && (#[trigger] p@.segments[k]) is Show ==> {
            &&& 1 <= k
            &&& p@.segments[k - 1] is ShowIntroduction
            &&& if k + 1 < p@.segments.len() {
                p@.segments[k + 1] is ShowClose
            } else {
                p@.segments.len() >= TARGET_SEGMENTS
            }
        },
{
    assert forall|k: int|
        0 <= k < p@.segments.len() && (#[trigger] p@.segments[k]) is Show && k + 1 >= p@.segments.len()
        implies p@.segments.len() >= TARGET_SEGMENTS by {
        assert(p@.segments.last() == p@.segments[k]);
    }
}

/// What a spoken segment says is true of the schedule: its last song is the
/// song played last before it, its next song is the song played next after it
/// (for a show introduction, the show played next), or, when none is scheduled
/// yet, the one its pool holds ready.
pub proof fn lemma_callout_contexts_accurate(p: SegmentPlanner)
    requires
        p.wf(),
    ensures
        contexts_accurate(p@),
        p@.last_song == previous_song(p@.segments, p@.segments.len() as int),
{
}

/// A schedule never grows past one segment over its target, so a complete
/// one (see `is_complete`) holds the target or one more.
pub proof fn lemma_schedule_length(p: SegmentPlanner)
    requires
        p.wf(),
    ensures
        p@.segments.len() <= TARGET_SEGMENTS + 1,
{
}

/// A song, or a show, clears the repeat guard: whatever spoken segment
/// preceded it, any kind of spoken segment may follow it.
pub proof fn lemma_song_clears_repeat_guard(p: SegmentPlanner)
    requires
        p.wf(),
    ensures
        p@.segments.len() > 0 && (p@.segments.last() is Song || p@.segments.last() is Show)
            ==> p@.last_type == LastSegmentType::Cleared,
{
}

/// A news, weather or station-callout round right after a song always
/// appends its segment, carrying the song context of that moment.
pub proof fn lemma_spoken_round_follows_song(
    s: PlanState,
    r: SegmentRolls,
    initial_tracks: Seq<YoursFMTrack>,
    initial_shows: Seq<YoursFMTrack>,
)
    requires
        plan_invariant(s, initial_tracks, initial_shows),
        s.segments.len() > 0,
        s.segments.last() is Song,
    ensures
        SONG_BLOCK_BELOW <= r.kind < NEWS_BELOW ==> plan_step(s, r).segments == s.segments.push(
            RadioSegment::NewsReport(CalloutContext { last_song: s.last_song, next_song: pool_peek(s.tracks) }),
        ),
        NEWS_BELOW <= r.kind < WEATHER_BELOW ==> plan_step(s, r).segments == s.segments.push(
            RadioSegment::WeatherReport(CalloutContext { last_song: s.last_song, next_song: pool_peek(s.tracks) }),
        ),
        SHOW_BELOW <= r.kind ==> plan_step(s, r).segments == s.segments.push(
            RadioSegment::RadioCallout(CalloutContext { last_song: s.last_song, next_song: pool_peek(s.tracks) }),
        ),
{
}

/// Each gap of a song block reads its own roll: song `j` of a block of `n`
/// takes the track at the back of the pool, and a station callout follows it
/// exactly when it is not the block's last song and the roll of gap `j` is
/// below `INTERLUDE_BELOW`; the callout names that song and the one after it.
pub proof fn lemma_gap_reads_its_own_roll(s: PlanState, j: nat, n: nat, r: SegmentRolls)
    requires
        s.tracks.len() > 0,
    ensures
        ({
            let t = s.tracks.last();
            let after = CalloutContext { last_song: Some(t), next_song: pool_peek(s.tracks.drop_last()) };
            block_song(s, j, n, r).segments == if j + 1 < n && r.interludes@[j as int] < INTERLUDE_BELOW {
                s.segments.push(RadioSegment::Song(t)).push(RadioSegment::RadioCallout(after))
            } else {
                s.segments.push(RadioSegment::Song(t))
            }
        }),
        block_song(s, j, n, r).tracks == s.tracks.drop_last(),
{
}

} // verus!

verus! {

#[verifier::external_type_specification]
#[verifier::external_body]
pub struct ExThreadRng(rand::rngs::ThreadRng);

/// Calls `rand::thread_rng`: a handle on the thread's random generator; nothing
/// is stated of it.
#[verifier::external_body]
fn thread_rng() -> rand::rngs::ThreadRng {
    rand::thread_rng()
}

/// Calls `Rng::gen_range(0..n)` on a `ThreadRng`: a random integer below `n`.
/// `gen_range` panics on an empty range, so `n` must be positive; which value
/// comes back is chance, so only its range is stated.
#[verifier::external_body]
fn random_below(rng: &mut rand::rngs::ThreadRng, n: u32) -> (r: u32)
    requires
        n > 0,
    ensures
        r < n,
{
    rng.gen_range(0..n)
}

/// Draws the rolls for one planning round.
pub fn draw_segment_rolls() -> (r: SegmentRolls)
    ensures
        r.wf(),
{
    let mut rng = thread_rng();
    let kind = random_below(&mut rng, ROLL_RANGE);
    let multi_song = random_below(&mut rng, ROLL_RANGE);
    let block_len = 2 + random_below(&mut rng, 3);
    let opening_callout = random_below(&mut rng, ROLL_RANGE);
    let opening_callout_kind = random_below(&mut rng, ROLL_RANGE);
    let i0 = random_below(&mut rng, ROLL_RANGE);
    let i1 = random_below(&mut rng, ROLL_RANGE);
    let i2 = random_below(&mut rng, ROLL_RANGE);
    let closing_callout = random_below(&mut rng, ROLL_RANGE);
    let r = SegmentRolls {
        kind,
        multi_song,
        block_len,
        opening_callout,
        opening_callout_kind,
        interludes: [i0, i1, i2],
        closing_callout,
    };
    assert(r.interludes@[0] == i0 && r.interludes@[1] == i1 && r.interludes@[2] == i2);
    r
}

} // verus!
