//! Shared transport state: the record the playback thread writes and the
//! UI poller reads — whether audio is stopped, the elapsed position of the
//! active track, and a cache of track durations.

use vstd::prelude::*;

verus! {

/// The mathematical content of the transport state.
pub struct TransportModel {
    /// True iff no track is currently producing audio.
    pub stopped: bool,
    /// Elapsed playback position of the active track, in milliseconds;
    /// meaningful only while not stopped.
    pub current_time: u64,
    /// The cached duration, in milliseconds, of every track whose length
    /// has become known.
    pub durations: Map<Seq<char>, u64>,
}

/// The duration map that a sequence of `(path, duration)` entries denotes.
pub open spec fn entries_map(entries: Seq<(String, u64)>) -> Map<Seq<char>, u64>
    decreases entries.len(),
{
    if entries.len() == 0 {
        Map::empty()
    } else {
        entries_map(entries.drop_last()).insert(entries.last().0@, entries.last().1)
    }
}

/// No path occurs twice among the entries.
pub open spec fn entries_unique(entries: Seq<(String, u64)>) -> bool {
    forall|i: int, j: int|
        0 <= i < j < entries.len() ==> entries[i].0@ != entries[j].0@
}

proof fn lemma_entries_map_contains(entries: Seq<(String, u64)>, k: Seq<char>)
    ensures
        entries_map(entries).contains_key(k) <==> exists|i: int|
            0 <= i < entries.len() && entries[i].0@ == k,
    decreases entries.len(),
{
    if entries.len() > 0 {
        lemma_entries_map_contains(entries.drop_last(), k);
        if entries.last().0@ != k && entries_map(entries).contains_key(k) {
            let i = choose|i: int|
                0 <= i < entries.drop_last().len() && entries.drop_last()[i].0@ == k;
            assert(entries[i].0@ == k);
        }
        if exists|i: int| 0 <= i < entries.len() && entries[i].0@ == k {
            let i = choose|i: int| 0 <= i < entries.len() && entries[i].0@ == k;
            if i < entries.len() - 1 {
                assert(entries.drop_last()[i].0@ == k);
            }
        }
    }
}

proof fn lemma_entries_map_index(entries: Seq<(String, u64)>, i: int)
    requires
        entries_unique(entries),
        0 <= i < entries.len(),
    ensures
        entries_map(entries).contains_key(entries[i].0@),
        entries_map(entries)[entries[i].0@] == entries[i].1,
    decreases entries.len(),
{
    if i == entries.len() - 1 {
        lemma_entries_map_contains(entries.drop_last(), entries[i].0@);
    } else {
        lemma_entries_map_index(entries.drop_last(), i);
        assert(entries.drop_last()[i] == entries[i]);
        assert(entries.last().0@ != entries[i].0@);
    }
}

/// What caching one duration does to the map: a path not yet present gains
/// the value; a path already present keeps the value it was first given.
pub open spec fn cached_durations(
    durations: Map<Seq<char>, u64>,
    path: Seq<char>,
    millis: u64,
) -> Map<Seq<char>, u64> {
    if durations.contains_key(path) {
        durations
    } else {
        durations.insert(path, millis)
    }
}

/// Law: the duration cache is idempotent — once a path holds a value,
/// caching any later value for the same path leaves the map unchanged, so
/// an entry is never overwritten.
pub proof fn lemma_duration_cache_idempotent(
    durations: Map<Seq<char>, u64>,
    path: Seq<char>,
    first: u64,
    later: u64,
)
    ensures
        cached_durations(cached_durations(durations, path, first), path, later)
            == cached_durations(durations, path, first),
        cached_durations(durations, path, first)[path] == if durations.contains_key(path) {
            durations[path]
        } else {
            first
        },
{
}

/// The shared transport state.
///
/// The playback thread is its only writer; readers take a snapshot. The
/// duration cache only ever grows, and an entry, once present, keeps the
/// value it was first given.
pub struct Transport {
    stopped: bool,
    current_time: u64,
    durations: Vec<(String, u64)>,
}

impl View for Transport {
    type V = TransportModel;

    closed spec fn view(&self) -> TransportModel {
        TransportModel {
            stopped: self.stopped,
            current_time: self.current_time,
            durations: entries_map(self.durations@),
        }
    }
}

impl Transport {
    /// The cache never holds two entries for one path.
    pub closed spec fn wf(&self) -> bool {
        entries_unique(self.durations@)
    }

    /// A fresh transport: nothing playing, the clock at zero, no cached
    /// durations.
    pub fn new() -> (t: Transport)
        ensures
            t.wf(),
            t@.stopped,
            t@.current_time == 0,
            t@.durations == Map::<Seq<char>, u64>::empty(),
    {
        Transport { stopped: true, current_time: 0, durations: Vec::new() }
    }

    /// True iff no track is currently producing audio.
    pub fn stopped(&self) -> (r: bool)
        ensures
            r == self@.stopped,
    {
        self.stopped
    }

    /// The elapsed position of the active track in milliseconds.
    pub fn current_time(&self) -> (r: u64)
        ensures
            r == self@.current_time,
    {
        self.current_time
    }

    /// Record whether audio is being produced.
    pub fn set_stopped(&mut self, stopped: bool)
        requires
            old(self).wf(),
        ensures
            final(self).wf(),
            final(self)@ == (TransportModel { stopped, ..old(self)@ }),
    {
        self.stopped = stopped;
    }

    /// Publish a new elapsed position.
    pub fn set_current_time(&mut self, millis: u64)
        requires
            old(self).wf(),
        ensures
            final(self).wf(),
            final(self)@ == (TransportModel { current_time: millis, ..old(self)@ }),
    {
        self.current_time = millis;
    }

    /// The cached duration of the track at `path`, if one is known.
    pub fn duration_of(&self, path: &String) -> (r: Option<u64>)
        requires
            self.wf(),
        ensures
            r == if self@.durations.contains_key(path@) {
                Some(self@.durations[path@])
            } else {
                None::<u64>
            },
    {
        let mut i: usize = 0;
        while i < self.durations.len()
            invariant
                self.wf(),
                0 <= i <= self.durations@.len(),
                forall|j: int| 0 <= j < i ==> self.durations@[j].0@ != path@,
            decreases self.durations@.len() - i,
        {
            if self.durations[i].0 == *path {
                proof {
                    lemma_entries_map_index(self.durations@, i as int);
                }
                return Some(self.durations[i].1);
            }
            i = i + 1;
        }
        proof {
            lemma_entries_map_contains(self.durations@, path@);
        }
        None
    }

    /// Cache the duration of the track at `path`. The cache is idempotent:
    /// a path already present keeps the value it was first given, whatever
    /// `millis` says now.
    pub fn cache_duration(&mut self, path: &String, millis: u64)
        requires
            old(self).wf(),
        ensures
            final(self).wf(),
            final(self)@.stopped == old(self)@.stopped,
            final(self)@.current_time == old(self)@.current_time,
            final(self)@.durations == cached_durations(old(self)@.durations, path@, millis),
    {
        let known = self.duration_of(path);
        match known {
            Some(_) => {},
            None => {
                let ghost before = self.durations@;
                self.durations.push((path.clone(), millis));
                proof {
                    assert(self.durations@.drop_last() =~= before);
                    lemma_entries_map_contains(before, path@);
                    assert forall|i: int, j: int|
                        0 <= i < j < self.durations@.len() implies self.durations@[i].0@
                        != self.durations@[j].0@ by {
                        if j == self.durations@.len() - 1 {
                            assert(self.durations@[i] == before[i]);
                        }
                    }
                }
            },
        }
    }

    /// A read-only copy of the whole record, for one poll.
    pub fn snapshot(&self) -> (t: Transport)
        requires
            self.wf(),
        ensures
            t.wf(),
            t@ == self@,
    {
        let mut entries: Vec<(String, u64)> = Vec::new();
        let mut i: usize = 0;
        while i < self.durations.len()
            invariant
                0 <= i <= self.durations@.len(),
                entries@.len() == i,
                forall|j: int| 0 <= j < i ==> entries@[j].0@ == self.durations@[j].0@
                    && entries@[j].1 == self.durations@[j].1,
            decreases self.durations@.len() - i,
        {
            let path = self.durations[i].0.clone();
            let millis = self.durations[i].1;
            entries.push((path, millis));
            i = i + 1;
        }
        proof {
            lemma_entries_map_congruent(entries@, self.durations@);
        }
        Transport { stopped: self.stopped, current_time: self.current_time, durations: entries }
    }
}

/// Entry sequences that agree path-for-path and value-for-value denote the
/// same duration map.
proof fn lemma_entries_map_congruent(a: Seq<(String, u64)>, b: Seq<(String, u64)>)
    requires
        a.len() == b.len(),
        forall|j: int| 0 <= j < a.len() ==> a[j].0@ == b[j].0@ && a[j].1 == b[j].1,
    ensures
        entries_map(a) == entries_map(b),
        entries_unique(b) ==> entries_unique(a),
    decreases a.len(),
{
    if a.len() > 0 {
        lemma_entries_map_congruent(a.drop_last(), b.drop_last());
        assert(entries_map(a) =~= entries_map(b));
    } else {
        assert(entries_map(a) =~= entries_map(b));
    }
}

} // verus!
