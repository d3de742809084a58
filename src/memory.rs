//! Memory tracking for loaded plugins: per-plugin timelines of samples and
//! the summary record that analysis tools read.

use vstd::prelude::*;
use crate::table::StringTable;

verus! {

/// One measurement, in bytes, at a time in milliseconds since tracking began.
#[derive(PartialEq, Eq, Structural, Clone, Copy, Debug)]
pub struct MemorySample {
    pub timestamp_ms: u64,
    pub heap_used: u64,
    pub native_memory: u64,
}

/// The summary of a timeline: first, largest, last and mean heap use.
pub struct MemoryReport {
    pub mod_id: String,
    pub initial_memory: u64,
    pub peak_memory: u64,
    pub final_memory: u64,
    pub average_memory: u64,
    pub timeline: Vec<MemorySample>,
}

/// Sum of the heap use over `s`.
pub open spec fn total_heap(s: Seq<MemorySample>) -> int
    decreases s.len(),
{
    if s.len() == 0 { 0 } else { total_heap(s.drop_last()) + s.last().heap_used }
}

/// Largest heap use over `s` (0 when empty).
pub open spec fn peak_heap(s: Seq<MemorySample>) -> u64
    decreases s.len(),
{
    if s.len() == 0 {
        0
    } else {
        let p = peak_heap(s.drop_last());
        if s.last().heap_used > p { s.last().heap_used } else { p }
    }
}

proof fn lemma_total_bounded(s: Seq<MemorySample>)
    ensures
        0 <= total_heap(s) <= s.len() * (u64::MAX as int),
    decreases s.len(),
{
    if s.len() > 0 {
        lemma_total_bounded(s.drop_last());
    }
}

proof fn lemma_peak_bounds(s: Seq<MemorySample>)
    ensures
        forall|i: int| 0 <= i < s.len() ==> (#[trigger] s[i]).heap_used <= peak_heap(s),
        s.len() > 0 ==> exists|i: int| 0 <= i < s.len() && (#[trigger] s[i]).heap_used == peak_heap(s),
    decreases s.len(),
{
    if s.len() > 0 {
        let t = s.drop_last();
        lemma_peak_bounds(t);
        assert forall|i: int| 0 <= i < s.len() implies (#[trigger] s[i]).heap_used <= peak_heap(s) by {
            if i < s.len() - 1 {
                assert(s[i] == t[i]);
            }
        }
        if s.last().heap_used <= peak_heap(t) && t.len() > 0 {
            let i = choose|i: int| 0 <= i < t.len() && (#[trigger] t[i]).heap_used == peak_heap(t);
            assert(s[i] == t[i]);
        }
    }
}

/// Summarizes the samples of plugin `mod_id`: the first and last heap use,
/// the largest, and the mean rounded down. `None` when there are no samples.
pub fn summarize(mod_id: &str, samples: &Vec<MemorySample>) -> (r: Option<MemoryReport>)
    ensures
        samples@.len() == 0 <==> r is None,
        r matches Some(rep) ==> {
            &&& rep.mod_id@ == mod_id@
            &&& rep.initial_memory == samples@[0].heap_used
            &&& rep.final_memory == samples@.last().heap_used
            &&& rep.peak_memory == peak_heap(samples@)
            &&& rep.average_memory == total_heap(samples@) / (samples@.len() as int)
            &&& rep.timeline@ == samples@
        },
{
    if samples.len() == 0 {
        return None;
    }
    let mut total: u128 = 0;
    let mut peak: u64 = 0;
    let mut timeline: Vec<MemorySample> = Vec::new();
    let mut i: usize = 0;
    while i < samples.len()
        invariant
            i <= samples@.len(),
            total == total_heap(samples@.take(i as int)),
            peak == peak_heap(samples@.take(i as int)),
            timeline@ == samples@.take(i as int),
        decreases samples@.len() - i,
    {
        let s = samples[i];
        proof {
            lemma_total_bounded(samples@.take(i as int));
            assert(samples@.take(i as int + 1).drop_last() == samples@.take(i as int));
            assert((i as int) * (u64::MAX as int) <= (u64::MAX as int) * (u64::MAX as int)) by (nonlinear_arith)
                requires i <= u64::MAX;
        }
        total = total + s.heap_used as u128;
        if s.heap_used > peak {
            peak = s.heap_used;
        }
        timeline.push(s);
        i = i + 1;
        assert(timeline@ =~= samples@.take(i as int));
    }
    assert(samples@.take(samples@.len() as int) == samples@);
    proof {
        lemma_total_bounded(samples@);
        let n = samples@.len() as int;
        assert(total_heap(samples@) / n <= u64::MAX) by (nonlinear_arith)
            requires 0 <= total_heap(samples@) <= n * (u64::MAX as int), n > 0;
    }
    let average = (total / (samples.len() as u128)) as u64;
    Some(MemoryReport {
        mod_id: mod_id.to_owned(),
        initial_memory: samples[0].heap_used,
        peak_memory: peak,
        final_memory: samples[samples.len() - 1].heap_used,
        average_memory: average,
        timeline,
    })
}

/// The peak of a summary is reached by some sample and bounds every sample.
pub proof fn lemma_peak_is_max(s: Seq<MemorySample>)
    requires
        s.len() > 0,
    ensures
        forall|i: int| 0 <= i < s.len() ==> (#[trigger] s[i]).heap_used <= peak_heap(s),
        exists|i: int| 0 <= i < s.len() && (#[trigger] s[i]).heap_used == peak_heap(s),
{
    lemma_peak_bounds(s);
}

/// The timelines of the plugins being monitored.
pub struct MemoryManager {
    timelines: StringTable<Vec<MemorySample>>,
}

impl View for MemoryManager {
    type V = Map<Seq<char>, Seq<MemorySample>>;

    closed spec fn view(&self) -> Map<Seq<char>, Seq<MemorySample>> {
        self.timelines@.map_values(|v: Vec<MemorySample>| v@)
    }
}

impl MemoryManager {
    pub closed spec fn wf(&self) -> bool {
        self.timelines.wf()
    }

    pub fn new() -> (r: Self)
        ensures
            r.wf(),
            r@ == Map::<Seq<char>, Seq<MemorySample>>::empty(),
    {
        let r = MemoryManager { timelines: StringTable::new() };
        assert(r@ =~= Map::<Seq<char>, Seq<MemorySample>>::empty());
        r
    }

    /// Starts tracking `mod_id` with an empty timeline; a plugin already
    /// monitored keeps its timeline.
    pub fn track_mod_memory(&mut self, mod_id: &str) -> (r: Result<(), String>)
        requires
            old(self).wf(),
        ensures
            final(self).wf(),
            r is Ok,
            final(self)@ == if old(self)@.contains_key(mod_id@) {
                old(self)@
            } else {
                old(self)@.insert(mod_id@, Seq::empty())
            },
    {
        if !self.timelines.contains_key(mod_id) {
            self.timelines.insert(mod_id.to_owned(), Vec::new());
            assert(self@ =~= old(self)@.insert(mod_id@, Seq::empty()));
        }
        Ok(())
    }

    /// Appends a sample to the timeline of `mod_id`; an error when the
    /// plugin is not monitored.
    pub fn record_sample(&mut self, mod_id: &str, sample: MemorySample) -> (r: Result<(), String>)
        requires
            old(self).wf(),
        ensures
            final(self).wf(),
            r is Ok <==> old(self)@.contains_key(mod_id@),
            r is Ok ==> final(self)@ == old(self)@.insert(mod_id@, old(self)@[mod_id@].push(sample)),
            r is Err ==> final(self)@ == old(self)@,
    {
        match self.timelines.remove(mod_id) {
            Some(mut timeline) => {
                timeline.push(sample);
                self.timelines.insert(mod_id.to_owned(), timeline);
                assert(self@ =~= old(self)@.insert(mod_id@, old(self)@[mod_id@].push(sample)));
                Ok(())
            },
            None => {
                assert(self@ =~= old(self)@);
                Err("mod is not monitored".to_owned())
            },
        }
    }

    /// The summary of the timeline of `mod_id`; `None` when it is not monitored
    /// or has no samples yet.
    pub fn report(&self, mod_id: &str) -> (r: Option<MemoryReport>)
        requires
            self.wf(),
        ensures
            r is Some <==> (self@.contains_key(mod_id@) && self@[mod_id@].len() > 0),
            r matches Some(rep) ==> {
                &&& rep.mod_id@ == mod_id@
                &&& rep.timeline@ == self@[mod_id@]
                &&& rep.initial_memory == self@[mod_id@][0].heap_used
                &&& rep.final_memory == self@[mod_id@].last().heap_used
                &&& rep.peak_memory == peak_heap(self@[mod_id@])
                &&& rep.average_memory == total_heap(self@[mod_id@]) / (self@[mod_id@].len() as int)
            },
    {
        match self.timelines.get(mod_id) {
            Some(timeline) => summarize(mod_id, timeline),
            None => None,
        }
    }

    /// Stops tracking `mod_id` and drops its timeline; a no-op when it is not
    /// monitored.
    pub fn stop_tracking(&mut self, mod_id: &str)
        requires
            old(self).wf(),
        ensures
            final(self).wf(),
            final(self)@ == old(self)@.remove(mod_id@),
    {
        let _ = self.timelines.remove(mod_id);
        assert(self@ =~= old(self)@.remove(mod_id@));
    }
}

} // verus!
