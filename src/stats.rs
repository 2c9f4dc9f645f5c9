//! Sliding-window latency and response-size statistics of one component.
use vstd::prelude::*;

use crate::model::{ComponentStats, LatencyBucket, StatusColor};

verus! {

/// Window used by a tracker made with `new`: five minutes.
pub const DEFAULT_STAT_WINDOW_MS: u64 = 300000;

/// Number of latency buckets in a snapshot.
pub const PERCENTILE_BUCKETS: usize = 10;

/// One completed invocation: when it arrived (milliseconds on the worker's
/// clock), how long it took and how large its response was.
#[derive(Clone, Copy, Debug, PartialEq, Eq, Structural)]
pub struct StatEvent {
    pub at_ms: u64,
    pub duration_ms: u32,
    pub response_bytes: u32,
}

/// What is left of `s` once every event at its front older than `cutoff` is dropped.
pub open spec fn pruned(s: Seq<StatEvent>, cutoff: int) -> Seq<StatEvent>
    decreases s.len(),
{
    if s.len() > 0 && (s[0].at_ms as int) < cutoff {
        pruned(s.drop_first(), cutoff)
    } else {
        s
    }
}

/// Events older than this are outside a window of `window` ending at `now`.
pub open spec fn window_cutoff(now: u64, window: u64) -> int {
    now as int - window as int
}

/// Events in arrival order.
pub open spec fn arrival_ordered(s: Seq<StatEvent>) -> bool {
    forall|i: int, j: int| 0 <= i <= j < s.len() ==> s[i].at_ms <= s[j].at_ms
}

pub open spec fn total_bytes(s: Seq<StatEvent>) -> nat
    decreases s.len(),
{
    if s.len() == 0 {
        0
    } else {
        total_bytes(s.drop_last()) + s.last().response_bytes as nat
    }
}

pub open spec fn durations(s: Seq<StatEvent>) -> Seq<u32> {
    s.map_values(|e: StatEvent| e.duration_ms)
}

pub open spec fn sum_u32(s: Seq<u32>) -> nat
    decreases s.len(),
{
    if s.len() == 0 {
        0
    } else {
        sum_u32(s.drop_last()) + s.last() as nat
    }
}

pub open spec fn ascending(s: Seq<u32>) -> bool {
    forall|i: int, j: int| 0 <= i <= j < s.len() ==> s[i] <= s[j]
}

pub open spec fn min_int(a: int, b: int) -> int {
    if a < b {
        a
    } else {
        b
    }
}

/// Where bucket `i` of `n` items starts: every bucket has `n / 10` items and
/// the first `n % 10` one more.
pub open spec fn bucket_start(n: int, i: int) -> int {
    i * (n / 10) + min_int(i, n % 10)
}

pub open spec fn bucket(s: Seq<u32>, i: int) -> Seq<u32> {
    s.subrange(bucket_start(s.len() as int, i), bucket_start(s.len() as int, i + 1))
}

/// The non-empty buckets of `s`, each as its total and its size.
pub open spec fn buckets_of(s: Seq<u32>) -> Seq<LatencyBucket> {
    Seq::new(
        min_int(s.len() as int, 10) as nat,
        |i: int| LatencyBucket { total_ms: sum_u32(bucket(s, i)) as u128, count: bucket(s, i).len() as u64 },
    )
}

pub open spec fn within_window(cutoff: int) -> spec_fn(StatEvent) -> bool {
    |e: StatEvent| e.at_ms as int >= cutoff
}

proof fn lemma_filter_keeps_all(s: Seq<StatEvent>, cutoff: int)
    requires
        forall|i: int| 0 <= i < s.len() ==> s[i].at_ms as int >= cutoff,
    ensures
        s.filter(within_window(cutoff)) == s,
    decreases s.len(),
{
    reveal(Seq::filter);
    if s.len() > 0 {
        lemma_filter_keeps_all(s.drop_last(), cutoff);
        assert(s.drop_last().push(s.last()) =~= s);
    }
}

/// Pruning an arrival-ordered sequence of events at a cutoff leaves exactly the
/// events that arrived at or after the cutoff, in their order: an event older
/// than the window is gone, and the number of events left is the number that
/// arrived within it.
pub proof fn lemma_pruning_keeps_window(s: Seq<StatEvent>, cutoff: int)
    requires
        arrival_ordered(s),
    ensures
        pruned(s, cutoff) == s.filter(within_window(cutoff)),
    decreases s.len(),
{
    reveal(Seq::filter);
    if s.len() == 0 {
    } else if (s[0].at_ms as int) < cutoff {
        let rest = s.drop_first();
        lemma_pruning_keeps_window(rest, cutoff);
        let head = seq![s[0]];
        assert(head + rest =~= s);
        Seq::filter_distributes_over_add(head, rest, within_window(cutoff));
        assert(head.drop_last() =~= Seq::<StatEvent>::empty());
        assert(head.drop_last().filter(within_window(cutoff)) =~= Seq::<StatEvent>::empty());
        assert(head.last() == s[0]);
        assert(!(within_window(cutoff))(s[0]));
        assert(head.filter(within_window(cutoff)) =~= Seq::<StatEvent>::empty());
        assert(Seq::<StatEvent>::empty() + rest.filter(within_window(cutoff)) =~= rest.filter(
            within_window(cutoff),
        ));
    } else {
        lemma_filter_keeps_all(s, cutoff);
    }
}

pub struct StatTracker {
    stat_window_ms: u64,
    event_deque: Vec<StatEvent>,
    color: Option<StatusColor>,
}

/// Relies on slice::sort: the items come out in ascending order and are the items that went in.
#[verifier::external_body]
fn sort_ascending(v: &mut Vec<u32>)
    ensures
        final(v)@.len() == old(v)@.len(),
        final(v)@.to_multiset() == old(v)@.to_multiset(),
        ascending(final(v)@),
{
    v.sort();
}

proof fn lemma_sum_bound(s: Seq<u32>)
    ensures
        sum_u32(s) <= s.len() * 0xFFFF_FFFF,
    decreases s.len(),
{
    if s.len() > 0 {
        lemma_sum_bound(s.drop_last());
    }
}

proof fn lemma_total_bytes_bound(s: Seq<StatEvent>)
    ensures
        total_bytes(s) <= s.len() * 0xFFFF_FFFF,
    decreases s.len(),
{
    if s.len() > 0 {
        lemma_total_bytes_bound(s.drop_last());
    }
}

proof fn lemma_bucket_bounds(n: int, i: int)
    requires
        0 <= n,
        0 <= i < 10,
    ensures
        0 <= bucket_start(n, i) <= bucket_start(n, i + 1) <= n,
        bucket_start(n, i + 1) - bucket_start(n, i) == n / 10 + (if i < n % 10 { 1int } else { 0 }),
{
    let q = n / 10;
    let r = n % 10;
    assert(n == 10 * q + r);
    assert(0 <= i * q) by (nonlinear_arith)
        requires
            0 <= i,
            0 <= q,
    ;
    assert((i + 1) * q <= 10 * q) by (nonlinear_arith)
        requires
            i + 1 <= 10,
            0 <= q,
    ;
    assert((i + 1) * q == i * q + q) by (nonlinear_arith);
}

/// Totals and sizes of the ten latency buckets of `sorted`, skipping empty ones.
pub fn latency_buckets(sorted: &Vec<u32>) -> (r: Vec<LatencyBucket>)
    ensures
        r@ == buckets_of(sorted@),
{
    let n = sorted.len();
    let rough_bucket_size = n / PERCENTILE_BUCKETS;
    let additional_items = n % PERCENTILE_BUCKETS;
    let mut res: Vec<LatencyBucket> = Vec::new();
    let mut i: usize = 0;
    while i < PERCENTILE_BUCKETS
        invariant
            n == sorted@.len(),
            rough_bucket_size == n / 10,
            additional_items == n % 10,
            i <= 10,
            res@ == buckets_of(sorted@).take(min_int(i as int, if n >= 10 { 10 } else { n as int })),
        decreases 10 - i,
    {
        proof {
            lemma_bucket_bounds(n as int, i as int);
        }
        let starting_index = i * rough_bucket_size + if i < additional_items {
            i
        } else {
            additional_items
        };
        let next_starting_index = (i + 1) * rough_bucket_size + if i + 1 < additional_items {
            i + 1
        } else {
            additional_items
        };
        assert(starting_index == bucket_start(n as int, i as int));
        assert(next_starting_index == bucket_start(n as int, i as int + 1));
        if next_starting_index > starting_index {
            let mut total: u128 = 0;
            let mut j: usize = starting_index;
            while j < next_starting_index
                invariant
                    starting_index <= j <= next_starting_index <= sorted@.len(),
                    total == sum_u32(sorted@.subrange(starting_index as int, j as int)),
                decreases next_starting_index - j,
            {
                proof {
                    let sub = sorted@.subrange(starting_index as int, j as int + 1);
                    assert(sub.drop_last() =~= sorted@.subrange(starting_index as int, j as int));
                    lemma_sum_bound(sorted@.subrange(starting_index as int, j as int));
                    let k = j - starting_index;
                    assert(k * 0xFFFF_FFFF + 0xFFFF_FFFF < 0x1_0000_0000_0000_0000_0000_0000_0000_0000)
                        by (nonlinear_arith)
                        requires
                            0 <= k < 0x1_0000_0000_0000_0000,
                    ;
                }
                total = total + sorted[j] as u128;
                j = j + 1;
            }
            res.push(LatencyBucket { total_ms: total, count: (next_starting_index - starting_index) as u64 });
        }
        proof {
            let lim = if n >= 10 { 10 } else { n as int };
            let old_take = min_int(i as int, lim);
            let new_take = min_int(i as int + 1, lim);
            if next_starting_index > starting_index {
                assert(i < lim);
                assert(res@ =~= buckets_of(sorted@).take(new_take));
            } else {
                assert(i >= lim);
                assert(old_take == new_take);
            }
        }
        i = i + 1;
    }
    assert(buckets_of(sorted@).take(min_int(10, if n >= 10 { 10 } else { n as int })) =~= buckets_of(
        sorted@,
    ));
    res
}

impl Default for StatTracker {
    /// A tracker with the default five-minute window and no events.
    fn default() -> (r: Self)
        ensures
            r.events() == Seq::<StatEvent>::empty(),
            r.window_ms() == DEFAULT_STAT_WINDOW_MS,
            r.last_color() == None::<StatusColor>,
    {
        StatTracker::new()
    }
}

impl StatTracker {
    pub closed spec fn events(&self) -> Seq<StatEvent> {
        self.event_deque@
    }

    pub closed spec fn window_ms(&self) -> u64 {
        self.stat_window_ms
    }

    pub closed spec fn last_color(&self) -> Option<StatusColor> {
        self.color
    }

    /// A tracker with the default five-minute window and no events.
    pub fn new() -> (r: Self)
        ensures
            r.events() == Seq::<StatEvent>::empty(),
            r.window_ms() == DEFAULT_STAT_WINDOW_MS,
            r.last_color() == None::<StatusColor>,
    {
        Self::with_window(DEFAULT_STAT_WINDOW_MS)
    }

    /// A tracker with a window of `window_ms` milliseconds and no events.
    pub fn with_window(window_ms: u64) -> (r: Self)
        ensures
            r.events() == Seq::<StatEvent>::empty(),
            r.window_ms() == window_ms,
            r.last_color() == None::<StatusColor>,
    {
        Self { stat_window_ms: window_ms, event_deque: Vec::new(), color: None }
    }

    /// Records an invocation that arrived at `now_ms`, then drops what fell out of the window.
    pub fn add_stat_event(&mut self, now_ms: u64, duration_ms: u32, response_bytes: u32)
        ensures
            final(self).events() == pruned(
                old(self).events().push(StatEvent { at_ms: now_ms, duration_ms, response_bytes }),
                window_cutoff(now_ms, old(self).window_ms()),
            ),
            final(self).window_ms() == old(self).window_ms(),
            final(self).last_color() == old(self).last_color(),
    {
        self.event_deque.push(StatEvent { at_ms: now_ms, duration_ms, response_bytes });
        self.pop_old_events(now_ms);
    }

    /// Drops from the front every event older than the window ending at `now_ms`.
    pub fn pop_old_events(&mut self, now_ms: u64)
        ensures
            final(self).events() == pruned(old(self).events(), window_cutoff(now_ms, old(self).window_ms())),
            final(self).window_ms() == old(self).window_ms(),
            final(self).last_color() == old(self).last_color(),
    {
        let ghost cutoff = window_cutoff(now_ms, self.stat_window_ms);
        let too_old: u64 = if now_ms >= self.stat_window_ms {
            now_ms - self.stat_window_ms
        } else {
            0
        };
        while self.event_deque.len() > 0 && self.event_deque[0].at_ms < too_old
            invariant
                self.stat_window_ms == old(self).stat_window_ms,
                self.color == old(self).color,
                cutoff == window_cutoff(now_ms, self.stat_window_ms),
                too_old as int == if cutoff < 0 { 0 } else { cutoff },
                pruned(self.event_deque@, cutoff) == pruned(old(self).event_deque@, cutoff),
            decreases self.event_deque@.len(),
        {
            let ghost before = self.event_deque@;
            self.event_deque.remove(0);
            assert(self.event_deque@ =~= before.drop_first());
        }
        assert(pruned(self.event_deque@, cutoff) == self.event_deque@);
    }

    /// Prunes the window at `now_ms` and summarises what is left.
    pub fn get_component_stats(&mut self, now_ms: u64) -> (r: ComponentStats)
        ensures
            final(self).events() == pruned(old(self).events(), window_cutoff(now_ms, old(self).window_ms())),
            final(self).window_ms() == old(self).window_ms(),
            final(self).last_color() == old(self).last_color(),
            r.stat_window_seconds == old(self).window_ms() / 1000,
            r.hits == final(self).events().len(),
            r.total_response_bytes == total_bytes(final(self).events()),
            r.total_ms_latency == sum_u32(durations(final(self).events())),
            exists|sorted: Seq<u32>|
                {
                    &&& sorted.to_multiset() == durations(final(self).events()).to_multiset()
                    &&& sorted.len() == final(self).events().len()
                    &&& ascending(sorted)
                    &&& r.ms_latency_percentiles@ == buckets_of(sorted)
                },
    {
        self.pop_old_events(now_ms);
        let mut latencies: Vec<u32> = Vec::new();
        let mut bytes: u128 = 0;
        let mut ms: u128 = 0;
        let mut i: usize = 0;
        while i < self.event_deque.len()
            invariant
                i <= self.event_deque@.len(),
                latencies@ == durations(self.event_deque@.subrange(0, i as int)),
                bytes == total_bytes(self.event_deque@.subrange(0, i as int)),
                ms == sum_u32(latencies@),
            decreases self.event_deque@.len() - i,
        {
            let e = self.event_deque[i];
            proof {
                let prefix = self.event_deque@.subrange(0, i as int);
                lemma_total_bytes_bound(prefix);
                lemma_sum_bound(latencies@);
                assert(latencies@.len() == i);
                assert(i * 0xFFFF_FFFF + 0xFFFF_FFFF < 0x1_0000_0000_0000_0000_0000_0000_0000_0000)
                    by (nonlinear_arith)
                    requires
                        0 <= i < 0x1_0000_0000_0000_0000,
                ;
                let next = self.event_deque@.subrange(0, i as int + 1);
                assert(next.drop_last() =~= prefix);
            }
            let ghost before = latencies@;
            bytes = bytes + e.response_bytes as u128;
            ms = ms + e.duration_ms as u128;
            latencies.push(e.duration_ms);
            proof {
                let next = self.event_deque@.subrange(0, i as int + 1);
                assert(latencies@ =~= durations(next));
                assert(latencies@.drop_last() =~= before);
            }
            i = i + 1;
        }
        assert(self.event_deque@.subrange(0, i as int) =~= self.event_deque@);
        let ghost unsorted = latencies@;
        sort_ascending(&mut latencies);
        let buckets = latency_buckets(&latencies);
        ComponentStats {
            stat_window_seconds: self.stat_window_ms / 1000,
            hits: self.event_deque.len() as u64,
            total_response_bytes: bytes,
            total_ms_latency: ms,
            ms_latency_percentiles: buckets,
        }
    }

    /// Stores the outcome colour of the latest call.
    pub fn set_color(&mut self, color: StatusColor)
        ensures
            final(self).events() == old(self).events(),
            final(self).window_ms() == old(self).window_ms(),
            final(self).last_color() == Some(color),
    {
        self.color = Some(color);
    }

    pub fn color(&self) -> (r: Option<StatusColor>)
        ensures
            r == self.last_color(),
    {
        self.color
    }
}

} // verus!
