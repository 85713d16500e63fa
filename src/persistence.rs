use vstd::prelude::*;
use crate::manager::ConfigManager;

verus! {

/// How long the saver waits after the last save request, in milliseconds.
pub const DEBOUNCE_MS: u64 = 300;

/// How often the saver checks whether the quiet period has passed, in
/// milliseconds.
pub const POLL_INTERVAL_MS: u64 = 100;

/// What reaches the background saver: a save request or a poll, each at a time
/// in milliseconds on a monotonic clock, or the closing of the request queue.
#[derive(Clone, Copy, Debug, PartialEq, Eq, Structural)]
pub enum SaverEvent {
    Request(u64),
    Tick(u64),
    Closed,
}

/// The debounce state of the background saver. With no save pending it is
/// idle; otherwise it remembers when the last request came.
#[derive(Clone, Copy, Debug, PartialEq, Eq, Structural)]
pub struct SaveScheduler {
    pub pending: bool,
    pub last_request_ms: u64,
    pub debounce_ms: u64,
}

/// One transition: the next state, and whether to write the file now.
pub open spec fn step(s: SaveScheduler, e: SaverEvent) -> (SaveScheduler, bool) {
    match e {
        SaverEvent::Request(t) => (SaveScheduler { pending: true, last_request_ms: t, ..s }, false),
        SaverEvent::Tick(t) => if s.pending && t >= s.last_request_ms && t - s.last_request_ms
            >= s.debounce_ms {
            (SaveScheduler { pending: false, ..s }, true)
        } else {
            (s, false)
        },
        SaverEvent::Closed => (SaveScheduler { pending: false, ..s }, s.pending),
    }
}

/// The state after a run of events, and how many writes it made.
pub open spec fn run(s: SaveScheduler, evs: Seq<SaverEvent>) -> (SaveScheduler, nat)
    decreases evs.len(),
{
    if evs.len() == 0 {
        (s, 0)
    } else {
        let (s1, n) = run(s, evs.drop_last());
        let (s2, saved) = step(s1, evs.last());
        (s2, if saved {
            n + 1
        } else {
            n
        })
    }
}

impl SaveScheduler {
    /// An idle saver with the given quiet period.
    pub fn new(debounce_ms: u64) -> (r: SaveScheduler)
        ensures
            !r.pending,
            r.debounce_ms == debounce_ms,
    {
        SaveScheduler { pending: false, last_request_ms: 0, debounce_ms }
    }

    /// Takes one event; returns whether the file is to be written now. A
    /// request starts or extends the wait; a poll writes once the quiet period
    /// since the last request has passed; closing writes what is pending.
    pub fn handle(&mut self, e: SaverEvent) -> (save: bool)
        ensures
            (*final(self), save) == step(*old(self), e),
    {
        match e {
            SaverEvent::Request(t) => {
                self.pending = true;
                self.last_request_ms = t;
                false
            },
            SaverEvent::Tick(t) => {
                if self.pending && t >= self.last_request_ms && t - self.last_request_ms
                    >= self.debounce_ms {
                    self.pending = false;
                    true
                } else {
                    false
                }
            },
            SaverEvent::Closed => {
                let save = self.pending;
                self.pending = false;
                save
            },
        }
    }
}

/// Background save failures counted by a store.
pub fn get_save_error_count(manager: &ConfigManager) -> (r: usize)
    ensures
        r == manager@.save_error_count,
{
    manager.get_save_error_count()
}

pub open spec fn event_time(e: SaverEvent) -> int {
    match e {
        SaverEvent::Request(t) => t as int,
        SaverEvent::Tick(t) => t as int,
        SaverEvent::Closed => 0,
    }
}

/// The events form a burst of requests ending at index `n`: times never go
/// back, the queue stays open, every request lies within one quiet period
/// before the last one, and only polls follow it.
pub open spec fn is_burst(s: SaveScheduler, evs: Seq<SaverEvent>, n: int) -> bool {
    &&& 0 <= n < evs.len()
    &&& evs[n] is Request
    &&& forall|i: int| 0 <= i < evs.len() ==> !(#[trigger] evs[i] is Closed)
    &&& forall|i: int, j: int|
        0 <= i <= j < evs.len() ==> event_time(#[trigger] evs[i]) <= event_time(#[trigger] evs[j])
    &&& forall|i: int|
        0 <= i <= n && #[trigger] evs[i] is Request ==> event_time(evs[n]) - event_time(evs[i])
            < s.debounce_ms
    &&& forall|j: int| n < j < evs.len() ==> #[trigger] evs[j] is Tick
}

proof fn lemma_burst_prefix(s: SaveScheduler, evs: Seq<SaverEvent>, n: int, i: int)
    requires
        !s.pending,
        is_burst(s, evs, n),
        0 <= i <= n,
    ensures
        run(s, evs.take(i)).1 == 0,
        run(s, evs.take(i)).0.debounce_ms == s.debounce_ms,
        run(s, evs.take(i)).0.pending ==> event_time(evs[n]) - run(s, evs.take(i)).0.last_request_ms
            < s.debounce_ms,
    decreases i,
{
    if i > 0 {
        lemma_burst_prefix(s, evs, n, i - 1);
        assert(evs.take(i).drop_last() =~= evs.take(i - 1));
        assert(evs.take(i).last() == evs[i - 1]);
        assert(event_time(evs[i - 1]) <= event_time(evs[n]));
    }
}

proof fn lemma_burst_tail(s: SaveScheduler, evs: Seq<SaverEvent>, n: int, i: int)
    requires
        !s.pending,
        is_burst(s, evs, n),
        n < i <= evs.len(),
    ensures
        ({
            let (st, saves) = run(s, evs.take(i));
            let waited = exists|j: int|
                n < j < i && event_time(#[trigger] evs[j]) >= event_time(evs[n]) + s.debounce_ms;
            &&& saves == if waited {
                1nat
            } else {
                0nat
            }
            &&& st.pending == !waited
            &&& st.last_request_ms == event_time(evs[n])
            &&& st.debounce_ms == s.debounce_ms
        }),
    decreases i,
{
    assert(evs.take(i).drop_last() =~= evs.take(i - 1));
    assert(evs.take(i).last() == evs[i - 1]);
    if i == n + 1 {
        lemma_burst_prefix(s, evs, n, n);
    } else {
        lemma_burst_tail(s, evs, n, i - 1);
        assert(evs[i - 1] is Tick);
        assert(event_time(evs[n]) <= event_time(evs[i - 1]));
        if exists|j: int|
            n < j < i - 1 && event_time(#[trigger] evs[j]) >= event_time(evs[n]) + s.debounce_ms {
            let j = choose|j: int|
                n < j < i - 1 && event_time(#[trigger] evs[j]) >= event_time(evs[n])
                    + s.debounce_ms;
            assert(n < j < i && event_time(evs[j]) >= event_time(evs[n]) + s.debounce_ms);
        }
    }
}

/// A burst of save requests that all fall within one quiet period, followed by
/// a poll after the quiet period, gives exactly one write, and that write
/// comes after the last request, so it writes the state the last change left.
pub proof fn law_burst_coalesces_into_one_write(s: SaveScheduler, evs: Seq<SaverEvent>, n: int)
    requires
        !s.pending,
        is_burst(s, evs, n),
        exists|j: int|
            n < j < evs.len() && event_time(#[trigger] evs[j]) >= event_time(evs[n])
                + s.debounce_ms,
    ensures
        run(s, evs.take(n + 1)).1 == 0,
        run(s, evs).1 == 1,
{
    lemma_burst_tail(s, evs, n, n + 1);
    lemma_burst_tail(s, evs, n, evs.len() as int);
    assert(evs.take(evs.len() as int) =~= evs);
}

} // verus!
