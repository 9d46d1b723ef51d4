use vstd::prelude::*;

use crate::stackapps::{Response, SearchExcerpt};
use crate::{is_message_for, make_message, pick_excerpt, CycleError};
use crate::discord::Message;

verus! {

/// How long to wait before retrying a cycle that failed: five minutes.
pub const RETRY_MILLIS: u64 = 300_000;

/// One hour, in milliseconds.
pub const HOUR_MILLIS: u64 = 3_600_000;

/// From `now` (milliseconds since the Unix epoch) to the start of the next
/// whole hour strictly after it.
pub open spec fn until_next_hour(now: int) -> int {
    HOUR_MILLIS as int - now % (HOUR_MILLIS as int)
}

/// The time to sleep after a delivered notification: up to the start of the
/// next whole hour strictly after `now_millis`. Never negative.
pub fn millis_until_next_hour(now_millis: i64) -> (r: u64)
    ensures
        r as int == until_next_hour(now_millis as int),
        0 < r <= HOUR_MILLIS,
{
    let hour: i64 = 3_600_000;
    let rem: i64 = if now_millis >= 0 {
        now_millis % hour
    } else {
        let back: i64 = (-(now_millis + 1)) % hour;
        hour - 1 - back
    };
    (hour - rem) as u64
}

/// Where a cycle stands.
#[derive(Clone, Copy, Debug, PartialEq, Eq, Structural)]
pub enum Phase {
    /// Between cycles: a new cycle may start.
    Idle,
    /// A source is being queried.
    Querying,
    /// A source has answered and asked for a wait before its items count.
    Waiting,
    /// A notification is being delivered.
    Delivering,
}

/// What the outside world reports back to the scheduler.
#[derive(Debug)]
pub enum Event {
    /// Start a cycle (at launch, and after each sleep).
    Start,
    /// The source being queried answered, or the query failed.
    Answered(Result<Response<SearchExcerpt>, CycleError>),
    /// The wait that the last answer asked for is over.
    WaitOver,
    /// The delivery finished, at `now_millis` since the Unix epoch.
    Delivered { outcome: Result<(), CycleError>, now_millis: i64 },
}

/// What the scheduler asks the outside world to do next.
#[derive(Debug)]
pub enum Action {
    /// Query `site` for `term`.
    Query { site: String, term: String },
    /// Wait this many seconds, as the last answer asked.
    Wait { seconds: u64 },
    /// Deliver this notification.
    Deliver(Message),
    /// The cycle is over: report `failure` if there is one, then sleep.
    Sleep { millis: u64, failure: Option<CycleError> },
}

/// The excerpts of one source, each tagged with the source's position.
pub open spec fn tagged(k: usize, items: Seq<SearchExcerpt>) -> Seq<(usize, SearchExcerpt)> {
    items.map_values(|x: SearchExcerpt| (k, x))
}

/// The event that an action leads to is one that `phase` takes.
pub open spec fn phase_after(a: Action) -> Phase {
    match a {
        Action::Query { .. } => Phase::Querying,
        Action::Wait { .. } => Phase::Waiting,
        Action::Deliver(_) => Phase::Delivering,
        Action::Sleep { .. } => Phase::Idle,
    }
}

pub open spec fn takes(phase: Phase, e: Event) -> bool {
    match e {
        Event::Start => phase == Phase::Idle,
        Event::Answered(_) => phase == Phase::Querying,
        Event::WaitOver => phase == Phase::Waiting,
        Event::Delivered { .. } => phase == Phase::Delivering,
    }
}

pub open spec fn is_sleep(a: Action, millis: int, failure: Option<CycleError>) -> bool {
    a is Sleep && a->millis == millis && a->failure == failure
}

/// The candidates of a cycle over two sources that answered `first` and
/// `second` hold every item of both, each once, tagged with its source: so a
/// uniform pick among them chooses the first source with odds
/// `first.len()` to `second.len()`.
pub proof fn lemma_merged_candidates(first: Seq<SearchExcerpt>, second: Seq<SearchExcerpt>)
    ensures
        ({
            let c = Seq::<(usize, SearchExcerpt)>::empty() + tagged(0, first) + tagged(1, second);
            &&& c.len() == first.len() + second.len()
            &&& forall|i: int| 0 <= i < first.len() ==> #[trigger] c[i] == (0usize, first[i])
            &&& forall|j: int|
                0 <= j < second.len() ==> #[trigger] c[first.len() + j] == (1usize, second[j])
        }),
{
    let c = Seq::<(usize, SearchExcerpt)>::empty() + tagged(0, first) + tagged(1, second);
    assert forall|j: int| 0 <= j < second.len() implies #[trigger] c[first.len() + j] == (
    1usize, second[j]) by {
        assert(c[first.len() + j] == tagged(1, second)[j]);
    }
}

/// Drives cycles over a fixed, ordered list of sources: each cycle queries
/// every source in order, honours each backoff, picks one of all the items
/// at random, delivers it, and sleeps.
#[derive(Debug)]
pub struct Scheduler {
    pub sources: Vec<String>,
    pub term: String,
    pub phase: Phase,
    /// The position of the source being queried or waited on.
    pub next: usize,
    /// The items gathered so far in this cycle, in source order.
    pub collected: Vec<(usize, SearchExcerpt)>,
    /// The items of an answer whose backoff is being waited out.
    pub held: Vec<SearchExcerpt>,
}

impl Scheduler {
    pub open spec fn wf(&self) -> bool {
        &&& self.next <= self.sources@.len()
        &&& (self.phase == Phase::Querying || self.phase == Phase::Waiting) ==> self.next
            < self.sources@.len()
        &&& forall|i: int|
            0 <= i < self.collected@.len() ==> #[trigger] self.collected@[i].0
                < self.sources@.len()
    }

    /// This state queries source `k`, with `candidates` gathered before it.
    pub open spec fn queries(&self, a: Action, k: int) -> bool {
        &&& self.phase == Phase::Querying
        &&& self.next == k
        &&& a is Query
        &&& a->site@ == self.sources@[k]@
        &&& a->term@ == self.term@
    }

    /// Gathering is over with `candidates`: deliver one of them, or fail the
    /// cycle when there is none.
    pub open spec fn concludes(&self, a: Action, candidates: Seq<(usize, SearchExcerpt)>) -> bool {
        &&& self.collected@.len() == 0
        &&& candidates.len() == 0 ==> self.phase == Phase::Idle && is_sleep(
            a,
            RETRY_MILLIS as int,
            Some(CycleError::EmptyResult),
        )
        &&& candidates.len() > 0 ==> self.phase == Phase::Delivering && a is Deliver && exists|
            i: int,
        |
            0 <= i < candidates.len() && is_message_for(
                a->Deliver_0,
                self.sources@[#[trigger] candidates[i].0 as int]@,
                candidates[i].1,
            )
    }

    /// With `candidates` gathered from the sources before `k`: query source
    /// `k` if there is one, else conclude.
    pub open spec fn proceeds(&self, a: Action, k: int, candidates: Seq<(usize, SearchExcerpt)>) -> bool {
        if k < self.sources@.len() {
            self.queries(a, k) && self.collected@ == candidates
        } else {
            self.concludes(a, candidates)
        }
    }

    pub fn new(sources: Vec<String>, term: String) -> (r: Scheduler)
        ensures
            r.wf(),
            r.phase == Phase::Idle,
            r.sources@ == sources@,
            r.term@ == term@,
            r.collected@.len() == 0,
    {
        Scheduler { sources, term, phase: Phase::Idle, next: 0, collected: Vec::new(), held: Vec::new() }
    }

    /// Whether `e` is an event that the scheduler waits for now.
    pub fn accepts(&self, e: &Event) -> (r: bool)
        ensures
            r == takes(self.phase, *e),
    {
        match e {
            Event::Start => self.phase == Phase::Idle,
            Event::Answered(_) => self.phase == Phase::Querying,
            Event::WaitOver => self.phase == Phase::Waiting,
            Event::Delivered { .. } => self.phase == Phase::Delivering,
        }
    }

    fn gather(&mut self, k: usize, items: Vec<SearchExcerpt>)
        requires
            k < old(self).sources@.len(),
            old(self).wf(),
        ensures
            final(self).collected@ == old(self).collected@ + tagged(k, items@),
            final(self).wf(),
            final(self).sources == old(self).sources,
            final(self).term == old(self).term,
            final(self).phase == old(self).phase,
            final(self).next == old(self).next,
    {
        let ghost orig = items@;
        let ghost start = self.collected@;
        let mut items = items;
        let n: usize = items.len();
        let mut i: usize = 0;
        while items.len() > 0
            invariant
                n == orig.len(),
                i <= orig.len(),
                items@ == orig.subrange(i as int, orig.len() as int),
                self.collected@ == start + tagged(k, orig.subrange(0, i as int)),
                k < self.sources@.len(),
                self.wf(),
                self.sources == old(self).sources,
                self.term == old(self).term,
                self.phase == old(self).phase,
                self.next == old(self).next,
            decreases items@.len(),
        {
            assert(items@.len() == orig.len() - i);
            let x = items.remove(0);
            self.collected.push((k, x));
            assert(tagged(k, orig.subrange(0, i + 1)) =~= tagged(k, orig.subrange(0, i as int)).push(
                (k, x),
            ));
            i += 1;
        }
        assert(orig.subrange(0, i as int) =~= orig);
    }

    /// Moves on from the source at `next`, which has been fully gathered.
    fn advance(&mut self)
        requires
            old(self).wf(),
            old(self).next < old(self).sources@.len(),
        ensures
            final(self).wf(),
            final(self).next == old(self).next + 1,
            final(self).phase == Phase::Idle,
            final(self).collected == old(self).collected,
            final(self).sources == old(self).sources,
            final(self).term == old(self).term,
    {
        let _count: usize = self.sources.len();
        self.next = self.next + 1;
        self.phase = Phase::Idle;
    }

    /// Queries the source at `next`, or, once every source has answered,
    /// picks a candidate and delivers it.
    fn proceed(&mut self) -> (a: Action)
        requires
            old(self).wf(),
        ensures
            final(self).wf(),
            final(self).proceeds(a, old(self).next as int, old(self).collected@),
            final(self).phase == phase_after(a),
            final(self).sources == old(self).sources,
            final(self).term == old(self).term,
    {
        if self.next < self.sources.len() {
            self.phase = Phase::Querying;
            let site = self.sources[self.next].clone();
            let term = self.term.clone();
            return Action::Query { site, term };
        }
        let mut candidates: Vec<(usize, SearchExcerpt)> = Vec::new();
        std::mem::swap(&mut candidates, &mut self.collected);
        let ghost all = candidates@;
        match pick_excerpt(candidates) {
            Err(failure) => {
                self.phase = Phase::Idle;
                Action::Sleep { millis: RETRY_MILLIS, failure: Some(failure) }
            },
            Ok((k, x)) => {
                proof {
                    let i = choose|i: int| 0 <= i < all.len() && all[i] == (k, x);
                    assert(all[i].0 < self.sources@.len());
                }
                let message = make_message(self.sources[k].as_str(), x);
                self.phase = Phase::Delivering;
                Action::Deliver(message)
            },
        }
    }
    /// Takes the event that the last action led to and returns the next
    /// action. A cycle queries every source in list order; any failed query
    /// ends it at once, dropping what earlier sources returned; an answer's
    /// items count only after its backoff has been waited out; all items are
    /// merged and one is picked at random for delivery. After a delivered
    /// notification the scheduler sleeps until the next whole hour; after any
    /// failure it sleeps the retry interval. Every sleep is followed by a new
    /// cycle, so the scheduler never stops.
    pub fn step(&mut self, e: Event) -> (a: Action)
        requires
            old(self).wf(),
            takes(old(self).phase, e),
        ensures
            final(self).wf(),
            final(self).phase == phase_after(a),
            final(self).sources@ == old(self).sources@,
            final(self).term@ == old(self).term@,
            e is Start ==> final(self).proceeds(a, 0, Seq::empty()),
            e matches Event::Answered(Err(failure)) ==> final(self).collected@.len() == 0
                && is_sleep(a, RETRY_MILLIS as int, Some(failure)),
            e matches Event::Answered(Ok(resp)) ==> (resp.backoff > 0 ==> {
                &&& a == Action::Wait { seconds: resp.backoff }
                &&& final(self).next == old(self).next
                &&& final(self).held@ == resp.items@
                &&& final(self).collected@ == old(self).collected@
            }) && (resp.backoff == 0 ==> final(self).proceeds(
                a,
                old(self).next + 1,
                old(self).collected@ + tagged(old(self).next, resp.items@),
            )),
            e is WaitOver ==> final(self).proceeds(
                a,
                old(self).next + 1,
                old(self).collected@ + tagged(old(self).next, old(self).held@),
            ),
            e matches Event::Delivered { outcome: Ok(_), now_millis } ==> is_sleep(
                a,
                until_next_hour(now_millis as int),
                None,
            ),
            e matches Event::Delivered { outcome: Err(failure), now_millis: _ } ==> is_sleep(
                a,
                RETRY_MILLIS as int,
                Some(failure),
            ),
    {
        match e {
            Event::Start => {
                self.next = 0;
                self.collected = Vec::new();
                self.held = Vec::new();
                self.proceed()
            },
            Event::Answered(Err(failure)) => {
                self.collected = Vec::new();
                self.held = Vec::new();
                self.phase = Phase::Idle;
                Action::Sleep { millis: RETRY_MILLIS, failure: Some(failure) }
            },
            Event::Answered(Ok(resp)) => {
                let ghost items = resp.items@;
                let (wait, items_now) = resp.delayed();
                match wait {
                    Some(seconds) => {
                        self.held = items_now;
                        self.phase = Phase::Waiting;
                        Action::Wait { seconds }
                    },
                    None => {
                        self.gather(self.next, items_now);
                        self.advance();
                        self.proceed()
                    },
                }
            },
            Event::WaitOver => {
                let mut held: Vec<SearchExcerpt> = Vec::new();
                std::mem::swap(&mut held, &mut self.held);
                self.gather(self.next, held);
                self.advance();
                self.proceed()
            },
            Event::Delivered { outcome: Ok(_), now_millis } => {
                self.phase = Phase::Idle;
                Action::Sleep { millis: millis_until_next_hour(now_millis), failure: None }
            },
            Event::Delivered { outcome: Err(failure), now_millis: _ } => {
                self.phase = Phase::Idle;
                Action::Sleep { millis: RETRY_MILLIS, failure: Some(failure) }
            },
        }
    }
}

} // verus!
