//! In-process frequency caps.
//!
//! Counts of the impressions that this process served are kept in memory and are
//! authoritative for the lifetime of the process; every impression is also handed
//! out as write-behind operations for the shared store. The first request for a
//! (user, campaign) pair falls through to the shared store, and the counts that
//! it answers with are cached. The cache holds at most `cap_capacity` users: past
//! that, new users are not cached and read through on every request.
use crate::breaker::CircuitBreaker;
use crate::frequency::store::{
    cap_counts, counts_get, counts_insert, counts_new, slots_get, slots_insert, slots_len,
    slots_new, user_slots,
};
use crate::frequency::{reaches, CapResult, CapWindow, FreqCapOutcome};
use crate::model::candidate::AdCandidate;
use crate::span::Span;
use dashmap::DashMap;
use vstd::prelude::*;

verus! {

/// A counter one further; the largest value is followed by the smallest.
pub open spec fn bumped(n: i64) -> i64 {
    if n == i64::MAX {
        i64::MIN
    } else {
        (n + 1) as i64
    }
}

/// Per-(user, campaign, window) counter.
#[derive(Debug, Clone, Copy)]
pub struct AtomicCounter {
    pub value: i64,
}

impl AtomicCounter {
    /// The current count.
    pub fn load(&self) -> (n: i64)
        ensures
            n == self.value,
    {
        self.value
    }

    /// Counts one, and returns the new count.
    pub fn incr(&mut self) -> (n: i64)
        ensures
            n == bumped(old(self).value),
            final(self).value == n,
    {
        self.value = self.value.wrapping_add(1);
        self.value
    }
}

impl Default for AtomicCounter {
    /// A counter at zero.
    fn default() -> (c: Self)
        ensures
            c.value == 0,
    {
        AtomicCounter { value: 0 }
    }
}

/// One increment destined for the shared store.
#[derive(Debug, Clone)]
pub struct WriteBehindOp {
    pub user_id: String,
    pub campaign_id: u32,
    pub window: CapWindow,
}

/// Configuration of the in-process cache.
#[derive(Debug, Clone, Copy)]
pub struct InProcessConfig {
    /// Maximum users tracked. Beyond this, new users are not cached.
    pub cap_capacity: usize,
    /// Write-behind channel depth.
    pub write_buffer_size: usize,
    /// Flush cadence of the write-behind queue.
    pub flush_interval: Span,
}

impl Default for InProcessConfig {
    fn default() -> (cfg: Self)
        ensures
            cfg.cap_capacity == 500_000,
            cfg.write_buffer_size == 65_536,
            cfg.flush_interval.nanos == 1_000_000_000,
    {
        InProcessConfig {
            cap_capacity: 500_000,
            write_buffer_size: 65_536,
            flush_interval: Span::from_secs(1),
        }
    }
}

/// Day and hour counts by campaign, of one user.
pub type UserCaps = Map<u32, (i64, i64)>;

/// The cached counts of all users.
pub type CapTable = Map<Seq<char>, UserCaps>;

/// The counts of a user; none if the user is not cached.
pub open spec fn caps_of(table: CapTable, user_id: Seq<char>) -> UserCaps {
    if table.contains_key(user_id) {
        table[user_id]
    } else {
        Map::empty()
    }
}

/// Whether the cache has, or may take up, an entry for the user.
pub open spec fn has_room(table: CapTable, capacity: usize, user_id: Seq<char>) -> bool {
    table.contains_key(user_id) || table.dom().len() < capacity
}

/// The cached counts of a (user, campaign) pair.
pub open spec fn counts_of(table: CapTable, user_id: Seq<char>, campaign_id: u32) -> Option<
    (i64, i64),
> {
    if caps_of(table, user_id).contains_key(campaign_id) {
        Some(caps_of(table, user_id)[campaign_id])
    } else {
        None
    }
}

/// The cache after an impression: both counts of the pair go up by one, unless the
/// user is new and the cache is full.
pub open spec fn after_impression(
    table: CapTable,
    capacity: usize,
    user_id: Seq<char>,
    campaign_id: u32,
) -> CapTable {
    if has_room(table, capacity, user_id) {
        let (day, hour) = match counts_of(table, user_id, campaign_id) {
            Some(counts) => counts,
            None => (0i64, 0i64),
        };
        table.insert(
            user_id,
            caps_of(table, user_id).insert(campaign_id, (bumped(day), bumped(hour))),
        )
    } else {
        table
    }
}

/// The cache after an answer of the shared store: the counts of the answer are
/// taken over for a pair that is not cached yet, unless the answer has no counts,
/// or the user is new and the cache is full.
pub open spec fn after_answer(
    table: CapTable,
    capacity: usize,
    user_id: Seq<char>,
    answer: CapResult,
) -> CapTable {
    match (answer.day_count, answer.hour_count) {
        (Some(day), Some(hour)) => if has_room(table, capacity, user_id) && counts_of(
            table,
            user_id,
            answer.campaign_id,
        ) is None {
            table.insert(
                user_id,
                caps_of(table, user_id).insert(answer.campaign_id, (day, hour)),
            )
        } else {
            table
        },
        _ => table,
    }
}

/// The cache after a list of answers.
pub open spec fn after_answers(
    table: CapTable,
    capacity: usize,
    user_id: Seq<char>,
    answers: Seq<CapResult>,
) -> CapTable
    decreases answers.len(),
{
    if answers.len() == 0 {
        table
    } else {
        after_answer(
            after_answers(table, capacity, user_id, answers.drop_last()),
            capacity,
            user_id,
            answers.last(),
        )
    }
}

/// The results with one answer taken over by the first result for its campaign.
pub open spec fn patched_with(results: Seq<CapResult>, answer: CapResult) -> Seq<CapResult> {
    Seq::new(
        results.len(),
        |i: int|
            if results[i].campaign_id == answer.campaign_id && forall|j: int|
                0 <= j < i ==> (#[trigger] results[j]).campaign_id != answer.campaign_id {
                answer
            } else {
                results[i]
            },
    )
}

/// The results with a list of answers taken over.
pub open spec fn patched(results: Seq<CapResult>, answers: Seq<CapResult>) -> Seq<CapResult>
    decreases answers.len(),
{
    if answers.len() == 0 {
        results
    } else {
        patched_with(patched(results, answers.drop_last()), answers.last())
    }
}

/// The verdict on a candidate from the cache alone: a cached pair is capped once
/// either count reaches its cap; a pair that is not cached is not capped.
pub open spec fn cached_verdict(table: CapTable, user_id: Seq<char>, c: AdCandidate) -> CapResult {
    CapResult {
        campaign_id: c.campaign_id,
        capped: match counts_of(table, user_id, c.campaign_id) {
            Some((day, hour)) => reaches(day, c.daily_cap_imps) || reaches(
                hour,
                c.hourly_cap_imps,
            ),
            None => false,
        },
        day_count: None,
        hour_count: None,
    }
}

/// The candidates whose pair is not cached, in order.
pub open spec fn cold(
    table: CapTable,
    user_id: Seq<char>,
    candidates: Seq<AdCandidate>,
) -> Seq<AdCandidate> {
    candidates.filter(|c: AdCandidate| counts_of(table, user_id, c.campaign_id) is None)
}

/// A recorded impression: what to write to the shared store, and whether the cache
/// counted it.
#[derive(Debug, Clone)]
pub struct RecordedImpression {
    pub day: WriteBehindOp,
    pub hour: WriteBehindOp,
    pub cached: bool,
}

/// The first half of a check.
#[derive(Debug, Clone)]
pub enum CheckPlan {
    /// The breaker is open: freq capping is skipped.
    Skip,
    /// The verdicts from the cache, and the candidates to ask the shared store for.
    Read { results: Vec<CapResult>, cold: Vec<AdCandidate> },
}

/// Caches per-user impression counts in front of a shared store.
pub struct InProcessFrequencyCapper {
    slots: DashMap<String, usize>,
    users: Vec<DashMap<u32, (i64, i64)>>,
    cap_capacity: usize,
}

impl View for InProcessFrequencyCapper {
    type V = CapTable;

    closed spec fn view(&self) -> CapTable {
        Map::new(
            |u: Seq<char>| user_slots(self.slots).contains_key(u),
            |u: Seq<char>| cap_counts(self.users@[user_slots(self.slots)[u] as int]),
        )
    }
}

impl InProcessFrequencyCapper {
    /// Every user has a slot of its own.
    pub closed spec fn wf(self) -> bool {
        let slots = user_slots(self.slots);
        &&& slots.dom().finite()
        &&& forall|u: Seq<char>| #[trigger] slots.contains_key(u) ==> slots[u] < self.users@.len()
        &&& forall|u: Seq<char>, v: Seq<char>|
            #![trigger slots[u], slots[v]]
            slots.contains_key(u) && slots.contains_key(v) && u != v ==> slots[u] != slots[v]
    }

    /// The number of users that the cache may hold.
    pub closed spec fn capacity(self) -> usize {
        self.cap_capacity
    }

    /// An empty cache.
    pub fn new(cfg: InProcessConfig) -> (c: Self)
        ensures
            c.wf(),
            c@ == Map::<Seq<char>, UserCaps>::empty(),
            c.capacity() == cfg.cap_capacity,
    {
        let c = InProcessFrequencyCapper {
            slots: slots_new(),
            users: Vec::new(),
            cap_capacity: cfg.cap_capacity,
        };
        assert(c@ =~= Map::<Seq<char>, UserCaps>::empty());
        c
    }

    /// The number of users in the cache.
    pub fn len(&self) -> (n: usize)
        requires
            self.wf(),
        ensures
            n == self@.dom().len(),
    {
        assert(self@.dom() =~= user_slots(self.slots).dom());
        slots_len(&self.slots)
    }

    /// Look up a single (user, campaign) pair in the in-process cache.
    /// Returns `Some((day_count, hour_count))` if the pair is hot in cache,
    /// `None` if cold (caller falls through to the shared store).
    pub fn lookup(&self, user_id: &str, campaign_id: u32) -> (counts: Option<(i64, i64)>)
        requires
            self.wf(),
        ensures
            counts == counts_of(self@, user_id@, campaign_id),
    {
        match slots_get(&self.slots, user_id) {
            Some(slot) => counts_get(&self.users[slot], campaign_id),
            None => None,
        }
    }

    /// Whether the user is cached or the cache may take it up.
    fn admits(&self, user_id: &str) -> (b: bool)
        requires
            self.wf(),
        ensures
            b == has_room(self@, self.capacity(), user_id@),
    {
        match slots_get(&self.slots, user_id) {
            Some(_) => true,
            None => self.len() < self.cap_capacity,
        }
    }

    /// Sets the counts of a pair.
    fn put(&mut self, user_id: &str, campaign_id: u32, counts: (i64, i64))
        requires
            old(self).wf(),
        ensures
            final(self).wf(),
            final(self).capacity() == old(self).capacity(),
            final(self)@ == old(self)@.insert(
                user_id@,
                caps_of(old(self)@, user_id@).insert(campaign_id, counts),
            ),
    {
        let ghost before = self@;
        match slots_get(&self.slots, user_id) {
            Some(slot) => {
                counts_insert(&mut self.users[slot], campaign_id, counts);
            },
            None => {
                let mut caps = counts_new();
                counts_insert(&mut caps, campaign_id, counts);
                let slot: usize = self.users.len();
                slots_insert(&mut self.slots, user_id.to_owned(), slot);
                self.users.push(caps);
                assert(cap_counts(caps) =~= Map::<u32, (i64, i64)>::empty().insert(
                    campaign_id,
                    counts,
                ));
            },
        }
        assert(self@ =~= before.insert(
            user_id@,
            caps_of(before, user_id@).insert(campaign_id, counts),
        ));
    }

    /// Record an impression: counts it in the cache, and returns the increments
    /// to write to the shared store, which is authoritative. The increments are
    /// due also where a full cache did not count the impression.
    pub fn record_impression(&mut self, user_id: &str, campaign_id: u32) -> (r: RecordedImpression)
        requires
            old(self).wf(),
        ensures
            final(self).wf(),
            final(self).capacity() == old(self).capacity(),
            final(self)@ == after_impression(
                old(self)@,
                old(self).capacity(),
                user_id@,
                campaign_id,
            ),
            r.cached == has_room(old(self)@, old(self).capacity(), user_id@),
            r.day.user_id@ == user_id@,
            r.day.campaign_id == campaign_id,
            r.day.window == CapWindow::Day,
            r.hour.user_id@ == user_id@,
            r.hour.campaign_id == campaign_id,
            r.hour.window == CapWindow::Hour,
    {
        let cached = self.admits(user_id);
        if cached {
            let mut day = AtomicCounter::default();
            let mut hour = AtomicCounter::default();
            if let Some((d, h)) = self.lookup(user_id, campaign_id) {
                day = AtomicCounter { value: d };
                hour = AtomicCounter { value: h };
            }
            self.put(user_id, campaign_id, (day.incr(), hour.incr()));
        }
        RecordedImpression {
            day: WriteBehindOp { user_id: user_id.to_owned(), campaign_id, window: CapWindow::Day },
            hour: WriteBehindOp {
                user_id: user_id.to_owned(),
                campaign_id,
                window: CapWindow::Hour,
            },
            cached,
        }
    }

    /// Starts a check. When the breaker does not allow a request, the possibly
    /// stale cache is not served either: the check is skipped.
    pub fn begin_check(
        &self,
        breaker: &mut CircuitBreaker,
        now: Span,
        user_id: &str,
        candidates: &[AdCandidate],
    ) -> (plan: CheckPlan)
        requires
            self.wf(),
        ensures
            *final(breaker) == old(breaker).after_request(now),
            match plan {
                CheckPlan::Skip => !old(breaker).allows(now),
                CheckPlan::Read { results, cold: misses } => {
                    &&& old(breaker).allows(now)
                    &&& results@ == candidates@.map_values(
                        |c: AdCandidate| cached_verdict(self@, user_id@, c),
                    )
                    &&& misses@ == cold(self@, user_id@, candidates@)
                },
            },
    {
        if !breaker.allow_request(now) {
            return CheckPlan::Skip;
        }
        let mut results: Vec<CapResult> = Vec::with_capacity(candidates.len());
        let mut misses: Vec<AdCandidate> = Vec::new();
        let n: usize = candidates.len();
        proof {
            reveal(Seq::filter);
        }
        assert(misses@ =~= cold(self@, user_id@, candidates@.take(0)));
        for i in 0..n
            invariant
                n == candidates@.len(),
                self.wf(),
                results@.len() == i,
                forall|j: int|
                    0 <= j < i ==> #[trigger] results@[j] == cached_verdict(
                        self@,
                        user_id@,
                        candidates@[j],
                    ),
                misses@ == cold(self@, user_id@, candidates@.take(i as int)),
        {
            proof {
                reveal(Seq::filter);
                assert(candidates@.take(i + 1).drop_last() =~= candidates@.take(i as int));
                assert(candidates@.take(i + 1).last() == candidates@[i as int]);
            }
            let c = candidates[i];
            match self.lookup(user_id, c.campaign_id) {
                Some((day, hour)) => {
                    let capped = reached(day, c.daily_cap_imps) || reached(
                        hour,
                        c.hourly_cap_imps,
                    );
                    results.push(
                        CapResult {
                            campaign_id: c.campaign_id,
                            capped,
                            day_count: None,
                            hour_count: None,
                        },
                    );
                },
                None => {
                    misses.push(c);
                    results.push(
                        CapResult {
                            campaign_id: c.campaign_id,
                            capped: false,
                            day_count: None,
                            hour_count: None,
                        },
                    );
                },
            }
        }
        assert(candidates@.take(n as int) =~= candidates@);
        assert(results@ =~= candidates@.map_values(
            |c: AdCandidate| cached_verdict(self@, user_id@, c),
        ));
        CheckPlan::Read { results, cold: misses }
    }

    /// Finishes a check with what the shared store answered for the cold
    /// candidates. Its verdicts replace the placeholders, and its counts are
    /// cached. Where the store could not serve them either, cold candidates count
    /// as not capped.
    pub fn finish_check(
        &mut self,
        user_id: &str,
        results: Vec<CapResult>,
        fallback: FreqCapOutcome,
    ) -> (outcome: FreqCapOutcome)
        requires
            old(self).wf(),
        ensures
            final(self).wf(),
            final(self).capacity() == old(self).capacity(),
            match fallback {
                FreqCapOutcome::Checked(answers) => {
                    &&& outcome is Checked
                    &&& outcome->Checked_0@ == patched(results@, answers@)
                    &&& final(self)@ == after_answers(
                        old(self)@,
                        old(self).capacity(),
                        user_id@,
                        answers@,
                    )
                },
                _ => outcome == FreqCapOutcome::Checked(results) && final(self)@ == old(self)@,
            },
    {
        let answers = match fallback {
            FreqCapOutcome::Checked(answers) => answers,
            _ => {
                return FreqCapOutcome::Checked(results);
            },
        };
        let mut results = results;
        let ghost placeholders = results@;
        let n: usize = answers.len();
        for i in 0..n
            invariant
                n == answers@.len(),
                self.wf(),
                self.capacity() == old(self).capacity(),
                results@ == patched(placeholders, answers@.take(i as int)),
                self@ == after_answers(
                    old(self)@,
                    old(self).capacity(),
                    user_id@,
                    answers@.take(i as int),
                ),
        {
            assert(answers@.take(i + 1).drop_last() =~= answers@.take(i as int));
            let answer = answers[i];
            patch(&mut results, answer);
            self.warm(user_id, answer);
        }
        assert(answers@.take(n as int) =~= answers@);
        FreqCapOutcome::Checked(results)
    }

    /// Caches the counts of an answer.
    fn warm(&mut self, user_id: &str, answer: CapResult)
        requires
            old(self).wf(),
        ensures
            final(self).wf(),
            final(self).capacity() == old(self).capacity(),
            final(self)@ == after_answer(old(self)@, old(self).capacity(), user_id@, answer),
    {
        if let (Some(day), Some(hour)) = (answer.day_count, answer.hour_count) {
            if self.admits(user_id) && self.lookup(user_id, answer.campaign_id).is_none() {
                self.put(user_id, answer.campaign_id, (day, hour));
            }
        }
    }
}

/// Whether `count` impressions reach a cap.
fn reached(count: i64, cap: u32) -> (b: bool)
    ensures
        b == reaches(count, cap),
{
    count > 0 && count >= cap as i64
}

/// Takes an answer over into the first result for its campaign.
fn patch(results: &mut Vec<CapResult>, answer: CapResult)
    ensures
        final(results)@ == patched_with(old(results)@, answer),
{
    let n: usize = results.len();
    let mut i: usize = 0;
    while i < n
        invariant
            i <= n == results@.len(),
            results@ == old(results)@,
            forall|j: int| 0 <= j < i ==> (#[trigger] results@[j]).campaign_id != answer.campaign_id,
        decreases n - i,
    {
        if results[i].campaign_id == answer.campaign_id {
            results.set(i, answer);
            assert(results@ =~= patched_with(old(results)@, answer));
            return ;
        }
        i += 1;
    }
    assert(results@ =~= patched_with(old(results)@, answer));
}

/// An impression is read back: where the cache has room for the user, both counts
/// of the pair are one higher afterwards.
pub proof fn law_impression_is_read_back(
    table: CapTable,
    capacity: usize,
    user_id: Seq<char>,
    campaign_id: u32,
)
    requires
        has_room(table, capacity, user_id),
    ensures
        counts_of(after_impression(table, capacity, user_id, campaign_id), user_id, campaign_id)
            == Some(
            match counts_of(table, user_id, campaign_id) {
                Some((day, hour)) => (bumped(day), bumped(hour)),
                None => (1i64, 1i64),
            },
        ),
{
}

/// An impression changes the counts of its own pair only.
pub proof fn law_impression_is_local(
    table: CapTable,
    capacity: usize,
    user_id: Seq<char>,
    campaign_id: u32,
    other_user: Seq<char>,
    other_campaign: u32,
)
    requires
        other_user != user_id || other_campaign != campaign_id,
    ensures
        counts_of(
            after_impression(table, capacity, user_id, campaign_id),
            other_user,
            other_campaign,
        ) == counts_of(table, other_user, other_campaign),
{
}

/// The capacity is a hard bound: a cache that holds no more users than it may
/// holds no more after an impression or after any answers.
pub proof fn law_capacity_is_never_exceeded(
    table: CapTable,
    capacity: usize,
    user_id: Seq<char>,
    campaign_id: u32,
    answers: Seq<CapResult>,
)
    requires
        table.dom().finite(),
        table.dom().len() <= capacity,
    ensures
        after_impression(table, capacity, user_id, campaign_id).dom().finite(),
        after_impression(table, capacity, user_id, campaign_id).dom().len() <= capacity,
        after_answers(table, capacity, user_id, answers).dom().finite(),
        after_answers(table, capacity, user_id, answers).dom().len() <= capacity,
    decreases answers.len(),
{
    if answers.len() > 0 {
        law_capacity_is_never_exceeded(
            table,
            capacity,
            user_id,
            campaign_id,
            answers.drop_last(),
        );
    }
}

/// A full cache takes up no new user, and keeps counting for the users it has.
pub proof fn law_full_cache_serves_known_users(
    table: CapTable,
    capacity: usize,
    user_id: Seq<char>,
    campaign_id: u32,
)
    requires
        table.dom().len() >= capacity,
    ensures
        !table.contains_key(user_id) ==> after_impression(table, capacity, user_id, campaign_id)
            == table,
        table.contains_key(user_id) ==> counts_of(
            after_impression(table, capacity, user_id, campaign_id),
            user_id,
            campaign_id,
        ) is Some,
{
}

/// The cache after `n` impressions of one pair.
pub open spec fn after_impressions(
    table: CapTable,
    capacity: usize,
    user_id: Seq<char>,
    campaign_id: u32,
    n: nat,
) -> CapTable
    decreases n,
{
    if n == 0 {
        table
    } else {
        after_impression(
            after_impressions(table, capacity, user_id, campaign_id, (n - 1) as nat),
            capacity,
            user_id,
            campaign_id,
        )
    }
}

/// The cap holds: after a first impression, the verdict on a pair is "capped" as
/// soon as the impressions reach either cap, and not before.
pub proof fn law_cap_is_enforced(
    table: CapTable,
    capacity: usize,
    user_id: Seq<char>,
    c: AdCandidate,
    n: nat,
)
    requires
        has_room(table, capacity, user_id),
        counts_of(table, user_id, c.campaign_id) is None,
        1 <= n <= i64::MAX,
    ensures
        cached_verdict(
            after_impressions(table, capacity, user_id, c.campaign_id, n),
            user_id,
            c,
        ).capped <==> n >= c.daily_cap_imps || n >= c.hourly_cap_imps,
{
    lemma_impressions_count(table, capacity, user_id, c.campaign_id, n);
}

proof fn lemma_impressions_count(
    table: CapTable,
    capacity: usize,
    user_id: Seq<char>,
    campaign_id: u32,
    n: nat,
)
    requires
        has_room(table, capacity, user_id),
        counts_of(table, user_id, campaign_id) is None,
        1 <= n <= i64::MAX,
    ensures
        after_impressions(table, capacity, user_id, campaign_id, n).contains_key(user_id),
        counts_of(
            after_impressions(table, capacity, user_id, campaign_id, n),
            user_id,
            campaign_id,
        ) == Some((n as i64, n as i64)),
    decreases n,
{
    reveal_with_fuel(after_impressions, 2);
    if n > 1 {
        lemma_impressions_count(table, capacity, user_id, campaign_id, (n - 1) as nat);
    }
}

/// An answer with counts makes its pair hot: the next check finds it in the cache.
pub proof fn law_answer_warms_the_cache(
    table: CapTable,
    capacity: usize,
    user_id: Seq<char>,
    answer: CapResult,
)
    requires
        has_room(table, capacity, user_id),
        answer.day_count is Some,
        answer.hour_count is Some,
    ensures
        counts_of(
            after_answer(table, capacity, user_id, answer),
            user_id,
            answer.campaign_id,
        ) is Some,
        counts_of(table, user_id, answer.campaign_id) is None ==> counts_of(
            after_answer(table, capacity, user_id, answer),
            user_id,
            answer.campaign_id,
        ) == Some((answer.day_count->0, answer.hour_count->0)),
{
}

/// Counts that are cached survive every answer: the process's own counts are
/// authoritative.
pub proof fn law_cached_counts_survive_answers(
    table: CapTable,
    capacity: usize,
    user_id: Seq<char>,
    answers: Seq<CapResult>,
    campaign_id: u32,
)
    requires
        counts_of(table, user_id, campaign_id) is Some,
    ensures
        counts_of(after_answers(table, capacity, user_id, answers), user_id, campaign_id)
            == counts_of(table, user_id, campaign_id),
    decreases answers.len(),
{
    if answers.len() > 0 {
        law_cached_counts_survive_answers(
            table,
            capacity,
            user_id,
            answers.drop_last(),
            campaign_id,
        );
    }
}

/// Where every candidate's pair is cached, nothing is asked of the shared store.
pub proof fn law_warm_candidates_need_no_read(
    table: CapTable,
    user_id: Seq<char>,
    candidates: Seq<AdCandidate>,
)
    requires
        forall|i: int|
            0 <= i < candidates.len() ==> counts_of(
                table,
                user_id,
                (#[trigger] candidates[i]).campaign_id,
            ) is Some,
    ensures
        cold(table, user_id, candidates).len() == 0,
    decreases candidates.len(),
{
    reveal(Seq::filter);
    if candidates.len() > 0 {
        law_warm_candidates_need_no_read(table, user_id, candidates.drop_last());
    }
}

/// Answers never change how many results there are, nor which campaigns they are
/// for.
pub proof fn law_answers_keep_the_campaigns(results: Seq<CapResult>, answers: Seq<CapResult>)
    ensures
        patched(results, answers).len() == results.len(),
        forall|i: int|
            0 <= i < results.len() ==> (#[trigger] patched(results, answers)[i]).campaign_id
                == results[i].campaign_id,
    decreases answers.len(),
{
    if answers.len() > 0 {
        law_answers_keep_the_campaigns(results, answers.drop_last());
    }
}

/// The day count is held against the daily cap and the hour count against the hourly
/// cap: a cached pair with impressions in both windows is capped exactly if either
/// count has reached its own cap, also where the counts differ.
pub proof fn law_each_count_has_its_own_cap(
    table: CapTable,
    user_id: Seq<char>,
    c: AdCandidate,
    day: i64,
    hour: i64,
)
    requires
        table.contains_key(user_id),
        table[user_id].contains_key(c.campaign_id),
        table[user_id][c.campaign_id] == (day, hour),
    ensures
        day > 0 && hour > 0 ==> (cached_verdict(table, user_id, c).capped <==> day
            >= c.daily_cap_imps || hour >= c.hourly_cap_imps),
        day < c.daily_cap_imps && hour < c.hourly_cap_imps ==> !cached_verdict(
            table,
            user_id,
            c,
        ).capped,
        day > 0 && day >= c.daily_cap_imps ==> cached_verdict(table, user_id, c).capped,
        hour > 0 && hour >= c.hourly_cap_imps ==> cached_verdict(table, user_id, c).capped,
        day <= 0 && hour <= 0 ==> !cached_verdict(table, user_id, c).capped,
        day <= 0 && hour > 0 ==> (cached_verdict(table, user_id, c).capped <==> hour
            >= c.hourly_cap_imps),
        hour <= 0 && day > 0 ==> (cached_verdict(table, user_id, c).capped <==> day
            >= c.daily_cap_imps),
        cached_verdict(table, user_id, c).campaign_id == c.campaign_id,
{
}

/// A pair that is not cached is not capped by the cache, whatever its caps.
pub proof fn law_cold_pairs_are_not_capped(table: CapTable, user_id: Seq<char>, c: AdCandidate)
    requires
        !table.contains_key(user_id) || !table[user_id].contains_key(c.campaign_id),
    ensures
        !cached_verdict(table, user_id, c).capped,
        cached_verdict(table, user_id, c).campaign_id == c.campaign_id,
        counts_of(table, user_id, c.campaign_id) is None,
{
}

/// What is asked of the shared store: exactly the candidates whose pair the cache does
/// not hold.
pub proof fn law_cold_candidates_are_asked_for(
    table: CapTable,
    user_id: Seq<char>,
    candidates: Seq<AdCandidate>,
    c: AdCandidate,
)
    ensures
        cold(table, user_id, candidates).contains(c) <==> candidates.contains(c) && !(
        table.contains_key(user_id) && table[user_id].contains_key(c.campaign_id)),
    decreases candidates.len(),
{
    reveal(Seq::filter);
    if candidates.len() > 0 {
        let init = candidates.drop_last();
        let last = candidates.last();
        law_cold_candidates_are_asked_for(table, user_id, init, c);
        assert(candidates =~= init.push(last));
        lemma_candidate_pushed(init, last, c);
        lemma_candidate_pushed(cold(table, user_id, init), last, c);
    }
}

proof fn lemma_candidate_pushed(s: Seq<AdCandidate>, last: AdCandidate, c: AdCandidate)
    ensures
        s.push(last).contains(c) <==> s.contains(c) || c == last,
{
    if s.contains(c) {
        let i = choose|i: int| 0 <= i < s.len() && s[i] == c;
        assert(s.push(last)[i] == c);
    }
    if c == last {
        assert(s.push(last)[s.len() as int] == c);
    }
}

/// An impression counts one in the day and one in the hour, and leaves the other
/// counts of the user alone.
pub proof fn law_impression_counts_one_in_each_window(
    table: CapTable,
    capacity: usize,
    user_id: Seq<char>,
    campaign_id: u32,
    day: i64,
    hour: i64,
)
    requires
        table.contains_key(user_id),
        table[user_id].contains_key(campaign_id),
        table[user_id][campaign_id] == (day, hour),
        day < i64::MAX,
        hour < i64::MAX,
    ensures
        ({
            let after = after_impression(table, capacity, user_id, campaign_id);
            &&& after.contains_key(user_id)
            &&& after[user_id] == table[user_id].insert(
                campaign_id,
                ((day + 1) as i64, (hour + 1) as i64),
            )
            &&& after.dom() == table.dom()
        }),
{
    assert(after_impression(table, capacity, user_id, campaign_id).dom() =~= table.dom());
}

/// A new user is taken up exactly while the cache holds fewer users than its
/// capacity, and starts at one impression in each window.
pub proof fn law_new_users_need_room(
    table: CapTable,
    capacity: usize,
    user_id: Seq<char>,
    campaign_id: u32,
)
    requires
        !table.contains_key(user_id),
    ensures
        ({
            let after = after_impression(table, capacity, user_id, campaign_id);
            &&& after.contains_key(user_id) <==> table.dom().len() < capacity
            &&& after.contains_key(user_id) ==> after[user_id].contains_key(campaign_id)
                && after[user_id][campaign_id] == (1i64, 1i64) && after[user_id].dom() == set![
                campaign_id,
            ]
        }),
{
    let after = after_impression(table, capacity, user_id, campaign_id);
    if after.contains_key(user_id) {
        assert(after[user_id].dom() =~= set![campaign_id]);
    }
}

/// An answer's day count becomes the cached day count and its hour count the cached
/// hour count; an answer without both counts is not cached.
pub proof fn law_answers_are_cached_as_given(
    table: CapTable,
    capacity: usize,
    user_id: Seq<char>,
    answer: CapResult,
)
    requires
        !table.contains_key(user_id) || !table[user_id].contains_key(answer.campaign_id),
    ensures
        ({
            let after = after_answer(table, capacity, user_id, answer);
            &&& answer.day_count is None || answer.hour_count is None ==> after == table
            &&& answer.day_count is Some && answer.hour_count is Some && (table.contains_key(
                user_id,
            ) || table.dom().len() < capacity) ==> after.contains_key(user_id)
                && after[user_id].contains_key(answer.campaign_id)
                && after[user_id][answer.campaign_id].0 == answer.day_count->0
                && after[user_id][answer.campaign_id].1 == answer.hour_count->0
            &&& !table.contains_key(user_id) && table.dom().len() >= capacity ==> after == table
        }),
{
}

/// An answer touches the counts of its own user and campaign only.
pub proof fn law_answer_is_local(
    table: CapTable,
    capacity: usize,
    user_id: Seq<char>,
    answer: CapResult,
    other_user: Seq<char>,
    other_campaign: u32,
)
    requires
        other_user != user_id || other_campaign != answer.campaign_id,
    ensures
        counts_of(after_answer(table, capacity, user_id, answer), other_user, other_campaign)
            == counts_of(table, other_user, other_campaign),
{
}

/// Answers replace the results for their campaigns: where no campaign has two
/// results, each result becomes the last answer for its campaign, and stays as it is
/// where there is none.
pub proof fn law_answers_replace_the_placeholders(
    results: Seq<CapResult>,
    answers: Seq<CapResult>,
    i: int,
    k: int,
)
    requires
        0 <= i < results.len(),
        forall|a: int, b: int|
            0 <= a < b < results.len() ==> (#[trigger] results[a]).campaign_id != (
            #[trigger] results[b]).campaign_id,
        -1 <= k < answers.len(),
        k >= 0 ==> answers[k].campaign_id == results[i].campaign_id,
        forall|j: int|
            k < j < answers.len() ==> (#[trigger] answers[j]).campaign_id
                != results[i].campaign_id,
    ensures
        patched(results, answers)[i] == (if k >= 0 {
            answers[k]
        } else {
            results[i]
        }),
    decreases answers.len(),
{
    law_answers_keep_the_campaigns(results, answers);
    if answers.len() > 0 {
        let init = answers.drop_last();
        let before = patched(results, init);
        law_answers_keep_the_campaigns(results, init);
        if k == answers.len() - 1 {
            assert forall|j: int| 0 <= j < i implies (#[trigger] before[j]).campaign_id
                != answers[k].campaign_id by {
                assert(results[j].campaign_id != results[i].campaign_id);
            }
            assert(before[i].campaign_id == results[i].campaign_id);
        } else {
            assert(answers[answers.len() - 1].campaign_id != results[i].campaign_id);
            assert forall|j: int| k < j < init.len() implies (#[trigger] init[j]).campaign_id
                != results[i].campaign_id by {
                assert(answers[j].campaign_id != results[i].campaign_id);
            }
            law_answers_replace_the_placeholders(results, init, i, k);
            assert(before[i].campaign_id == results[i].campaign_id);
        }
    }
}

/// A verdict out of the cache carries no counts: those come with an answer.
pub proof fn law_cached_verdicts_carry_no_counts(table: CapTable, user_id: Seq<char>, c: AdCandidate)
    ensures
        cached_verdict(table, user_id, c).day_count is None,
        cached_verdict(table, user_id, c).hour_count is None,
{
}

/// Cold candidates are asked for in the order of the candidates, each as often as it
/// occurs.
pub proof fn law_cold_candidates_keep_their_order(
    table: CapTable,
    user_id: Seq<char>,
    candidates: Seq<AdCandidate>,
    c: AdCandidate,
)
    ensures
        ({
            let known = table.contains_key(user_id) && table[user_id].contains_key(c.campaign_id);
            let before = cold(table, user_id, candidates);
            &&& known ==> cold(table, user_id, candidates.push(c)) == before
            &&& !known ==> cold(table, user_id, candidates.push(c)) == before.push(c)
            &&& cold(table, user_id, Seq::<AdCandidate>::empty()).len() == 0
        }),
{
    reveal(Seq::filter);
    assert(candidates.push(c).drop_last() =~= candidates);
}

/// An answer replaces the first verdict on its campaign, and no other verdict.
pub proof fn law_answer_replaces_the_first_verdict(
    results: Seq<CapResult>,
    answer: CapResult,
    first: int,
    i: int,
)
    requires
        0 <= first < results.len(),
        results[first].campaign_id == answer.campaign_id,
        forall|j: int|
            0 <= j < first ==> (#[trigger] results[j]).campaign_id != answer.campaign_id,
        0 <= i < results.len(),
    ensures
        patched_with(results, answer).len() == results.len(),
        patched_with(results, answer)[first] == answer,
        i != first ==> patched_with(results, answer)[i] == results[i],
{
    if i > first {
        assert(results[first].campaign_id == answer.campaign_id);
    }
}

/// Answers are taken over one after the other.
pub proof fn law_answers_are_taken_in_turn(
    table: CapTable,
    capacity: usize,
    user_id: Seq<char>,
    results: Seq<CapResult>,
    answers: Seq<CapResult>,
    answer: CapResult,
)
    ensures
        after_answers(table, capacity, user_id, answers.push(answer)) == after_answer(
            after_answers(table, capacity, user_id, answers),
            capacity,
            user_id,
            answer,
        ),
        after_answers(table, capacity, user_id, Seq::<CapResult>::empty()) == table,
        patched(results, answers.push(answer)) == patched_with(patched(results, answers), answer),
        patched(results, Seq::<CapResult>::empty()) == results,
{
    assert(answers.push(answer).drop_last() =~= answers);
}

} // verus!
