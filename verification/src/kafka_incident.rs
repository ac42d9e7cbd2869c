//! Kafka drop-policy state machine and incident monitoring.
//!
//! The publisher reads `effective_policy()` on every send. The monitor samples
//! the published and dropped totals; when the drop rate stays above a threshold
//! for the dwell duration, the effective policy flips from the configured base to
//! `RandomSample`, so the bidder sheds load upstream. When the rate stays at or
//! below the threshold for the same dwell, it reverts to the base.
use crate::config::KafkaDropPolicy;
use crate::counter::{counted, growth};
use crate::ratio::Ratio;
use vstd::prelude::*;

verus! {

/// The policy that the publisher follows.
#[derive(Debug, Clone, Copy, PartialEq, Eq, Structural)]
pub enum EffectivePolicy {
    Newest,
    Oldest,
    RandomSample,
}

impl EffectivePolicy {
    /// The policy with a given number; unknown numbers mean `Newest`.
    pub open spec fn numbered(v: u8) -> Self {
        if v == 1 {
            EffectivePolicy::Oldest
        } else if v == 2 {
            EffectivePolicy::RandomSample
        } else {
            EffectivePolicy::Newest
        }
    }

    /// The number of the policy.
    pub open spec fn number(self) -> u8 {
        match self {
            EffectivePolicy::Newest => 0,
            EffectivePolicy::Oldest => 1,
            EffectivePolicy::RandomSample => 2,
        }
    }

    /// The policy that a configured drop policy starts with. `IncidentMode` means
    /// "start in Newest, auto-flip on sustained drops".
    pub open spec fn starting(p: KafkaDropPolicy) -> Self {
        match p {
            KafkaDropPolicy::Newest => EffectivePolicy::Newest,
            KafkaDropPolicy::Oldest => EffectivePolicy::Oldest,
            KafkaDropPolicy::RandomSample => EffectivePolicy::RandomSample,
            KafkaDropPolicy::IncidentMode => EffectivePolicy::Newest,
        }
    }

    /// The policy with a given number; unknown numbers mean `Newest`.
    pub fn from_u8(v: u8) -> (p: Self)
        ensures
            p == Self::numbered(v),
    {
        match v {
            1 => EffectivePolicy::Oldest,
            2 => EffectivePolicy::RandomSample,
            _ => EffectivePolicy::Newest,
        }
    }

    /// The number of the policy.
    pub fn to_u8(self) -> (v: u8)
        ensures
            v == self.number(),
    {
        match self {
            EffectivePolicy::Newest => 0,
            EffectivePolicy::Oldest => 1,
            EffectivePolicy::RandomSample => 2,
        }
    }
}

impl<'a> From<&'a KafkaDropPolicy> for EffectivePolicy {
    fn from(p: &'a KafkaDropPolicy) -> (e: Self) {
        match *p {
            KafkaDropPolicy::Newest => EffectivePolicy::Newest,
            KafkaDropPolicy::Oldest => EffectivePolicy::Oldest,
            KafkaDropPolicy::RandomSample => EffectivePolicy::RandomSample,
            KafkaDropPolicy::IncidentMode => EffectivePolicy::Newest,
        }
    }
}

impl<'a> vstd::std_specs::convert::FromSpecImpl<&'a KafkaDropPolicy> for EffectivePolicy {
    open spec fn obeys_from_spec() -> bool {
        true
    }

    open spec fn from_spec(p: &'a KafkaDropPolicy) -> Self {
        EffectivePolicy::starting(*p)
    }
}

/// Counters fed by the publisher, and the policy it follows.
#[derive(Debug, Clone, Copy)]
pub struct KafkaIncidentState {
    pub base_policy: EffectivePolicy,
    /// Currently active policy, by its number.
    pub effective: u8,
    pub published_total: u64,
    pub dropped_total: u64,
    /// Whether auto-flipping is enabled. Off = the publisher always uses
    /// base_policy and the monitor only reports.
    pub auto_flip: bool,
}

impl KafkaIncidentState {
    /// The active policy.
    pub open spec fn policy(self) -> EffectivePolicy {
        EffectivePolicy::numbered(self.effective)
    }

    /// A state that follows the base policy and has counted nothing.
    pub fn new(base: KafkaDropPolicy) -> (s: Self)
        ensures
            s.base_policy == EffectivePolicy::starting(base),
            s.policy() == s.base_policy,
            s.published_total == 0,
            s.dropped_total == 0,
            s.auto_flip == (base == KafkaDropPolicy::IncidentMode),
    {
        let auto_flip = match base {
            KafkaDropPolicy::IncidentMode => true,
            _ => false,
        };
        let base_policy = EffectivePolicy::from(&base);
        KafkaIncidentState {
            base_policy,
            effective: base_policy.to_u8(),
            published_total: 0,
            dropped_total: 0,
            auto_flip,
        }
    }

    /// The policy to follow for the next event.
    pub fn effective_policy(&self) -> (p: EffectivePolicy)
        ensures
            p == self.policy(),
    {
        EffectivePolicy::from_u8(self.effective)
    }

    /// Counts a published event.
    pub fn record_published(&mut self)
        ensures
            *final(self) == (KafkaIncidentState {
                published_total: counted(old(self).published_total),
                ..*old(self)
            }),
    {
        self.published_total = self.published_total.wrapping_add(1);
    }

    /// Counts a dropped event.
    pub fn record_dropped(&mut self)
        ensures
            *final(self) == (KafkaIncidentState {
                dropped_total: counted(old(self).dropped_total),
                ..*old(self)
            }),
    {
        self.dropped_total = self.dropped_total.wrapping_add(1);
    }

    /// Published and dropped events so far.
    pub fn snapshot(&self) -> (totals: (u64, u64))
        ensures
            totals == (self.published_total, self.dropped_total),
    {
        (self.published_total, self.dropped_total)
    }
}

/// A change of the effective policy.
#[derive(Debug, Clone, Copy, PartialEq, Eq, Structural)]
pub enum PolicyFlip {
    ToRandomSample,
    ToBase,
}

/// What a monitor tick observed, for gauges and logs.
#[derive(Debug, Clone, Copy, PartialEq, Eq, Structural)]
pub struct MonitorReport {
    /// Events dropped since the previous tick.
    pub dropped: u64,
    /// Events dropped or published since the previous tick.
    pub total: u128,
    /// Whether an incident was under way when the tick came.
    pub was_in_incident: bool,
    pub flip: Option<PolicyFlip>,
}

/// Watches the drop rate.
#[derive(Debug, Clone, Copy)]
pub struct IncidentMonitor {
    /// How many consecutive samples on one side of the threshold trigger a flip.
    pub dwell_ticks: u32,
    /// Drop rate above which a sample counts as over.
    pub threshold: Ratio,
    pub last_published: u64,
    pub last_dropped: u64,
    pub over_count: u32,
    pub under_count: u32,
    pub in_incident: bool,
}

/// A run of samples one longer; it stays at the largest count.
pub open spec fn longer(run: u32) -> u32 {
    if run == u32::MAX {
        run
    } else {
        (run + 1) as u32
    }
}

/// Whether the share of drops between two readings of the published and dropped
/// totals is above a threshold.
pub open spec fn drops_over(threshold: Ratio, before: (u64, u64), now: (u64, u64)) -> bool {
    let published = growth(now.0, before.0);
    let dropped = growth(now.1, before.1);
    threshold.below(dropped as int, dropped + published)
}

/// The policy after a flip, or without one.
pub open spec fn flipped(
    policy: EffectivePolicy,
    base: EffectivePolicy,
    flip: Option<PolicyFlip>,
) -> EffectivePolicy {
    match flip {
        Some(PolicyFlip::ToRandomSample) => EffectivePolicy::RandomSample,
        Some(PolicyFlip::ToBase) => base,
        None => policy,
    }
}

impl IncidentMonitor {
    /// The flip that a sample causes: into an incident on the sample that makes
    /// the dwell of over-threshold samples, out of it on the one that makes the
    /// dwell of the others.
    pub open spec fn flip_on(self, over: bool) -> Option<PolicyFlip> {
        let over_run = if over {
            longer(self.over_count)
        } else {
            0
        };
        let under_run = if over {
            0
        } else {
            longer(self.under_count)
        };
        if !self.in_incident && over_run >= self.dwell_ticks {
            Some(PolicyFlip::ToRandomSample)
        } else if self.in_incident && under_run >= self.dwell_ticks {
            Some(PolicyFlip::ToBase)
        } else {
            None
        }
    }

    /// The monitor after a sample.
    pub open spec fn after_sample(self, over: bool) -> Self {
        IncidentMonitor {
            over_count: if over {
                longer(self.over_count)
            } else {
                0
            },
            under_count: if over {
                0
            } else {
                longer(self.under_count)
            },
            in_incident: match self.flip_on(over) {
                Some(PolicyFlip::ToRandomSample) => true,
                Some(PolicyFlip::ToBase) => false,
                None => self.in_incident,
            },
            ..self
        }
    }

    /// Whether the share of drops since the previous tick is above the threshold,
    /// at the given totals.
    pub open spec fn over(self, published: u64, dropped: u64) -> bool {
        drops_over(self.threshold, (self.last_published, self.last_dropped), (published, dropped))
    }

    /// The flip that a tick at the given totals causes; none without auto-flipping.
    pub open spec fn flip_at(self, auto_flip: bool, published: u64, dropped: u64) -> Option<
        PolicyFlip,
    > {
        if auto_flip {
            self.flip_on(self.over(published, dropped))
        } else {
            None
        }
    }

    /// The monitor after a tick at the given totals. Without auto-flipping it only
    /// notes them.
    pub open spec fn after_tick(self, auto_flip: bool, published: u64, dropped: u64) -> Self {
        let noted = IncidentMonitor {
            last_published: published,
            last_dropped: dropped,
            ..self
        };
        if auto_flip {
            noted.after_sample(self.over(published, dropped))
        } else {
            noted
        }
    }

    /// The policy of the state agrees with the monitor.
    pub open spec fn in_step(self, state: KafkaIncidentState) -> bool {
        state.policy() == (if self.in_incident {
            EffectivePolicy::RandomSample
        } else {
            state.base_policy
        })
    }

    /// A monitor that starts to watch the state now.
    pub fn new(state: &KafkaIncidentState, dwell_ticks: u32, threshold: Ratio) -> (m: Self)
        ensures
            m.dwell_ticks == dwell_ticks,
            m.threshold == threshold,
            m.last_published == state.published_total,
            m.last_dropped == state.dropped_total,
            m.over_count == 0,
            m.under_count == 0,
            !m.in_incident,
            state.policy() == state.base_policy ==> m.in_step(*state),
    {
        let (last_published, last_dropped) = state.snapshot();
        IncidentMonitor {
            dwell_ticks,
            threshold,
            last_published,
            last_dropped,
            over_count: 0,
            under_count: 0,
            in_incident: false,
        }
    }

    /// One tick: samples the drop rate since the previous tick and, where
    /// auto-flipping is on, moves the effective policy.
    pub fn tick(&mut self, state: &mut KafkaIncidentState) -> (report: MonitorReport)
        ensures
            report.dropped == growth(old(state).dropped_total, old(self).last_dropped),
            report.total == report.dropped + growth(
                old(state).published_total,
                old(self).last_published,
            ),
            report.was_in_incident == old(self).in_incident,
            report.flip == old(self).flip_at(
                old(state).auto_flip,
                old(state).published_total,
                old(state).dropped_total,
            ),
            *final(self) == old(self).after_tick(
                old(state).auto_flip,
                old(state).published_total,
                old(state).dropped_total,
            ),
            final(state).policy() == flipped(
                old(state).policy(),
                old(state).base_policy,
                report.flip,
            ),
            final(state).base_policy == old(state).base_policy,
            final(state).published_total == old(state).published_total,
            final(state).dropped_total == old(state).dropped_total,
            final(state).auto_flip == old(state).auto_flip,
            old(self).in_step(*old(state)) ==> final(self).in_step(*final(state)),
    {
        let (published, dropped) = state.snapshot();
        let pub_delta: u64 = published.saturating_sub(self.last_published);
        let drop_delta: u64 = dropped.saturating_sub(self.last_dropped);
        self.last_published = published;
        self.last_dropped = dropped;
        let total: u128 = (pub_delta as u128) + (drop_delta as u128);
        let was_in_incident = self.in_incident;
        if !state.auto_flip {
            return MonitorReport { dropped: drop_delta, total, was_in_incident, flip: None };
        }
        if self.threshold.exceeded_among(drop_delta, pub_delta) {
            self.over_count = self.over_count.saturating_add(1);
            self.under_count = 0;
        } else {
            self.under_count = self.under_count.saturating_add(1);
            self.over_count = 0;
        }
        let mut flip: Option<PolicyFlip> = None;
        if !self.in_incident && self.over_count >= self.dwell_ticks {
            state.effective = EffectivePolicy::RandomSample.to_u8();
            self.in_incident = true;
            flip = Some(PolicyFlip::ToRandomSample);
        } else if self.in_incident && self.under_count >= self.dwell_ticks {
            state.effective = state.base_policy.to_u8();
            self.in_incident = false;
            flip = Some(PolicyFlip::ToBase);
        }
        MonitorReport { dropped: drop_delta, total, was_in_incident, flip }
    }
}

/// A policy survives its number.
pub proof fn law_policy_number_round_trip(p: EffectivePolicy)
    ensures
        EffectivePolicy::numbered(p.number()) == p,
{
}

/// The monitor after `n` samples in a row on one side of the threshold.
pub open spec fn after_samples(m: IncidentMonitor, over: bool, n: nat) -> IncidentMonitor
    decreases n,
{
    if n == 0 {
        m
    } else {
        after_samples(m, over, (n - 1) as nat).after_sample(over)
    }
}

/// Outside an incident, a sample at or below the threshold starts the count anew:
/// from there the incident begins on the sample that makes a full dwell of
/// consecutive over-threshold samples, and on no earlier one.
pub proof fn law_incident_needs_full_dwell(m: IncidentMonitor, n: nat)
    requires
        !m.in_incident,
        m.over_count == 0,
        0 < m.dwell_ticks,
        n <= m.dwell_ticks,
    ensures
        after_samples(m, true, n).in_incident <==> n == m.dwell_ticks,
        after_samples(m, true, n).over_count == n,
        after_samples(m, true, n).dwell_ticks == m.dwell_ticks,
    decreases n,
{
    if n > 0 {
        law_incident_needs_full_dwell(m, (n - 1) as nat);
    }
}

/// Inside an incident, a sample over the threshold starts the count anew: from
/// there the incident ends on the sample that makes a full dwell of consecutive
/// samples at or below the threshold, and on no earlier one.
pub proof fn law_recovery_needs_full_dwell(m: IncidentMonitor, n: nat)
    requires
        m.in_incident,
        m.under_count == 0,
        0 < m.dwell_ticks,
        n <= m.dwell_ticks,
    ensures
        after_samples(m, false, n).in_incident <==> n < m.dwell_ticks,
        after_samples(m, false, n).under_count == n,
        after_samples(m, false, n).dwell_ticks == m.dwell_ticks,
    decreases n,
{
    if n > 0 {
        law_recovery_needs_full_dwell(m, (n - 1) as nat);
    }
}

/// The monitor after a history of samples, the last one last.
pub open spec fn after_all(m: IncidentMonitor, samples: Seq<bool>) -> IncidentMonitor
    decreases samples.len(),
{
    if samples.len() == 0 {
        m
    } else {
        after_all(m, samples.drop_last()).after_sample(samples.last())
    }
}

/// Whether the `dwell` samples up to the first `n` were all on one side.
pub open spec fn run_ends(samples: Seq<bool>, over: bool, dwell: int, n: int) -> bool {
    &&& dwell <= n <= samples.len()
    &&& forall|i: int| n - dwell <= i < n ==> #[trigger] samples[i] == over
}

/// Whether a history of samples ends in an incident: a full dwell of consecutive
/// samples over the threshold ended in it, and no full dwell of the others ended
/// after that.
pub open spec fn in_incident_after(samples: Seq<bool>, dwell: int) -> bool {
    exists|e: int|
        #[trigger] run_ends(samples, true, dwell, e) && forall|f: int|
            e < f <= samples.len() ==> !#[trigger] run_ends(samples, false, dwell, f)
}

/// How many samples at the end of a history were on one side.
pub open spec fn trailing(samples: Seq<bool>, over: bool) -> nat
    decreases samples.len(),
{
    if samples.len() > 0 && samples.last() == over {
        trailing(samples.drop_last(), over) + 1
    } else {
        0
    }
}

/// A run as the monitor counts it.
pub open spec fn counted_run(run: nat) -> int {
    if run > u32::MAX {
        u32::MAX as int
    } else {
        run as int
    }
}

proof fn lemma_counts_are_runs(m: IncidentMonitor, samples: Seq<bool>)
    requires
        m.over_count == 0,
        m.under_count == 0,
    ensures
        after_all(m, samples).dwell_ticks == m.dwell_ticks,
        after_all(m, samples).over_count == counted_run(trailing(samples, true)),
        after_all(m, samples).under_count == counted_run(trailing(samples, false)),
    decreases samples.len(),
{
    if samples.len() > 0 {
        lemma_counts_are_runs(m, samples.drop_last());
    }
}

proof fn lemma_run_at_end(samples: Seq<bool>, over: bool, dwell: nat)
    ensures
        trailing(samples, over) >= dwell <==> run_ends(
            samples,
            over,
            dwell as int,
            samples.len() as int,
        ),
    decreases samples.len(),
{
    let n = samples.len() as int;
    if dwell > 0 && n > 0 {
        let init = samples.drop_last();
        lemma_run_at_end(init, over, (dwell - 1) as nat);
        if run_ends(samples, over, dwell as int, n) {
            assert(samples[n - 1] == over);
            assert forall|i: int| n - dwell <= i < n - 1 implies #[trigger] init[i] == over by {
                assert(samples[i] == over);
            }
        }
        if samples.last() == over && run_ends(init, over, dwell - 1, n - 1) {
            assert forall|i: int| n - dwell <= i < n implies #[trigger] samples[i] == over by {
                if i < n - 1 {
                    assert(init[i] == over);
                }
            }
        }
    }
}

proof fn lemma_earlier_run(samples: Seq<bool>, over: bool, dwell: int, n: int)
    requires
        n < samples.len(),
        dwell >= 0,
    ensures
        run_ends(samples.drop_last(), over, dwell, n) == run_ends(samples, over, dwell, n),
{
    let init = samples.drop_last();
    assert forall|i: int| n - dwell <= i < n && dwell <= n implies #[trigger] samples[i]
        == init[i] by {}
    if run_ends(init, over, dwell, n) {
        assert forall|i: int| n - dwell <= i < n implies #[trigger] samples[i] == over by {
            assert(init[i] == over);
        }
    }
    if run_ends(samples, over, dwell, n) {
        assert forall|i: int| n - dwell <= i < n implies #[trigger] init[i] == over by {
            assert(samples[i] == over);
        }
    }
}

/// The incident follows the history: after any samples, a monitor that started
/// outside an incident is in one exactly if a full dwell of consecutive samples over
/// the threshold has ended and no full dwell of samples at or below it has ended
/// since.
pub proof fn law_incident_follows_history(m: IncidentMonitor, samples: Seq<bool>)
    requires
        !m.in_incident,
        m.over_count == 0,
        m.under_count == 0,
        0 < m.dwell_ticks,
    ensures
        after_all(m, samples).in_incident <==> in_incident_after(samples, m.dwell_ticks as int),
    decreases samples.len(),
{
    let dwell = m.dwell_ticks as int;
    let n = samples.len() as int;
    if n > 0 {
        let init = samples.drop_last();
        let last = samples.last();
        law_incident_follows_history(m, init);
        lemma_counts_are_runs(m, init);
        lemma_counts_are_runs(m, samples);
        lemma_run_at_end(samples, last, m.dwell_ticks as nat);
        let ended = run_ends(samples, last, dwell, n);
        // The other side's run was broken by the last sample.
        assert(samples[n - 1] == last);
        assert(!run_ends(samples, !last, dwell, n));
        if ended && last {
            assert(in_incident_after(samples, dwell));
        } else if ended {
            assert(!in_incident_after(samples, dwell));
        } else {
            if in_incident_after(init, dwell) {
                let e = choose|e: int|
                    #[trigger] run_ends(init, true, dwell, e) && forall|f: int|
                        e < f <= init.len() ==> !#[trigger] run_ends(init, false, dwell, f);
                lemma_earlier_run(samples, true, dwell, e);
                assert forall|f: int| e < f <= n implies !#[trigger] run_ends(
                    samples,
                    false,
                    dwell,
                    f,
                ) by {
                    if f < n {
                        lemma_earlier_run(samples, false, dwell, f);
                    }
                }
            }
            if in_incident_after(samples, dwell) {
                let e = choose|e: int|
                    #[trigger] run_ends(samples, true, dwell, e) && forall|f: int|
                        e < f <= n ==> !#[trigger] run_ends(samples, false, dwell, f);
                assert(e < n);
                lemma_earlier_run(samples, true, dwell, e);
                assert forall|f: int| e < f <= init.len() implies !#[trigger] run_ends(
                    init,
                    false,
                    dwell,
                    f,
                ) by {
                    lemma_earlier_run(samples, false, dwell, f);
                }
            }
        }
    } else {
        assert(!in_incident_after(samples, dwell));
    }
}

/// The monitor and the policy after a history of ticks, each at the published and
/// dropped totals of its time, where nothing else sets the policy.
pub open spec fn after_ticks(
    m: IncidentMonitor,
    policy: EffectivePolicy,
    base: EffectivePolicy,
    auto_flip: bool,
    totals: Seq<(u64, u64)>,
) -> (IncidentMonitor, EffectivePolicy)
    decreases totals.len(),
{
    if totals.len() == 0 {
        (m, policy)
    } else {
        let (watching, followed) = after_ticks(m, policy, base, auto_flip, totals.drop_last());
        let (published, dropped) = totals.last();
        (
            watching.after_tick(auto_flip, published, dropped),
            flipped(followed, base, watching.flip_at(auto_flip, published, dropped)),
        )
    }
}

/// Which ticks of a history see a drop rate above the threshold since the tick
/// before.
pub open spec fn samples_of(
    threshold: Ratio,
    start: (u64, u64),
    totals: Seq<(u64, u64)>,
) -> Seq<bool> {
    Seq::new(
        totals.len(),
        |i: int|
            drops_over(
                threshold,
                if i == 0 {
                    start
                } else {
                    totals[i - 1]
                },
                totals[i],
            ),
    )
}

proof fn lemma_ticks_are_samples(
    m: IncidentMonitor,
    base: EffectivePolicy,
    totals: Seq<(u64, u64)>,
)
    requires
        !m.in_incident,
    ensures
        ({
            let (watching, followed) = after_ticks(m, base, base, true, totals);
            let start = (m.last_published, m.last_dropped);
            let sampled = after_all(m, samples_of(m.threshold, start, totals));
            let seen = if totals.len() == 0 {
                start
            } else {
                totals.last()
            };
            &&& watching == (IncidentMonitor {
                last_published: seen.0,
                last_dropped: seen.1,
                ..sampled
            })
            &&& watching.threshold == m.threshold
            &&& watching.dwell_ticks == m.dwell_ticks
            &&& followed == (if watching.in_incident {
                EffectivePolicy::RandomSample
            } else {
                base
            })
        }),
    decreases totals.len(),
{
    if totals.len() > 0 {
        let init = totals.drop_last();
        let start = (m.last_published, m.last_dropped);
        lemma_ticks_are_samples(m, base, init);
        assert(samples_of(m.threshold, start, totals).drop_last() =~= samples_of(
            m.threshold,
            start,
            init,
        ));
    }
}

/// The policy follows the history: with auto-flipping, after any ticks the policy
/// is `RandomSample` exactly if a full dwell of consecutive ticks saw a drop rate
/// above the threshold and no full dwell of ticks that did not has ended since, and
/// otherwise it is the base.
pub proof fn law_policy_follows_history(
    m: IncidentMonitor,
    base: EffectivePolicy,
    totals: Seq<(u64, u64)>,
)
    requires
        !m.in_incident,
        m.over_count == 0,
        m.under_count == 0,
        0 < m.dwell_ticks,
    ensures
        after_ticks(m, base, base, true, totals).1 == (if in_incident_after(
            samples_of(m.threshold, (m.last_published, m.last_dropped), totals),
            m.dwell_ticks as int,
        ) {
            EffectivePolicy::RandomSample
        } else {
            base
        }),
{
    lemma_ticks_are_samples(m, base, totals);
    law_incident_follows_history(
        m,
        samples_of(m.threshold, (m.last_published, m.last_dropped), totals),
    );
}

/// Without auto-flipping, no history of ticks changes the policy.
pub proof fn law_static_policy_never_changes(
    m: IncidentMonitor,
    policy: EffectivePolicy,
    base: EffectivePolicy,
    totals: Seq<(u64, u64)>,
)
    ensures
        after_ticks(m, policy, base, false, totals).1 == policy,
    decreases totals.len(),
{
    if totals.len() > 0 {
        law_static_policy_never_changes(m, policy, base, totals.drop_last());
    }
}

/// What a configured drop policy means over time, for a monitor that starts to
/// watch a new state. `IncidentMode` follows `RandomSample` exactly if a full dwell
/// of consecutive ticks saw a drop rate above the threshold and no full dwell of
/// ticks that did not has ended since, and otherwise `Newest`. Every other policy is
/// followed throughout.
pub proof fn law_drop_policy_over_time(
    configured: KafkaDropPolicy,
    m: IncidentMonitor,
    totals: Seq<(u64, u64)>,
)
    requires
        !m.in_incident,
        m.over_count == 0,
        m.under_count == 0,
        0 < m.dwell_ticks,
    ensures
        ({
            let start = EffectivePolicy::starting(configured);
            let auto_flip = configured == KafkaDropPolicy::IncidentMode;
            let samples = samples_of(m.threshold, (m.last_published, m.last_dropped), totals);
            let followed = after_ticks(m, start, start, auto_flip, totals).1;
            match configured {
                KafkaDropPolicy::IncidentMode => followed == (if in_incident_after(
                    samples,
                    m.dwell_ticks as int,
                ) {
                    EffectivePolicy::RandomSample
                } else {
                    EffectivePolicy::Newest
                }),
                KafkaDropPolicy::Newest => followed == EffectivePolicy::Newest,
                KafkaDropPolicy::Oldest => followed == EffectivePolicy::Oldest,
                KafkaDropPolicy::RandomSample => followed == EffectivePolicy::RandomSample,
            }
        }),
{
    let start = EffectivePolicy::starting(configured);
    law_policy_follows_history(m, start, totals);
    law_static_policy_never_changes(m, start, start, totals);
}

/// A tick is over the threshold exactly if the events dropped since the tick before
/// are more than the threshold's part of all events since then.
pub proof fn law_samples_are_drop_shares(
    threshold: Ratio,
    published_before: u64,
    dropped_before: u64,
    published: u64,
    dropped: u64,
)
    requires
        published_before <= published,
        dropped_before <= dropped,
    ensures
        drops_over(threshold, (published_before, dropped_before), (published, dropped)) <==> (
        dropped - dropped_before) * threshold.den > threshold.num * ((dropped - dropped_before) + (
        published - published_before)),
{
}

/// The configured policies as the publisher starts to follow them.
pub proof fn law_policies_start_as_configured()
    ensures
        EffectivePolicy::starting(KafkaDropPolicy::Newest) == EffectivePolicy::Newest,
        EffectivePolicy::starting(KafkaDropPolicy::Oldest) == EffectivePolicy::Oldest,
        EffectivePolicy::starting(KafkaDropPolicy::RandomSample) == EffectivePolicy::RandomSample,
        EffectivePolicy::starting(KafkaDropPolicy::IncidentMode) == EffectivePolicy::Newest,
{
}

/// The numbers of the policies, and what unknown numbers mean.
pub proof fn law_policy_numbers(v: u8)
    ensures
        EffectivePolicy::numbered(v) == EffectivePolicy::Oldest <==> v == 1,
        EffectivePolicy::numbered(v) == EffectivePolicy::RandomSample <==> v == 2,
        v != 1 && v != 2 ==> EffectivePolicy::numbered(v) == EffectivePolicy::Newest,
{
}

/// A sample lengthens the run on its own side by one and ends the run on the other;
/// the settings stay.
pub proof fn law_samples_end_the_other_run(m: IncidentMonitor)
    ensures
        m.over_count < u32::MAX ==> m.after_sample(true).over_count == m.over_count + 1,
        m.under_count < u32::MAX ==> m.after_sample(false).under_count == m.under_count + 1,
        m.after_sample(true).under_count == 0,
        m.after_sample(false).over_count == 0,
        m.after_sample(true).threshold == m.threshold && m.after_sample(true).dwell_ticks
            == m.dwell_ticks,
        m.after_sample(false).threshold == m.threshold && m.after_sample(false).dwell_ticks
            == m.dwell_ticks,
{
}

/// An incident begins and ends exactly when the run against it reaches the dwell; a
/// sample on the monitor's own side changes nothing.
pub proof fn law_flips_at_the_dwell(m: IncidentMonitor)
    requires
        m.over_count < u32::MAX,
        m.under_count < u32::MAX,
        m.dwell_ticks > 0,
    ensures
        !m.in_incident ==> (m.flip_on(true) == Some(PolicyFlip::ToRandomSample) <==> m.over_count
            + 1 >= m.dwell_ticks),
        !m.in_incident ==> m.flip_on(false) is None,
        m.in_incident ==> (m.flip_on(false) == Some(PolicyFlip::ToBase) <==> m.under_count + 1
            >= m.dwell_ticks),
        m.in_incident ==> m.flip_on(true) is None,
        m.after_sample(true).in_incident == (m.in_incident || m.flip_on(true) is Some),
        m.after_sample(false).in_incident == (m.in_incident && m.flip_on(false) is None),
{
}

/// What a flip makes of the policy.
pub proof fn law_flips_set_the_policy(policy: EffectivePolicy, base: EffectivePolicy)
    ensures
        flipped(policy, base, Some(PolicyFlip::ToRandomSample)) == EffectivePolicy::RandomSample,
        flipped(policy, base, Some(PolicyFlip::ToBase)) == base,
        flipped(policy, base, None) == policy,
{
}

/// Every tick is compared with the one before it, whether or not the policy may flip:
/// its totals are what the next one starts from.
pub proof fn law_ticks_start_from_the_last(
    m: IncidentMonitor,
    auto_flip: bool,
    published: u64,
    dropped: u64,
)
    ensures
        m.after_tick(auto_flip, published, dropped).last_published == published,
        m.after_tick(auto_flip, published, dropped).last_dropped == dropped,
        m.after_tick(auto_flip, published, dropped).threshold == m.threshold,
        m.after_tick(auto_flip, published, dropped).dwell_ticks == m.dwell_ticks,
        !auto_flip ==> m.after_tick(auto_flip, published, dropped).in_incident == m.in_incident,
{
}

/// The samples of a history of totals: each is over exactly if the drops since the
/// tick before are more than the threshold's part of all events since then.
pub proof fn law_history_is_sampled_tick_by_tick(
    threshold: Ratio,
    start: (u64, u64),
    totals: Seq<(u64, u64)>,
    i: int,
)
    requires
        0 < i < totals.len(),
        totals[i - 1].0 <= totals[i].0,
        totals[i - 1].1 <= totals[i].1,
    ensures
        samples_of(threshold, start, totals).len() == totals.len(),
        samples_of(threshold, start, totals)[i] <==> (totals[i].1 - totals[i - 1].1) * threshold.den
            > threshold.num * ((totals[i].1 - totals[i - 1].1) + (totals[i].0 - totals[i - 1].0)),
        start.0 <= totals[0].0 && start.1 <= totals[0].1 ==> (samples_of(
            threshold,
            start,
            totals,
        )[0] <==> (totals[0].1 - start.1) * threshold.den > threshold.num * ((totals[0].1
            - start.1) + (totals[0].0 - start.0))),
{
    law_samples_are_drop_shares(
        threshold,
        totals[i - 1].0,
        totals[i - 1].1,
        totals[i].0,
        totals[i].1,
    );
    if start.0 <= totals[0].0 && start.1 <= totals[0].1 {
        law_samples_are_drop_shares(threshold, start.0, start.1, totals[0].0, totals[0].1);
    }
}

} // verus!
