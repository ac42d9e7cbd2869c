//! Configuration values that the bidder is run with.
use crate::text::same_text;
use vstd::prelude::*;

verus! {

#[derive(Debug, Clone)]
pub struct PostgresConfig {
    pub url: String,
    pub max_connections: u32,
    pub min_connections: u32,
    pub acquire_timeout_ms: u64,
    pub idle_timeout_secs: u64,
    pub max_lifetime_secs: u64,
}

#[derive(Debug, Clone)]
pub struct RedisConfig {
    pub url: String,
    /// Number of connections in the round-robin pool.
    pub pool_size: usize,
    /// User-segment cache: capacity in entries.
    pub segment_cache_capacity: u64,
    /// User-segment cache: TTL in seconds.
    pub segment_cache_ttl_secs: u64,
}

#[derive(Debug, Clone, Copy)]
pub struct CatalogConfig {
    /// Full catalog rebuild interval in seconds.
    pub refresh_interval_secs: u64,
    /// Max consecutive rebuild failures before the circuit opens and an alert fires.
    pub max_consecutive_failures: u32,
}

#[derive(Debug, Clone, Copy, PartialEq, Eq, Structural)]
pub enum LogFormat {
    Json,
    Pretty,
}

#[derive(Debug, Clone, Copy, PartialEq, Eq, Structural)]
pub struct LatencyBudgetConfig {
    pub http_parse_ms: u64,
    pub request_validate_ms: u64,
    pub user_enrichment_ms: u64,
    pub candidate_retrieval_ms: u64,
    pub candidate_limit_ms: u64,
    pub scoring_ms: u64,
    pub frequency_cap_ms: u64,
    pub ranking_ms: u64,
    pub budget_pacing_ms: u64,
    pub response_build_ms: u64,
    pub pipeline_deadline_ms: u64,
    pub http_timeout_ms: u64,
    /// Timeout for the win notice endpoint. Longer than the bid path: win-notices
    /// are not latency-critical.
    pub win_timeout_ms: u64,
}

#[derive(Debug, Clone, Copy)]
pub struct PipelineConfig {
    /// Maximum candidates kept per impression.
    pub max_candidates_per_imp: usize,
}

#[derive(Debug, Clone, Copy)]
pub struct FreqCapConfig {
    /// Number of concurrent workers for impression counter writes.
    pub impression_workers: usize,
}

#[derive(Debug, Clone, Copy, PartialEq, Eq, Structural)]
pub enum KafkaDropPolicy {
    Newest,
    Oldest,
    RandomSample,
    IncidentMode,
}

#[derive(Debug, Clone, Copy, PartialEq, Eq, Structural)]
pub enum ScoringKind {
    FeatureWeighted,
    Ml,
    Cascade,
    AbTest,
}

#[derive(Debug, Clone)]
pub struct MLConfig {
    pub model_path: String,
    pub parity_path: Option<String>,
    pub input_tensor_name: String,
    pub output_tensor_name: String,
    pub pool_size: usize,
    pub max_batch: usize,
    pub batch_pad_to: usize,
}

/// The input tensor name used where none is configured.
pub fn default_input_tensor_name() -> (name: String)
    ensures
        name@ == "features"@,
{
    "features".to_owned()
}

/// The output tensor name used where none is configured.
pub fn default_output_tensor_name() -> (name: String)
    ensures
        name@ == "pctr"@,
{
    "pctr".to_owned()
}

/// The session pool size used where none is configured.
pub fn default_pool_size() -> (n: usize)
    ensures
        n == 2,
{
    2
}

/// The largest batch where none is configured.
pub fn default_max_batch() -> (n: usize)
    ensures
        n == 64,
{
    64
}

/// The batch padding unit where none is configured.
pub fn default_batch_pad_to() -> (n: usize)
    ensures
        n == 8,
{
    8
}

/// Win-notice authentication and deduplication.
#[derive(Debug, Clone)]
pub struct WinNoticeConfig {
    /// Whether HMAC verification is enforced.
    pub require_auth: bool,
    /// HMAC-SHA256 shared secret. Empty string disables auth even when
    /// `require_auth` is set.
    pub secret: String,
    /// Dedup window in seconds.
    pub dedup_ttl_secs: u64,
    /// Base URL the bidder embeds in each bid's `nurl`. Empty disables nurl
    /// emission.
    pub notice_base_url: String,
}

#[derive(Debug, Clone)]
pub struct KafkaConfig {
    pub brokers: String,
    /// Topic for all AdEvent messages.
    pub events_topic: String,
    /// Internal producer queue size (number of messages).
    pub queue_capacity: usize,
    /// Producer send timeout in milliseconds.
    pub send_timeout_ms: u64,
    pub drop_policy: KafkaDropPolicy,
}

impl LatencyBudgetConfig {
    /// The declared budget (ms) of each named pipeline stage.
    pub open spec fn stage_budget(self, name: Seq<char>) -> Option<u64> {
        if name == "request_validation"@ {
            Some(self.request_validate_ms)
        } else if name == "user_enrichment"@ {
            Some(self.user_enrichment_ms)
        } else if name == "candidate_retrieval"@ {
            Some(self.candidate_retrieval_ms)
        } else if name == "candidate_limit"@ {
            Some(self.candidate_limit_ms)
        } else if name == "scoring"@ {
            Some(self.scoring_ms)
        } else if name == "frequency_cap"@ {
            Some(self.frequency_cap_ms)
        } else if name == "ranking"@ {
            Some(self.ranking_ms)
        } else if name == "budget_pacing"@ {
            Some(self.budget_pacing_ms)
        } else if name == "response_build"@ {
            Some(self.response_build_ms)
        } else {
            None
        }
    }

    /// Returns the declared budget (ms) for a named pipeline stage, or None
    /// if the stage name doesn't map to a known budget entry.
    pub fn budget_for_stage(&self, name: &str) -> (ms: Option<u64>)
        ensures
            ms == self.stage_budget(name@),
    {
        if same_text(name, "request_validation") {
            Some(self.request_validate_ms)
        } else if same_text(name, "user_enrichment") {
            Some(self.user_enrichment_ms)
        } else if same_text(name, "candidate_retrieval") {
            Some(self.candidate_retrieval_ms)
        } else if same_text(name, "candidate_limit") {
            Some(self.candidate_limit_ms)
        } else if same_text(name, "scoring") {
            Some(self.scoring_ms)
        } else if same_text(name, "frequency_cap") {
            Some(self.frequency_cap_ms)
        } else if same_text(name, "ranking") {
            Some(self.ranking_ms)
        } else if same_text(name, "budget_pacing") {
            Some(self.budget_pacing_ms)
        } else if same_text(name, "response_build") {
            Some(self.response_build_ms)
        } else {
            None
        }
    }
}

/// Every stage has its own budget, under the stage's name.
pub proof fn law_stage_budgets(cfg: LatencyBudgetConfig)
    ensures
        cfg.stage_budget("request_validation"@) == Some(cfg.request_validate_ms),
        cfg.stage_budget("user_enrichment"@) == Some(cfg.user_enrichment_ms),
        cfg.stage_budget("candidate_retrieval"@) == Some(cfg.candidate_retrieval_ms),
        cfg.stage_budget("candidate_limit"@) == Some(cfg.candidate_limit_ms),
        cfg.stage_budget("scoring"@) == Some(cfg.scoring_ms),
        cfg.stage_budget("frequency_cap"@) == Some(cfg.frequency_cap_ms),
        cfg.stage_budget("ranking"@) == Some(cfg.ranking_ms),
        cfg.stage_budget("budget_pacing"@) == Some(cfg.budget_pacing_ms),
        cfg.stage_budget("response_build"@) == Some(cfg.response_build_ms),
{
    reveal_strlit("request_validation");
    reveal_strlit("user_enrichment");
    reveal_strlit("candidate_retrieval");
    reveal_strlit("candidate_limit");
    reveal_strlit("scoring");
    reveal_strlit("frequency_cap");
    reveal_strlit("ranking");
    reveal_strlit("budget_pacing");
    reveal_strlit("response_build");
    assert("request_validation"@.len() == 18);
    assert("user_enrichment"@.len() == 15);
    assert("candidate_retrieval"@.len() == 19);
    assert("candidate_limit"@.len() == 15);
    assert("scoring"@.len() == 7);
    assert("frequency_cap"@.len() == 13);
    assert("ranking"@.len() == 7);
    assert("budget_pacing"@.len() == 13);
    assert("response_build"@.len() == 14);
    assert("user_enrichment"@[0] == 'u' && "candidate_limit"@[0] == 'c');
    assert("scoring"@[0] == 's' && "ranking"@[0] == 'r');
    assert("frequency_cap"@[0] == 'f' && "budget_pacing"@[0] == 'b');
}

/// A name that is no stage's has no budget.
pub proof fn law_other_names_have_no_budget(cfg: LatencyBudgetConfig, name: Seq<char>)
    requires
        name != "request_validation"@,
        name != "user_enrichment"@,
        name != "candidate_retrieval"@,
        name != "candidate_limit"@,
        name != "scoring"@,
        name != "frequency_cap"@,
        name != "ranking"@,
        name != "budget_pacing"@,
        name != "response_build"@,
    ensures
        cfg.stage_budget(name) is None,
{
}

} // verus!
