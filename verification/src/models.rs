//! Typed representation of the configuration document.
//!
//! The document is a JSON object with optional top-level sections; each
//! section mirrors its JSON shape one to one. Named collections (model
//! providers, model aliases, auth profiles) are kept as [`Dict`] values,
//! whose unique-key invariant mirrors JSON object keys. Monetary cost
//! figures are carried as decimal text: the service never computes on
//! them, and text preserves them exactly.

use vstd::prelude::*;

use crate::dict::Dict;

verus! {

/// Bookkeeping stamped on the document by the runtime.
#[derive(Debug)]
#[allow(non_snake_case)]
pub struct ConfigMeta {
    pub lastTouchedVersion: Option<String>,
    pub lastTouchedAt: Option<String>,
    pub comment: Option<String>,
}

/// Record of the last run of the setup wizard.
#[derive(Debug)]
#[allow(non_snake_case)]
pub struct WizardConfig {
    pub lastRunAt: Option<String>,
    pub lastRunVersion: Option<String>,
    pub lastRunCommand: Option<String>,
    pub lastRunMode: Option<String>,
}

/// Per-token cost figures of a model, as decimal text.
#[allow(non_snake_case)]
#[derive(Debug)]
pub struct ModelCost {
    pub cost_input: String,
    pub cost_output: String,
    pub cacheRead: Option<String>,
    pub cacheWrite: Option<String>,
}

/// One model offered by a provider.
#[derive(Debug)]
#[allow(non_snake_case)]
pub struct ModelInfo {
    pub id: String,
    pub name: String,
    pub reasoning: bool,
    pub input: Vec<String>,
    pub cost: ModelCost,
    pub contextWindow: usize,
    pub maxTokens: usize,
    pub tier: Option<String>,
}

/// A named model-serving endpoint.
#[derive(Debug)]
#[allow(non_snake_case)]
pub struct Provider {
    pub baseUrl: String,
    pub apiKey: Option<String>,
    pub api: String,
    pub models: Vec<ModelInfo>,
}

/// The `models` section: a mode and the providers keyed by name.
#[derive(Debug)]
pub struct ModelsConfig {
    pub mode: String,
    pub providers: Dict<Provider>,
}

/// Default model selection of an agent.
#[derive(Debug)]
pub struct ModelConfig {
    pub primary: String,
    pub fast: Option<String>,
    pub balanced: Option<String>,
    pub powerful: Option<String>,
}

/// A short name an agent may use for a model.
#[derive(Debug)]
pub struct ModelAlias {
    pub alias: String,
    pub description: Option<String>,
}

/// Concurrency bound for subagents.
#[derive(Debug)]
pub struct SubagentsConfig {
    pub max_concurrent: u32,
}

/// Prompt-caching policy.
#[derive(Debug)]
pub struct CachingConfig {
    pub enabled: bool,
    pub max_cache_size: String,
}

/// Request and idle timeouts, in seconds.
#[derive(Debug)]
pub struct TimeoutConfig {
    pub request: u64,
    pub idle: u64,
}

/// Retry policy of the agent runtime.
#[derive(Debug)]
pub struct RetryConfig {
    pub max_attempts: u32,
    pub backoff: String,
}

/// Context-compaction policy; the threshold is decimal text.
#[derive(Debug)]
pub struct CompactionConfig {
    pub mode: String,
    pub threshold: Option<String>,
}

/// Default settings applied to every agent.
#[derive(Debug)]
#[allow(non_snake_case)]
pub struct AgentsDefaults {
    pub model: Option<ModelConfig>,
    pub models: Dict<ModelAlias>,
    pub workspace: Option<String>,
    pub maxConcurrent: Option<u32>,
    pub subagents: Option<SubagentsConfig>,
    pub caching: Option<CachingConfig>,
    pub timeout: Option<TimeoutConfig>,
    pub retry: Option<RetryConfig>,
    pub compaction: Option<CompactionConfig>,
}

/// The `agents` section.
#[derive(Debug)]
pub struct AgentsConfig {
    pub defaults: AgentsDefaults,
}

/// One auth profile: which provider it is for and its mode.
#[derive(Debug)]
pub struct AuthProfile {
    pub provider: String,
    pub mode: String,
}

/// The `auth` section: profiles keyed by name.
#[derive(Debug)]
pub struct AuthConfig {
    pub profiles: Option<Dict<AuthProfile>>,
}

/// Auth settings of the gateway endpoint.
#[derive(Debug)]
pub struct GatewayAuthConfig {
    pub mode: Option<String>,
    pub token: Option<String>,
}

/// Tailscale tunnel settings of the gateway endpoint.
#[derive(Debug)]
#[allow(non_snake_case)]
pub struct TailscaleConfig {
    pub mode: Option<String>,
    pub resetOnExit: Option<bool>,
}

/// The `gateway` section: the optional local control endpoint.
#[derive(Debug)]
pub struct GatewayConfig {
    pub port: Option<u16>,
    pub mode: Option<String>,
    pub bind: Option<String>,
    pub auth: Option<GatewayAuthConfig>,
    pub tailscale: Option<TailscaleConfig>,
}

/// The `messages` section.
#[derive(Debug)]
#[allow(non_snake_case)]
pub struct MessagesConfig {
    pub ackReactionScope: Option<String>,
}

/// The `commands` section.
#[derive(Debug)]
#[allow(non_snake_case)]
pub struct CommandsConfig {
    pub native: Option<String>,
    pub nativeSkills: Option<String>,
}

/// How skills are installed.
#[derive(Debug)]
#[allow(non_snake_case)]
pub struct SkillsInstallConfig {
    pub nodeManager: Option<String>,
}

/// The `skills` section.
#[derive(Debug)]
pub struct SkillsConfig {
    pub install: Option<SkillsInstallConfig>,
}

/// The whole configuration document: nine optional top-level sections.
#[derive(Debug)]
pub struct OpenClawConfig {
    pub meta: Option<ConfigMeta>,
    pub wizard: Option<WizardConfig>,
    pub models: Option<ModelsConfig>,
    pub agents: Option<AgentsConfig>,
    pub auth: Option<AuthConfig>,
    pub messages: Option<MessagesConfig>,
    pub commands: Option<CommandsConfig>,
    pub gateway: Option<GatewayConfig>,
    pub skills: Option<SkillsConfig>,
}

impl OpenClawConfig {
    /// Every section absent.
    pub open spec fn is_empty_doc(&self) -> bool {
        &&& self.meta is None
        &&& self.wizard is None
        &&& self.models is None
        &&& self.agents is None
        &&& self.auth is None
        &&& self.messages is None
        &&& self.commands is None
        &&& self.gateway is None
        &&& self.skills is None
    }

    /// Every keyed collection in the document has unique keys.
    pub open spec fn wf(&self) -> bool {
        &&& (self.models matches Some(m) ==> m.providers.wf())
        &&& (self.agents matches Some(a) ==> a.defaults.models.wf())
        &&& (self.auth matches Some(a) ==> (a.profiles matches Some(p) ==> p.wf()))
    }
}

impl Default for OpenClawConfig {
    /// The document used when no configuration file exists yet.
    fn default() -> (r: Self)
        ensures
            r.is_empty_doc(),
            r.wf(),
    {
        OpenClawConfig {
            meta: None,
            wizard: None,
            models: None,
            agents: None,
            auth: None,
            messages: None,
            commands: None,
            gateway: None,
            skills: None,
        }
    }
}

} // verus!
