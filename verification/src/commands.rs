//! The operations the editor performs on a configuration document:
//! provider lookup and CRUD, and the agent-defaults section.
//!
//! Each operation takes the stored document and returns the edited one;
//! the caller reads the document before and writes the result after.

use vstd::prelude::*;

use crate::dict::Dict;
use crate::error::AppError;
use crate::models::AgentsConfig;
use crate::models::AgentsDefaults;
use crate::models::ModelConfig;
use crate::models::ModelsConfig;
use crate::models::OpenClawConfig;
use crate::models::Provider;
use crate::models::SubagentsConfig;

verus! {

/// The providers of the document; none when its `models` section is
/// absent.
pub fn get_providers(config: OpenClawConfig) -> (r: Dict<Provider>)
    ensures
        config.models matches Some(m) ==> r == m.providers,
        config.models is None ==> r@.len() == 0 && r.wf(),
{
    match config.models {
        Some(m) => m.providers,
        None => Dict::new(),
    }
}

/// Binds `id` to `provider`, replacing any provider of that name. A
/// document without a `models` section gets one, in `merge` mode.
pub fn add_provider(config: OpenClawConfig, id: String, provider: Provider) -> (r: OpenClawConfig)
    requires
        config.wf(),
    ensures
        r.wf(),
        r.meta == config.meta,
        r.wizard == config.wizard,
        r.agents == config.agents,
        r.auth == config.auth,
        r.messages == config.messages,
        r.commands == config.commands,
        r.gateway == config.gateway,
        r.skills == config.skills,
        r.models is Some,
        config.models matches Some(m) ==> (r.models matches Some(m2) && m2.mode == m.mode
            && m2.providers.spec_get(id@) == Some(provider) && (forall|k2: Seq<char>|
            k2 != id@ ==> m2.providers.spec_get(k2) == m.providers.spec_get(k2)) && (
        forall|k2: Seq<char>| #[trigger] m2.providers.spec_contains_key(k2) == (
        m.providers.spec_contains_key(k2) || k2 == id@))),
        config.models is None ==> (r.models matches Some(m2) && m2.mode@ == "merge"@
            && m2.providers.spec_get(id@) == Some(provider) && m2.providers@.len() == 1 && (
        forall|k2: Seq<char>| k2 != id@ ==> m2.providers.spec_get(k2) is None) && (
        forall|k2: Seq<char>| #[trigger] m2.providers.spec_contains_key(k2) == (k2 == id@))),
{
    let OpenClawConfig { meta, wizard, models, agents, auth, messages, commands, gateway, skills } =
        config;
    let mut m = match models {
        Some(m) => m,
        None => ModelsConfig { mode: String::from_str("merge"), providers: Dict::new() },
    };
    m.providers.insert(id, provider);
    OpenClawConfig {
        meta,
        wizard,
        models: Some(m),
        agents,
        auth,
        messages,
        commands,
        gateway,
        skills,
    }
}

/// Replaces the provider named `id`. Fails when the document has a
/// `models` section without a provider of that name; a document with no
/// `models` section at all is returned unchanged.
pub fn update_provider(config: OpenClawConfig, id: String, provider: Provider) -> (r: Result<
    OpenClawConfig,
    AppError,
>)
    requires
        config.wf(),
    ensures
        r is Err <==> (config.models matches Some(m) && !m.providers.spec_contains_key(id@)),
        match r {
            Ok(c2) => {
                &&& c2.wf()
                &&& config.models is None ==> c2 == config
                &&& config.models matches Some(m) ==> (c2.models matches Some(m2) && m2.mode
                    == m.mode && m2.providers.spec_get(id@) == Some(provider) && (forall|
                    k2: Seq<char>,
                |
                    k2 != id@ ==> m2.providers.spec_get(k2) == m.providers.spec_get(k2)) && (
                forall|k2: Seq<char>| #[trigger] m2.providers.spec_contains_key(k2)
                    == m.providers.spec_contains_key(k2)) && c2.meta == config.meta && c2.wizard
                    == config.wizard && c2.agents == config.agents && c2.auth == config.auth
                    && c2.messages == config.messages && c2.commands == config.commands
                    && c2.gateway == config.gateway && c2.skills == config.skills)
            },
            Err(e) => e matches AppError::InvalidProvider(msg) && msg@ == "Provider '"@ + id@
                + "' not found"@,
        },
{
    let OpenClawConfig { meta, wizard, models, agents, auth, messages, commands, gateway, skills } =
        config;
    match models {
        Some(mut m) => {
            if !m.providers.contains_key(&id) {
                let mut msg = String::from_str("Provider '");
                msg.append(id.as_str());
                msg.append("' not found");
                return Err(AppError::InvalidProvider(msg));
            }
            m.providers.insert(id, provider);
            Ok(
                OpenClawConfig {
                    meta,
                    wizard,
                    models: Some(m),
                    agents,
                    auth,
                    messages,
                    commands,
                    gateway,
                    skills,
                },
            )
        },
        None => Ok(
            OpenClawConfig {
                meta,
                wizard,
                models: None,
                agents,
                auth,
                messages,
                commands,
                gateway,
                skills,
            },
        ),
    }
}

/// Removes the provider named `id`, if the document has one.
pub fn delete_provider(config: OpenClawConfig, id: String) -> (r: OpenClawConfig)
    requires
        config.wf(),
    ensures
        r.wf(),
        config.models is None ==> r == config,
        config.models matches Some(m) ==> (r.models matches Some(m2) && m2.mode == m.mode
            && m2.providers.spec_get(id@) is None && (forall|k2: Seq<char>|
            k2 != id@ ==> m2.providers.spec_get(k2) == m.providers.spec_get(k2)) && (
        forall|k2: Seq<char>| #[trigger] m2.providers.spec_contains_key(k2) == (
        m.providers.spec_contains_key(k2) && k2 != id@)) && r.meta == config.meta && r.wizard
            == config.wizard && r.agents == config.agents && r.auth == config.auth && r.messages
            == config.messages && r.commands == config.commands && r.gateway == config.gateway
            && r.skills == config.skills),
{
    let OpenClawConfig { meta, wizard, models, agents, auth, messages, commands, gateway, skills } =
        config;
    match models {
        Some(mut m) => {
            m.providers.remove(&id);
            OpenClawConfig {
                meta,
                wizard,
                models: Some(m),
                agents,
                auth,
                messages,
                commands,
                gateway,
                skills,
            }
        },
        None => OpenClawConfig {
            meta,
            wizard,
            models: None,
            agents,
            auth,
            messages,
            commands,
            gateway,
            skills,
        },
    }
}

/// The agent-defaults section of the document, if it has one.
pub fn get_agents_defaults(config: OpenClawConfig) -> (r: Option<AgentsDefaults>)
    ensures
        config.agents matches Some(a) ==> r == Some(a.defaults),
        config.agents is None ==> r is None,
{
    match config.agents {
        Some(a) => Some(a.defaults),
        None => None,
    }
}

/// The agent defaults a fresh `agents` section starts from: an empty
/// primary model selection, up to 6 concurrent agents and up to 12
/// concurrent subagents.
pub fn default_agents_defaults() -> (r: AgentsDefaults)
    ensures
        r.model matches Some(m) && m.primary@ == Seq::<char>::empty() && m.fast is None
            && m.balanced is None && m.powerful is None,
        r.models@.len() == 0 && r.models.wf(),
        r.workspace is None,
        r.maxConcurrent == Some(6u32),
        r.subagents matches Some(s) && s.max_concurrent == 12u32,
        r.caching is None,
        r.timeout is None,
        r.retry is None,
        r.compaction is None,
{
    AgentsDefaults {
        model: Some(
            ModelConfig { primary: String::new(), fast: None, balanced: None, powerful: None },
        ),
        models: Dict::new(),
        workspace: None,
        maxConcurrent: Some(6),
        subagents: Some(SubagentsConfig { max_concurrent: 12 }),
        caching: None,
        timeout: None,
        retry: None,
        compaction: None,
    }
}

/// Sets the document's agent defaults, creating the `agents` section
/// when it is absent.
pub fn save_agents_defaults(config: OpenClawConfig, defaults: AgentsDefaults) -> (r:
    OpenClawConfig)
    requires
        config.wf(),
        defaults.models.wf(),
    ensures
        r.wf(),
        r.agents matches Some(a) && a.defaults == defaults,
        r.meta == config.meta,
        r.wizard == config.wizard,
        r.models == config.models,
        r.auth == config.auth,
        r.messages == config.messages,
        r.commands == config.commands,
        r.gateway == config.gateway,
        r.skills == config.skills,
{
    let OpenClawConfig { meta, wizard, models, agents, auth, messages, commands, gateway, skills } =
        config;
    let mut a = match agents {
        Some(a) => a,
        None => AgentsConfig { defaults: default_agents_defaults() },
    };
    a.defaults = defaults;
    OpenClawConfig {
        meta,
        wizard,
        models,
        agents: Some(a),
        auth,
        messages,
        commands,
        gateway,
        skills,
    }
}

} // verus!
