use openclaw_config::commands::add_provider;
use openclaw_config::commands::default_agents_defaults;
use openclaw_config::commands::delete_provider;
use openclaw_config::commands::get_agents_defaults;
use openclaw_config::commands::get_providers;
use openclaw_config::commands::save_agents_defaults;
use openclaw_config::commands::update_provider;
use openclaw_config::dict::Dict;
use openclaw_config::error::AppError;
use openclaw_config::models::AgentsConfig;
use openclaw_config::models::AgentsDefaults;
use openclaw_config::models::ConfigMeta;
use openclaw_config::models::GatewayConfig;
use openclaw_config::models::OpenClawConfig;
use openclaw_config::models::Provider;
use openclaw_config::service::config_or_default;
use openclaw_config::service::ConfigService;

fn provider(base_url: &str) -> Provider {
    Provider {
        baseUrl: base_url.to_string(),
        apiKey: None,
        api: "openai".to_string(),
        models: Vec::new(),
    }
}

fn meta(comment: &str) -> ConfigMeta {
    ConfigMeta {
        lastTouchedVersion: None,
        lastTouchedAt: None,
        comment: Some(comment.to_string()),
    }
}

#[test]
fn default_document_is_empty() {
    let c = OpenClawConfig::default();
    assert!(c.meta.is_none());
    assert!(c.wizard.is_none());
    assert!(c.models.is_none());
    assert!(c.agents.is_none());
    assert!(c.auth.is_none());
    assert!(c.messages.is_none());
    assert!(c.commands.is_none());
    assert!(c.gateway.is_none());
    assert!(c.skills.is_none());
}

#[test]
fn config_or_default_keeps_a_loaded_document() {
    let mut c = OpenClawConfig::default();
    c.meta = Some(meta("kept"));
    let r = config_or_default(Some(c));
    assert_eq!(r.meta.unwrap().comment.unwrap(), "kept");
    let r2 = config_or_default(None);
    assert!(r2.meta.is_none() && r2.models.is_none());
}

#[test]
fn merge_prefers_incoming_sections_and_keeps_the_rest() {
    let svc = ConfigService::with_config_path("/tmp/x/openclaw.json".to_string());
    let mut existing = OpenClawConfig::default();
    existing.meta = Some(meta("old"));
    existing.gateway = Some(GatewayConfig {
        port: Some(8080),
        mode: None,
        bind: None,
        auth: None,
        tailscale: None,
    });
    let mut incoming = OpenClawConfig::default();
    incoming.meta = Some(meta("new"));
    let merged = svc.merge_configs(existing, incoming);
    assert_eq!(merged.meta.unwrap().comment.unwrap(), "new");
    assert_eq!(merged.gateway.unwrap().port, Some(8080));
    assert!(merged.models.is_none());
}

#[test]
fn merge_with_empty_incoming_changes_nothing() {
    let svc = ConfigService::with_config_path("/tmp/x/openclaw.json".to_string());
    let mut existing = OpenClawConfig::default();
    existing.meta = Some(meta("stays"));
    let merged = svc.merge_configs(existing, OpenClawConfig::default());
    assert_eq!(merged.meta.unwrap().comment.unwrap(), "stays");
}

#[test]
fn add_provider_creates_the_models_section_in_merge_mode() {
    let c = add_provider(
        OpenClawConfig::default(),
        "anthropic".to_string(),
        provider("https://api.anthropic.com"),
    );
    let m = c.models.expect("models section");
    assert_eq!(m.mode, "merge");
    let p = m.providers.get(&"anthropic".to_string()).expect("provider");
    assert_eq!(p.baseUrl, "https://api.anthropic.com");
    assert_eq!(m.providers.len(), 1);
}

#[test]
fn add_provider_replaces_a_provider_of_the_same_name() {
    let c = add_provider(OpenClawConfig::default(), "a".to_string(), provider("https://one"));
    let c = add_provider(c, "a".to_string(), provider("https://two"));
    let m = c.models.unwrap();
    assert_eq!(m.providers.len(), 1);
    assert_eq!(m.providers.get(&"a".to_string()).unwrap().baseUrl, "https://two");
}

#[test]
fn update_provider_rewrites_an_existing_provider() {
    let c = add_provider(OpenClawConfig::default(), "a".to_string(), provider("https://one"));
    let c = update_provider(c, "a".to_string(), provider("https://two")).expect("update");
    let m = c.models.unwrap();
    assert_eq!(m.providers.get(&"a".to_string()).unwrap().baseUrl, "https://two");
}

#[test]
fn update_provider_rejects_an_unknown_name() {
    let c = add_provider(OpenClawConfig::default(), "a".to_string(), provider("https://one"));
    let e = update_provider(c, "missing".to_string(), provider("https://two")).err().expect("error");
    match e {
        AppError::InvalidProvider(msg) => {
            assert_eq!(msg, "Provider 'missing' not found");
        }
        other => panic!("unexpected error: {:?}", other),
    }
}

#[test]
fn update_provider_without_a_models_section_changes_nothing() {
    let c = update_provider(
        OpenClawConfig::default(),
        "a".to_string(),
        provider("https://one"),
    )
    .expect("ok");
    assert!(c.models.is_none());
}

#[test]
fn delete_provider_removes_only_the_named_provider() {
    let c = add_provider(OpenClawConfig::default(), "a".to_string(), provider("https://one"));
    let c = add_provider(c, "b".to_string(), provider("https://two"));
    let c = delete_provider(c, "a".to_string());
    let m = c.models.unwrap();
    assert_eq!(m.providers.len(), 1);
    assert!(m.providers.get(&"a".to_string()).is_none());
    assert_eq!(m.providers.get(&"b".to_string()).unwrap().baseUrl, "https://two");
}

#[test]
fn delete_provider_of_an_absent_name_changes_nothing() {
    let c = add_provider(OpenClawConfig::default(), "a".to_string(), provider("https://one"));
    let c = delete_provider(c, "other".to_string());
    assert_eq!(c.models.unwrap().providers.len(), 1);
}

#[test]
fn get_providers_of_an_empty_document_is_empty() {
    let d = get_providers(OpenClawConfig::default());
    assert_eq!(d.len(), 0);
    assert!(d.is_empty());
}

#[test]
fn agents_defaults_round_trip() {
    assert!(get_agents_defaults(OpenClawConfig::default()).is_none());
    let defaults = AgentsDefaults {
        model: None,
        models: Dict::new(),
        workspace: Some("/work".to_string()),
        maxConcurrent: Some(3),
        subagents: None,
        caching: None,
        timeout: None,
        retry: None,
        compaction: None,
    };
    let c = save_agents_defaults(OpenClawConfig::default(), defaults);
    let got = get_agents_defaults(c).expect("defaults");
    assert_eq!(got.workspace.unwrap(), "/work");
    assert_eq!(got.maxConcurrent, Some(3));
}

#[test]
fn save_agents_defaults_keeps_other_sections() {
    let mut c = OpenClawConfig::default();
    c.meta = Some(meta("kept"));
    c.agents = Some(AgentsConfig { defaults: default_agents_defaults() });
    let defaults = AgentsDefaults {
        model: None,
        models: Dict::new(),
        workspace: None,
        maxConcurrent: Some(9),
        subagents: None,
        caching: None,
        timeout: None,
        retry: None,
        compaction: None,
    };
    let c = save_agents_defaults(c, defaults);
    assert_eq!(c.meta.unwrap().comment.unwrap(), "kept");
    assert_eq!(c.agents.unwrap().defaults.maxConcurrent, Some(9));
}

#[test]
fn default_agents_defaults_match_the_documented_limits() {
    let d = default_agents_defaults();
    let model = d.model.expect("model selection");
    assert_eq!(model.primary, "");
    assert!(model.fast.is_none() && model.balanced.is_none() && model.powerful.is_none());
    assert_eq!(d.maxConcurrent, Some(6));
    assert_eq!(d.subagents.expect("subagents").max_concurrent, 12);
    assert_eq!(d.models.len(), 0);
    assert!(d.workspace.is_none() && d.caching.is_none());
    assert!(d.timeout.is_none() && d.retry.is_none() && d.compaction.is_none());
}

#[test]
fn dict_insert_get_remove() {
    let mut d: Dict<u32> = Dict::new();
    assert!(d.is_empty());
    d.insert("one".to_string(), 1);
    d.insert("two".to_string(), 2);
    assert_eq!(d.len(), 2);
    assert!(d.contains_key(&"one".to_string()));
    assert_eq!(d.get(&"one".to_string()), Some(&1));
    d.insert("one".to_string(), 11);
    assert_eq!(d.len(), 2);
    assert_eq!(d.get(&"one".to_string()), Some(&11));
    d.remove(&"one".to_string());
    assert_eq!(d.len(), 1);
    assert!(d.get(&"one".to_string()).is_none());
    assert_eq!(d.get(&"two".to_string()), Some(&2));
    let entries = d.into_entries();
    assert_eq!(entries.len(), 1);
    assert_eq!(entries[0].0, "two");
    assert_eq!(entries[0].1, 2);
}
