use trill_engine::config_types::ReasoningEffort;
use trill_engine::models_manager::apply_models;
use trill_engine::models_manager::build_available_models;
use trill_engine::models_manager::default_model_of;
use trill_engine::models_manager::find_key;
use trill_engine::models_manager::find_slug;
use trill_engine::models_manager::format_client_version_to_whole;
use trill_engine::models_manager::mark_default;
use trill_engine::models_manager::nine_tenths_of;
use trill_engine::models_manager::sort_by_priority;
use trill_engine::models_manager::AuthMode;
use trill_engine::models_manager::CodexErr;
use trill_engine::models_manager::Config;
use trill_engine::models_manager::ConfigShellToolType;
use trill_engine::models_manager::EtagAction;
use trill_engine::models_manager::ModelInfo;
use trill_engine::models_manager::ModelPreset;
use trill_engine::models_manager::ModelProviderInfo;
use trill_engine::models_manager::ModelSettings;
use trill_engine::models_manager::ModelVisibility;
use trill_engine::models_manager::ModelsCache;
use trill_engine::models_manager::ModelsManager;
use trill_engine::models_manager::OssFetch;
use trill_engine::models_manager::OssListing;
use trill_engine::models_manager::RefreshPlan;
use trill_engine::models_manager::RefreshStrategy;
use trill_engine::models_manager::TruncationMode;
use trill_engine::models_manager::TruncationPolicyConfig;

fn remote_model(slug: &str, display: &str, priority: i32) -> ModelInfo {
    remote_model_with_visibility(slug, display, priority, "list")
}

fn remote_model_with_visibility(slug: &str, display: &str, priority: i32, visibility: &str) -> ModelInfo {
    ModelInfo {
        slug: slug.to_string(),
        display_name: display.to_string(),
        description: Some(format!("{display} desc")),
        default_reasoning_level: Some(ReasoningEffort::Medium),
        shell_type: ConfigShellToolType::ShellCommand,
        visibility: match visibility {
            "list" => ModelVisibility::List,
            "hide" => ModelVisibility::Hide,
            _ => ModelVisibility::Unlisted,
        },
        supported_in_api: true,
        priority,
        base_instructions: "base instructions".to_string(),
        supports_reasoning_summaries: false,
        support_verbosity: false,
        truncation_policy: TruncationPolicyConfig { mode: TruncationMode::Bytes, limit: 10_000 },
        supports_parallel_tool_calls: false,
        context_window: Some(272_000),
        auto_compact_token_limit: None,
        effective_context_window_percent: 95,
    }
}

fn preset(model: &str, show_in_picker: bool, supported_in_api: bool) -> ModelPreset {
    ModelPreset {
        id: model.to_string(),
        model: model.to_string(),
        display_name: model.to_uppercase(),
        description: None,
        default_reasoning_effort: None,
        is_default: false,
        show_in_picker,
        supported_in_api,
    }
}

fn provider_for(base_url: String) -> ModelProviderInfo {
    ModelProviderInfo { name: "mock".to_string(), base_url: Some(base_url) }
}

fn config() -> Config {
    Config {
        remote_models_enabled: true,
        model_providers: vec![],
        model_settings: vec![],
        model_context_window: None,
        model_auto_compact_token_limit: None,
        base_instructions: "be helpful".to_string(),
    }
}

fn slugs(models: &[ModelInfo]) -> Vec<String> {
    models.iter().map(|m| m.slug.clone()).collect()
}

fn names(presets: &[ModelPreset]) -> Vec<String> {
    presets.iter().map(|p| p.model.clone()).collect()
}

#[test]
fn build_available_models_picks_default_after_hiding_hidden_models() {
    let provider = provider_for("http://example.test".to_string());
    let manager = ModelsManager::with_provider(Vec::new(), Vec::new(), Some(AuthMode::ApiKey), provider);

    let hidden_model = remote_model_with_visibility("hidden", "Hidden", 0, "hide");
    let visible_model = remote_model_with_visibility("visible", "Visible", 1, "list");

    let expected_hidden = ModelPreset::from(hidden_model.clone());
    let mut expected_visible = ModelPreset::from(visible_model.clone());
    expected_visible.is_default = true;

    let available = manager.build_available_models(vec![hidden_model, visible_model]);

    assert_eq!(available, vec![expected_hidden, expected_visible]);
}

#[test]
fn preset_is_named_after_slug() {
    let info = remote_model("gpt-x", "GPT X", 3);
    assert_eq!(
        ModelPreset::from(info),
        ModelPreset {
            id: "gpt-x".to_string(),
            model: "gpt-x".to_string(),
            display_name: "GPT X".to_string(),
            description: Some("GPT X desc".to_string()),
            default_reasoning_effort: Some(ReasoningEffort::Medium),
            is_default: false,
            show_in_picker: true,
            supported_in_api: true,
        }
    );
    assert!(!ModelPreset::from(remote_model_with_visibility("h", "H", 0, "hide")).show_in_picker);
    assert!(!ModelPreset::from(remote_model_with_visibility("n", "N", 0, "none")).show_in_picker);
}

#[test]
fn sort_by_priority_is_stable() {
    let models = vec![
        remote_model("c", "C", 2),
        remote_model("a1", "A1", 0),
        remote_model("b", "B", 1),
        remote_model("a2", "A2", 0),
        remote_model("neg", "Neg", -5),
        remote_model("c2", "C2", 2),
    ];
    assert_eq!(slugs(&sort_by_priority(models)), ["neg", "a1", "a2", "b", "c", "c2"]);
    assert_eq!(sort_by_priority(vec![]), vec![]);
}

#[test]
fn higher_priority_is_listed_first() {
    let manager = ModelsManager::new(vec![], vec![], Some(AuthMode::Chatgpt), "openai".to_string());
    let available = manager.build_available_models(vec![
        remote_model("priority-low", "Low", 1),
        remote_model("priority-high", "High", 0),
    ]);
    assert_eq!(names(&available), ["priority-high", "priority-low"]);
    assert!(available[0].is_default);
    assert!(!available[1].is_default);
}

#[test]
fn merge_keeps_existing_that_remote_lacks() {
    let mut local_default = preset("local", true, true);
    local_default.is_default = true;
    let merged = ModelPreset::merge(
        vec![preset("remote", true, true), preset("shared", true, true)],
        vec![local_default, preset("shared", false, false)],
    );
    assert_eq!(names(&merged), ["remote", "shared", "local"]);
    assert!(merged[1].show_in_picker);
    assert!(!merged[2].is_default);
}

#[test]
fn merge_without_remote_returns_existing() {
    let mut local_default = preset("local", true, true);
    local_default.is_default = true;
    let merged = ModelPreset::merge(vec![], vec![local_default.clone(), preset("other", true, true)]);
    assert_eq!(merged, vec![local_default, preset("other", true, true)]);
}

#[test]
fn contains_model_compares_names() {
    let presets = vec![preset("a", true, true), preset("b", true, true)];
    assert!(ModelPreset::contains_model(&presets, "b"));
    assert!(!ModelPreset::contains_model(&presets, "B"));
    assert!(!ModelPreset::contains_model(&vec![], "a"));
}

#[test]
fn filter_by_auth_hides_models_outside_api() {
    let models = vec![preset("api", true, true), preset("chat-only", true, false), preset("api2", true, true)];
    assert_eq!(names(&ModelPreset::filter_by_auth(models.clone(), false)), ["api", "api2"]);
    assert_eq!(names(&ModelPreset::filter_by_auth(models, true)), ["api", "chat-only", "api2"]);
}

#[test]
fn mark_default_picks_one() {
    let mut stale = preset("a", false, true);
    stale.is_default = true;
    let marked = mark_default(vec![stale, preset("b", true, true), preset("c", true, true)]);
    let flags: Vec<bool> = marked.iter().map(|p| p.is_default).collect();
    assert_eq!(flags, [false, true, false]);
    let none_shown = mark_default(vec![preset("a", false, true), preset("b", false, true)]);
    let flags: Vec<bool> = none_shown.iter().map(|p| p.is_default).collect();
    assert_eq!(flags, [true, false]);
    assert_eq!(mark_default(vec![]), vec![]);
}

#[test]
fn build_available_models_free_function() {
    let available = build_available_models(
        vec![remote_model("r2", "R2", 2), remote_model("r1", "R1", 1)],
        vec![preset("l", true, false), preset("r1", true, true)],
        false,
    );
    assert_eq!(names(&available), ["r1", "r2"]);
    let available = build_available_models(
        vec![remote_model("r2", "R2", 2), remote_model("r1", "R1", 1)],
        vec![preset("l", true, false), preset("r1", true, true)],
        true,
    );
    assert_eq!(names(&available), ["r1", "r2", "l"]);
}

#[test]
fn apply_models_replaces_by_slug() {
    let bundled = vec![remote_model("a", "A", 0), remote_model("b", "B", 1)];
    let applied = apply_models(
        bundled,
        vec![remote_model("b", "B new", 7), remote_model("c", "C", 2), remote_model("c", "C newer", 3)],
    );
    assert_eq!(slugs(&applied), ["a", "b", "c"]);
    assert_eq!(applied[1].display_name, "B new");
    assert_eq!(applied[2].display_name, "C newer");
}

#[test]
fn remote_models_drop_removed_models() {
    let mut manager = ModelsManager::with_provider(
        vec![],
        vec![],
        Some(AuthMode::Chatgpt),
        provider_for("http://example.test".to_string()),
    );
    manager.fetch_and_update_models(vec![remote_model("remote-old", "Remote Old", 1)], None);
    manager.fetch_and_update_models(
        vec![remote_model("remote-new", "Remote New", 1)],
        Some("v2".to_string()),
    );
    let available = manager.try_list_models(&config());
    assert!(available.iter().any(|p| p.model == "remote-new"));
    assert!(!available.iter().any(|p| p.model == "remote-old"));
    assert_eq!(manager.get_etag(), Some("v2".to_string()));
}

#[test]
fn find_helpers_return_first_place() {
    let models = vec![remote_model("a", "A", 0), remote_model("b", "B", 0), remote_model("a", "A2", 0)];
    assert_eq!(find_slug(&models, "a"), Some(0));
    assert_eq!(find_slug(&models, "b"), Some(1));
    assert_eq!(find_slug(&models, "z"), None);
    let entries = vec![("k".to_string(), 1u8), ("l".to_string(), 2u8), ("k".to_string(), 3u8)];
    assert_eq!(find_key(&entries, "k"), Some(0));
    assert_eq!(find_key(&entries, "l"), Some(1));
    assert_eq!(find_key(&entries, ""), None);
}

#[test]
fn nine_tenths_rounds_towards_zero() {
    assert_eq!(nine_tenths_of(8192), 7372);
    assert_eq!(nine_tenths_of(0), 0);
    assert_eq!(nine_tenths_of(1), 0);
    assert_eq!(nine_tenths_of(-1), 0);
    assert_eq!(nine_tenths_of(-11), -9);
    assert_eq!(nine_tenths_of(100), 90);
    assert_eq!(nine_tenths_of(i64::MAX), 8301034833169298226);
    assert_eq!(nine_tenths_of(i64::MIN), -8301034833169298227);
}

#[test]
fn create_oss_model_info_uses_defaults() {
    let manager = ModelsManager::new(vec![], vec![], None, "lmstudio".to_string());
    let info = manager.create_oss_model_info("qwen/qwen2.5-coder-14b", &config());
    assert_eq!(
        info,
        ModelInfo {
            slug: "qwen/qwen2.5-coder-14b".to_string(),
            display_name: "qwen2.5-coder-14b".to_string(),
            description: Some("Local model via lmstudio".to_string()),
            default_reasoning_level: None,
            shell_type: ConfigShellToolType::Default,
            visibility: ModelVisibility::List,
            supported_in_api: true,
            priority: 0,
            base_instructions: "be helpful".to_string(),
            supports_reasoning_summaries: false,
            support_verbosity: false,
            truncation_policy: TruncationPolicyConfig::bytes(10_000),
            supports_parallel_tool_calls: false,
            context_window: Some(8192),
            auto_compact_token_limit: Some(7372),
            effective_context_window_percent: 95,
        }
    );
}

#[test]
fn create_oss_model_info_prefers_model_settings() {
    let manager = ModelsManager::new(vec![], vec![], None, "ollama".to_string());
    let mut config = config();
    config.model_context_window = Some(1000);
    config.model_auto_compact_token_limit = Some(500);
    config.model_settings = vec![
        ("own".to_string(), ModelSettings { context_window: Some(2000), auto_compact_token_limit: Some(1500) }),
        ("half".to_string(), ModelSettings { context_window: Some(3000), auto_compact_token_limit: None }),
    ];
    let own = manager.create_oss_model_info("own", &config);
    assert_eq!((own.context_window, own.auto_compact_token_limit), (Some(2000), Some(1500)));
    let half = manager.create_oss_model_info("half", &config);
    assert_eq!((half.context_window, half.auto_compact_token_limit), (Some(3000), Some(500)));
    let other = manager.create_oss_model_info("other", &config);
    assert_eq!((other.context_window, other.auto_compact_token_limit), (Some(1000), Some(500)));
    config.model_auto_compact_token_limit = None;
    let half = manager.create_oss_model_info("half", &config);
    assert_eq!(half.auto_compact_token_limit, Some(2700));
    assert_eq!(manager.create_oss_model_info("a/b/", &config).display_name, "");
    assert_eq!(manager.create_oss_model_info("plain", &config).display_name, "plain");
}

#[test]
fn oss_models_url_trims_slashes() {
    let manager = ModelsManager::new(vec![], vec![], None, "ollama".to_string());
    let mut config = config();
    assert_eq!(
        manager.oss_models_url(&config),
        Err(CodexErr::InvalidRequest("Provider ollama not found in model_providers".to_string()))
    );
    config.model_providers = vec![(
        "ollama".to_string(),
        ModelProviderInfo { name: "Ollama".to_string(), base_url: None },
    )];
    assert_eq!(
        manager.oss_models_url(&config),
        Err(CodexErr::InvalidRequest("Provider ollama has no base_url configured".to_string()))
    );
    config.model_providers = vec![
        ("lmstudio".to_string(), provider_for("http://other".to_string())),
        ("ollama".to_string(), provider_for("http://localhost:11434/v1//".to_string())),
    ];
    assert_eq!(manager.oss_models_url(&config), Ok("http://localhost:11434/v1/models".to_string()));
}

#[test]
fn fetch_oss_models_maps_outcomes() {
    let manager = ModelsManager::new(vec![], vec![], None, "ollama".to_string());
    let config = config();
    assert_eq!(manager.fetch_oss_models(OssFetch::TimedOut, &config), Err(CodexErr::Timeout));
    assert_eq!(
        manager.fetch_oss_models(OssFetch::RequestFailed { detail: "refused".to_string() }, &config),
        Err(CodexErr::InvalidRequest("Failed to fetch models: refused".to_string()))
    );
    assert_eq!(
        manager.fetch_oss_models(OssFetch::ErrorStatus { status: "503 Service Unavailable".to_string() }, &config),
        Err(CodexErr::InvalidRequest("Failed to fetch models: HTTP 503 Service Unavailable".to_string()))
    );
    assert_eq!(
        manager.fetch_oss_models(OssFetch::BodyFailed { detail: "eof".to_string() }, &config),
        Err(CodexErr::InvalidRequest("Failed to parse models response: eof".to_string()))
    );
    assert_eq!(
        manager.fetch_oss_models(OssFetch::Body(OssListing { data: None }), &config),
        Err(CodexErr::InvalidRequest("No 'data' array in models response".to_string()))
    );
    let listed = manager
        .fetch_oss_models(
            OssFetch::Body(OssListing {
                data: Some(vec![Some("a/one".to_string()), None, Some("two".to_string())]),
            }),
            &config,
        )
        .unwrap();
    assert_eq!(slugs(&listed), ["a/one", "two"]);
    assert_eq!(listed[0], manager.create_oss_model_info("a/one", &config));
    assert_eq!(listed[1], manager.create_oss_model_info("two", &config));
}

#[test]
fn refresh_plan_follows_strategy() {
    let chat = ModelsManager::new(vec![], vec![], Some(AuthMode::Chatgpt), "openai".to_string());
    let config = config();
    assert_eq!(chat.refresh_available_models(&config, RefreshStrategy::Offline), RefreshPlan::LoadCache);
    assert_eq!(
        chat.refresh_available_models(&config, RefreshStrategy::OnlineIfUncached),
        RefreshPlan::LoadCacheThenFetch
    );
    assert_eq!(chat.refresh_available_models(&config, RefreshStrategy::Online), RefreshPlan::Fetch);
    let mut disabled = self::config();
    disabled.remote_models_enabled = false;
    assert_eq!(chat.refresh_available_models(&disabled, RefreshStrategy::Online), RefreshPlan::Nothing);
    let api = ModelsManager::new(vec![], vec![], Some(AuthMode::ApiKey), "openai".to_string());
    assert_eq!(api.refresh_available_models(&config, RefreshStrategy::Online), RefreshPlan::Nothing);
    let signed_out = ModelsManager::new(vec![], vec![], None, "openai".to_string());
    assert_eq!(signed_out.refresh_available_models(&config, RefreshStrategy::Online), RefreshPlan::Fetch);
}

#[test]
fn refresh_plan_for_local_providers() {
    for id in ["lmstudio", "ollama", "ollama-chat"] {
        let manager = ModelsManager::new(vec![], vec![], Some(AuthMode::ApiKey), id.to_string());
        assert!(manager.is_oss_provider());
        let mut config = config();
        config.remote_models_enabled = false;
        assert_eq!(manager.refresh_available_models(&config, RefreshStrategy::Offline), RefreshPlan::Nothing);
        assert_eq!(manager.refresh_available_models(&config, RefreshStrategy::Online), RefreshPlan::FetchOss);
        assert_eq!(
            manager.refresh_available_models(&config, RefreshStrategy::OnlineIfUncached),
            RefreshPlan::FetchOss
        );
        assert_eq!(manager.refresh_oss_models(RefreshStrategy::Offline), RefreshPlan::Nothing);
        assert_eq!(manager.refresh_oss_models(RefreshStrategy::Online), RefreshPlan::FetchOss);
    }
    assert!(!ModelsManager::new(vec![], vec![], None, "openai".to_string()).is_oss_provider());
    assert!(!ModelsManager::new(vec![], vec![], None, "Ollama".to_string()).is_oss_provider());
}

#[test]
fn apply_oss_models_keeps_models_on_failure() {
    let mut manager = ModelsManager::new(vec![], vec![remote_model("bundled", "B", 0)], None, "ollama".to_string());
    manager.apply_oss_models(Err(CodexErr::Timeout));
    assert_eq!(slugs(&manager.get_remote_models(&config())), ["bundled"]);
    manager.apply_oss_models(Ok(vec![remote_model("local", "L", 0)]));
    assert_eq!(slugs(&manager.get_remote_models(&config())), ["local"]);
}

#[test]
fn cache_is_applied_when_loaded() {
    let mut manager = ModelsManager::new(vec![], vec![remote_model("bundled", "B", 0)], None, "openai".to_string());
    assert!(!manager.try_load_cache(None));
    assert_eq!(manager.get_etag(), None);
    assert!(manager.try_load_cache(Some(ModelsCache {
        models: vec![remote_model("cached", "Cached", 5)],
        etag: Some("tag".to_string()),
    })));
    assert_eq!(slugs(&manager.get_remote_models(&config())), ["bundled", "cached"]);
    assert_eq!(manager.get_etag(), Some("tag".to_string()));
    let mut off = config();
    off.remote_models_enabled = false;
    assert_eq!(manager.get_remote_models(&off), vec![]);
}

#[test]
fn etag_decides_between_renewal_and_refresh() {
    let mut manager = ModelsManager::new(vec![], vec![], None, "openai".to_string());
    assert_eq!(manager.refresh_if_new_etag("a"), EtagAction::RefreshOnline);
    manager.fetch_and_update_models(vec![], Some("a".to_string()));
    assert_eq!(manager.refresh_if_new_etag("a"), EtagAction::RenewCacheTtl);
    assert_eq!(manager.refresh_if_new_etag("b"), EtagAction::RefreshOnline);
}

#[test]
fn default_model_prefers_named_model() {
    let manager = ModelsManager::new(
        vec![preset("local", true, true)],
        vec![remote_model_with_visibility("hidden", "H", 0, "hide"), remote_model("shown", "S", 1)],
        Some(AuthMode::Chatgpt),
        "openai".to_string(),
    );
    let config = config();
    assert_eq!(manager.get_default_model(&Some("mine".to_string()), &config), "mine");
    assert_eq!(manager.get_default_model(&None, &config), "shown");
    assert_eq!(names(&manager.list_models(&config)), ["hidden", "shown", "local"]);
    let empty = ModelsManager::new(vec![], vec![], None, "openai".to_string());
    assert_eq!(empty.get_default_model(&None, &config), "");
}

#[test]
fn default_model_of_falls_back_to_first() {
    let mut second = preset("b", true, true);
    second.is_default = true;
    assert_eq!(default_model_of(&vec![preset("a", true, true), second]), "b");
    assert_eq!(default_model_of(&vec![preset("a", true, true), preset("b", true, true)]), "a");
    assert_eq!(default_model_of(&vec![]), "");
}

#[test]
fn model_info_comes_from_remote_list_first() {
    let manager = ModelsManager::new(vec![], vec![remote_model("known", "Known", 0)], None, "openai".to_string());
    let config = config();
    assert_eq!(
        manager.get_model_info("known", &config, remote_model("fallback", "F", 9)),
        remote_model("known", "Known", 0)
    );
    assert_eq!(
        manager.get_model_info("unknown", &config, remote_model("fallback", "F", 9)),
        remote_model("fallback", "F", 9)
    );
    let mut off = self::config();
    off.remote_models_enabled = false;
    assert_eq!(
        manager.get_model_info("known", &off, remote_model("fallback", "F", 9)),
        remote_model("fallback", "F", 9)
    );
}

#[test]
fn model_offline_uses_presets() {
    let presets = vec![preset("hidden", false, true), preset("shown", true, true)];
    assert_eq!(ModelsManager::get_model_offline(Some("mine"), &presets), "mine");
    assert_eq!(ModelsManager::get_model_offline(None, &presets), "shown");
    assert_eq!(ModelsManager::get_model_offline(None, &vec![preset("only", false, true)]), "only");
    assert_eq!(ModelsManager::get_model_offline(None, &vec![]), "");
}

#[test]
fn client_version_has_three_numbers() {
    assert_eq!(format_client_version_to_whole(), "0.1.0");
}
