use open_eyes::config::{
    apply_env_overrides, default_ckan_base_url, default_crawl_interval, default_db_path,
    default_formats, default_language, default_llm_base_url, default_llm_model,
    default_max_datasets, default_max_resource_size, default_max_tokens, default_port,
    default_title, override_text, parse_port, CkanConfig, DashboardConfig, DbConfig,
    EnvOverrides,
};

fn no_env() -> EnvOverrides {
    EnvOverrides {
        llm_api_key: None,
        llm_base_url: None,
        llm_model: None,
        db_path: None,
        port: None,
        ckan_base_url: None,
    }
}

#[test]
fn defaults_match_the_documented_values() {
    assert_eq!(default_port(), 8080);
    assert_eq!(default_title(), "Open Eyes");
    assert_eq!(default_language(), "de");
    assert_eq!(default_db_path(), "./data/open-eyes.duckdb");
    assert_eq!(default_max_resource_size(), 100);
    assert_eq!(default_llm_base_url(), "https://api.openai.com/v1");
    assert_eq!(default_llm_model(), "gpt-4o-mini");
    assert_eq!(default_max_tokens(), 4096);
    assert_eq!(default_ckan_base_url(), "https://ckan.govdata.de/api/3/action");
    assert_eq!(default_max_datasets(), 10000);
    assert_eq!(default_formats(), vec!["CSV".to_string(), "JSON".to_string()]);
    assert_eq!(default_crawl_interval(), 24);
    let d = DashboardConfig::default();
    assert_eq!(d.port, 8080);
    assert_eq!(d.default_language, "de");
    let c = CkanConfig::default();
    assert_eq!(c.max_datasets, 10000);
    assert_eq!(DbConfig::default().max_resource_size_mb, 100);
}

#[test]
fn parses_ports_like_std() {
    for s in ["8080", "+80", "0", "65535", "0080", "-1", "", "+", "65536", "80a", " 80", "99999999999"] {
        assert_eq!(parse_port(s), s.parse::<u16>().ok(), "input {s:?}");
    }
}

#[test]
fn env_overrides_apply_only_given_values() {
    let mut dash = DashboardConfig::default();
    let mut db = DbConfig::default();
    let mut ckan = CkanConfig::default();
    apply_env_overrides(&no_env(), &mut dash, &mut db, &mut ckan);
    assert_eq!(dash.port, 8080);
    assert_eq!(db.path, "./data/open-eyes.duckdb");
    assert_eq!(ckan.base_url, "https://ckan.govdata.de/api/3/action");

    let mut env = no_env();
    env.db_path = Some("/tmp/x.sqlite".to_string());
    env.port = Some("9090".to_string());
    env.ckan_base_url = Some("https://example.org/api".to_string());
    apply_env_overrides(&env, &mut dash, &mut db, &mut ckan);
    assert_eq!(dash.port, 9090);
    assert_eq!(db.path, "/tmp/x.sqlite");
    assert_eq!(ckan.base_url, "https://example.org/api");

    env.port = Some("not-a-port".to_string());
    apply_env_overrides(&env, &mut dash, &mut db, &mut ckan);
    assert_eq!(dash.port, 9090);

    let mut model = "gpt-4o-mini".to_string();
    override_text(&mut model, &None);
    assert_eq!(model, "gpt-4o-mini");
    override_text(&mut model, &Some("local".to_string()));
    assert_eq!(model, "local");
}
