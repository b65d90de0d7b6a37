use devflow::config::service::{ConfigService, AGENTS_MD_FILENAME};
use devflow::config::types::{
    default_max_agent_depth, default_max_results, default_search_provider, AppConfig,
    NotificationsConfig, PromptsConfig, SearchConfig,
};
use devflow::text_map::TextMap;
use devflow::text_order::sort_strings;

#[test]
fn test_search_config_defaults() {
    let config = SearchConfig::default();
    assert_eq!(config.provider, "duckduckgo");
    assert_eq!(config.max_results, 10);
    assert_eq!(default_search_provider(), "duckduckgo");
    assert_eq!(default_max_results(), 10);
}

#[test]
fn test_max_agent_depth_default() {
    assert_eq!(default_max_agent_depth(), 3);
}

#[test]
fn defaults_are_empty() {
    assert!(AppConfig::default().state.last_project.is_none());
    let n = NotificationsConfig::default();
    assert!(n.on_complete.is_empty() && n.on_error.is_empty());
    let p = PromptsConfig::default();
    assert!(p.pre.is_empty() && p.post.is_empty());
}

#[test]
fn test_agents_md_not_saved_when_empty() {
    assert_eq!(ConfigService::agents_md_to_save(Some("   \n".to_string())), None);
    assert_eq!(ConfigService::agents_md_to_save(None), None);
    assert_eq!(
        ConfigService::agents_md_to_save(Some("# Notes".to_string())),
        Some("# Notes".to_string())
    );
    assert_eq!(AGENTS_MD_FILENAME, "AGENTS.md");
    let service = ConfigService::with_app_data_dir("/data".to_string());
    assert_eq!(service.app_data_dir(), "/data");
}

#[test]
fn text_map_insert_replaces_value() {
    let mut map = TextMap::new();
    assert_eq!(map.len(), 0);
    map.insert("a".to_string(), "1".to_string());
    map.insert("b".to_string(), "2".to_string());
    map.insert("a".to_string(), "3".to_string());
    assert_eq!(map.len(), 2);
    assert_eq!(map.get("a"), Some(&"3".to_string()));
    assert_eq!(map.get("b"), Some(&"2".to_string()));
    assert!(map.get("c").is_none());
    assert!(map.contains_key("b"));
    assert!(!map.contains_key("c"));
    assert_eq!(map.entries()[0].0, "a");
}

#[test]
fn strings_sort_by_code_point() {
    let sorted = sort_strings(vec![
        "b".to_string(),
        "B".to_string(),
        "ab".to_string(),
        "a".to_string(),
        "é".to_string(),
    ]);
    assert_eq!(sorted, vec!["B", "a", "ab", "b", "é"]);
}
