//! Application and project configuration.
use vstd::prelude::*;

use crate::text::owned;
use crate::text_map::TextMap;

verus! {

broadcast use vstd::string::group_string_axioms;

/// Payload of a configuration change.
#[derive(Debug, Clone)]
pub struct ConfigChangedPayload {
    pub project_path: String,
}

/// A provider offered in the settings.
#[derive(Debug, Clone)]
pub struct ProviderInfo {
    pub id: String,
    pub name: String,
    pub models: Vec<String>,
    pub default_api_key_env: String,
}

/// Application-wide configuration.
#[derive(Debug, Clone)]
pub struct AppConfig {
    pub state: AppState,
}

/// State remembered between runs of the application.
#[derive(Debug, Clone)]
pub struct AppState {
    pub last_project: Option<String>,
}

impl Default for AppState {
    fn default() -> (r: Self)
        ensures
            r.last_project is None,
    {
        AppState { last_project: None }
    }
}

impl Default for AppConfig {
    fn default() -> (r: Self)
        ensures
            r.state.last_project is None,
    {
        AppConfig { state: AppState::default() }
    }
}

/// Configuration of a project.
#[derive(Debug)]
pub struct ProjectConfig {
    pub agent: AgentConfig,
    pub execution: ExecutionConfig,
    pub search: SearchConfig,
    pub notifications: NotificationsConfig,
    pub prompts: PromptsConfig,
    /// Custom system prompt (`None` uses the default).
    pub system_prompt: Option<String>,
    /// Custom tool descriptions (`None` uses the defaults).
    pub tool_descriptions: Option<TextMap>,
    /// Custom extraction prompt for compaction (`None` uses the default).
    pub extraction_prompt: Option<String>,
    /// Custom prompts of agent types, by agent id (`None` uses the defaults).
    pub agent_prompts: Option<TextMap>,
}

/// Web search settings.
#[derive(Debug, Clone)]
pub struct SearchConfig {
    pub provider: String,
    pub max_results: u32,
}

/// The search provider used when none is configured.
pub fn default_search_provider() -> (r: String)
    ensures
        r@ == "duckduckgo"@,
{
    owned("duckduckgo")
}

/// The number of search results used when none is configured.
pub fn default_max_results() -> (r: u32)
    ensures
        r == 10,
{
    10
}

impl Default for SearchConfig {
    fn default() -> (r: Self)
        ensures
            r.provider@ == "duckduckgo"@,
            r.max_results == 10,
    {
        SearchConfig { provider: default_search_provider(), max_results: default_max_results() }
    }
}

/// Model provider settings.
#[derive(Debug, Clone)]
pub struct AgentConfig {
    pub provider: String,
    pub model: String,
    pub api_key_env: String,
    pub max_tokens: u32,
    /// Context window of the model (`None` uses the default).
    pub context_limit: Option<u32>,
}

/// Text added before and after the custom system prompt.
#[derive(Debug, Clone)]
pub struct PromptsConfig {
    pub pre: String,
    pub post: String,
}

impl Default for PromptsConfig {
    fn default() -> (r: Self)
        ensures
            r.pre@ == Seq::<char>::empty(),
            r.post@ == Seq::<char>::empty(),
    {
        PromptsConfig { pre: String::new(), post: String::new() }
    }
}

/// Limits of tool execution.
#[derive(Debug, Clone)]
pub struct ExecutionConfig {
    pub timeout_secs: u64,
    pub max_tool_iterations: u32,
    pub max_agent_depth: u32,
}

/// The sub-agent depth used when none is configured.
pub fn default_max_agent_depth() -> (r: u32)
    ensures
        r == 3,
{
    3
}

/// What to do when a run completes or fails.
#[derive(Debug, Clone)]
pub struct NotificationsConfig {
    pub on_complete: Vec<NotificationAction>,
    pub on_error: Vec<NotificationAction>,
}

impl Default for NotificationsConfig {
    fn default() -> (r: Self)
        ensures
            r.on_complete@.len() == 0,
            r.on_error@.len() == 0,
    {
        NotificationsConfig { on_complete: Vec::new(), on_error: Vec::new() }
    }
}

/// A way of notifying the user.
#[derive(Debug, Clone, Copy, PartialEq, Eq, Structural)]
pub enum NotificationAction {
    Sound,
    Window,
}

} // verus!
