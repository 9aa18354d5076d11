use git_ai::client::{split_messages, AIClient, ChatCompletionResponse, ChatMessage, ChatReply, Choice};
use git_ai::config::{ConfigManager, EnvVars};
use git_ai::diff::{parse_decimal, DiffPreparer};
use git_ai::error::GitAiError;
use git_ai::redact::redact_secrets;
use git_ai::types::{get_provider_presets, AIConfig};

fn layer(provider: &str, key: &str, locale: &str) -> AIConfig {
    AIConfig {
        provider: provider.to_string(),
        api_key: key.to_string(),
        base_url: String::new(),
        model: String::new(),
        agent_model: None,
        locale: locale.to_string(),
        custom_prompt: None,
        enable_footer: None,
    }
}

fn env(pairs: &[(&str, &str)]) -> EnvVars {
    EnvVars::new(pairs.iter().map(|(k, v)| (k.to_string(), v.to_string())).collect())
}

#[test]
fn merge_takes_highest_defining_layer() {
    let mut global = layer("openai", "g-key", "zh");
    global.model = "gpt".to_string();
    global.enable_footer = Some(false);
    let mut local = layer("deepseek", "", "en");
    local.agent_model = Some("agent".to_string());
    let envl = layer("", "", "en");
    let m = ConfigManager::merge_layers(global, local, envl);
    assert_eq!(m.provider, "deepseek");
    assert_eq!(m.api_key, "g-key");
    assert_eq!(m.model, "gpt");
    assert_eq!(m.agent_model.as_deref(), Some("agent"));
    assert_eq!(m.locale, "zh");
    assert_eq!(m.enable_footer, Some(false));
}

#[test]
fn environment_overrides_files() {
    let vars = env(&[
        ("GIT_AI_PROVIDER", "ollama"),
        ("OPENAI_API_KEY", "env-key"),
        ("GIT_AI_LOCALE", "zh"),
        ("GIT_AI_ENABLE_FOOTER", "YES"),
        ("GIT_AI_CUSTOM_PROMPT", "be brief"),
    ]);
    let e = ConfigManager::read_env_config(&vars);
    assert_eq!(e.provider, "ollama");
    assert_eq!(e.api_key, "env-key");
    assert_eq!(e.enable_footer, Some(true));
    let m = ConfigManager::get_merged_config(Ok(layer("openai", "k", "en")), Ok(layer("", "", "")), e).unwrap();
    assert_eq!(m.provider, "ollama");
    assert_eq!(m.api_key, "env-key");
    assert_eq!(m.locale, "zh");
    assert_eq!(m.custom_prompt.as_deref(), Some("be brief"));
}

#[test]
fn environment_fallbacks_and_flags() {
    let e = ConfigManager::read_env_config(&env(&[
        ("OCO_AI_PROVIDER", "qwen"),
        ("DEEPSEEK_API_KEY", "d"),
        ("GIT_AI_ENABLE_FOOTER", "off"),
    ]));
    assert_eq!(e.provider, "qwen");
    assert_eq!(e.api_key, "d");
    assert_eq!(e.enable_footer, Some(false));
    assert_eq!(e.locale, "en");
    let none = ConfigManager::read_env_config(&env(&[]));
    assert_eq!(none.enable_footer, None);
    assert_eq!(none.agent_model, None);
    assert!(ConfigManager::is_truthy_flag("on"));
    assert!(!ConfigManager::is_truthy_flag("ON"));
}

#[test]
fn default_locale_never_clears_a_chosen_one() {
    let m = ConfigManager::merge_layers(layer("p", "k", "zh"), layer("", "", "en"), layer("", "", "en"));
    assert_eq!(m.locale, "zh");
    let m = ConfigManager::merge_layers(layer("p", "k", "zh"), layer("", "", "fr"), layer("", "", ""));
    assert_eq!(m.locale, "fr");
}

#[test]
fn merged_config_reports_read_errors() {
    let r = ConfigManager::get_merged_config(
        Err(GitAiError::Config("bad global".to_string())),
        Ok(AIConfig::default()),
        AIConfig::default(),
    );
    assert!(matches!(r, Err(GitAiError::Config(ref m)) if m == "bad global"));
    let r = ConfigManager::get_config(Ok(AIConfig::default()), Ok(AIConfig::default()), AIConfig::default());
    assert!(matches!(r, Err(GitAiError::Config(ref m)) if m == "Provider not configured. Run 'git-ai config' to set up."));
}

#[test]
fn default_config_values() {
    let d = AIConfig::default();
    assert_eq!(d.locale, "en");
    assert_eq!(d.enable_footer, Some(true));
    assert!(d.provider.is_empty());
}

#[test]
fn config_paths() {
    assert_eq!(
        ConfigManager::get_global_config_path(Some("/home/u/.config".to_string())).unwrap(),
        "/home/u/.config/git-ai-cli/config.json"
    );
    assert_eq!(
        ConfigManager::get_global_config_dir(Some("/cfg/".to_string())).unwrap(),
        "/cfg/git-ai-cli"
    );
    assert!(matches!(
        ConfigManager::get_global_config_path(None),
        Err(GitAiError::Config(ref m)) if m == "Cannot determine config directory"
    ));
    assert_eq!(ConfigManager::get_local_config_path(), ".git-ai.json");
}

#[test]
fn provider_presets_table() {
    let presets = get_provider_presets();
    assert_eq!(presets.len(), 8);
    assert_eq!(presets[0].0, "deepseek");
    assert_eq!(presets[0].1.base_url, "https://api.deepseek.com/v1");
    let ollama = presets.iter().find(|(n, _)| n == "ollama").unwrap();
    assert!(!ollama.1.requires_key);
    assert_eq!(ollama.1.default_model, "llama2");
}

#[test]
fn redaction_masks_keys_bearers_and_long_tokens() {
    let key = format!("sk-{}", "a".repeat(24));
    assert_eq!(redact_secrets(&format!("key {} end", key)), "key sk-****... end");
    let bearer = format!("Authorization: Bearer {}", "t".repeat(22));
    assert_eq!(redact_secrets(&bearer), "Authorization: Bearer ****...");
    let token = "abcdefghijklmnopqrstuvwxyz0123";
    assert_eq!(redact_secrets(&format!("x {} y", token)), "x abc****123 y");
    assert_eq!(redact_secrets("short_token-1 ok"), "short_token-1 ok");
}

#[test]
fn redaction_is_idempotent_on_examples() {
    let key_prefix = "sk-";
    let inputs = [
        format!("prefix {}{}{}", "a".repeat(38), key_prefix, "X".repeat(24)),
        format!("{} {} and {}{}", "Bearer", "abcdefghijklmnopqrstuvwxyz", key_prefix, "ABCDEFGHIJKLMNOPQRSTUVWX"),
        format!("{}{}_tail", key_prefix, "1234567890123456789"),
        String::new(),
    ];
    for input in inputs.iter() {
        let once = redact_secrets(input);
        assert_eq!(redact_secrets(&once), once);
    }
}

#[test]
fn redaction_hides_thirty_character_token() {
    let token = "Q1w2E3r4T5y6U7i8O9p0A1s2D3f4G5";
    let out = redact_secrets(&format!("token={} done", token));
    assert!(!out.contains(token));
    for w in 0..token.len() - 6 {
        assert!(!out.contains(&token[w..w + 7]));
    }
}

fn client() -> AIClient {
    let mut c = layer("deepseek", "secret", "en");
    c.base_url = "https://api.example.com/v1".to_string();
    c.model = "m".to_string();
    AIClient::new(c).ok().unwrap()
}

fn reply(content: &str) -> ChatReply {
    ChatReply::Parsed(ChatCompletionResponse {
        choices: vec![Choice {
            message: ChatMessage { role: "assistant".to_string(), content: content.to_string() },
            finish_reason: Some("stop".to_string()),
        }],
    })
}

#[test]
fn client_needs_provider_and_key() {
    assert!(matches!(AIClient::new(layer("", "k", "en")), Err(GitAiError::Config(ref m)) if m == "Provider not configured"));
    assert!(matches!(AIClient::new(layer("openai", "", "en")), Err(GitAiError::Config(ref m)) if m == "API key not configured"));
    assert!(AIClient::new(layer("ollama", "", "en")).is_ok());
    assert!(AIClient::new(layer("lm-studio", "", "en")).is_ok());
}

#[test]
fn request_plans() {
    let c = client();
    let one = c.commit_message_request("sys", "usr");
    assert_eq!(one.url, "https://api.example.com/v1/chat/completions");
    assert_eq!(one.authorization, "Bearer secret");
    assert_eq!(one.temperature_percent, 70);
    assert_eq!(one.max_tokens, 500);
    assert_eq!(one.messages[0].role, "system");
    assert_eq!(one.messages[1].content, "usr");
    let many = c.multiple_messages_request("sys", "usr", 3);
    assert_eq!(many.temperature_percent, 80);
    assert_eq!(many.max_tokens, 1000);
    assert_eq!(
        many.messages[1].content,
        "usr\n\nGenerate 3 different commit messages separated by '---'."
    );
}

#[test]
fn multi_message_split() {
    let c = client();
    let msgs = c.generate_multiple_messages(reply("msg1---msg2---  ---msg3")).ok().unwrap();
    assert_eq!(msgs, vec!["msg1".to_string(), "msg2".to_string(), "msg3".to_string()]);
    assert_eq!(split_messages(" only one "), vec!["only one".to_string()]);
    assert!(split_messages("------").is_empty());
}

#[test]
fn single_message_and_reply_errors() {
    let c = client();
    assert_eq!(c.generate_commit_message(reply("feat: x")).ok().unwrap(), "feat: x");
    let empty = ChatReply::Parsed(ChatCompletionResponse { choices: vec![] });
    assert!(matches!(c.generate_commit_message(empty), Err(GitAiError::Ai(ref m)) if m == "No choices in response"));
    let bad = ChatReply::Malformed("eof".to_string());
    assert!(matches!(c.generate_commit_message(bad), Err(GitAiError::Json(ref m)) if m == "Failed to parse response: eof"));
    let bad = ChatReply::Malformed("eof".to_string());
    assert!(matches!(c.generate_multiple_messages(bad), Err(GitAiError::Json(ref m)) if m == "Failed to parse response: eof"));
    let secret = format!("sk-{}", "z".repeat(30));
    let t = ChatReply::Transport(format!("connect failed with {}", secret));
    match c.generate_commit_message(t) {
        Err(GitAiError::Http(m)) => assert_eq!(m, "HTTP request failed: connect failed with sk-****..."),
        _ => panic!("expected a transport error"),
    }
    let s = ChatReply::Status { status: "401 Unauthorized".to_string(), body: "bad key".to_string() };
    match c.generate_commit_message(s) {
        Err(GitAiError::Ai(m)) => assert_eq!(m, "API error (401 Unauthorized): bad key"),
        _ => panic!("expected a status error"),
    }
}

#[test]
fn truncation_budget() {
    let (t, cut) = DiffPreparer::truncate("abcdef", 4);
    assert_eq!((t.as_str(), cut), ("abcd", true));
    let (t, cut) = DiffPreparer::truncate("abcd", 4);
    assert_eq!((t.as_str(), cut), ("abcd", false));
    let (t, cut) = DiffPreparer::truncate("", 0);
    assert_eq!((t.as_str(), cut), ("", false));
    let (t, cut) = DiffPreparer::truncate("héllo", 2);
    assert_eq!((t.as_str(), cut), ("hé", true));
    assert!(matches!(DiffPreparer::prepare("", 10), Err(GitAiError::NoStagedChanges)));
}

#[test]
fn budget_override_parse() {
    assert_eq!(DiffPreparer::max_diff_chars(None), 5000);
    assert_eq!(DiffPreparer::max_diff_chars(Some("120")), 120);
    assert_eq!(DiffPreparer::max_diff_chars(Some("+7")), 7);
    assert_eq!(DiffPreparer::max_diff_chars(Some("12a")), 5000);
    assert_eq!(DiffPreparer::max_diff_chars(Some("")), 5000);
    assert_eq!(parse_decimal("99999999999999999999999"), None);
    assert_eq!(parse_decimal("007"), Some(7));
}

#[test]
fn error_messages() {
    assert_eq!(GitAiError::UserCancelled.message(), "User cancelled operation");
    assert_eq!(GitAiError::Git("x".to_string()).message(), "Git error: x");
    assert_eq!(GitAiError::Other("plain".to_string()).message(), "plain");
}

#[test]
fn redact_methods_of_owners() {
    let long = "abcdefghijklmnopqrstuvwxyz";
    assert_eq!(ConfigManager::redact_secrets(&format!("v={}", long)), "v=abc****xyz");
    let bearer = format!("Bearer {}", "q".repeat(20));
    assert_eq!(AIClient::redact_secrets(&bearer), "Bearer ****...");
    assert_eq!(ConfigManager::redact_secrets(&bearer), "Bearer ****...");
    let header = format!("Authorization: {} {}", "Bearer", "abcdefghijklmnopqrstuvwxyz0123");
    assert_eq!(ConfigManager::redact_secrets(&header), "Authorization: Bearer ****...");
}

#[test]
fn missing_layer_defines_nothing() {
    let mut global = layer("openai", "k", "zh");
    global.enable_footer = Some(false);
    let m = ConfigManager::merge_layers(global, AIConfig::missing_layer(), ConfigManager::read_env_config(&env(&[])));
    assert_eq!(m.enable_footer, Some(false));
    assert_eq!(m.locale, "zh");
    assert_eq!(m.provider, "openai");
    assert_eq!(AIConfig::missing_layer().enable_footer, None);
}
