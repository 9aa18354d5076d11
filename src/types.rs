use vstd::prelude::*;

verus! {

/// The locale used when no layer names another.
pub const DEFAULT_LOCALE: &'static str = "en";

/// One configuration record: a layer as read, or the merged result.
#[derive(Debug, Clone)]
pub struct AIConfig {
    pub provider: String,
    pub api_key: String,
    pub base_url: String,
    pub model: String,
    pub agent_model: Option<String>,
    pub locale: String,
    pub custom_prompt: Option<String>,
    pub enable_footer: Option<bool>,
}

/// The mathematical content of an [`AIConfig`].
pub struct ConfigView {
    pub provider: Seq<char>,
    pub api_key: Seq<char>,
    pub base_url: Seq<char>,
    pub model: Seq<char>,
    pub agent_model: Option<Seq<char>>,
    pub locale: Seq<char>,
    pub custom_prompt: Option<Seq<char>>,
    pub enable_footer: Option<bool>,
}

pub open spec fn opt_view(o: Option<String>) -> Option<Seq<char>> {
    match o {
        Some(s) => Some(s@),
        None => None,
    }
}

impl View for AIConfig {
    type V = ConfigView;

    open spec fn view(&self) -> ConfigView {
        ConfigView {
            provider: self.provider@,
            api_key: self.api_key@,
            base_url: self.base_url@,
            model: self.model@,
            agent_model: opt_view(self.agent_model),
            locale: self.locale@,
            custom_prompt: opt_view(self.custom_prompt),
            enable_footer: self.enable_footer,
        }
    }
}

/// The default record, as the setup wizard starts from it.
pub open spec fn default_config() -> ConfigView {
    ConfigView {
        provider: Seq::empty(),
        api_key: Seq::empty(),
        base_url: Seq::empty(),
        model: Seq::empty(),
        agent_model: None,
        locale: DEFAULT_LOCALE@,
        custom_prompt: None,
        enable_footer: Some(true),
    }
}

/// The record that a missing layer file stands for: it defines nothing, so every field is
/// inherited from the layer below (the locale is the default one, which never overrides).
pub open spec fn missing_layer() -> ConfigView {
    ConfigView {
        provider: Seq::empty(),
        api_key: Seq::empty(),
        base_url: Seq::empty(),
        model: Seq::empty(),
        agent_model: None,
        locale: DEFAULT_LOCALE@,
        custom_prompt: None,
        enable_footer: None,
    }
}

impl AIConfig {
    /// The layer read from a configuration file that does not exist.
    pub fn missing_layer() -> (r: AIConfig)
        ensures
            r@ == missing_layer(),
    {
        AIConfig {
            provider: String::new(),
            api_key: String::new(),
            base_url: String::new(),
            model: String::new(),
            agent_model: None,
            locale: DEFAULT_LOCALE.to_owned(),
            custom_prompt: None,
            enable_footer: None,
        }
    }
}

impl Default for AIConfig {
    fn default() -> (r: AIConfig)
        ensures
            r@ == default_config(),
    {
        AIConfig {
            provider: String::new(),
            api_key: String::new(),
            base_url: String::new(),
            model: String::new(),
            agent_model: None,
            locale: DEFAULT_LOCALE.to_owned(),
            custom_prompt: None,
            enable_footer: Some(true),
        }
    }
}

/// Connection defaults of a known provider.
#[derive(Debug, Clone)]
pub struct ProviderPreset {
    pub base_url: String,
    pub default_model: String,
    pub requires_key: bool,
}

/// Insertions and deletions of one staged file.
#[derive(Debug, Clone)]
pub struct FileStat {
    pub file: String,
    pub insertions: u32,
    pub deletions: u32,
}

/// What the message command reports in structured form.
#[derive(Debug, Clone)]
pub struct CommitMessageOutput {
    pub messages: Vec<String>,
    pub staged_files: Vec<String>,
    pub truncated: bool,
    pub ignored_files: Vec<String>,
}

/// The known providers: name, base URL, default model, and whether a key is needed.
pub open spec fn preset_table() -> Seq<(Seq<char>, Seq<char>, Seq<char>, bool)> {
    seq![
        ("deepseek"@, "https://api.deepseek.com/v1"@, "deepseek-chat"@, true),
        ("qwen"@, "https://dashscope.aliyuncs.com/compatible-mode/v1"@, "qwen-plus"@, true),
        ("zhipu"@, "https://open.bigmodel.cn/api/paas/v4"@, "glm-4"@, true),
        ("moonshot"@, "https://api.moonshot.cn/v1"@, "moonshot-v1-8k"@, true),
        ("openai"@, "https://api.openai.com/v1"@, "gpt-4-turbo"@, true),
        ("siliconflow"@, "https://api.siliconflow.cn/v1"@, "deepseek-ai/deepseek-v2.5"@, true),
        ("ollama"@, "http://localhost:11434/v1"@, "llama2"@, false),
        ("lm-studio"@, "http://localhost:1234/v1"@, "local-model"@, false)
    ]
}

pub open spec fn preset_entry_view(e: (String, ProviderPreset)) -> (
    Seq<char>,
    Seq<char>,
    Seq<char>,
    bool,
) {
    (e.0@, e.1.base_url@, e.1.default_model@, e.1.requires_key)
}

fn entry(name: &str, base_url: &str, model: &str, requires_key: bool) -> (r: (
    String,
    ProviderPreset,
))
    ensures
        preset_entry_view(r) == (name@, base_url@, model@, requires_key),
{
    (
        name.to_owned(),
        ProviderPreset {
            base_url: base_url.to_owned(),
            default_model: model.to_owned(),
            requires_key,
        },
    )
}

/// The known providers with their presets, in the order of `preset_table`.
pub fn get_provider_presets() -> (r: Vec<(String, ProviderPreset)>)
    ensures
        r@.map_values(|e: (String, ProviderPreset)| preset_entry_view(e)) == preset_table(),
{
    let mut v: Vec<(String, ProviderPreset)> = Vec::new();
    v.push(entry("deepseek", "https://api.deepseek.com/v1", "deepseek-chat", true));
    v.push(entry("qwen", "https://dashscope.aliyuncs.com/compatible-mode/v1", "qwen-plus", true));
    v.push(entry("zhipu", "https://open.bigmodel.cn/api/paas/v4", "glm-4", true));
    v.push(entry("moonshot", "https://api.moonshot.cn/v1", "moonshot-v1-8k", true));
    v.push(entry("openai", "https://api.openai.com/v1", "gpt-4-turbo", true));
    v.push(
        entry("siliconflow", "https://api.siliconflow.cn/v1", "deepseek-ai/deepseek-v2.5", true),
    );
    v.push(entry("ollama", "http://localhost:11434/v1", "llama2", false));
    v.push(entry("lm-studio", "http://localhost:1234/v1", "local-model", false));
    assert(v@.map_values(|e: (String, ProviderPreset)| preset_entry_view(e)) =~= preset_table());
    v
}

} // verus!
