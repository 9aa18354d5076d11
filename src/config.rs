use vstd::prelude::*;
use crate::error::GitAiError;
use crate::redact::{redact_secrets, redacted};
use crate::text::{push_str, same_text};
use crate::types::{AIConfig, ConfigView, DEFAULT_LOCALE, ProviderPreset, opt_view};

verus! {

/// Resolves the effective configuration from its three layers.
pub struct ConfigManager;

/// A snapshot of the process environment: variable names with their values.
#[derive(Debug, Clone)]
pub struct EnvVars {
    pub vars: Vec<(String, String)>,
}

impl View for EnvVars {
    type V = Seq<(Seq<char>, Seq<char>)>;

    open spec fn view(&self) -> Seq<(Seq<char>, Seq<char>)> {
        self.vars@.map_values(|p: (String, String)| (p.0@, p.1@))
    }
}

/// The value of the first variable called `name`, if any.
pub open spec fn env_lookup(vars: Seq<(Seq<char>, Seq<char>)>, name: Seq<char>) -> Option<
    Seq<char>,
>
    decreases vars.len(),
{
    if vars.len() == 0 {
        None
    } else if vars[0].0 == name {
        Some(vars[0].1)
    } else {
        env_lookup(vars.drop_first(), name)
    }
}

impl EnvVars {
    pub fn new(vars: Vec<(String, String)>) -> (r: EnvVars)
        ensures
            r.vars == vars,
    {
        EnvVars { vars }
    }

    /// The value of the variable `name`, if it is set.
    pub fn get(&self, name: &str) -> (r: Option<String>)
        ensures
            opt_view(r) == env_lookup(self@, name@),
    {
        let mut i: usize = 0;
        assert(self@.subrange(0, self@.len() as int) =~= self@);
        while i < self.vars.len()
            invariant
                i <= self.vars@.len(),
                env_lookup(self@, name@) == env_lookup(self@.subrange(i as int, self@.len() as int), name@),
            decreases self.vars@.len() - i,
        {
            let ghost rest = self@.subrange(i as int, self@.len() as int);
            assert(rest.drop_first() =~= self@.subrange(i + 1, self@.len() as int));
            assert(rest[0] == self@[i as int]);
            if same_text(self.vars[i].0.as_str(), name) {
                return Some(self.vars[i].1.clone());
            }
            i += 1;
        }
        None
    }
}

/// What `str::to_lowercase` gives for `s`.
pub uninterp spec fn lower_of(s: Seq<char>) -> Seq<char>;

/// Relies on `str::to_lowercase`: its result depends on the characters of `s` alone.
#[verifier::external_body]
fn lowercase(s: &str) -> (r: String)
    ensures
        r@ == lower_of(s@),
{
    s.to_lowercase()
}

/// A lower-cased flag value that switches a feature on.
pub open spec fn is_truthy(s: Seq<char>) -> bool {
    s == "1"@ || s == "true"@ || s == "yes"@ || s == "on"@
}

pub open spec fn or_value(o: Option<Seq<char>>, d: Seq<char>) -> Seq<char> {
    match o {
        Some(v) => v,
        None => d,
    }
}

pub open spec fn first_set(a: Option<Seq<char>>, b: Option<Seq<char>>) -> Option<Seq<char>> {
    if a is Some {
        a
    } else {
        b
    }
}

/// The layer that the environment variables define.
pub open spec fn env_layer(vars: Seq<(Seq<char>, Seq<char>)>) -> ConfigView {
    ConfigView {
        provider: or_value(
            first_set(
                env_lookup(vars, "GIT_AI_PROVIDER"@),
                env_lookup(vars, "OCO_AI_PROVIDER"@),
            ),
            Seq::empty(),
        ),
        api_key: or_value(
            first_set(
                env_lookup(vars, "GIT_AI_API_KEY"@),
                first_set(
                    env_lookup(vars, "OPENAI_API_KEY"@),
                    env_lookup(vars, "DEEPSEEK_API_KEY"@),
                ),
            ),
            Seq::empty(),
        ),
        base_url: or_value(env_lookup(vars, "GIT_AI_BASE_URL"@), Seq::empty()),
        model: or_value(env_lookup(vars, "GIT_AI_MODEL"@), Seq::empty()),
        agent_model: env_lookup(vars, "GIT_AI_AGENT_MODEL"@),
        locale: or_value(env_lookup(vars, "GIT_AI_LOCALE"@), DEFAULT_LOCALE@),
        custom_prompt: env_lookup(vars, "GIT_AI_CUSTOM_PROMPT"@),
        enable_footer: match env_lookup(vars, "GIT_AI_ENABLE_FOOTER"@) {
            Some(v) => Some(is_truthy(lower_of(v))),
            None => None,
        },
    }
}

/// A string field of a higher layer replaces the lower one when it is not empty.
pub open spec fn overlay_text(base: Seq<char>, top: Seq<char>) -> Seq<char> {
    if top.len() > 0 {
        top
    } else {
        base
    }
}

/// An optional field of a higher layer replaces the lower one when it is present.
pub open spec fn overlay_opt<T>(base: Option<T>, top: Option<T>) -> Option<T> {
    if top is Some {
        top
    } else {
        base
    }
}

/// A locale is only taken from a layer that names one other than the default.
pub open spec fn defines_locale(l: Seq<char>) -> bool {
    l.len() > 0 && l != DEFAULT_LOCALE@
}

pub open spec fn overlay_locale(base: Seq<char>, top: Seq<char>) -> Seq<char> {
    if defines_locale(top) {
        top
    } else {
        base
    }
}

/// `top` laid over `base`, field by field.
pub open spec fn overlay(base: ConfigView, top: ConfigView) -> ConfigView {
    ConfigView {
        provider: overlay_text(base.provider, top.provider),
        api_key: overlay_text(base.api_key, top.api_key),
        base_url: overlay_text(base.base_url, top.base_url),
        model: overlay_text(base.model, top.model),
        agent_model: overlay_opt(base.agent_model, top.agent_model),
        locale: overlay_locale(base.locale, top.locale),
        custom_prompt: overlay_opt(base.custom_prompt, top.custom_prompt),
        enable_footer: overlay_opt(base.enable_footer, top.enable_footer),
    }
}

/// The effective configuration: global, then local, then environment on top.
pub open spec fn merged(global: ConfigView, local: ConfigView, env: ConfigView) -> ConfigView {
    overlay(overlay(global, local), env)
}

/// A provider that runs locally and needs no credential.
pub open spec fn is_keyless_provider(p: Seq<char>) -> bool {
    p == "ollama"@ || p == "lm-studio"@
}

/// `name` placed inside the directory `dir`.
pub open spec fn path_join(dir: Seq<char>, name: Seq<char>) -> Seq<char> {
    if dir.len() == 0 || dir.last() == '/' {
        dir + name
    } else {
        dir + "/"@ + name
    }
}

fn replace_text(base: String, top: String) -> (r: String)
    ensures
        r@ == overlay_text(base@, top@),
{
    if top.as_str().is_empty() {
        base
    } else {
        top
    }
}

fn replace_opt<T>(base: Option<T>, top: Option<T>) -> (r: Option<T>)
    ensures
        r == overlay_opt(base, top),
{
    if top.is_some() {
        top
    } else {
        base
    }
}

fn replace_locale(base: String, top: String) -> (r: String)
    ensures
        r@ == overlay_locale(base@, top@),
{
    if !top.as_str().is_empty() && !same_text(top.as_str(), DEFAULT_LOCALE) {
        top
    } else {
        base
    }
}

fn overlay_config(base: AIConfig, top: AIConfig) -> (r: AIConfig)
    ensures
        r@ == overlay(base@, top@),
{
    let agent_model = replace_opt(base.agent_model, top.agent_model);
    let custom_prompt = replace_opt(base.custom_prompt, top.custom_prompt);
    AIConfig {
        provider: replace_text(base.provider, top.provider),
        api_key: replace_text(base.api_key, top.api_key),
        base_url: replace_text(base.base_url, top.base_url),
        model: replace_text(base.model, top.model),
        agent_model,
        locale: replace_locale(base.locale, top.locale),
        custom_prompt,
        enable_footer: replace_opt(base.enable_footer, top.enable_footer),
    }
}

fn env_or(env: &EnvVars, first: &str, second: &str) -> (r: Option<String>)
    ensures
        opt_view(r) == first_set(env_lookup(env@, first@), env_lookup(env@, second@)),
{
    match env.get(first) {
        Some(v) => Some(v),
        None => env.get(second),
    }
}

fn value_or_empty(o: Option<String>) -> (r: String)
    ensures
        r@ == or_value(opt_view(o), Seq::empty()),
{
    match o {
        Some(v) => v,
        None => String::new(),
    }
}

impl ConfigManager {
    /// Scrubs provider keys, bearer credentials and long tokens from text meant for error
    /// messages.
    pub fn redact_secrets(input: &str) -> (r: String)
        ensures
            r@ == redacted(input@),
    {
        redact_secrets(input)
    }

    /// The layer that the setup wizard saves from the answers given: the credential is kept
    /// only for a provider that needs one, and the base URL comes from the preset.
    pub fn wizard_config(
        provider: String,
        preset: &ProviderPreset,
        api_key: String,
        model: String,
        chinese: bool,
        custom_prompt: Option<String>,
        enable_footer: bool,
    ) -> (r: AIConfig)
        ensures
            r.provider == provider,
            r.api_key@ == (if preset.requires_key {
                api_key@
            } else {
                Seq::empty()
            }),
            r.base_url@ == preset.base_url@,
            r.model == model,
            r.agent_model is None,
            r.locale@ == (if chinese {
                "zh"@
            } else {
                "en"@
            }),
            r.custom_prompt == custom_prompt,
            r.enable_footer == Some(enable_footer),
    {
        AIConfig {
            provider,
            api_key: if preset.requires_key {
                api_key
            } else {
                String::new()
            },
            base_url: preset.base_url.clone(),
            model,
            agent_model: None,
            locale: if chinese {
                "zh".to_owned()
            } else {
                "en".to_owned()
            },
            custom_prompt,
            enable_footer: Some(enable_footer),
        }
    }

    /// Whether a lower-cased flag value switches a feature on.
    pub fn is_truthy_flag(lowered: &str) -> (r: bool)
        ensures
            r == is_truthy(lowered@),
    {
        same_text(lowered, "1") || same_text(lowered, "true") || same_text(lowered, "yes")
            || same_text(lowered, "on")
    }

    /// The layer defined by the environment; a variable that is not set contributes nothing.
    pub fn read_env_config(env: &EnvVars) -> (r: AIConfig)
        ensures
            r@ == env_layer(env@),
    {
        let provider = value_or_empty(env_or(env, "GIT_AI_PROVIDER", "OCO_AI_PROVIDER"));
        let api_key = match env.get("GIT_AI_API_KEY") {
            Some(v) => v,
            None => value_or_empty(env_or(env, "OPENAI_API_KEY", "DEEPSEEK_API_KEY")),
        };
        let base_url = value_or_empty(env.get("GIT_AI_BASE_URL"));
        let model = value_or_empty(env.get("GIT_AI_MODEL"));
        let agent_model = env.get("GIT_AI_AGENT_MODEL");
        let locale = match env.get("GIT_AI_LOCALE") {
            Some(v) => v,
            None => DEFAULT_LOCALE.to_owned(),
        };
        let custom_prompt = env.get("GIT_AI_CUSTOM_PROMPT");
        let enable_footer = match env.get("GIT_AI_ENABLE_FOOTER") {
            Some(v) => Some(Self::is_truthy_flag(lowercase(v.as_str()).as_str())),
            None => None,
        };
        AIConfig {
            provider,
            api_key,
            base_url,
            model,
            agent_model,
            locale,
            custom_prompt,
            enable_footer,
        }
    }

    /// Lays the three layers over each other: environment over local over global.
    pub fn merge_layers(global: AIConfig, local: AIConfig, env: AIConfig) -> (r: AIConfig)
        ensures
            r@ == merged(global@, local@, env@),
    {
        let lower = overlay_config(global, local);
        overlay_config(lower, env)
    }

    /// The effective configuration, given the outcome of reading each file layer.
    /// A failure to read a layer is returned as it is, the global one first.
    pub fn get_merged_config(
        global: Result<AIConfig, GitAiError>,
        local: Result<AIConfig, GitAiError>,
        env: AIConfig,
    ) -> (r: Result<AIConfig, GitAiError>)
        ensures
            global is Err ==> r == global,
            global is Ok && local is Err ==> r == local,
            global is Ok && local is Ok ==> (r is Ok && r->Ok_0@ == merged(
                global->Ok_0@,
                local->Ok_0@,
                env@,
            )),
    {
        let g = match global {
            Ok(g) => g,
            Err(e) => return Err(e),
        };
        let l = match local {
            Ok(l) => l,
            Err(e) => return Err(e),
        };
        Ok(Self::merge_layers(g, l, env))
    }

    /// The effective configuration, which must name a provider.
    pub fn get_config(
        global: Result<AIConfig, GitAiError>,
        local: Result<AIConfig, GitAiError>,
        env: AIConfig,
    ) -> (r: Result<AIConfig, GitAiError>)
        ensures
            global is Err ==> r == global,
            global is Ok && local is Err ==> r == local,
            global is Ok && local is Ok ==> {
                let m = merged(global->Ok_0@, local->Ok_0@, env@);
                &&& m.provider.len() == 0 ==> (r matches Err(GitAiError::Config(d)) && d@
                    == "Provider not configured. Run 'git-ai config' to set up."@)
                &&& m.provider.len() > 0 ==> (r is Ok && r->Ok_0@ == m)
            },
    {
        let config = Self::get_merged_config(global, local, env)?;
        if config.provider.as_str().is_empty() {
            return Err(
                GitAiError::Config(
                    "Provider not configured. Run 'git-ai config' to set up.".to_owned(),
                ),
            );
        }
        Ok(config)
    }

    /// The directory of the global layer inside the user's configuration directory.
    pub fn get_global_config_dir(config_dir: Option<String>) -> (r: Result<String, GitAiError>)
        ensures
            config_dir is None ==> (r matches Err(GitAiError::Config(d)) && d@
                == "Cannot determine config directory"@),
            config_dir matches Some(d) ==> (r matches Ok(p) && p@ == path_join(d@, "git-ai-cli"@)),
    {
        match config_dir {
            None => Err(GitAiError::Config("Cannot determine config directory".to_owned())),
            Some(d) => Ok(join_path(d, "git-ai-cli")),
        }
    }

    /// The file of the global layer.
    pub fn get_global_config_path(config_dir: Option<String>) -> (r: Result<String, GitAiError>)
        ensures
            config_dir is None ==> (r matches Err(GitAiError::Config(d)) && d@
                == "Cannot determine config directory"@),
            config_dir matches Some(d) ==> (r matches Ok(p) && p@ == path_join(
                path_join(d@, "git-ai-cli"@),
                "config.json"@,
            )),
    {
        let dir = Self::get_global_config_dir(config_dir)?;
        Ok(join_path(dir, "config.json"))
    }

    /// The file of the local layer, relative to the project root.
    pub fn get_local_config_path() -> (r: String)
        ensures
            r@ == ".git-ai.json"@,
    {
        ".git-ai.json".to_owned()
    }
}

/// `name` placed inside the directory `dir`.
pub fn join_path(dir: String, name: &str) -> (r: String)
    ensures
        r@ == path_join(dir@, name@),
{
    let mut r = dir;
    let n = r.as_str().is_empty();
    if !n {
        let cs = crate::text::chars_of(r.as_str());
        if cs[cs.len() - 1] != '/' {
            push_str(&mut r, "/");
        }
    }
    push_str(&mut r, name);
    r
}

/// Precedence of the layers: each field takes the value of the highest layer that defines it
/// (environment over local over global), and a layer defines the locale only with a value
/// other than the default one.
pub proof fn merge_precedence(global: ConfigView, local: ConfigView, env: ConfigView)
    ensures
        ({
            let m = merged(global, local, env);
            &&& m.provider == (if env.provider.len() > 0 {
                env.provider
            } else if local.provider.len() > 0 {
                local.provider
            } else {
                global.provider
            })
            &&& m.api_key == (if env.api_key.len() > 0 {
                env.api_key
            } else if local.api_key.len() > 0 {
                local.api_key
            } else {
                global.api_key
            })
            &&& m.base_url == (if env.base_url.len() > 0 {
                env.base_url
            } else if local.base_url.len() > 0 {
                local.base_url
            } else {
                global.base_url
            })
            &&& m.model == (if env.model.len() > 0 {
                env.model
            } else if local.model.len() > 0 {
                local.model
            } else {
                global.model
            })
            &&& m.agent_model == (if env.agent_model is Some {
                env.agent_model
            } else if local.agent_model is Some {
                local.agent_model
            } else {
                global.agent_model
            })
            &&& m.custom_prompt == (if env.custom_prompt is Some {
                env.custom_prompt
            } else if local.custom_prompt is Some {
                local.custom_prompt
            } else {
                global.custom_prompt
            })
            &&& m.enable_footer == (if env.enable_footer is Some {
                env.enable_footer
            } else if local.enable_footer is Some {
                local.enable_footer
            } else {
                global.enable_footer
            })
            &&& m.locale == (if defines_locale(env.locale) {
                env.locale
            } else if defines_locale(local.locale) {
                local.locale
            } else {
                global.locale
            })
            &&& (defines_locale(global.locale) && local.locale == DEFAULT_LOCALE@ && env.locale
                == DEFAULT_LOCALE@) ==> m.locale == global.locale
        }),
{
}

} // verus!
