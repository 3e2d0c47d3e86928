//! Configuration model: the built-in defaults, `${ENV}` placeholders in
//! values, and what loading the user's `config.toml` decides.
use vstd::prelude::*;

use crate::text::{chars_of, str_eq, trim, trim_str};

verus! {

/// The whole application configuration.
#[derive(Debug, Clone)]
pub struct AppConfig {
    pub general: GeneralConfig,
    pub providers: Vec<ProviderConfig>,
    pub scenario_models: ScenarioModels,
    pub limits: LimitsConfig,
}

/// Trigger, popup and shortcut settings.
#[derive(Debug, Clone)]
pub struct GeneralConfig {
    pub trigger_mode: String,
    pub popup_position: String,
    pub max_selection_chars: usize,
    pub blacklist_apps: Vec<String>,
    pub theme: String,
    pub shortcut_toggle: String,
    pub shortcut_settings: String,
}

/// One OpenAI-compatible model provider.
#[derive(Debug, Clone)]
pub struct ProviderConfig {
    pub name: String,
    pub base_url: String,
    pub api_key: String,
    pub default_model: String,
}

/// The provider and model used for one scenario.
#[derive(Debug, Clone)]
pub struct ScenarioModel {
    pub provider: String,
    pub model: String,
}

/// The model chosen for each scenario.
#[derive(Debug, Clone)]
pub struct ScenarioModels {
    pub translate: ScenarioModel,
    pub explain: ScenarioModel,
    pub chat: ScenarioModel,
}

/// Conversation and token limits.
#[derive(Debug, Clone)]
pub struct LimitsConfig {
    pub max_followup_rounds: u32,
    pub max_tokens_translate: u32,
}

fn provider(name: &str, base_url: &str, api_key: &str, default_model: &str) -> (p: ProviderConfig)
    ensures
        p.name@ == name@,
        p.base_url@ == base_url@,
        p.api_key@ == api_key@,
        p.default_model@ == default_model@,
{
    ProviderConfig {
        name: name.to_string(),
        base_url: base_url.to_string(),
        api_key: api_key.to_string(),
        default_model: default_model.to_string(),
    }
}

fn scenario_model(provider: &str, model: &str) -> (m: ScenarioModel)
    ensures
        m.provider@ == provider@,
        m.model@ == model@,
{
    ScenarioModel { provider: provider.to_string(), model: model.to_string() }
}

/// Whether `cfg` is the built-in configuration: trigger on selection, popup
/// below, at most 5000 characters, no blacklist, the system theme, `Alt+Q`
/// and `Alt+Comma`, the four providers with their keys taken from the
/// environment, DeepSeek models for every scenario, ten follow-up rounds
/// and 2048 tokens for a translation.
pub open spec fn is_builtin_config(cfg: AppConfig) -> bool {
    &&& cfg.general.trigger_mode@ == "auto"@
    &&& cfg.general.popup_position@ == "below"@
    &&& cfg.general.max_selection_chars == 5000
    &&& cfg.general.blacklist_apps@.len() == 0
    &&& cfg.general.theme@ == "system"@
    &&& cfg.general.shortcut_toggle@ == "Alt+Q"@
    &&& cfg.general.shortcut_settings@ == "Alt+Comma"@
    &&& cfg.providers@.len() == 4
    &&& cfg.providers@[0].name@ == "deepseek"@
    &&& cfg.providers@[0].base_url@ == "https://api.deepseek.com/v1"@
    &&& cfg.providers@[0].api_key@ == "${DEEPSEEK_API_KEY}"@
    &&& cfg.providers@[0].default_model@ == "deepseek-v4-flash"@
    &&& cfg.providers@[1].name@ == "moonshot"@
    &&& cfg.providers@[1].base_url@ == "https://api.moonshot.cn/v1"@
    &&& cfg.providers@[1].api_key@ == "${MOONSHOT_API_KEY}"@
    &&& cfg.providers@[1].default_model@ == "kimi-k2.6"@
    &&& cfg.providers@[2].name@ == "qwen"@
    &&& cfg.providers@[2].base_url@ == "https://dashscope.aliyuncs.com/compatible-mode/v1"@
    &&& cfg.providers@[2].api_key@ == "${DASHSCOPE_API_KEY}"@
    &&& cfg.providers@[2].default_model@ == "qwen3.7-flash"@
    &&& cfg.providers@[3].name@ == "openai"@
    &&& cfg.providers@[3].base_url@ == "https://api.openai.com/v1"@
    &&& cfg.providers@[3].api_key@ == "${OPENAI_API_KEY}"@
    &&& cfg.providers@[3].default_model@ == "gpt-5.6-sol"@
    &&& cfg.scenario_models.translate.provider@ == "deepseek"@
    &&& cfg.scenario_models.translate.model@ == "deepseek-v4-flash"@
    &&& cfg.scenario_models.explain.provider@ == "deepseek"@
    &&& cfg.scenario_models.explain.model@ == "deepseek-v4-pro"@
    &&& cfg.scenario_models.chat.provider@ == "deepseek"@
    &&& cfg.scenario_models.chat.model@ == "deepseek-v4-pro"@
    &&& cfg.limits.max_followup_rounds == 10
    &&& cfg.limits.max_tokens_translate == 2048
}

impl Default for AppConfig {
    /// The built-in configuration, used when no user file exists or the
    /// user file is damaged.
    fn default() -> (cfg: Self)
        ensures
            is_builtin_config(cfg),
    {
        let general = GeneralConfig {
            trigger_mode: "auto".to_string(),
            popup_position: "below".to_string(),
            max_selection_chars: 5000,
            blacklist_apps: Vec::new(),
            theme: "system".to_string(),
            shortcut_toggle: "Alt+Q".to_string(),
            shortcut_settings: "Alt+Comma".to_string(),
        };
        let mut providers: Vec<ProviderConfig> = Vec::new();
        providers.push(
            provider(
                "deepseek",
                "https://api.deepseek.com/v1",
                "${DEEPSEEK_API_KEY}",
                "deepseek-v4-flash",
            ),
        );
        providers.push(
            provider("moonshot", "https://api.moonshot.cn/v1", "${MOONSHOT_API_KEY}", "kimi-k2.6"),
        );
        providers.push(
            provider(
                "qwen",
                "https://dashscope.aliyuncs.com/compatible-mode/v1",
                "${DASHSCOPE_API_KEY}",
                "qwen3.7-flash",
            ),
        );
        providers.push(
            provider("openai", "https://api.openai.com/v1", "${OPENAI_API_KEY}", "gpt-5.6-sol"),
        );
        let scenario_models = ScenarioModels {
            translate: scenario_model("deepseek", "deepseek-v4-flash"),
            explain: scenario_model("deepseek", "deepseek-v4-pro"),
            chat: scenario_model("deepseek", "deepseek-v4-pro"),
        };
        let limits = LimitsConfig { max_followup_rounds: 10, max_tokens_translate: 2048 };
        AppConfig { general, providers, scenario_models, limits }
    }
}

/// A snapshot of the process environment: `(name, value)` pairs.
#[derive(Debug, Clone)]
pub struct EnvSnapshot {
    pub vars: Vec<(String, String)>,
}

/// The value of the first variable named `name` in `vars[from..]`.
pub open spec fn env_lookup_from(vars: Seq<(String, String)>, name: Seq<char>, from: int) -> Option<
    Seq<char>,
>
    decreases vars.len() - from,
{
    if from < 0 || from >= vars.len() {
        None
    } else if vars[from].0@ == name {
        Some(vars[from].1@)
    } else {
        env_lookup_from(vars, name, from + 1)
    }
}

/// The value of the variable `name`, if the environment holds it.
pub open spec fn env_lookup(vars: Seq<(String, String)>, name: Seq<char>) -> Option<Seq<char>> {
    env_lookup_from(vars, name, 0)
}

impl EnvSnapshot {
    /// The value of the variable `name`, if set.
    pub fn get(&self, name: &str) -> (r: Option<String>)
        ensures
            r matches Some(v) ==> env_lookup(self.vars@, name@) == Some(v@),
            r is None ==> env_lookup(self.vars@, name@) is None,
    {
        let mut i: usize = 0;
        while i < self.vars.len()
            invariant
                0 <= i <= self.vars@.len(),
                env_lookup(self.vars@, name@) == env_lookup_from(self.vars@, name@, i as int),
            decreases self.vars@.len() - i,
        {
            if str_eq(self.vars[i].0.as_str(), name) {
                return Some(self.vars[i].1.clone());
            }
            i = i + 1;
        }
        None
    }
}

/// A character allowed in a placeholder's variable name.
pub open spec fn is_var_char(c: char) -> bool {
    ('A' <= c && c <= 'Z') || c == '_'
}

/// The variable named by a `${NAME}` placeholder: the trimmed value starts
/// with `${`, ends with `}`, and the non-empty name between them holds only
/// ASCII capital letters and `_`.
pub open spec fn placeholder_name(value: Seq<char>) -> Option<Seq<char>> {
    let t = trim(value);
    if t.len() >= 3 && t[0] == '$' && t[1] == '{' && t[t.len() - 1] == '}' {
        let inner = t.subrange(2, t.len() - 1);
        if inner.len() > 0 && (forall|i: int| 0 <= i < inner.len() ==> is_var_char(#[trigger] inner[i])) {
            Some(inner)
        } else {
            None
        }
    } else {
        None
    }
}

/// What a configured value resolves to: a placeholder becomes the variable's
/// value (empty when unset); any other value stays as it is.
pub open spec fn resolved_value(value: Seq<char>, vars: Seq<(String, String)>) -> Seq<char> {
    match placeholder_name(value) {
        Some(name) => match env_lookup(vars, name) {
            Some(v) => v,
            None => Seq::empty(),
        },
        None => value,
    }
}

/// The variable named by a `${NAME}` placeholder in `value`, if it is one.
pub fn placeholder_var(value: &str) -> (r: Option<String>)
    ensures
        r matches Some(n) ==> placeholder_name(value@) == Some(n@),
        r is None ==> placeholder_name(value@) is None,
{
    let t = trim_str(value);
    let tv = chars_of(t);
    let n = tv.len();
    if n >= 3 && tv[0] == '$' && tv[1] == '{' && tv[n - 1] == '}' {
        let mut k: usize = 2;
        while k < n - 1
            invariant
                tv@ == t@,
                t@ == trim(value@),
                n == tv@.len(),
                n >= 3,
                2 <= k <= n - 1,
                forall|j: int| 2 <= j < k ==> is_var_char(#[trigger] tv@[j]),
            decreases n - 1 - k,
        {
            let c = tv[k];
            if !(('A' <= c && c <= 'Z') || c == '_') {
                proof {
                    let inner = tv@.subrange(2, n - 1);
                    assert(inner[k - 2] == c);
                    assert(!is_var_char(inner[k - 2]));
                }
                return None;
            }
            k = k + 1;
        }
        if n == 3 {
            return None;
        }
        proof {
            let inner = tv@.subrange(2, n - 1);
            assert forall|i: int| 0 <= i < inner.len() implies is_var_char(#[trigger] inner[i]) by {
                assert(inner[i] == tv@[i + 2]);
            }
        }
        Some(t.substring_char(2, n - 1).to_string())
    } else {
        None
    }
}

/// Resolves a `${ENV_VAR}` placeholder against `env`; any other value is
/// returned unchanged.
pub fn resolve_env_placeholder(value: &str, env: &EnvSnapshot) -> (r: String)
    ensures
        r@ == resolved_value(value@, env.vars@),
{
    match placeholder_var(value) {
        Some(name) => match env.get(name.as_str()) {
            Some(v) => v,
            None => String::new(),
        },
        None => value.to_string(),
    }
}

/// What loading found at the user's configuration path.
#[derive(Debug)]
pub enum ConfigFileState {
    /// The platform has no configuration directory.
    NoConfigDir,
    /// The file does not exist yet.
    Missing,
    /// The file exists but could not be read.
    Unreadable,
    /// The file was read and parsed.
    Parsed(AppConfig),
    /// The file was read but is not a valid configuration.
    Corrupt,
}

/// What to do to the file system after loading.
#[derive(Debug, Clone, Copy, PartialEq, Eq, Structural)]
pub enum ConfigFileAction {
    /// Leave the file system alone.
    Keep,
    /// Create the directory and write the built-in configuration.
    WriteDefault,
    /// Rename the damaged file to `config.toml.bak`.
    BackupCorrupt,
}

/// Decides the configuration in effect and the file action: the user file
/// wins when it parses; a missing file is created from the built-in
/// defaults; a damaged file is backed up and the defaults are used.
pub fn load_decision(state: ConfigFileState) -> (r: (AppConfig, ConfigFileAction))
    ensures
        match state {
            ConfigFileState::Parsed(cfg) => r.0 == cfg && r.1 == ConfigFileAction::Keep,
            ConfigFileState::Missing => is_builtin_config(r.0) && r.1
                == ConfigFileAction::WriteDefault,
            ConfigFileState::Corrupt => is_builtin_config(r.0) && r.1
                == ConfigFileAction::BackupCorrupt,
            _ => is_builtin_config(r.0) && r.1 == ConfigFileAction::Keep,
        },
{
    match state {
        ConfigFileState::Parsed(cfg) => (cfg, ConfigFileAction::Keep),
        ConfigFileState::Missing => (AppConfig::default(), ConfigFileAction::WriteDefault),
        ConfigFileState::Corrupt => (AppConfig::default(), ConfigFileAction::BackupCorrupt),
        _ => (AppConfig::default(), ConfigFileAction::Keep),
    }
}

} // verus!
