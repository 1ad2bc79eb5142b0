//! The configuration: the providers to watch, how each is reached and which of
//! its models count as free.

use vstd::prelude::*;

verus! {

/// Which rules mark a model as free of charge.
#[derive(Clone, Copy, Debug)]
pub struct FreeRules {
    /// The model's id ends with ":free".
    pub id_suffix_colon_free: bool,
    /// The model's id contains "-free".
    pub id_contains_dash_free: bool,
    /// The model's id contains "free" in any case.
    pub id_contains_free: bool,
    /// The model's raw data has the field "isFree" set to true.
    pub field_is_free: bool,
    /// All the prices in the model's raw data are zero.
    pub zero_pricing: bool,
}

impl FreeRules {
    /// No rule at all.
    pub open spec fn none() -> FreeRules {
        FreeRules {
            id_suffix_colon_free: false,
            id_contains_dash_free: false,
            id_contains_free: false,
            field_is_free: false,
            zero_pricing: false,
        }
    }
}

impl Default for FreeRules {
    fn default() -> (r: FreeRules)
        ensures
            r == FreeRules::none(),
    {
        FreeRules {
            id_suffix_colon_free: false,
            id_contains_dash_free: false,
            id_contains_free: false,
            field_is_free: false,
            zero_pricing: false,
        }
    }
}

/// One provider of models and how its catalogue is fetched.
#[derive(Clone, Debug)]
pub struct ProviderConfig {
    pub name: String,
    pub base_url: String,
    pub models_endpoint: String,
    /// The environment variable that holds the provider's key, when it needs one.
    pub api_key_env: Option<String>,
    /// Extra request headers, by name; no name occurs twice.
    pub headers: Vec<(String, String)>,
    pub disabled: bool,
    pub free_rules: FreeRules,
}

/// The whole configuration.
#[derive(Clone, Debug)]
pub struct Config {
    pub database_path: String,
    pub check_interval_minutes: u64,
    pub providers: Vec<ProviderConfig>,
}

/// The text of an optional string.
pub open spec fn opt_text(o: Option<String>) -> Option<Seq<char>> {
    match o {
        Some(s) => Some(s@),
        None => None,
    }
}

/// The texts of a list of headers.
pub open spec fn header_texts(h: Seq<(String, String)>) -> Seq<(Seq<char>, Seq<char>)> {
    h.map_values(|p: (String, String)| (p.0@, p.1@))
}

impl ProviderConfig {
    /// No header name occurs twice, as in a map from names to values.
    pub open spec fn headers_unique(&self) -> bool {
        forall|i: int, j: int|
            0 <= i < j < self.headers@.len() ==> self.headers@[i].0@ != self.headers@[j].0@
    }
}

/// The default path of the database file.
pub open spec fn default_db_path_text() -> Seq<char> {
    "open-provider.db"@
}

/// The default path of the database file: "open-provider.db".
pub fn default_db_path() -> (s: String)
    ensures
        s@ == default_db_path_text(),
{
    String::from_str("open-provider.db")
}

/// The default number of minutes between two checks: 15.
pub fn default_check_interval_minutes() -> (m: u64)
    ensures
        m == 15,
{
    15
}

/// One row of the example configuration, as texts.
pub struct ExampleRow {
    pub name: Seq<char>,
    pub base_url: Seq<char>,
    pub models_endpoint: Seq<char>,
    pub api_key_env: Option<Seq<char>>,
    pub headers: Seq<(Seq<char>, Seq<char>)>,
    pub disabled: bool,
}

/// A row of the example configuration.
pub open spec fn example_row(
    name: Seq<char>,
    base_url: Seq<char>,
    models_endpoint: Seq<char>,
    api_key_env: Option<Seq<char>>,
    headers: Seq<(Seq<char>, Seq<char>)>,
    disabled: bool,
) -> ExampleRow {
    ExampleRow { name, base_url, models_endpoint, api_key_env, headers, disabled }
}

/// The number of providers in the example configuration.
pub open spec fn example_len() -> int {
    31
}

/// The provider of the example configuration at index `i` (for
/// `0 <= i < example_len()`).
pub open spec fn example_row_at(i: int) -> ExampleRow {
    if i == 0 {
        example_row("OpenAI"@, "https://api.openai.com"@, "/v1/models"@, Some("OPENAI_API_KEY"@), Seq::empty(), true)
    } else if i == 1 {
        example_row("Anthropic"@, "https://api.anthropic.com"@, "/v1/models?limit=1000"@, Some("ANTHROPIC_API_KEY"@), Seq::empty(), true)
    } else if i == 2 {
        example_row("Groq"@, "https://api.groq.com"@, "/openai/v1/models"@, Some("GROQ_API_KEY"@), Seq::empty(), true)
    } else if i == 3 {
        example_row("OpenRouter"@, "https://openrouter.ai"@, "/api/v1/models"@, None, Seq::empty(), false)
    } else if i == 4 {
        example_row("Together"@, "https://api.together.xyz"@, "/v1/models"@, Some("TOGETHER_API_KEY"@), Seq::empty(), true)
    } else if i == 5 {
        example_row("Google"@, "https://generativelanguage.googleapis.com"@, "/v1beta/models?key={API_KEY}"@, Some("GOOGLE_API_KEY"@), Seq::empty(), true)
    } else if i == 6 {
        example_row("Mistral"@, "https://api.mistral.ai"@, "/v1/models"@, Some("MISTRAL_API_KEY"@), Seq::empty(), true)
    } else if i == 7 {
        example_row("DeepSeek"@, "https://api.deepseek.com"@, "/v1/models"@, Some("DEEPSEEK_API_KEY"@), Seq::empty(), true)
    } else if i == 8 {
        example_row("xAI"@, "https://api.x.ai"@, "/v1/models"@, Some("XAI_API_KEY"@), Seq::empty(), true)
    } else if i == 9 {
        example_row("Cohere"@, "https://api.cohere.ai"@, "/v1/models"@, Some("COHERE_API_KEY"@), Seq::empty(), true)
    } else if i == 10 {
        example_row("OpenCode Zen"@, "https://opencode.ai"@, "/zen/v1/models"@, None, seq![("Accept"@, "application/json"@)], false)
    } else if i == 11 {
        example_row("OpenCode Zen Go"@, "https://opencode.ai"@, "/zen/go/v1/models"@, None, seq![("Accept"@, "application/json"@)], false)
    } else if i == 12 {
        example_row("CommandCode"@, "https://api.commandcode.ai"@, "/provider/v1/models"@, None, seq![("Accept"@, "application/json"@)], false)
    } else if i == 13 {
        example_row("Vercel AI Gateway"@, "https://ai-gateway.vercel.sh"@, "/v1/models"@, None, Seq::empty(), false)
    } else if i == 14 {
        example_row("NVIDIA NIM"@, "https://integrate.api.nvidia.com"@, "/v1/models"@, None, Seq::empty(), false)
    } else if i == 15 {
        example_row("Chutes"@, "https://llm.chutes.ai"@, "/v1/models"@, None, Seq::empty(), false)
    } else if i == 16 {
        example_row("Ollama"@, "https://ollama.com"@, "/api/tags"@, None, Seq::empty(), false)
    } else if i == 17 {
        example_row("BluesMinds"@, "https://api.bluesminds.com"@, "/v1/models"@, Some("BLUESMINDS_API_KEY"@), Seq::empty(), false)
    } else if i == 18 {
        example_row("Kilo AI"@, "https://api.kilo.ai"@, "/api/gateway/models"@, None, Seq::empty(), false)
    } else if i == 19 {
        example_row("Antigravity"@, "https://daily-cloudcode-pa.sandbox.googleapis.com"@, "/v1internal:models"@, Some("ANTIGRAVITY_TOKEN"@), Seq::empty(), true)
    } else if i == 20 {
        example_row("GitHub Copilot"@, "https://api.githubcopilot.com"@, "/models"@, Some("GITHUB_COPILOT_TOKEN"@), seq![("editor-version"@, "vscode/1.107.1"@), ("Copilot-Integration-Id"@, "vscode-chat"@), ("editor-plugin-version"@, "copilot-chat/0.26.7"@)], true)
    } else if i == 21 {
        example_row("Qwen Portal"@, "https://portal.qwen.ai"@, "/v1/models"@, Some("QWEN_API_KEY"@), Seq::empty(), true)
    } else if i == 22 {
        example_row("SiliconFlow"@, "https://api.siliconflow.cn"@, "/v1/models"@, Some("SILICONFLOW_API_KEY"@), Seq::empty(), true)
    } else if i == 23 {
        example_row("Hyperbolic"@, "https://api.hyperbolic.xyz"@, "/v1/models"@, Some("HYPERBOLIC_API_KEY"@), Seq::empty(), true)
    } else if i == 24 {
        example_row("Nebius"@, "https://api.studio.nebius.ai"@, "/v1/models"@, Some("NEBIUS_API_KEY"@), Seq::empty(), true)
    } else if i == 25 {
        example_row("Cerebras"@, "https://api.cerebras.ai"@, "/v1/models"@, Some("CEREBRAS_API_KEY"@), Seq::empty(), true)
    } else if i == 26 {
        example_row("Fireworks"@, "https://api.fireworks.ai"@, "/inference/v1/models"@, Some("FIREWORKS_API_KEY"@), Seq::empty(), true)
    } else if i == 27 {
        example_row("Perplexity"@, "https://api.perplexity.ai"@, "/models"@, Some("PERPLEXITY_API_KEY"@), Seq::empty(), true)
    } else if i == 28 {
        example_row("NanoBanana"@, "https://api.nanobananaapi.ai"@, "/v1/models"@, Some("NANOBANANA_API_KEY"@), Seq::empty(), true)
    } else if i == 29 {
        example_row("AssemblyAI"@, "https://api.assemblyai.com"@, "/v1/models"@, Some("ASSEMBLYAI_API_KEY"@), Seq::empty(), true)
    } else {
        example_row("Codex"@, "https://chatgpt.com"@, "/backend-api/codex/models?client_version=1.0.0"@, Some("CODEX_TOKEN"@), Seq::empty(), true)
    }
}

/// The example providers that are asked without any key.
pub open spec fn keyless_examples() -> Seq<Seq<char>> {
    seq![
        "OpenRouter"@,
        "OpenCode Zen"@,
        "OpenCode Zen Go"@,
        "CommandCode"@,
        "Vercel AI Gateway"@,
        "NVIDIA NIM"@,
        "Chutes"@,
        "Ollama"@,
        "Kilo AI"@,
    ]
}

/// The example providers that need a key, each with the environment
/// variable that holds it.
pub open spec fn example_keys() -> Seq<(Seq<char>, Seq<char>)> {
    seq![
        ("OpenAI"@, "OPENAI_API_KEY"@),
        ("Anthropic"@, "ANTHROPIC_API_KEY"@),
        ("Groq"@, "GROQ_API_KEY"@),
        ("Together"@, "TOGETHER_API_KEY"@),
        ("Google"@, "GOOGLE_API_KEY"@),
        ("Mistral"@, "MISTRAL_API_KEY"@),
        ("DeepSeek"@, "DEEPSEEK_API_KEY"@),
        ("xAI"@, "XAI_API_KEY"@),
        ("Cohere"@, "COHERE_API_KEY"@),
        ("BluesMinds"@, "BLUESMINDS_API_KEY"@),
        ("Antigravity"@, "ANTIGRAVITY_TOKEN"@),
        ("GitHub Copilot"@, "GITHUB_COPILOT_TOKEN"@),
        ("Qwen Portal"@, "QWEN_API_KEY"@),
        ("SiliconFlow"@, "SILICONFLOW_API_KEY"@),
        ("Hyperbolic"@, "HYPERBOLIC_API_KEY"@),
        ("Nebius"@, "NEBIUS_API_KEY"@),
        ("Cerebras"@, "CEREBRAS_API_KEY"@),
        ("Fireworks"@, "FIREWORKS_API_KEY"@),
        ("Perplexity"@, "PERPLEXITY_API_KEY"@),
        ("NanoBanana"@, "NANOBANANA_API_KEY"@),
        ("AssemblyAI"@, "ASSEMBLYAI_API_KEY"@),
        ("Codex"@, "CODEX_TOKEN"@),
    ]
}

/// The keys of the example configuration: the providers asked without a key
/// are those of `keyless_examples`, and every other one names as its key the
/// variable that `example_keys` lists for it.
pub proof fn lemma_example_keys()
    ensures
        forall|i: int|
            0 <= i < example_len() ==> match (#[trigger] example_row_at(i)).api_key_env {
                None => keyless_examples().contains(example_row_at(i).name),
                Some(k) => example_keys().contains((example_row_at(i).name, k)),
            },
{
    let ks = keyless_examples();
    let es = example_keys();
    assert forall|i: int| 0 <= i < example_len() implies match (#[trigger] example_row_at(i)).api_key_env {
        None => ks.contains(example_row_at(i).name),
        Some(k) => es.contains((example_row_at(i).name, k)),
    } by {
        let r = example_row_at(i);
        if i == 0 { assert(es[0] == (r.name, r.api_key_env->0)); }
        else if i == 1 { assert(es[1] == (r.name, r.api_key_env->0)); }
        else if i == 2 { assert(es[2] == (r.name, r.api_key_env->0)); }
        else if i == 3 { assert(ks[0] == r.name); }
        else if i == 4 { assert(es[3] == (r.name, r.api_key_env->0)); }
        else if i == 5 { assert(es[4] == (r.name, r.api_key_env->0)); }
        else if i == 6 { assert(es[5] == (r.name, r.api_key_env->0)); }
        else if i == 7 { assert(es[6] == (r.name, r.api_key_env->0)); }
        else if i == 8 { assert(es[7] == (r.name, r.api_key_env->0)); }
        else if i == 9 { assert(es[8] == (r.name, r.api_key_env->0)); }
        else if i == 10 { assert(ks[1] == r.name); }
        else if i == 11 { assert(ks[2] == r.name); }
        else if i == 12 { assert(ks[3] == r.name); }
        else if i == 13 { assert(ks[4] == r.name); }
        else if i == 14 { assert(ks[5] == r.name); }
        else if i == 15 { assert(ks[6] == r.name); }
        else if i == 16 { assert(ks[7] == r.name); }
        else if i == 17 { assert(es[9] == (r.name, r.api_key_env->0)); }
        else if i == 18 { assert(ks[8] == r.name); }
        else if i == 19 { assert(es[10] == (r.name, r.api_key_env->0)); }
        else if i == 20 { assert(es[11] == (r.name, r.api_key_env->0)); }
        else if i == 21 { assert(es[12] == (r.name, r.api_key_env->0)); }
        else if i == 22 { assert(es[13] == (r.name, r.api_key_env->0)); }
        else if i == 23 { assert(es[14] == (r.name, r.api_key_env->0)); }
        else if i == 24 { assert(es[15] == (r.name, r.api_key_env->0)); }
        else if i == 25 { assert(es[16] == (r.name, r.api_key_env->0)); }
        else if i == 26 { assert(es[17] == (r.name, r.api_key_env->0)); }
        else if i == 27 { assert(es[18] == (r.name, r.api_key_env->0)); }
        else if i == 28 { assert(es[19] == (r.name, r.api_key_env->0)); }
        else if i == 29 { assert(es[20] == (r.name, r.api_key_env->0)); }
        else { assert(es[21] == (r.name, r.api_key_env->0)); }
    }
}

/// `p` is the provider that the row describes, with no free rule.
pub open spec fn matches_row(p: ProviderConfig, r: ExampleRow) -> bool {
    &&& p.name@ == r.name
    &&& p.base_url@ == r.base_url
    &&& p.models_endpoint@ == r.models_endpoint
    &&& opt_text(p.api_key_env) == r.api_key_env
    &&& header_texts(p.headers@) == r.headers
    &&& p.disabled == r.disabled
    &&& p.free_rules == FreeRules::none()
}

/// A provider without headers and without free rules.
fn entry(
    name: &str,
    base_url: &str,
    models_endpoint: &str,
    api_key_env: Option<&str>,
    disabled: bool,
) -> (p: ProviderConfig)
    ensures
        p.name@ == name@,
        p.base_url@ == base_url@,
        p.models_endpoint@ == models_endpoint@,
        opt_text(p.api_key_env) == match api_key_env {
            Some(k) => Some(k@),
            None => None::<Seq<char>>,
        },
        p.headers@.len() == 0,
        header_texts(p.headers@) == Seq::<(Seq<char>, Seq<char>)>::empty(),
        p.headers_unique(),
        p.disabled == disabled,
        p.free_rules == FreeRules::none(),
{
    let key = match api_key_env {
        Some(k) => Some(String::from_str(k)),
        None => None,
    };
    let p = ProviderConfig {
        name: String::from_str(name),
        base_url: String::from_str(base_url),
        models_endpoint: String::from_str(models_endpoint),
        api_key_env: key,
        headers: Vec::new(),
        disabled,
        free_rules: FreeRules::default(),
    };
    assert(header_texts(p.headers@) =~= Seq::<(Seq<char>, Seq<char>)>::empty());
    p
}

/// A header, as a pair of name and value.
fn header(name: &str, value: &str) -> (h: (String, String))
    ensures
        h.0@ == name@,
        h.1@ == value@,
{
    (String::from_str(name), String::from_str(value))
}

/// `ps` are the first rows of the example configuration, in order, none
/// with a header name twice.
spec fn rows_so_far(ps: Seq<ProviderConfig>) -> bool {
    &&& ps.len() <= example_len()
    &&& forall|i: int| 0 <= i < ps.len() ==> #[trigger] matches_row(ps[i], example_row_at(i))
    &&& forall|i: int| 0 <= i < ps.len() ==> (#[trigger] ps[i]).headers_unique()
}

/// Adds the next row of the example configuration.
fn push_row(providers: &mut Vec<ProviderConfig>, p: ProviderConfig)
    requires
        rows_so_far(old(providers)@),
        old(providers)@.len() < example_len(),
        matches_row(p, example_row_at(old(providers)@.len() as int)),
        p.headers_unique(),
    ensures
        final(providers)@ == old(providers)@.push(p),
        rows_so_far(final(providers)@),
{
    providers.push(p);
}

impl Config {
    /// The configuration written when none exists yet: the default database
    /// path, a check every 15 minutes, and the providers of `example_row_at`,
    /// in that order, none with a free rule and none with a header name twice.
    pub fn example() -> (cfg: Config)
        ensures
            cfg.database_path@ == default_db_path_text(),
            cfg.check_interval_minutes == 15,
            cfg.providers@.len() == example_len(),
            forall|i: int|
                0 <= i < cfg.providers@.len() ==> #[trigger] matches_row(
                    cfg.providers@[i],
                    example_row_at(i),
                ),
            forall|i: int| 0 <= i < cfg.providers@.len() ==> (#[trigger] cfg.providers@[i]).headers_unique(),
    {
        let mut providers: Vec<ProviderConfig> = Vec::new();
        proof {
            reveal_strlit("editor-version");
            reveal_strlit("Copilot-Integration-Id");
            reveal_strlit("editor-plugin-version");
        }
        push_row(&mut providers, entry("OpenAI", "https://api.openai.com", "/v1/models", Some("OPENAI_API_KEY"), true));
        push_row(&mut providers, entry("Anthropic", "https://api.anthropic.com", "/v1/models?limit=1000", Some("ANTHROPIC_API_KEY"), true));
        push_row(&mut providers, entry("Groq", "https://api.groq.com", "/openai/v1/models", Some("GROQ_API_KEY"), true));
        push_row(&mut providers, entry("OpenRouter", "https://openrouter.ai", "/api/v1/models", None, false));
        push_row(&mut providers, entry("Together", "https://api.together.xyz", "/v1/models", Some("TOGETHER_API_KEY"), true));
        push_row(&mut providers, entry("Google", "https://generativelanguage.googleapis.com", "/v1beta/models?key={API_KEY}", Some("GOOGLE_API_KEY"), true));
        push_row(&mut providers, entry("Mistral", "https://api.mistral.ai", "/v1/models", Some("MISTRAL_API_KEY"), true));
        push_row(&mut providers, entry("DeepSeek", "https://api.deepseek.com", "/v1/models", Some("DEEPSEEK_API_KEY"), true));
        push_row(&mut providers, entry("xAI", "https://api.x.ai", "/v1/models", Some("XAI_API_KEY"), true));
        push_row(&mut providers, entry("Cohere", "https://api.cohere.ai", "/v1/models", Some("COHERE_API_KEY"), true));
        let mut p = entry("OpenCode Zen", "https://opencode.ai", "/zen/v1/models", None, false);
        p.headers.push(header("Accept", "application/json"));
        assert(header_texts(p.headers@) =~= example_row_at(10).headers);
        push_row(&mut providers, p);
        let mut p = entry("OpenCode Zen Go", "https://opencode.ai", "/zen/go/v1/models", None, false);
        p.headers.push(header("Accept", "application/json"));
        assert(header_texts(p.headers@) =~= example_row_at(11).headers);
        push_row(&mut providers, p);
        let mut p = entry("CommandCode", "https://api.commandcode.ai", "/provider/v1/models", None, false);
        p.headers.push(header("Accept", "application/json"));
        assert(header_texts(p.headers@) =~= example_row_at(12).headers);
        push_row(&mut providers, p);
        push_row(&mut providers, entry("Vercel AI Gateway", "https://ai-gateway.vercel.sh", "/v1/models", None, false));
        push_row(&mut providers, entry("NVIDIA NIM", "https://integrate.api.nvidia.com", "/v1/models", None, false));
        push_row(&mut providers, entry("Chutes", "https://llm.chutes.ai", "/v1/models", None, false));
        push_row(&mut providers, entry("Ollama", "https://ollama.com", "/api/tags", None, false));
        push_row(&mut providers, entry("BluesMinds", "https://api.bluesminds.com", "/v1/models", Some("BLUESMINDS_API_KEY"), false));
        push_row(&mut providers, entry("Kilo AI", "https://api.kilo.ai", "/api/gateway/models", None, false));
        push_row(&mut providers, entry("Antigravity", "https://daily-cloudcode-pa.sandbox.googleapis.com", "/v1internal:models", Some("ANTIGRAVITY_TOKEN"), true));
        let mut p = entry("GitHub Copilot", "https://api.githubcopilot.com", "/models", Some("GITHUB_COPILOT_TOKEN"), true);
        p.headers.push(header("editor-version", "vscode/1.107.1"));
        p.headers.push(header("Copilot-Integration-Id", "vscode-chat"));
        p.headers.push(header("editor-plugin-version", "copilot-chat/0.26.7"));
        assert(header_texts(p.headers@) =~= example_row_at(20).headers);
        assert(p.headers@[0].0@.len() == 14 && p.headers@[1].0@.len() == 22
            && p.headers@[2].0@.len() == 21);
        push_row(&mut providers, p);
        push_row(&mut providers, entry("Qwen Portal", "https://portal.qwen.ai", "/v1/models", Some("QWEN_API_KEY"), true));
        push_row(&mut providers, entry("SiliconFlow", "https://api.siliconflow.cn", "/v1/models", Some("SILICONFLOW_API_KEY"), true));
        push_row(&mut providers, entry("Hyperbolic", "https://api.hyperbolic.xyz", "/v1/models", Some("HYPERBOLIC_API_KEY"), true));
        push_row(&mut providers, entry("Nebius", "https://api.studio.nebius.ai", "/v1/models", Some("NEBIUS_API_KEY"), true));
        push_row(&mut providers, entry("Cerebras", "https://api.cerebras.ai", "/v1/models", Some("CEREBRAS_API_KEY"), true));
        push_row(&mut providers, entry("Fireworks", "https://api.fireworks.ai", "/inference/v1/models", Some("FIREWORKS_API_KEY"), true));
        push_row(&mut providers, entry("Perplexity", "https://api.perplexity.ai", "/models", Some("PERPLEXITY_API_KEY"), true));
        push_row(&mut providers, entry("NanoBanana", "https://api.nanobananaapi.ai", "/v1/models", Some("NANOBANANA_API_KEY"), true));
        push_row(&mut providers, entry("AssemblyAI", "https://api.assemblyai.com", "/v1/models", Some("ASSEMBLYAI_API_KEY"), true));
        push_row(&mut providers, entry("Codex", "https://chatgpt.com", "/backend-api/codex/models?client_version=1.0.0", Some("CODEX_TOKEN"), true));
        Config {
            database_path: default_db_path(),
            check_interval_minutes: default_check_interval_minutes(),
            providers,
        }
    }
}

} // verus!
