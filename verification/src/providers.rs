//! Checking a provider: the request that fetches its model catalogue, the
//! reading of the answer, the status recorded after each check, and the
//! decoding of what the database gives back.

use vstd::prelude::*;
use crate::config::{ProviderConfig, header_texts, opt_text};
use crate::json::{
    Json,
    JsonV,
    as_array,
    as_i64,
    as_str,
    get,
    get_member,
    array_items,
    string_value,
    i64_value,
    json_parse,
    json_text,
    parse_json,
    write_json,
};
use crate::text::{
    chars_of,
    contains_chars,
    decimal_int,
    has_sub,
    i64_text,
    lowercase,
    parse_i64,
    parsed_i64,
    push_str,
    replace_chars,
    replaced,
    same_text,
    string_of,
    to_lowercase,
    trim_ws,
    trimmed,
};

verus! {

/// The place in a models endpoint where the key goes.
pub const KEY_PLACEHOLDER: &'static str = "{API_KEY}";

/// The directory of the token files.
pub const TOKEN_DIR: &'static str = "/home/test/";

/// The end of a token file's name.
pub const TOKEN_SUFFIX: &'static str = "_token.txt";

/// The name of the header that carries a bearer token.
pub const AUTHORIZATION: &'static str = "Authorization";

/// What comes before the token in that header.
pub const BEARER: &'static str = "Bearer ";

/// The name of the header that carries Anthropic's key.
pub const X_API_KEY: &'static str = "x-api-key";

/// The provider whose key also goes in `X_API_KEY`.
pub const ANTHROPIC: &'static str = "Anthropic";

/// What comes before the status of a failed answer.
pub const HTTP_PREFIX: &'static str = "HTTP ";

/// What stands between the status of a failed answer and its body.
pub const COLON_SPACE: &'static str = ": ";

/// The member of an answer that lists models, OpenAI-style.
pub const DATA: &'static str = "data";

/// The member of an answer that lists models, Ollama-style.
pub const MODELS: &'static str = "models";

/// The member that names a model.
pub const ID: &'static str = "id";

/// The member that names a model, Ollama-style.
pub const NAME: &'static str = "name";

/// The member with a model's creation time.
pub const CREATED: &'static str = "created";

/// The member with a model's owner.
pub const OWNED_BY: &'static str = "owned_by";

// ---------------------------------------------------------------------------
// The request
// ---------------------------------------------------------------------------

/// The request that fetches a provider's models: its URL and its headers, in
/// the order in which they are added.
pub struct RequestPlan {
    pub url: String,
    pub headers: Vec<(String, String)>,
}

/// The URL: base URL and endpoint; where the provider has a key and the URL
/// holds `KEY_PLACEHOLDER`, each occurrence is replaced by the key (by nothing
/// when the key is not set).
pub open spec fn request_url(p: ProviderConfig, env_key: Option<Seq<char>>) -> Seq<char> {
    let url = p.base_url@ + p.models_endpoint@;
    if p.api_key_env is Some && has_sub(url, KEY_PLACEHOLDER@) {
        replaced(
            url,
            KEY_PLACEHOLDER@,
            match env_key {
                Some(k) => k,
                None => Seq::empty(),
            },
        )
    } else {
        url
    }
}

/// The bearer token: for a provider with a key whose URL holds no
/// `KEY_PLACEHOLDER` any more, the key from the environment, or else the
/// trimmed content of the token file.
pub open spec fn bearer_token(
    p: ProviderConfig,
    env_key: Option<Seq<char>>,
    token_file: Option<Seq<char>>,
) -> Option<Seq<char>> {
    if p.api_key_env is Some && !has_sub(request_url(p, env_key), KEY_PLACEHOLDER@) {
        match env_key {
            Some(k) => Some(k),
            None => match token_file {
                Some(f) => Some(trimmed(f)),
                None => None,
            },
        }
    } else {
        None
    }
}

/// A provider without a key is asked at its base URL and endpoint as they
/// are, with its own headers only, and no token file is read for it.
pub proof fn lemma_keyless_request(
    p: ProviderConfig,
    env_key: Option<Seq<char>>,
    token_file: Option<Seq<char>>,
    with_key_header: bool,
)
    requires
        p.api_key_env is None,
    ensures
        request_url(p, env_key) == p.base_url@ + p.models_endpoint@,
        request_headers(p, env_key, token_file, with_key_header) == header_texts(p.headers@),
        token_file_path(p, env_key) is None,
{
    assert(request_headers(p, env_key, token_file, with_key_header) =~= header_texts(p.headers@));
}

/// The token file that is read: for a provider with a key that the
/// environment does not hold, whose URL holds no `KEY_PLACEHOLDER` any more,
/// `TOKEN_DIR` + the lowercase name of the variable + `TOKEN_SUFFIX`.
pub open spec fn token_file_path(p: ProviderConfig, env_key: Option<Seq<char>>) -> Option<
    Seq<char>,
> {
    match p.api_key_env {
        Some(var) => if env_key is None && !has_sub(request_url(p, env_key), KEY_PLACEHOLDER@) {
            Some(TOKEN_DIR@ + lowercase(var@) + TOKEN_SUFFIX@)
        } else {
            None
        },
        None => None,
    }
}

/// The headers: the provider's own, then the bearer token, then (when asked
/// for, and for Anthropic with its key set) the key in `X_API_KEY`.
pub open spec fn request_headers(
    p: ProviderConfig,
    env_key: Option<Seq<char>>,
    token_file: Option<Seq<char>>,
    with_key_header: bool,
) -> Seq<(Seq<char>, Seq<char>)> {
    let own = header_texts(p.headers@);
    let auth = match bearer_token(p, env_key, token_file) {
        Some(t) => seq![(AUTHORIZATION@, BEARER@ + t)],
        None => Seq::empty(),
    };
    let anthropic = if with_key_header && p.name@ == ANTHROPIC@ && p.api_key_env is Some
        && env_key is Some {
        seq![(X_API_KEY@, env_key->0)]
    } else {
        Seq::empty()
    };
    own + auth + anthropic
}

/// The URL that the request goes to.
fn plan_url(provider: &ProviderConfig, env_key: &Option<String>) -> (url: Vec<char>)
    ensures
        url@ == request_url(*provider, opt_text(*env_key)),
{
    let mut url = chars_of(provider.base_url.as_str());
    push_str(&mut url, provider.models_endpoint.as_str());
    if provider.api_key_env.is_some() {
        let marker = chars_of(KEY_PLACEHOLDER);
        if contains_chars(&url, &marker) {
            let key = match env_key {
                Some(k) => chars_of(k.as_str()),
                None => Vec::new(),
            };
            assert(marker@.len() > 0) by {
                reveal_strlit("{API_KEY}");
            }
            url = replace_chars(&url, &marker, &key);
        }
    }
    url
}

/// The token file to read before the request is planned, as
/// `token_file_path` says: `Some` only when the key is not in the
/// environment and is wanted as a bearer token.
pub fn token_file_to_read(provider: &ProviderConfig, env_key: &Option<String>) -> (r: Option<
    String,
>)
    ensures
        opt_text(r) == token_file_path(*provider, opt_text(*env_key)),
{
    match &provider.api_key_env {
        Some(var) => {
            if env_key.is_some() {
                return None;
            }
            let url = plan_url(provider, env_key);
            let marker = chars_of(KEY_PLACEHOLDER);
            if contains_chars(&url, &marker) {
                return None;
            }
            let mut path = chars_of(TOKEN_DIR);
            let lower = to_lowercase(var.as_str());
            push_str(&mut path, lower.as_str());
            push_str(&mut path, TOKEN_SUFFIX);
            Some(string_of(&path))
        },
        None => None,
    }
}

/// The request that fetches the provider's models, given the key found in
/// the environment and the content of the token file (read where
/// `token_file_to_read` asked for it). `with_key_header` adds Anthropic's
/// key header, as the count check does.
pub fn plan_request(
    provider: &ProviderConfig,
    env_key: &Option<String>,
    token_file: &Option<String>,
    with_key_header: bool,
) -> (plan: RequestPlan)
    ensures
        plan.url@ == request_url(*provider, opt_text(*env_key)),
        header_texts(plan.headers@) == request_headers(
            *provider,
            opt_text(*env_key),
            opt_text(*token_file),
            with_key_header,
        ),
        provider.headers_unique() ==> forall|i: int, j: int|
            0 <= i < j < provider.headers@.len() ==> plan.headers@[i].0@ != plan.headers@[j].0@,
{
    let url = plan_url(provider, env_key);
    let mut headers: Vec<(String, String)> = Vec::new();
    let mut i: usize = 0;
    while i < provider.headers.len()
        invariant
            0 <= i <= provider.headers.len(),
            headers@.len() == i,
            forall|k: int|
                0 <= k < i ==> #[trigger] headers@[k].0@ == provider.headers@[k].0@
                    && headers@[k].1@ == provider.headers@[k].1@,
        decreases provider.headers.len() - i,
    {
        let name = provider.headers[i].0.clone();
        let value = provider.headers[i].1.clone();
        headers.push((name, value));
        i = i + 1;
    }
    assert(header_texts(headers@) =~= header_texts(provider.headers@));
    let ghost own = header_texts(headers@);
    let ghost token = bearer_token(*provider, opt_text(*env_key), opt_text(*token_file));
    if provider.api_key_env.is_some() {
        let marker = chars_of(KEY_PLACEHOLDER);
        if !contains_chars(&url, &marker) {
            let key: Option<Vec<char>> = match env_key {
                Some(k) => Some(chars_of(k.as_str())),
                None => match token_file {
                    Some(f) => Some(trim_ws(&chars_of(f.as_str()))),
                    None => None,
                },
            };
            match key {
                Some(k) => {
                    let mut value = chars_of(BEARER);
                    let mut kk = k;
                    value.append(&mut kk);
                    headers.push((String::from_str(AUTHORIZATION), string_of(&value)));
                },
                None => {},
            }
        }
    }
    let ghost with_auth = header_texts(headers@);
    assert(with_auth =~= own + match token {
        Some(t) => seq![(AUTHORIZATION@, BEARER@ + t)],
        None => Seq::<(Seq<char>, Seq<char>)>::empty(),
    });
    if with_key_header && provider.api_key_env.is_some() && same_text(
        provider.name.as_str(),
        ANTHROPIC,
    ) {
        match env_key {
            Some(k) => {
                headers.push((String::from_str(X_API_KEY), k.clone()));
            },
            None => {},
        }
    }
    assert(header_texts(headers@) =~= request_headers(
        *provider,
        opt_text(*env_key),
        opt_text(*token_file),
        with_key_header,
    ));
    proof {
        let h = header_texts(headers@);
        assert forall|i: int| 0 <= i < provider.headers@.len() implies #[trigger] headers@[i].0@
            == provider.headers@[i].0@ by {
            assert(h[i] == request_headers(
                *provider,
                opt_text(*env_key),
                opt_text(*token_file),
                with_key_header,
            )[i]);
        }
    }
    RequestPlan { url: string_of(&url), headers }
}

// ---------------------------------------------------------------------------
// The answer
// ---------------------------------------------------------------------------

/// A model as the catalogue lists it.
pub struct ModelId {
    pub id: String,
    pub created: Option<i64>,
    pub owned_by: Option<String>,
    /// The model's own JSON, as written by `serde_json`.
    pub raw_data: Option<String>,
}

/// The mathematical form of a `ModelId`.
pub struct ModelIdV {
    pub id: Seq<char>,
    pub created: Option<i64>,
    pub owned_by: Option<Seq<char>>,
    pub raw_data: Option<Seq<char>>,
}

impl View for ModelId {
    type V = ModelIdV;

    open spec fn view(&self) -> ModelIdV {
        ModelIdV {
            id: self.id@,
            created: self.created,
            owned_by: opt_text(self.owned_by),
            raw_data: opt_text(self.raw_data),
        }
    }
}

/// The mathematical forms of a list of models.
pub open spec fn model_views(v: Seq<ModelId>) -> Seq<ModelIdV> {
    v.map_values(|m: ModelId| m@)
}

/// The mathematical forms of a list of JSON values.
pub open spec fn json_views(v: Seq<Json>) -> Seq<JsonV> {
    Seq::new(v.len(), |i: int| v[i]@)
}

/// What an answer is read as: for a failed request, an error made of
/// `HTTP_PREFIX`, the status, `COLON_SPACE` and the body; otherwise what
/// `serde_json` reads from the body.
pub open spec fn answer(success: bool, status: Seq<char>, body: Seq<char>) -> Result<
    JsonV,
    Seq<char>,
> {
    if !success {
        Err(HTTP_PREFIX@ + status + COLON_SPACE@ + body)
    } else {
        json_parse(body)
    }
}

/// The array member `key` of `j`.
pub open spec fn array_member(j: JsonV, key: Seq<char>) -> Option<Seq<JsonV>> {
    match get(j, key) {
        Some(v) => as_array(v),
        None => None,
    }
}

/// How many models an answer lists: the length of the array `DATA`, else of
/// the array `MODELS`, else of the answer itself when it is an array, else 0.
pub open spec fn model_count(j: JsonV) -> nat {
    match array_member(j, DATA@) {
        Some(items) => items.len(),
        None => match array_member(j, MODELS@) {
            Some(items) => items.len(),
            None => match as_array(j) {
                Some(items) => items.len(),
                None => 0,
            },
        },
    }
}

/// The text member `key` of `m`.
pub open spec fn text_member(m: JsonV, key: Seq<char>) -> Option<Seq<char>> {
    match get(m, key) {
        Some(v) => as_str(v),
        None => None,
    }
}

/// A model of the `DATA` list: it needs a text `ID`; `CREATED` is kept when
/// it is an `i64`, `OWNED_BY` when it is a text.
pub open spec fn data_entry(m: JsonV) -> Option<ModelIdV> {
    match text_member(m, ID@) {
        Some(id) => Some(
            ModelIdV {
                id,
                created: match get(m, CREATED@) {
                    Some(c) => as_i64(c),
                    None => None,
                },
                owned_by: text_member(m, OWNED_BY@),
                raw_data: Some(json_text(m)),
            },
        ),
        None => None,
    }
}

/// A model of the `MODELS` list: named by `NAME` where it has that member,
/// else by `ID`; the name must be a text.
pub open spec fn listed_entry(m: JsonV) -> Option<ModelIdV> {
    let named = match get(m, NAME@) {
        Some(v) => Some(v),
        None => get(m, ID@),
    };
    match named {
        Some(v) => match as_str(v) {
            Some(id) => Some(
                ModelIdV { id, created: None, owned_by: None, raw_data: Some(json_text(m)) },
            ),
            None => None,
        },
        None => None,
    }
}

/// The models of a list, in order, without the items that are not models.
pub open spec fn entries(items: Seq<JsonV>, from_data: bool) -> Seq<ModelIdV>
    decreases items.len(),
{
    if items.len() == 0 {
        Seq::empty()
    } else {
        let rest = entries(items.drop_last(), from_data);
        let e = if from_data {
            data_entry(items.last())
        } else {
            listed_entry(items.last())
        };
        match e {
            Some(x) => rest.push(x),
            None => rest,
        }
    }
}

/// The models an answer lists: from `DATA`, else from `MODELS`, else none.
pub open spec fn catalogue(j: JsonV) -> Seq<ModelIdV> {
    match array_member(j, DATA@) {
        Some(items) => entries(items, true),
        None => match array_member(j, MODELS@) {
            Some(items) => entries(items, false),
            None => Seq::empty(),
        },
    }
}

/// A result of JSON seen by its mathematical form.
pub open spec fn json_result(r: Result<Json, String>) -> Result<JsonV, Seq<char>> {
    match r {
        Ok(j) => Ok(j@),
        Err(e) => Err(e@),
    }
}

/// Reads the answer to a request: `success` tells whether the status is a
/// success, `status` is the status as text and `body` the text of the answer.
pub fn read_answer(success: bool, status: &str, body: &str) -> (r: Result<Json, String>)
    ensures
        json_result(r) == answer(success, status@, body@),
{
    if !success {
        let mut e = chars_of(HTTP_PREFIX);
        push_str(&mut e, status);
        push_str(&mut e, COLON_SPACE);
        push_str(&mut e, body);
        assert(e@ =~= HTTP_PREFIX@ + status@ + COLON_SPACE@ + body@);
        return Err(string_of(&e));
    }
    parse_json(body)
}

/// The array member `key` of `j`.
fn member_array<'a>(j: &'a Json, key: &str) -> (r: Option<&'a Vec<Json>>)
    ensures
        match r {
            Some(items) => array_member(j@, key@) == Some(json_views(items@)),
            None => array_member(j@, key@) is None,
        },
{
    match get_member(j, key) {
        Some(v) => {
            let r = array_items(v);
            proof {
                if r is Some {
                    assert(json_views(r->0@) =~= Seq::new(r->0@.len(), |i: int| r->0@[i]@));
                }
            }
            r
        },
        None => None,
    }
}

/// How many models the answer lists, as `model_count`.
pub fn count_models(j: &Json) -> (n: usize)
    ensures
        n == model_count(j@),
{
    match member_array(j, DATA) {
        Some(items) => items.len(),
        None => match member_array(j, MODELS) {
            Some(items) => items.len(),
            None => match array_items(j) {
                Some(items) => items.len(),
                None => 0,
            },
        },
    }
}

/// A text member of a model.
fn text_of(m: &Json, key: &str) -> (r: Option<String>)
    ensures
        opt_text(r) == text_member(m@, key@),
{
    match get_member(m, key) {
        Some(v) => match string_value(v) {
            Some(s) => Some(s.clone()),
            None => None,
        },
        None => None,
    }
}

/// The model view of an optional model.
pub open spec fn opt_model(m: Option<ModelId>) -> Option<ModelIdV> {
    match m {
        Some(x) => Some(x@),
        None => None,
    }
}

/// A model of the `DATA` list, as `data_entry`.
fn data_model(m: &Json) -> (r: Option<ModelId>)
    ensures
        opt_model(r) == data_entry(m@),
{
    let id = match text_of(m, ID) {
        Some(id) => id,
        None => return None,
    };
    let created = match get_member(m, CREATED) {
        Some(c) => i64_value(c),
        None => None,
    };
    let owned_by = text_of(m, OWNED_BY);
    Some(ModelId { id, created, owned_by, raw_data: Some(write_json(m)) })
}

/// A model of the `MODELS` list, as `listed_entry`.
fn listed_model(m: &Json) -> (r: Option<ModelId>)
    ensures
        opt_model(r) == listed_entry(m@),
{
    let named = match get_member(m, NAME) {
        Some(v) => Some(v),
        None => get_member(m, ID),
    };
    match named {
        Some(v) => match string_value(v) {
            Some(s) => Some(
                ModelId { id: s.clone(), created: None, owned_by: None, raw_data: Some(write_json(m)) },
            ),
            None => None,
        },
        None => None,
    }
}

/// The models of a list, as `entries`.
fn models_of(items: &Vec<Json>, from_data: bool) -> (r: Vec<ModelId>)
    ensures
        model_views(r@) == entries(json_views(items@), from_data),
{
    let mut out: Vec<ModelId> = Vec::new();
    let mut i: usize = 0;
    assert(json_views(items@).take(0) =~= Seq::<JsonV>::empty());
    assert(model_views(out@) =~= Seq::<ModelIdV>::empty());
    while i < items.len()
        invariant
            0 <= i <= items.len(),
            model_views(out@) == entries(json_views(items@).take(i as int), from_data),
        decreases items.len() - i,
    {
        let ghost before = out@;
        let e = if from_data {
            data_model(&items[i])
        } else {
            listed_model(&items[i])
        };
        let ghost t = json_views(items@).take(i + 1);
        assert(t.drop_last() =~= json_views(items@).take(i as int));
        assert(t.last() == items@[i as int]@);
        match e {
            Some(x) => {
                let ghost xv = x@;
                out.push(x);
                assert(model_views(out@) =~= model_views(before).push(xv));
            },
            None => {},
        }
        assert(model_views(out@) =~= entries(t, from_data));
        i = i + 1;
    }
    assert(json_views(items@).take(i as int) =~= json_views(items@));
    out
}

/// The models the answer lists, as `catalogue`.
pub fn list_models(j: &Json) -> (r: Vec<ModelId>)
    ensures
        model_views(r@) == catalogue(j@),
{
    match member_array(j, DATA) {
        Some(items) => models_of(items, true),
        None => match member_array(j, MODELS) {
            Some(items) => models_of(items, false),
            None => {
                let r: Vec<ModelId> = Vec::new();
                assert(model_views(r@) =~= Seq::<ModelIdV>::empty());
                r
            },
        },
    }
}

/// The count check's outcome from an answer: the number of models, or the
/// error.
pub fn count_from_answer(success: bool, status: &str, body: &str) -> (r: Result<usize, String>)
    ensures
        match answer(success, status@, body@) {
            Ok(j) => r is Ok && r->Ok_0 == model_count(j),
            Err(e) => r is Err && r->Err_0@ == e,
        },
{
    match read_answer(success, status, body) {
        Ok(j) => Ok(count_models(&j)),
        Err(e) => Err(e),
    }
}

/// The catalogue from an answer: the models listed, or the error.
pub fn models_from_answer(success: bool, status: &str, body: &str) -> (r: Result<
    Vec<ModelId>,
    String,
>)
    ensures
        match answer(success, status@, body@) {
            Ok(j) => r is Ok && model_views(r->Ok_0@) == catalogue(j),
            Err(e) => r is Err && r->Err_0@ == e,
        },
{
    match read_answer(success, status, body) {
        Ok(j) => Ok(list_models(&j)),
        Err(e) => Err(e),
    }
}

/// The count of a catalogue beside the catalogue itself.
pub fn count_with_models(catalogue: Result<Vec<ModelId>, String>) -> (r: Result<
    (usize, Vec<ModelId>),
    String,
>)
    ensures
        match catalogue {
            Ok(models) => r is Ok && r->Ok_0.0 == models@.len() && r->Ok_0.1@ == models@,
            Err(e) => r is Err && r->Err_0 == e,
        },
{
    match catalogue {
        Ok(models) => Ok((models.len(), models)),
        Err(e) => Err(e),
    }
}

/// Every model of the catalogue comes from one item of the list it is read
/// from, so a catalogue never holds more models than the answer counts.
pub proof fn lemma_catalogue_within_count(j: JsonV)
    ensures
        catalogue(j).len() <= model_count(j),
{
    match array_member(j, DATA@) {
        Some(items) => lemma_entries_len(items, true),
        None => match array_member(j, MODELS@) {
            Some(items) => lemma_entries_len(items, false),
            None => {},
        },
    }
}

/// A list never yields more models than it has items.
proof fn lemma_entries_len(items: Seq<JsonV>, from_data: bool)
    ensures
        entries(items, from_data).len() <= items.len(),
    decreases items.len(),
{
    if items.len() > 0 {
        lemma_entries_len(items.drop_last(), from_data);
    }
}

// ---------------------------------------------------------------------------
// The status recorded after a check
// ---------------------------------------------------------------------------

/// What is known of a provider after its last check.
pub struct ProviderStatus {
    pub name: String,
    pub base_url: String,
    pub requires_key: bool,
    pub is_healthy: bool,
    pub last_check_at: Option<String>,
    pub response_time_ms: Option<u64>,
    pub model_count: Option<u64>,
    pub error_message: Option<String>,
}

/// The outcome of a check, the error seen as its text.
pub open spec fn outcome_view(o: Result<usize, String>) -> Result<usize, Seq<char>> {
    match o {
        Ok(c) => Ok(c),
        Err(e) => Err(e@),
    }
}

/// `s` is the status after a check of `provider` at time `now` that took
/// `elapsed_ms` milliseconds: healthy with the number of models when the
/// check succeeded, down with the error otherwise.
pub open spec fn status_after(
    s: ProviderStatus,
    provider: ProviderConfig,
    outcome: Result<usize, Seq<char>>,
    elapsed_ms: u64,
    now: Seq<char>,
) -> bool {
    &&& s.name@ == provider.name@
    &&& s.base_url@ == provider.base_url@
    &&& s.requires_key == provider.api_key_env is Some
    &&& s.is_healthy == outcome is Ok
    &&& opt_text(s.last_check_at) == Some(now)
    &&& s.response_time_ms == Some(elapsed_ms)
    &&& s.model_count == match outcome {
        Ok(c) => Some(c as u64),
        Err(_) => None::<u64>,
    }
    &&& opt_text(s.error_message) == match outcome {
        Ok(_) => None::<Seq<char>>,
        Err(e) => Some(e),
    }
    &&& (s.is_healthy <==> s.model_count is Some)
    &&& (s.is_healthy <==> s.error_message is None)
}

/// The status after a check of `provider` at time `now` that took
/// `elapsed_ms` milliseconds, as `status_after`. These are also the values
/// written to the database.
pub fn status_after_check(
    provider: &ProviderConfig,
    outcome: &Result<usize, String>,
    elapsed_ms: u64,
    now: &String,
) -> (s: ProviderStatus)
    ensures
        status_after(s, *provider, outcome_view(*outcome), elapsed_ms, now@),
{
    let (is_healthy, model_count, error_message) = match outcome {
        Ok(count) => (true, Some(*count as u64), None),
        Err(e) => (false, None, Some(e.clone())),
    };
    ProviderStatus {
        name: provider.name.clone(),
        base_url: provider.base_url.clone(),
        requires_key: provider.api_key_env.is_some(),
        is_healthy,
        last_check_at: Some(now.clone()),
        response_time_ms: Some(elapsed_ms),
        model_count,
        error_message,
    }
}

/// The outcome of a check that fetched the whole catalogue: its count, or the
/// error.
pub fn catalogue_outcome(r: &Result<(usize, Vec<ModelId>), String>) -> (o: Result<usize, String>)
    ensures
        match r {
            Ok(x) => o == Ok::<usize, String>(x.0),
            Err(e) => o is Err && o->Err_0@ == e@,
        },
{
    match r {
        Ok(x) => Ok(x.0),
        Err(e) => Err(e.clone()),
    }
}

/// What a check that fetched the whole catalogue records, at the time `now`
/// shared by the checks made together: the provider's status, and the models
/// to store, which are those fetched when the check succeeded and none
/// otherwise.
pub fn check_record(
    provider: &ProviderConfig,
    fetched: Result<(usize, Vec<ModelId>), String>,
    elapsed_ms: u64,
    now: &String,
) -> (r: (ProviderStatus, Vec<ModelId>))
    ensures
        status_after(
            r.0,
            *provider,
            match fetched {
                Ok(x) => Ok(x.0),
                Err(e) => Err(e@),
            },
            elapsed_ms,
            now@,
        ),
        r.1@ == match fetched {
            Ok(x) => x.1@,
            Err(_) => Seq::<ModelId>::empty(),
        },
        !r.0.is_healthy ==> r.1@.len() == 0,
{
    let outcome = catalogue_outcome(&fetched);
    let status = status_after_check(provider, &outcome, elapsed_ms, now);
    let models = match fetched {
        Ok(x) => x.1,
        Err(_) => Vec::new(),
    };
    (status, models)
}

/// How a flag is stored: 1 for true, 0 for false.
pub fn sql_flag(b: bool) -> (i: i32)
    ensures
        i == if b {
            1i32
        } else {
            0i32
        },
{
    if b {
        1
    } else {
        0
    }
}

/// A stored flag: true when it is not 0.
pub fn flag_of(i: i32) -> (b: bool)
    ensures
        b == (i != 0),
{
    i != 0
}

impl ProviderStatus {
    /// The status as the database holds it, the flags stored as integers.
    pub fn from_row(
        name: String,
        base_url: String,
        requires_key: i32,
        last_check_at: Option<String>,
        is_healthy: i32,
        response_time_ms: Option<u64>,
        model_count: Option<u64>,
        error_message: Option<String>,
    ) -> (s: ProviderStatus)
        ensures
            s.name == name,
            s.base_url == base_url,
            s.requires_key == (requires_key != 0),
            s.last_check_at == last_check_at,
            s.is_healthy == (is_healthy != 0),
            s.response_time_ms == response_time_ms,
            s.model_count == model_count,
            s.error_message == error_message,
    {
        ProviderStatus {
            name,
            base_url,
            requires_key: flag_of(requires_key),
            is_healthy: flag_of(is_healthy),
            last_check_at,
            response_time_ms,
            model_count,
            error_message,
        }
    }
}

/// One entry of the history of checks.
pub struct CheckEntry {
    pub provider_name: String,
    pub checked_at: String,
    pub is_healthy: bool,
    pub response_time_ms: Option<i64>,
    pub model_count: Option<i64>,
    pub error_message: Option<String>,
}

impl CheckEntry {
    /// The entry as the database holds it, the flag stored as an integer.
    pub fn from_row(
        provider_name: String,
        checked_at: String,
        is_healthy: i32,
        response_time_ms: Option<i64>,
        model_count: Option<i64>,
        error_message: Option<String>,
    ) -> (c: CheckEntry)
        ensures
            c.provider_name == provider_name,
            c.checked_at == checked_at,
            c.is_healthy == (is_healthy != 0),
            c.response_time_ms == response_time_ms,
            c.model_count == model_count,
            c.error_message == error_message,
    {
        CheckEntry {
            provider_name,
            checked_at,
            is_healthy: flag_of(is_healthy),
            response_time_ms,
            model_count,
            error_message,
        }
    }
}

/// A value as the database stores it.
pub enum SqlValue {
    Null,
    Integer(i64),
    /// A floating-point number; its value is never read.
    Real,
    Text(String),
    Blob,
}

/// A model's creation time as stored: an integer is taken as it is, a text is
/// parsed as an `i64`, anything else gives nothing.
pub open spec fn created_value(v: SqlValue) -> Option<i64> {
    match v {
        SqlValue::Integer(i) => Some(i),
        SqlValue::Text(s) => parsed_i64(s@),
        _ => None,
    }
}

/// Reads a model's creation time from its column, as `created_value`.
pub fn created_from_column(v: &SqlValue) -> (r: Option<i64>)
    ensures
        r == created_value(*v),
{
    match v {
        SqlValue::Integer(i) => Some(*i),
        SqlValue::Text(s) => parse_i64(&chars_of(s.as_str())),
        _ => None,
    }
}

/// A creation time that is stored as the text of its decimal notation reads
/// back as the same time.
pub proof fn lemma_created_round_trip(ts: i64, stored: SqlValue)
    requires
        stored matches SqlValue::Text(s) && s@ == decimal_int(ts as int),
    ensures
        created_value(stored) == Some(ts),
{
    crate::text::lemma_parse_decimal(ts);
}

/// What `chrono` writes, as "%Y-%m-%d", for the UTC date of a Unix time in
/// seconds; nothing when the time is out of its range.
pub uninterp spec fn calendar_date(ts: i64) -> Option<Seq<char>>;

/// Calls `chrono::DateTime::from_timestamp(ts, 0)` and, on the date it
/// gives, `format("%Y-%m-%d")` with `to_string`. The contract names the
/// outcome after `ts` alone; the calendar is not restated here.
#[verifier::external_body]
fn date_of_timestamp(ts: i64) -> (r: Option<String>)
    ensures
        opt_text(r) == calendar_date(ts),
{
    match chrono::DateTime::from_timestamp(ts, 0) {
        Some(dt) => Some(dt.format("%Y-%m-%d").to_string()),
        None => None,
    }
}

/// A Unix time shown as a date: the date when there is one, else the number
/// in decimal.
pub open spec fn unix_text(date: Option<Seq<char>>, ts: i64) -> Seq<char> {
    match date {
        Some(d) => d,
        None => decimal_int(ts as int),
    }
}

/// A Unix time shown as its date, given what the calendar gives for it.
pub fn format_unix_with(date: Option<String>, ts: i64) -> (s: String)
    ensures
        s@ == unix_text(opt_text(date), ts),
{
    match date {
        Some(d) => d,
        None => string_of(&i64_text(ts)),
    }
}

/// A Unix time in seconds shown as its UTC date, "%Y-%m-%d", or as the
/// number itself when it has no date.
pub fn format_unix(ts: i64) -> (s: String)
    ensures
        s@ == unix_text(calendar_date(ts), ts),
{
    format_unix_with(date_of_timestamp(ts), ts)
}

} // verus!
