//! OpenAI-compatible chat model: messages, scenario prompts, API key
//! resolution, HTTP status classification, retry policy, request stop flags
//! and the framing of the server-sent event stream.
use vstd::prelude::*;

use crate::config::{env_lookup, placeholder_name, resolved_value, resolve_env_placeholder, EnvSnapshot, ProviderConfig};
use crate::text::{replace_all, replace_str};

verus! {

/// One chat message; `role` is `system`, `user` or `assistant`.
#[derive(Debug, Clone)]
pub struct ChatMessage {
    pub role: String,
    pub content: String,
}

/// What the user asked for on the selection.
#[derive(Debug, Clone, Copy, PartialEq, Eq, Structural)]
pub enum Scenario {
    Translate,
    Explain,
    Chat,
}

/// A streaming chat request sent by the panel.
#[derive(Debug, Clone)]
pub struct ChatRequest {
    pub request_id: String,
    pub provider: ProviderConfig,
    pub model: String,
    pub scenario: Scenario,
    /// Already holds the system prompt and the whole context.
    pub messages: Vec<ChatMessage>,
    pub max_tokens: Option<u32>,
}

/// Token usage reported by the provider.
#[derive(Debug, Clone, Copy)]
pub struct Usage {
    pub prompt_tokens: Option<u32>,
    pub completion_tokens: Option<u32>,
}

/// Why a request failed, as the panel shows it.
#[derive(Debug, Clone, Copy, PartialEq, Eq, Structural)]
pub enum ErrorKind {
    Network,
    RateLimited,
    InvalidKey,
    BadRequest,
    Server,
    Unknown,
}

/// A streaming event pushed to the panel.
#[derive(Debug, Clone)]
pub enum ChatEvent {
    Chunk { request_id: String, delta: String },
    Done { request_id: String, usage: Option<Usage> },
    Error { request_id: String, kind: ErrorKind, message: String },
}

/// System prompt of the translate scenario.
pub const TRANSLATE_TEMPLATE: &'static str = "You are a professional translator. Translate the text the user sends from {source_lang} into {target_lang}. Reply with the translation only; keep the original line breaks, Markdown and code unchanged, and add no explanation.";

/// System prompt of the explain scenario.
pub const EXPLAIN_TEMPLATE: &'static str = "You are a patient expert. Explain the text the user sends: for a technical term give its meaning and a short example; for code describe what it does step by step; for a long sentence break down its structure. Answer in Markdown and keep it concise.";

/// System prompt of follow-up chat.
pub const CHAT_TEMPLATE: &'static str = "You are a helpful assistant. Continue the conversation about the text the user selected and answer follow-up questions accurately and concisely in Markdown.";

/// The system prompt of a scenario: the translate template with both
/// language placeholders filled in, or the fixed template of the others.
pub open spec fn system_prompt_spec(scenario: Scenario, source_lang: Seq<char>, target_lang: Seq<
    char,
>) -> Seq<char> {
    match scenario {
        Scenario::Translate => replace_all(
            replace_all(TRANSLATE_TEMPLATE@, "{source_lang}"@, source_lang),
            "{target_lang}"@,
            target_lang,
        ),
        Scenario::Explain => EXPLAIN_TEMPLATE@,
        Scenario::Chat => CHAT_TEMPLATE@,
    }
}

/// The scenario's system prompt.
pub fn system_prompt(scenario: Scenario, source_lang: &str, target_lang: &str) -> (r: String)
    ensures
        r@ == system_prompt_spec(scenario, source_lang@, target_lang@),
{
    proof {
        reveal_strlit("{source_lang}");
        reveal_strlit("{target_lang}");
    }
    match scenario {
        Scenario::Translate => {
            let with_source = replace_str(TRANSLATE_TEMPLATE, "{source_lang}", source_lang);
            replace_str(with_source.as_str(), "{target_lang}", target_lang)
        },
        Scenario::Explain => EXPLAIN_TEMPLATE.to_string(),
        Scenario::Chat => CHAT_TEMPLATE.to_string(),
    }
}

/// The first turn of a conversation: the system prompt, then the selected
/// text as the user's message.
pub fn build_first_messages(
    scenario: Scenario,
    source_lang: String,
    target_lang: String,
    text: String,
) -> (r: Vec<ChatMessage>)
    ensures
        r@.len() == 2,
        r@[0].role@ == "system"@,
        r@[0].content@ == system_prompt_spec(scenario, source_lang@, target_lang@),
        r@[1].role@ == "user"@,
        r@[1].content@ == text@,
{
    let system = ChatMessage {
        role: "system".to_string(),
        content: system_prompt(scenario, source_lang.as_str(), target_lang.as_str()),
    };
    let user = ChatMessage { role: "user".to_string(), content: text };
    let mut r: Vec<ChatMessage> = Vec::new();
    r.push(system);
    r.push(user);
    r
}

/// Every error kind, in the order the panel lists them.
pub fn error_kinds() -> (r: Vec<ErrorKind>)
    ensures
        r@ == seq![
            ErrorKind::Network,
            ErrorKind::RateLimited,
            ErrorKind::InvalidKey,
            ErrorKind::BadRequest,
            ErrorKind::Server,
            ErrorKind::Unknown,
        ],
{
    let r = vec![
        ErrorKind::Network,
        ErrorKind::RateLimited,
        ErrorKind::InvalidKey,
        ErrorKind::BadRequest,
        ErrorKind::Server,
        ErrorKind::Unknown,
    ];
    assert(r@ =~= seq![
        ErrorKind::Network,
        ErrorKind::RateLimited,
        ErrorKind::InvalidKey,
        ErrorKind::BadRequest,
        ErrorKind::Server,
        ErrorKind::Unknown,
    ]);
    r
}

/// The key a provider uses: a non-empty key from the system keychain wins;
/// otherwise the configured key with any `${ENV}` placeholder resolved.
pub open spec fn effective_key(
    keychain: Option<Seq<char>>,
    api_key: Seq<char>,
    vars: Seq<(String, String)>,
) -> Seq<char> {
    match keychain {
        Some(k) => if k.len() > 0 {
            k
        } else {
            resolved_value(api_key, vars)
        },
        None => resolved_value(api_key, vars),
    }
}

/// Where a provider's key comes from, highest priority first: a non-empty
/// key in the system keychain; otherwise the configured value, where a
/// `${NAME}` placeholder is read from the environment (empty when unset);
/// otherwise the configured value as written.
pub proof fn law_key_priority(keychain: Option<Seq<char>>, api_key: Seq<char>, vars: Seq<(String, String)>)
    ensures
        keychain matches Some(k) && k.len() > 0 ==> effective_key(keychain, api_key, vars)
            == keychain->0,
        !(keychain matches Some(k) && k.len() > 0) ==> (placeholder_name(api_key) matches Some(
            name,
        ) ==> effective_key(keychain, api_key, vars) == (match env_lookup(vars, name) {
            Some(v) => v,
            None => Seq::<char>::empty(),
        })),
        !(keychain matches Some(k) && k.len() > 0) ==> (placeholder_name(api_key) is None
            ==> effective_key(keychain, api_key, vars) == api_key),
{
}

/// The view of an optional keychain entry.
pub open spec fn opt_view(o: Option<String>) -> Option<Seq<char>> {
    match o {
        Some(s) => Some(s@),
        None => None,
    }
}

/// The API key for `provider`: `keychain` is what the system keychain holds
/// for it, if anything; an empty result is an invalid key.
pub fn resolve_api_key(keychain: Option<String>, provider: &ProviderConfig, env: &EnvSnapshot) -> (r:
    Result<String, ErrorKind>)
    ensures
        effective_key(opt_view(keychain), provider.api_key@, env.vars@).len() > 0 ==> (r matches Ok(
            k,
        ) && k@ == effective_key(opt_view(keychain), provider.api_key@, env.vars@)),
        effective_key(opt_view(keychain), provider.api_key@, env.vars@).len() == 0 ==> r == Err::<
            String,
            ErrorKind,
        >(ErrorKind::InvalidKey),
{
    if let Some(key) = keychain {
        if !key.as_str().is_empty() {
            return Ok(key);
        }
    }
    let key = resolve_env_placeholder(provider.api_key.as_str(), env);
    if key.as_str().is_empty() {
        return Err(ErrorKind::InvalidKey);
    }
    Ok(key)
}

} // verus!

verus! {

/// How an HTTP status code is treated when opening the chat stream.
#[derive(Debug, Clone, Copy, PartialEq, Eq, Structural)]
pub enum StatusClass {
    /// `200`: read the stream.
    Proceed,
    /// `429`.
    RateLimited,
    /// `401` or `403`.
    InvalidKey,
    /// Any other `4xx`.
    ClientError,
    /// Anything else.
    ServerError,
}

/// The class of an HTTP status code.
pub open spec fn status_class_spec(code: u16) -> StatusClass {
    if code == 200 {
        StatusClass::Proceed
    } else if code == 429 {
        StatusClass::RateLimited
    } else if code == 401 || code == 403 {
        StatusClass::InvalidKey
    } else if 400 <= code <= 499 {
        StatusClass::ClientError
    } else {
        StatusClass::ServerError
    }
}

/// Classifies the HTTP status of a chat request.
pub fn classify_status(code: u16) -> (r: StatusClass)
    ensures
        r == status_class_spec(code),
{
    if code == 200 {
        StatusClass::Proceed
    } else if code == 429 {
        StatusClass::RateLimited
    } else if code == 401 || code == 403 {
        StatusClass::InvalidKey
    } else if 400 <= code && code <= 499 {
        StatusClass::ClientError
    } else {
        StatusClass::ServerError
    }
}

/// `a + b + c + d` as a new string.
fn concat4(a: &str, b: &str, c: &str, d: &str) -> (r: String)
    ensures
        r@ == a@ + b@ + c@ + d@,
{
    let mut r = a.to_string();
    r.append(b);
    r.append(c);
    r.append(d);
    r
}

/// The error reported for a rejected chat request: `status_text` is how the
/// status displays (code and reason) and `body` the response text.
pub open spec fn status_error_spec(class: StatusClass, status_text: Seq<char>, body: Seq<char>) -> Option<
    (ErrorKind, Seq<char>),
> {
    match class {
        StatusClass::Proceed => None,
        StatusClass::RateLimited => Some((ErrorKind::RateLimited, "请求过于频繁（429 限流），请稍后再试"@)),
        StatusClass::InvalidKey => Some((ErrorKind::InvalidKey, "API Key 无效或未授权"@)),
        StatusClass::ClientError => Some(
            (ErrorKind::BadRequest, "请求被服务端拒绝（"@ + status_text + "）："@ + body),
        ),
        StatusClass::ServerError => Some(
            (ErrorKind::Server, "服务端错误（"@ + status_text + "）："@ + body),
        ),
    }
}

/// The error a chat request ends with for this status, if any.
pub fn status_error(class: StatusClass, status_text: &str, body: &str) -> (r: Option<
    (ErrorKind, String),
>)
    ensures
        r matches Some(e) ==> status_error_spec(class, status_text@, body@) == Some((e.0, e.1@)),
        r is None ==> status_error_spec(class, status_text@, body@) is None,
{
    match class {
        StatusClass::Proceed => None,
        StatusClass::RateLimited => Some(
            (ErrorKind::RateLimited, "请求过于频繁（429 限流），请稍后再试".to_string()),
        ),
        StatusClass::InvalidKey => Some((ErrorKind::InvalidKey, "API Key 无效或未授权".to_string())),
        StatusClass::ClientError => Some(
            (ErrorKind::BadRequest, concat4("请求被服务端拒绝（", status_text, "）：", body)),
        ),
        StatusClass::ServerError => Some(
            (ErrorKind::Server, concat4("服务端错误（", status_text, "）：", body)),
        ),
    }
}

/// The outcome of a connection test from the response status: the latency
/// on `200`, otherwise the error.
pub fn connection_test_result(code: u16, status_text: &str, elapsed_ms: u128) -> (r: Result<
    u128,
    (ErrorKind, String),
>)
    ensures
        code == 200 ==> r == Ok::<u128, (ErrorKind, String)>(elapsed_ms),
        code == 429 ==> (r matches Err(e) && e.0 == ErrorKind::RateLimited && e.1@ == "429 限流"@),
        (code == 401 || code == 403) ==> (r matches Err(e) && e.0 == ErrorKind::InvalidKey && e.1@
            == "API Key 无效"@),
        (code != 200 && code != 429 && code != 401 && code != 403) ==> (r matches Err(e) && e.0
            == ErrorKind::Server && e.1@ == "服务端返回 "@ + status_text@),
{
    if code == 200 {
        Ok(elapsed_ms)
    } else if code == 429 {
        Err((ErrorKind::RateLimited, "429 限流".to_string()))
    } else if code == 401 || code == 403 {
        Err((ErrorKind::InvalidKey, "API Key 无效".to_string()))
    } else {
        let mut m = "服务端返回 ".to_string();
        m.append(status_text);
        Err((ErrorKind::Server, m))
    }
}

/// How a failure to send the request is classified: a timeout or a failed
/// connection is a network error, anything else unknown.
pub fn send_error_kind(is_timeout: bool, is_connect: bool) -> (r: ErrorKind)
    ensures
        r == (if is_timeout || is_connect {
            ErrorKind::Network
        } else {
            ErrorKind::Unknown
        }),
{
    if is_timeout || is_connect {
        ErrorKind::Network
    } else {
        ErrorKind::Unknown
    }
}

/// `s` without any trailing `c`.
pub open spec fn strip_trailing(s: Seq<char>, c: char) -> Seq<char>
    decreases s.len(),
{
    if s.len() > 0 && s.last() == c {
        strip_trailing(s.drop_last(), c)
    } else {
        s
    }
}

/// The chat completions endpoint of a provider's base URL.
pub fn completions_url(base_url: &str) -> (r: String)
    ensures
        r@ == strip_trailing(base_url@, '/') + "/chat/completions"@,
{
    let v = crate::text::chars_of(base_url);
    let mut end: usize = v.len();
    proof {
        assert(v@.take(end as int) =~= v@);
    }
    while end > 0 && v[end - 1] == '/'
        invariant
            v@ == base_url@,
            0 <= end <= v@.len(),
            strip_trailing(v@.take(end as int), '/') == strip_trailing(base_url@, '/'),
        decreases end,
    {
        proof {
            assert(v@.take(end as int).drop_last() =~= v@.take(end - 1));
        }
        end = end - 1;
    }
    let mut r = base_url.substring_char(0, end).to_string();
    r.append("/chat/completions");
    r
}

/// The maximum number of retries after a network-class failure.
pub const MAX_RETRIES: u32 = 2;

/// What to do after an attempt.
#[derive(Debug, Clone, Copy, PartialEq, Eq, Structural)]
pub enum RetryStep {
    /// The attempt succeeded.
    Finish,
    /// Report the attempt's error.
    Fail,
    /// Wait `backoff_ms`, then make attempt number `attempt` (counted from 1
    /// for the first retry).
    Retry { attempt: u32, backoff_ms: u64 },
}

/// Whether an error kind is reported at once, without retrying.
pub open spec fn is_final_error(kind: ErrorKind) -> bool {
    kind == ErrorKind::RateLimited || kind == ErrorKind::InvalidKey || kind
        == ErrorKind::BadRequest
}

/// The retry policy: rate limits, bad keys and rejected requests fail at
/// once; an error after output has started fails (a retry would send the
/// whole text again); other errors are retried at most `MAX_RETRIES` times,
/// after 800 ms and then 1600 ms.
pub open spec fn retry_step_spec(outcome: Option<ErrorKind>, streamed: bool, attempt: u32) -> RetryStep {
    match outcome {
        None => RetryStep::Finish,
        Some(kind) => if is_final_error(kind) || streamed || attempt >= MAX_RETRIES {
            RetryStep::Fail
        } else {
            RetryStep::Retry {
                attempt: (attempt + 1) as u32,
                backoff_ms: if attempt == 0 {
                    800
                } else {
                    1600
                },
            }
        },
    }
}

/// Decides what follows an attempt that ended with `outcome` (`None` on
/// success); `attempt` counts the retries made so far.
pub fn retry_step(outcome: Option<ErrorKind>, streamed: bool, attempt: u32) -> (r: RetryStep)
    ensures
        r == retry_step_spec(outcome, streamed, attempt),
{
    match outcome {
        None => RetryStep::Finish,
        Some(kind) => {
            let is_final = match kind {
                ErrorKind::RateLimited | ErrorKind::InvalidKey | ErrorKind::BadRequest => true,
                _ => false,
            };
            if is_final || streamed || attempt >= MAX_RETRIES {
                RetryStep::Fail
            } else {
                let next = attempt + 1;
                assert(next == 1 ==> (1u64 << next) == 2) by (bit_vector);
                assert(next == 2 ==> (1u64 << next) == 4) by (bit_vector);
                let backoff_ms: u64 = 400 * (1u64 << next);
                RetryStep::Retry { attempt: next, backoff_ms }
            }
        },
    }
}

/// The number of attempts a request makes when its attempts end with
/// `outcomes` in turn (an outcome is the error, if any, and whether output
/// had started), starting after `retries` retries.
pub open spec fn attempts_made(outcomes: Seq<(Option<ErrorKind>, bool)>, retries: u32) -> nat
    decreases outcomes.len(),
{
    if outcomes.len() == 0 {
        0
    } else {
        match retry_step_spec(outcomes[0].0, outcomes[0].1, retries) {
            RetryStep::Retry { attempt, .. } => 1 + attempts_made(outcomes.drop_first(), attempt),
            _ => 1,
        }
    }
}

proof fn lemma_attempts_bound(outcomes: Seq<(Option<ErrorKind>, bool)>, retries: u32)
    requires
        retries <= MAX_RETRIES,
    ensures
        attempts_made(outcomes, retries) <= MAX_RETRIES - retries + 1,
    decreases outcomes.len(),
{
    if outcomes.len() > 0 {
        match retry_step_spec(outcomes[0].0, outcomes[0].1, retries) {
            RetryStep::Retry { attempt, .. } => {
                lemma_attempts_bound(outcomes.drop_first(), attempt);
            },
            _ => {},
        }
    }
}

/// A request is sent at most `MAX_RETRIES + 1` times, whatever its attempts
/// return.
pub proof fn law_at_most_two_retries(outcomes: Seq<(Option<ErrorKind>, bool)>)
    ensures
        attempts_made(outcomes, 0) <= MAX_RETRIES + 1,
{
    lemma_attempts_bound(outcomes, 0);
}

/// A rate limit, an invalid key or a rejected request is reported after the
/// attempt that met it, and so is any error once output has started.
pub proof fn law_no_retry_after_final_error(outcomes: Seq<(Option<ErrorKind>, bool)>, retries: u32)
    requires
        outcomes.len() > 0,
        outcomes[0].0 matches Some(kind) && (is_final_error(kind) || outcomes[0].1),
    ensures
        attempts_made(outcomes, retries) == 1,
{
}

/// Which failures are retried: a network, server or unknown error before
/// any output, with fewer than `MAX_RETRIES` retries made, is retried, 800 ms
/// after the first attempt and 1600 ms after the second; a rate limit, an
/// invalid key or a rejected request fails at once, and so does any error
/// once output has started or after the last retry; success finishes.
pub proof fn law_retry_policy(outcome: Option<ErrorKind>, streamed: bool, attempt: u32)
    ensures
        outcome is None ==> retry_step_spec(outcome, streamed, attempt) == RetryStep::Finish,
        (outcome == Some(ErrorKind::Network) || outcome == Some(ErrorKind::Server) || outcome
            == Some(ErrorKind::Unknown)) && !streamed && attempt < 2 ==> retry_step_spec(
            outcome,
            streamed,
            attempt,
        ) == (RetryStep::Retry {
            attempt: (attempt + 1) as u32,
            backoff_ms: if attempt == 0 {
                800u64
            } else {
                1600u64
            },
        }),
        (outcome == Some(ErrorKind::RateLimited) || outcome == Some(ErrorKind::InvalidKey)
            || outcome == Some(ErrorKind::BadRequest)) ==> retry_step_spec(
            outcome,
            streamed,
            attempt,
        ) == RetryStep::Fail,
        outcome is Some && (streamed || attempt >= 2) ==> retry_step_spec(
            outcome,
            streamed,
            attempt,
        ) == RetryStep::Fail,
{
}

/// How status codes are read: `200` proceeds; `429` is a rate limit; `401`
/// and `403` an invalid key; every other `4xx` a rejected request; every
/// other code a server error. A rejected request is reported as
/// `BadRequest` and a server error as `Server`, both with the status and
/// the response text.
pub proof fn law_status_classes(code: u16, status_text: Seq<char>, body: Seq<char>)
    ensures
        code == 200 ==> status_class_spec(code) == StatusClass::Proceed,
        code == 429 ==> status_class_spec(code) == StatusClass::RateLimited,
        (code == 401 || code == 403) ==> status_class_spec(code) == StatusClass::InvalidKey,
        400 <= code <= 499 && code != 401 && code != 403 && code != 429 ==> status_class_spec(code)
            == StatusClass::ClientError,
        !(400 <= code <= 499) && code != 200 ==> status_class_spec(code)
            == StatusClass::ServerError,
        400 <= code <= 499 && code != 401 && code != 403 && code != 429 ==> status_error_spec(
            status_class_spec(code),
            status_text,
            body,
        ) == Some((ErrorKind::BadRequest, "请求被服务端拒绝（"@ + status_text + "）："@ + body)),
        !(400 <= code <= 499) && code != 200 ==> status_error_spec(
            status_class_spec(code),
            status_text,
            body,
        ) == Some((ErrorKind::Server, "服务端错误（"@ + status_text + "）："@ + body)),
{
}

/// The name of an error kind, as the panel and the connection test show it.
pub open spec fn kind_name(kind: ErrorKind) -> Seq<char> {
    match kind {
        ErrorKind::Network => "Network"@,
        ErrorKind::RateLimited => "RateLimited"@,
        ErrorKind::InvalidKey => "InvalidKey"@,
        ErrorKind::BadRequest => "BadRequest"@,
        ErrorKind::Server => "Server"@,
        ErrorKind::Unknown => "Unknown"@,
    }
}

/// The name of an error kind.
pub fn error_kind_name(kind: ErrorKind) -> (r: &'static str)
    ensures
        r@ == kind_name(kind),
{
    match kind {
        ErrorKind::Network => "Network",
        ErrorKind::RateLimited => "RateLimited",
        ErrorKind::InvalidKey => "InvalidKey",
        ErrorKind::BadRequest => "BadRequest",
        ErrorKind::Server => "Server",
        ErrorKind::Unknown => "Unknown",
    }
}

/// A failure as one line of text: the kind's name, a colon and the message.
pub fn error_text(kind: ErrorKind, message: &str) -> (r: String)
    ensures
        r@ == kind_name(kind) + ": "@ + message@,
{
    let mut r = error_kind_name(kind).to_string();
    r.append(": ");
    r.append(message);
    r
}

/// The error a request ends with when no usable API key was found.
pub fn key_error(kind: ErrorKind) -> (r: (ErrorKind, String))
    ensures
        r.0 == kind,
        r.1@ == "API Key 未配置或无效"@,
{
    (kind, "API Key 未配置或无效".to_string())
}

/// The error event that ends a stream, if the stream failed.
pub fn stream_end_event(request_id: String, result: Result<(), (ErrorKind, String)>) -> (r: Option<
    ChatEvent,
>)
    ensures
        result is Ok ==> r is None,
        result matches Err(e) ==> (r matches Some(ChatEvent::Error { request_id: id, kind, message })
            && id == request_id && kind == e.0 && message == e.1),
{
    match result {
        Ok(()) => None,
        Err((kind, message)) => Some(ChatEvent::Error { request_id, kind, message }),
    }
}

} // verus!

verus! {

/// The stop switches of the requests in flight, keyed by request id.
pub struct StopFlags {
    entries: Vec<(String, bool)>,
}

/// The flag of the first entry keyed `id` in `entries[from..]`.
pub open spec fn flag_from(entries: Seq<(String, bool)>, id: Seq<char>, from: int) -> Option<bool>
    decreases entries.len() - from,
{
    if from < 0 || from >= entries.len() {
        None
    } else if entries[from].0@ == id {
        Some(entries[from].1)
    } else {
        flag_from(entries, id, from + 1)
    }
}

/// The id-to-flag map that a list of entries stands for.
pub open spec fn flags_map(entries: Seq<(String, bool)>) -> Map<Seq<char>, bool> {
    Map::new(
        |id: Seq<char>| flag_from(entries, id, 0) is Some,
        |id: Seq<char>| flag_from(entries, id, 0)->0,
    )
}

/// Whether request `id` is in flight and has been asked to stop.
pub open spec fn stopped(flags: Map<Seq<char>, bool>, id: Seq<char>) -> bool {
    flags.contains_key(id) && flags[id]
}

/// The flags after request `id` starts: a fresh, unset flag.
pub open spec fn after_register(flags: Map<Seq<char>, bool>, id: Seq<char>) -> Map<Seq<char>, bool> {
    flags.insert(id, false)
}

/// The flags after a stop of `id`: its flag set when it is in flight,
/// nothing changed otherwise.
pub open spec fn after_stop(flags: Map<Seq<char>, bool>, id: Seq<char>) -> Map<Seq<char>, bool> {
    if flags.contains_key(id) {
        flags.insert(id, true)
    } else {
        flags
    }
}

/// The flags after request `id` has ended.
pub open spec fn after_remove(flags: Map<Seq<char>, bool>, id: Seq<char>) -> Map<Seq<char>, bool> {
    flags.remove(id)
}

impl View for StopFlags {
    type V = Map<Seq<char>, bool>;

    closed spec fn view(&self) -> Map<Seq<char>, bool> {
        flags_map(self.entries@)
    }
}

/// Two entry lists with the same keys from `from` on, whose flags agree on
/// every entry keyed `id`, give `id` the same flag.
proof fn lemma_flag_agree(e1: Seq<(String, bool)>, e2: Seq<(String, bool)>, id: Seq<char>, from: int)
    requires
        e1.len() == e2.len(),
        0 <= from,
        forall|j: int| from <= j < e1.len() ==> #[trigger] e1[j].0@ == e2[j].0@,
        forall|j: int| from <= j < e1.len() && e1[j].0@ == id ==> #[trigger] e1[j].1 == e2[j].1,
    ensures
        flag_from(e1, id, from) == flag_from(e2, id, from),
    decreases e1.len() - from,
{
    if from < e1.len() {
        lemma_flag_agree(e1, e2, id, from + 1);
    }
}

/// Appending an entry only gives a flag to an id that had none.
proof fn lemma_flag_push(e: Seq<(String, bool)>, x: (String, bool), id: Seq<char>, from: int)
    requires
        0 <= from <= e.len(),
    ensures
        flag_from(e.push(x), id, from) == (match flag_from(e, id, from) {
            Some(b) => Some(b),
            None => if x.0@ == id {
                Some(x.1)
            } else {
                None
            },
        }),
    decreases e.len() - from,
{
    if from < e.len() {
        assert(e.push(x)[from] == e[from]);
        lemma_flag_push(e, x, id, from + 1);
    } else {
        assert(e.push(x)[from] == x);
        assert(flag_from(e.push(x), id, from + 1) is None);
    }
}

/// No entry before `i` is keyed `id`, and entry `i` is: its flag is `id`'s.
proof fn lemma_flag_first(e: Seq<(String, bool)>, id: Seq<char>, from: int, i: int)
    requires
        0 <= from <= i < e.len(),
        e[i].0@ == id,
        forall|j: int| from <= j < i ==> #[trigger] e[j].0@ != id,
    ensures
        flag_from(e, id, from) == Some(e[i].1),
    decreases i - from,
{
    if from < i {
        lemma_flag_first(e, id, from + 1, i);
    }
}

/// No entry from `from` on is keyed `id`.
proof fn lemma_flag_none(e: Seq<(String, bool)>, id: Seq<char>, from: int)
    requires
        0 <= from,
        forall|j: int| from <= j < e.len() ==> #[trigger] e[j].0@ != id,
    ensures
        flag_from(e, id, from) is None,
    decreases e.len() - from,
{
    if from < e.len() {
        lemma_flag_none(e, id, from + 1);
    }
}

impl StopFlags {
    /// No request is in flight.
    pub fn new() -> (r: Self)
        ensures
            r@ == Map::<Seq<char>, bool>::empty(),
    {
        let r = StopFlags { entries: Vec::new() };
        assert(r@ =~= Map::<Seq<char>, bool>::empty());
        r
    }

    /// The position of the first entry keyed `id`.
    fn find(&self, id: &str) -> (r: Option<usize>)
        ensures
            r matches Some(i) ==> i < self.entries@.len() && self.entries@[i as int].0@ == id@ && (
            forall|j: int| 0 <= j < i ==> #[trigger] self.entries@[j].0@ != id@),
            r is None ==> forall|j: int|
                0 <= j < self.entries@.len() ==> #[trigger] self.entries@[j].0@ != id@,
    {
        let mut i: usize = 0;
        while i < self.entries.len()
            invariant
                0 <= i <= self.entries@.len(),
                forall|j: int| 0 <= j < i ==> #[trigger] self.entries@[j].0@ != id@,
            decreases self.entries@.len() - i,
        {
            if crate::text::str_eq(self.entries[i].0.as_str(), id) {
                return Some(i);
            }
            i = i + 1;
        }
        None
    }

    /// Whether request `id` has been asked to stop.
    pub fn is_stopped(&self, id: &str) -> (r: bool)
        ensures
            r == stopped(self@, id@),
    {
        match self.find(id) {
            Some(i) => {
                proof {
                    lemma_flag_first(self.entries@, id@, 0, i as int);
                }
                self.entries[i].1
            },
            None => {
                proof {
                    lemma_flag_none(self.entries@, id@, 0);
                }
                false
            },
        }
    }

    /// Sets the flag of `id` to `value` when `id` has an entry; otherwise
    /// appends one when `add` holds.
    fn set_flag(&mut self, id: &str, value: bool, add: bool)
        ensures
            old(self)@.contains_key(id@) || add ==> final(self)@ == old(self)@.insert(id@, value),
            !old(self)@.contains_key(id@) && !add ==> final(self)@ == old(self)@,
    {
        let ghost e0 = self.entries@;
        match self.find(id) {
            Some(i) => {
                let key = self.entries[i].0.clone();
                self.entries.set(i, (key, value));
                proof {
                    let e1 = self.entries@;
                    lemma_flag_first(e0, id@, 0, i as int);
                    lemma_flag_first(e1, id@, 0, i as int);
                    assert forall|k: Seq<char>| k != id@ implies flag_from(e1, k, 0) == flag_from(
                        e0,
                        k,
                        0,
                    ) by {
                        lemma_flag_agree(e0, e1, k, 0);
                    }
                    assert(flags_map(e1) =~= flags_map(e0).insert(id@, value));
                }
            },
            None => {
                proof {
                    lemma_flag_none(e0, id@, 0);
                }
                if add {
                    let key = id.to_string();
                    self.entries.push((key, value));
                    proof {
                        let e1 = self.entries@;
                        assert(e1 == e0.push((key, value)));
                        assert forall|k: Seq<char>|
                            flag_from(e1, k, 0) == (if k == id@ {
                                Some(value)
                            } else {
                                flag_from(e0, k, 0)
                            }) by {
                            lemma_flag_push(e0, (key, value), k, 0);
                        }
                        assert(flags_map(e1) =~= flags_map(e0).insert(id@, value));
                    }
                }
            },
        }
    }

    /// Registers request `id` with a fresh, unset flag (replacing any flag
    /// it had).
    pub fn register(&mut self, id: &str)
        ensures
            final(self)@ == after_register(old(self)@, id@),
    {
        self.set_flag(id, false, true);
    }

    /// Asks request `id` to stop; an id that is not in flight is ignored.
    pub fn stop(&mut self, id: &str)
        ensures
            final(self)@ == after_stop(old(self)@, id@),
    {
        self.set_flag(id, true, false);
    }

    /// Forgets request `id` once it has ended.
    pub fn remove(&mut self, id: &str)
        ensures
            final(self)@ == after_remove(old(self)@, id@),
    {
        let ghost e0 = self.entries@;
        let mut kept: Vec<(String, bool)> = Vec::new();
        let mut i: usize = 0;
        while i < self.entries.len()
            invariant
                e0 == self.entries@,
                0 <= i <= e0.len(),
                forall|j: int| 0 <= j < kept@.len() ==> #[trigger] kept@[j].0@ != id@,
                forall|k: Seq<char>|
                    k != id@ ==> #[trigger] flag_from(kept@, k, 0) == flag_from(e0.take(i as int), k, 0),
            decreases e0.len() - i,
        {
            let ghost before = kept@;
            proof {
                assert(e0.take(i + 1) =~= e0.take(i as int).push(e0[i as int]));
                assert forall|k: Seq<char>| k != id@ implies #[trigger] flag_from(e0.take(i + 1), k, 0)
                    == (match flag_from(e0.take(i as int), k, 0) {
                    Some(b) => Some(b),
                    None => if e0[i as int].0@ == k {
                        Some(e0[i as int].1)
                    } else {
                        None
                    },
                }) by {
                    lemma_flag_push(e0.take(i as int), e0[i as int], k, 0);
                }
            }
            if !crate::text::str_eq(self.entries[i].0.as_str(), id) {
                let entry = (self.entries[i].0.clone(), self.entries[i].1);
                kept.push(entry);
                proof {
                    assert forall|k: Seq<char>| k != id@ implies #[trigger] flag_from(kept@, k, 0)
                        == flag_from(e0.take(i + 1), k, 0) by {
                        lemma_flag_push(before, entry, k, 0);
                    }
                }
            } else {
                proof {
                    assert forall|k: Seq<char>| k != id@ implies #[trigger] flag_from(kept@, k, 0)
                        == flag_from(e0.take(i + 1), k, 0) by {
                    }
                }
            }
            i = i + 1;
        }
        proof {
            assert(e0.take(e0.len() as int) =~= e0);
            lemma_flag_none(kept@, id@, 0);
            assert(flags_map(kept@) =~= flags_map(e0).remove(id@));
        }
        self.entries = kept;
    }
}

/// Stops request `id` in the registry of requests in flight; an id that is
/// not in flight is ignored.
pub fn stop(flags: &mut StopFlags, request_id: &str)
    ensures
        final(flags)@ == after_stop(old(flags)@, request_id@),
{
    flags.stop(request_id);
}

/// A stop reaches a request that is in flight: once registered and then
/// stopped, the request sees its flag set.
pub proof fn law_stop_reaches_registered(flags: Map<Seq<char>, bool>, id: Seq<char>)
    ensures
        !stopped(after_register(flags, id), id),
        stopped(after_stop(after_register(flags, id), id), id),
{
}

/// Stopping one request leaves every other request's flag as it was.
pub proof fn law_stop_is_per_request(flags: Map<Seq<char>, bool>, id: Seq<char>, other: Seq<char>)
    requires
        id != other,
    ensures
        stopped(after_stop(flags, id), other) == stopped(flags, other),
        after_stop(flags, id).contains_key(other) == flags.contains_key(other),
{
}

/// A stop always leaves a request in flight stopped, whatever its flag was
/// before, so stopping twice is stopping once; it never touches the other
/// requests nor registers one that is not in flight.
pub proof fn law_stop_sets_flag(flags: Map<Seq<char>, bool>, id: Seq<char>, other: Seq<char>)
    ensures
        flags.contains_key(id) ==> stopped(after_stop(flags, id), id),
        flags.contains_key(id) ==> after_stop(flags, id)[id] == true,
        after_stop(after_stop(flags, id), id) == after_stop(flags, id),
        after_stop(flags, id).dom() == flags.dom(),
        other != id && flags.contains_key(other) ==> after_stop(flags, id)[other] == flags[other],
{
    if flags.contains_key(id) {
        assert(after_stop(flags, id).insert(id, true) =~= after_stop(flags, id));
    }
    assert(after_stop(flags, id).dom() =~= flags.dom());
}

/// A stop that comes after the request ended is ignored: it registers
/// nothing and sets no flag.
pub proof fn law_stop_after_end_ignored(flags: Map<Seq<char>, bool>, id: Seq<char>)
    ensures
        after_stop(after_remove(flags, id), id) == after_remove(flags, id),
        !stopped(after_stop(after_remove(flags, id), id), id),
{
}

} // verus!
