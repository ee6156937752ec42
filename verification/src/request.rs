//! The chat-completion request: its fields, the rules it must pass before
//! anything is sent, and the JSON body that goes out for it.

use crate::error::{ApiError, ApiErrorView};
use crate::json::{
    as_list, bool_value, empty_object, json_model, set_member, text_value, whole_value, Json,
    Numeral,
};
use crate::text::{blank, decimal, is_blank, push_decimal};
use vstd::prelude::*;

verus! {

/// The largest `max_tokens` a request may ask for.
pub const MAX_TOKENS_LIMIT: u32 = 128000;

/// The timeout, in milliseconds, of a request that names none.
pub const DEFAULT_TIMEOUT_MS: u64 = 120000;

/// A chat-completion request as the caller hands it in.
#[derive(Debug)]
pub struct SiliconflowChatArgs {
    /// The credential sent as bearer token.
    pub api_key: String,
    /// The identifier of the model to run.
    pub model: String,
    /// The conversation: a JSON array of message objects, whose elements
    /// are passed on as they are.
    pub messages: serde_json::Value,
    /// The cap on generated tokens, if the caller sets one.
    pub max_tokens: Option<u32>,
    /// The total time allowed for the call, in milliseconds.
    pub timeout_ms: Option<u64>,
}

/// The mathematical view of a [`SiliconflowChatArgs`].
pub struct ChatArgsView {
    pub api_key: Seq<char>,
    pub model: Seq<char>,
    pub messages: Json,
    pub max_tokens: Option<u32>,
    pub timeout_ms: Option<u64>,
}

impl View for SiliconflowChatArgs {
    type V = ChatArgsView;

    open spec fn view(&self) -> ChatArgsView {
        ChatArgsView {
            api_key: self.api_key@,
            model: self.model@,
            messages: json_model(self.messages),
            max_tokens: self.max_tokens,
            timeout_ms: self.timeout_ms,
        }
    }
}

/// Whether a token cap lies in the accepted range, 1 to
/// [`MAX_TOKENS_LIMIT`] inclusive.
pub open spec fn token_cap_in_range(n: u32) -> bool {
    1 <= n <= MAX_TOKENS_LIMIT
}

/// The message that rejects an out-of-range token cap; it ends in the
/// decimal numeral of the offending value.
pub open spec fn token_cap_message(n: u32) -> Seq<char> {
    "max_tokens must be between 1 and 128000, current value: "@ + decimal(n as nat)
}

/// The message of the first rule that `args` breaks, or `None` where it
/// breaks none. The rules are taken in this order: the API key is not
/// blank; the model name is not blank; `messages` is an array; that array is
/// not empty; a token cap, where present, is in range.
pub open spec fn first_violation(args: ChatArgsView) -> Option<Seq<char>> {
    if blank(args.api_key) {
        Some("API key must not be empty"@)
    } else if blank(args.model) {
        Some("model name must not be empty"@)
    } else if args.messages.count() is None {
        Some("messages must be an array"@)
    } else if args.messages.count() == Some(0nat) {
        Some("messages must not be empty"@)
    } else if args.max_tokens is Some && !token_cap_in_range(args.max_tokens->0) {
        Some(token_cap_message(args.max_tokens->0))
    } else {
        None
    }
}

/// What validation answers for `args`: `Ok` where no rule is broken,
/// otherwise the `ValidationError` of the first broken rule.
pub open spec fn validation(args: ChatArgsView) -> Result<(), ApiErrorView> {
    match first_violation(args) {
        None => Ok(()),
        Some(message) => Err(ApiErrorView::ValidationError { message }),
    }
}

/// The timeout a request runs under: its own, or the default.
pub open spec fn effective_timeout(args: ChatArgsView) -> u64 {
    match args.timeout_ms {
        Some(ms) => ms,
        None => DEFAULT_TIMEOUT_MS,
    }
}

/// The JSON body sent for a request: `model`, `messages` and `stream: false`,
/// and `max_tokens` only where the caller set it.
pub open spec fn body_model(model: Seq<char>, messages: Json, max_tokens: Option<u32>) -> Json {
    let base = Map::<Seq<char>, Json>::empty().insert("model"@, Json::Text(model)).insert(
        "messages"@,
        messages,
    ).insert("stream"@, Json::Bool(false));
    match max_tokens {
        None => Json::Object(base),
        Some(n) => Json::Object(base.insert("max_tokens"@, Json::Number(Numeral::Whole(n as int)))),
    }
}

fn rejected(message: &str) -> (r: Result<(), ApiError>)
    ensures
        r matches Err(e) && e@ == (ApiErrorView::ValidationError { message: message@ }),
{
    Err(ApiError::ValidationError { message: message.to_owned() })
}

/// Checks a request against the rules, in order, and stops at the first
/// one it breaks. Nothing is sent and nothing else is touched.
pub fn validate_args(args: &SiliconflowChatArgs) -> (r: Result<(), ApiError>)
    ensures
        r matches Ok(_) ==> validation(args@) is Ok,
        r matches Err(e) ==> validation(args@) == Err::<(), ApiErrorView>(e@),
{
    if is_blank(args.api_key.as_str()) {
        return rejected("API key must not be empty");
    }
    if is_blank(args.model.as_str()) {
        return rejected("model name must not be empty");
    }
    match as_list(&args.messages) {
        None => {
            return rejected("messages must be an array");
        },
        Some(items) => {
            if items.len() == 0 {
                return rejected("messages must not be empty");
            }
        },
    }
    if let Some(n) = args.max_tokens {
        if n == 0 || n > MAX_TOKENS_LIMIT {
            let mut message =
                "max_tokens must be between 1 and 128000, current value: ".to_owned();
            push_decimal(&mut message, n as u64);
            return Err(ApiError::ValidationError { message });
        }
    }
    Ok(())
}

/// The timeout to configure for `args`, in milliseconds.
pub fn resolve_timeout(args: &SiliconflowChatArgs) -> (ms: u64)
    ensures
        ms == effective_timeout(args@),
{
    match args.timeout_ms {
        Some(ms) => ms,
        None => DEFAULT_TIMEOUT_MS,
    }
}

/// Builds the JSON body for a request from its parts.
pub fn build_body(
    model: &str,
    messages: serde_json::Value,
    max_tokens: Option<u32>,
) -> (body: serde_json::Value)
    ensures
        json_model(body) == body_model(model@, json_model(messages), max_tokens),
{
    let mut body = empty_object();
    set_member(&mut body, "model", text_value(model));
    set_member(&mut body, "messages", messages);
    set_member(&mut body, "stream", bool_value(false));
    if let Some(n) = max_tokens {
        set_member(&mut body, "max_tokens", whole_value(n as u64));
    }
    body
}

/// A request whose API key or model name is blank (empty, or white space
/// only) is rejected with a validation error, whatever else it holds. The
/// API key is looked at first.
pub proof fn lemma_blank_credentials_rejected(args: ChatArgsView)
    requires
        blank(args.api_key) || blank(args.model),
    ensures
        validation(args) is Err,
        validation(args)->Err_0 is ValidationError,
        blank(args.api_key) ==> validation(args)->Err_0.message() == Some(
            "API key must not be empty"@,
        ),
        !blank(args.api_key) ==> validation(args)->Err_0.message() == Some(
            "model name must not be empty"@,
        ),
        blank(Seq::<char>::empty()),
{
}

/// A request whose `messages` is not an array, or is an empty one, is
/// rejected with a validation error, whatever else it holds.
pub proof fn lemma_messages_must_be_nonempty_array(args: ChatArgsView)
    requires
        args.messages.count() is None || args.messages.count() == Some(0nat),
    ensures
        validation(args) is Err,
        validation(args)->Err_0 is ValidationError,
{
}

/// A request whose token cap is out of range is rejected with a validation
/// error, whatever else it holds.
pub proof fn lemma_token_cap_out_of_range_rejected(args: ChatArgsView, n: u32)
    requires
        args.max_tokens == Some(n),
        n == 0 || n > 128000,
    ensures
        validation(args) is Err,
        validation(args)->Err_0 is ValidationError,
{
}

/// Where the other rules are kept, the token cap alone decides: a cap in
/// range passes, and one out of range is rejected with a message that ends
/// in the decimal numeral of the value.
pub proof fn lemma_token_cap_decides(args: ChatArgsView, n: u32)
    requires
        !blank(args.api_key),
        !blank(args.model),
        args.messages.count() is Some,
        args.messages.count() != Some(0nat),
        args.max_tokens == Some(n),
    ensures
        token_cap_in_range(n) ==> validation(args) is Ok,
        !token_cap_in_range(n) ==> validation(args) == Err::<(), ApiErrorView>(
            ApiErrorView::ValidationError { message: token_cap_message(n) },
        ),
        decimal(n as nat).is_suffix_of(token_cap_message(n)),
{
}

/// A request passes validation exactly when it keeps all five rules, and a
/// request without a token cap needs only the first four.
pub proof fn lemma_valid_exactly_when_all_rules_kept(args: ChatArgsView)
    ensures
        validation(args) is Ok <==> {
            &&& !blank(args.api_key)
            &&& !blank(args.model)
            &&& args.messages.count() is Some
            &&& args.messages.count() != Some(0nat)
            &&& (args.max_tokens matches Some(n) ==> token_cap_in_range(n))
        },
        validation(args) is Err ==> validation(args)->Err_0 is ValidationError,
{
}

/// The body always carries `model`, `messages` and `stream: false`, and it
/// has a `max_tokens` member exactly when the caller set a cap: an absent
/// cap is left out, not sent as null.
pub proof fn lemma_body_members(model: Seq<char>, messages: Json, max_tokens: Option<u32>)
    ensures
        body_model(model, messages, max_tokens).lookup("model"@) == Some(Json::Text(model)),
        body_model(model, messages, max_tokens).lookup("messages"@) == Some(messages),
        body_model(model, messages, max_tokens).lookup("stream"@) == Some(Json::Bool(false)),
        max_tokens matches Some(n) ==> body_model(model, messages, max_tokens).lookup(
            "max_tokens"@,
        ) == Some(Json::Number(Numeral::Whole(n as int))),
        max_tokens is None ==> body_model(model, messages, max_tokens).lookup("max_tokens"@)
            is None,
{
    reveal_strlit("model");
    reveal_strlit("messages");
    reveal_strlit("stream");
    reveal_strlit("max_tokens");
    // The four keys differ in length, so no insertion overwrites another.
    assert("model"@.len() == 5 && "messages"@.len() == 8 && "stream"@.len() == 6
        && "max_tokens"@.len() == 10);
}

} // verus!
