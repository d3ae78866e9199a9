//! What the cloud providers have in common: the form of an endpoint, the
//! names of models, the known endpoints, and the id by which a provider
//! names a request.

use vstd::prelude::*;
use vstd::string::StringExecFns;
use crate::recording::outcome::text_view;
use crate::text::{trimmed, without_trailing, has_slice, trim_end_slashes, contains};

verus! {

/// The short name of the default model.
pub const GEMINI_FLASH: &'static str = "gemini-3-flash";

/// The name of the preview of the default model.
pub const GEMINI_FLASH_PREVIEW: &'static str = "gemini-3-flash-preview";

/// The name of the default model at OpenRouter.
pub const OPENROUTER_GEMINI_FLASH: &'static str = "google/gemini-3-flash-preview";

/// The host of OpenRouter.
pub const OPENROUTER_HOST: &'static str = "openrouter.ai";

/// The endpoint of OpenRouter.
pub const OPENROUTER_URL: &'static str = "https://openrouter.ai/api/v1";

/// The endpoint of Together.
pub const TOGETHER_URL: &'static str = "https://api.together.xyz/v1";

/// The endpoint of Groq.
pub const GROQ_URL: &'static str = "https://api.groq.com/openai/v1";

/// The endpoint of DeepSeek.
pub const DEEPSEEK_URL: &'static str = "https://api.deepseek.com/v1";

/// The endpoint of OpenAI.
pub const OPENAI_URL: &'static str = "https://api.openai.com/v1";

/// What stands for a request id where the provider gave none.
pub const NO_REQUEST_ID: &'static str = "n/a";

/// An endpoint without white space at its ends and without the `/` at its
/// end.
pub open spec fn bare_endpoint(url: Seq<char>) -> Seq<char> {
    without_trailing(trimmed(url), '/')
}

/// The endpoint that a setting gives: its bare form, and none where the
/// setting is absent or nothing is left of it.
pub open spec fn endpoint_given(endpoint: Option<Seq<char>>) -> Option<Seq<char>> {
    match endpoint {
        Some(url) => if bare_endpoint(url).len() == 0 {
            None
        } else {
            Some(bare_endpoint(url))
        },
        None => None,
    }
}

/// Brings an optional endpoint into its bare form.
pub fn normalize_endpoint(endpoint: &Option<String>) -> (given: Option<String>)
    ensures
        text_view(given) == endpoint_given(text_view(*endpoint)),
{
    match endpoint {
        Some(url) => {
            let bare: &str = trim_end_slashes(url.as_str().trim());
            if bare.is_empty() {
                None
            } else {
                Some(bare.to_owned())
            }
        },
        None => None,
    }
}

/// Whether an endpoint is at OpenRouter.
pub fn at_openrouter(base_url: &str) -> (b: bool)
    ensures
        b == has_slice(base_url@, OPENROUTER_HOST@),
{
    contains(base_url, OPENROUTER_HOST)
}

/// Whether a name is one of the two short names of the default model.
pub open spec fn is_gemini_shorthand(name: Seq<char>) -> bool {
    name == GEMINI_FLASH@ || name == GEMINI_FLASH_PREVIEW@
}

/// The name under which a model is asked for: a short name of the default
/// model becomes OpenRouter's name for it where `routed` says that the
/// request goes to OpenRouter and the plain short name elsewhere; any
/// other name stays.
pub open spec fn model_name_for(name: Seq<char>, routed: bool) -> Seq<char> {
    if is_gemini_shorthand(name) {
        if routed {
            OPENROUTER_GEMINI_FLASH@
        } else {
            GEMINI_FLASH@
        }
    } else {
        name
    }
}

/// Gives the name under which a model is asked for.
pub fn resolve_model_name(name: &str, routed: bool) -> (resolved: String)
    ensures
        resolved@ == model_name_for(name@, routed),
{
    if name.eq(GEMINI_FLASH) || name.eq(GEMINI_FLASH_PREVIEW) {
        if routed {
            String::from_str(OPENROUTER_GEMINI_FLASH)
        } else {
            String::from_str(GEMINI_FLASH)
        }
    } else {
        name.to_owned()
    }
}

/// The model that is chosen: the one set, without white space at its
/// ends, unless that is empty, else the default.
pub open spec fn chosen_model(model: Option<Seq<char>>, default_model: Seq<char>) -> Seq<char> {
    match model {
        Some(m) => if trimmed(m).len() == 0 {
            default_model
        } else {
            trimmed(m)
        },
        None => default_model,
    }
}

/// The model name for a request to an endpoint that speaks the chat
/// completions interface.
pub open spec fn compat_model(
    provider: Seq<char>,
    base_url: Seq<char>,
    model: Option<Seq<char>>,
    default_model: Seq<char>,
) -> Seq<char> {
    model_name_for(
        chosen_model(model, default_model),
        provider == "openrouter"@ && has_slice(base_url, OPENROUTER_HOST@),
    )
}

/// Gives the model name for a request to an endpoint that speaks the chat
/// completions interface: the model set or the default, with the short
/// names of the default model resolved for OpenRouter where the provider
/// is OpenRouter at its own host.
pub fn normalize_compat_model(
    provider: &str,
    base_url: &str,
    model: Option<String>,
    default_model: &str,
) -> (name: String)
    ensures
        name@ == compat_model(provider@, base_url@, text_view(model), default_model@),
{
    let routed: bool = provider.eq("openrouter") && at_openrouter(base_url);
    match model {
        Some(m) => {
            let t: &str = m.as_str().trim();
            if t.is_empty() {
                resolve_model_name(default_model, routed)
            } else {
                resolve_model_name(t, routed)
            }
        },
        None => resolve_model_name(default_model, routed),
    }
}

/// The first of the values that is present and not empty once the white
/// space at its ends is gone.
pub open spec fn first_filled(values: Seq<Option<Seq<char>>>) -> Option<Seq<char>>
    decreases values.len(),
{
    if values.len() == 0 {
        None
    } else {
        match values[0] {
            Some(v) => if trimmed(v).len() > 0 {
                Some(v)
            } else {
                first_filled(values.drop_first())
            },
            None => first_filled(values.drop_first()),
        }
    }
}

/// The views of optional texts.
pub open spec fn optional_views(values: Seq<Option<String>>) -> Seq<Option<Seq<char>>> {
    Seq::new(values.len(), |i: int| text_view(values[i]))
}

/// The names of the response headers that may carry a request id, in the
/// order in which they are tried.
pub fn request_id_headers() -> (names: Vec<&'static str>)
    ensures
        names@.len() == 4,
        names@[0]@ == "x-request-id"@,
        names@[1]@ == "request-id"@,
        names@[2]@ == "x-correlation-id"@,
        names@[3]@ == "trace-id"@,
{
    let mut names: Vec<&'static str> = Vec::new();
    names.push("x-request-id");
    names.push("request-id");
    names.push("x-correlation-id");
    names.push("trace-id");
    names
}

/// The id by which the provider names a request: the first of the header
/// values, given in the order of `request_id_headers`, that is filled, as
/// it stands; `n/a` where none is.
pub fn response_request_id(values: &Vec<Option<String>>) -> (id: String)
    ensures
        id@ == match first_filled(optional_views(values@)) {
            Some(v) => v,
            None => NO_REQUEST_ID@,
        },
{
    let mut i: usize = 0;
    assert(optional_views(values@).skip(0) =~= optional_views(values@));
    while i < values.len()
        invariant
            0 <= i <= values.len(),
            first_filled(optional_views(values@)) == first_filled(
                optional_views(values@).skip(i as int),
            ),
        decreases values.len() - i,
    {
        proof {
            let rest = optional_views(values@).skip(i as int);
            assert(rest[0] == text_view(values@[i as int]));
            assert(rest.drop_first() =~= optional_views(values@).skip(i + 1));
        }
        match &values[i] {
            Some(v) => {
                if !v.as_str().trim().is_empty() {
                    return v.clone();
                }
            },
            None => {},
        }
        i += 1;
    }
    String::from_str(NO_REQUEST_ID)
}

/// The text of a reply's content as it is kept: without white space at
/// its ends; `fallback` where the reply has no content.
pub fn content_or(content: Option<String>, fallback: &str) -> (kept: String)
    ensures
        kept@ == match text_view(content) {
            Some(c) => trimmed(c),
            None => trimmed(fallback@),
        },
{
    match content {
        Some(c) => c.as_str().trim().to_owned(),
        None => fallback.trim().to_owned(),
    }
}

} // verus!
