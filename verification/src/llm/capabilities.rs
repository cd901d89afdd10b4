//! What a model can do, as the server reports it.

use vstd::prelude::*;

use crate::json::{model_as_u64, model_get, JsonModel, JsonValue};
use crate::llm::types::{ModelDetails, ShowModelResponse};

verus! {

/// Detected capabilities and metadata for a specific model.
pub struct ModelCapabilities {
    pub model_name: String,
    pub supports_tools: bool,
    pub supports_vision: bool,
    pub context_length: u32,
    pub parameter_size: Option<String>,
    pub family: Option<String>,
    pub quantization: Option<String>,
}

/// The first of the context-length keys that `model_info` holds.
pub open spec fn context_entry(mi: JsonModel) -> Option<JsonModel> {
    if model_get(mi, "llama.context_length"@) is Some {
        model_get(mi, "llama.context_length"@)
    } else if model_get(mi, "qwen2.context_length"@) is Some {
        model_get(mi, "qwen2.context_length"@)
    } else if model_get(mi, "gemma.context_length"@) is Some {
        model_get(mi, "gemma.context_length"@)
    } else {
        model_get(mi, "context_length"@)
    }
}

/// Context length from `model_info`: the first known key, as an unsigned
/// integer truncated to 32 bits, or 4096.
pub open spec fn context_length_of(mi: Option<JsonModel>) -> u32 {
    let n: Option<u64> = match mi {
        Some(m) => match context_entry(m) {
            Some(v) => model_as_u64(v),
            None => None,
        },
        None => None,
    };
    match n {
        Some(k) => k as u32,
        None => 4096,
    }
}

/// The context length is read from the first of `llama.context_length`,
/// `qwen2.context_length`, `gemma.context_length` and `context_length` that
/// `model_info` holds: an unsigned number there gives the length, cut to 32
/// bits; a key holding anything else, no such key, or no `model_info` at all
/// gives 4096.
pub proof fn law_context_length_keys(mi: JsonModel)
    ensures
        context_length_of(None) == 4096,
        forall|v: JsonModel|
            model_get(mi, "llama.context_length"@) == Some(v) ==> context_length_of(Some(mi)) == match #[trigger] model_as_u64(v) {
                Some(n) => n as u32,
                None => 4096u32,
            },
        forall|v: JsonModel|
            model_get(mi, "llama.context_length"@) is None && model_get(mi, "qwen2.context_length"@) == Some(v)
                ==> context_length_of(Some(mi)) == match #[trigger] model_as_u64(v) {
                Some(n) => n as u32,
                None => 4096u32,
            },
        forall|v: JsonModel|
            model_get(mi, "llama.context_length"@) is None && model_get(mi, "qwen2.context_length"@) is None
                && model_get(mi, "gemma.context_length"@) == Some(v) ==> context_length_of(Some(mi)) == match #[trigger] model_as_u64(v) {
                Some(n) => n as u32,
                None => 4096u32,
            },
        forall|v: JsonModel|
            model_get(mi, "llama.context_length"@) is None && model_get(mi, "qwen2.context_length"@) is None
                && model_get(mi, "gemma.context_length"@) is None && model_get(mi, "context_length"@) == Some(v)
                ==> context_length_of(Some(mi)) == match #[trigger] model_as_u64(v) {
                Some(n) => n as u32,
                None => 4096u32,
            },
        (model_get(mi, "llama.context_length"@) is None && model_get(mi, "qwen2.context_length"@) is None
            && model_get(mi, "gemma.context_length"@) is None && model_get(mi, "context_length"@) is None)
            ==> context_length_of(Some(mi)) == 4096,
{
}

/// Tokens of the context left for the history once the reply's are set
/// aside (none when the reply takes it all).
pub open spec fn history_tokens(context_length: u32) -> u32 {
    if context_length >= reply_budget(context_length) {
        (context_length - reply_budget(context_length)) as u32
    } else {
        0
    }
}

/// The reply budget grows with the context: 2048 tokens below 8192, 4096
/// from 8192 and 8192 from 32768; the history gets the rest of the context,
/// so that the two together fill it, and nothing in a context smaller than
/// the reply budget.
pub proof fn law_reply_budget(n: u32)
    ensures
        n < 8192 ==> reply_budget(n) == 2048,
        8192 <= n < 32768 ==> reply_budget(n) == 4096,
        32768 <= n ==> reply_budget(n) == 8192,
        n >= reply_budget(n) ==> history_tokens(n) + reply_budget(n) == n,
        n < reply_budget(n) ==> history_tokens(n) == 0,
        history_tokens(n) <= n,
{
}

/// A model supports a capability exactly when the server lists it by name;
/// a server that lists none grants none.
pub proof fn law_capability_listed(caps: Seq<Seq<char>>, name: Seq<char>)
    ensures
        has_capability(Some(caps), name) <==> exists|i: int| 0 <= i < caps.len() && caps[i] == name,
        !has_capability(None, name),
{
}

/// Whether a list of capability names holds `name`.
pub open spec fn has_capability(caps: Option<Seq<Seq<char>>>, name: Seq<char>) -> bool {
    match caps {
        Some(c) => c.contains(name),
        None => false,
    }
}

pub open spec fn opt_view(o: Option<String>) -> Option<Seq<char>> {
    match o {
        Some(s) => Some(s@),
        None => None,
    }
}

/// Reply token budget for a context length.
pub open spec fn reply_budget(context_length: u32) -> u32 {
    if context_length >= 32768 {
        8192
    } else if context_length >= 8192 {
        4096
    } else {
        2048
    }
}

fn opt_clone(o: &Option<String>) -> (r: Option<String>)
    ensures
        opt_view(r) == opt_view(*o),
{
    match o {
        Some(s) => Some(s.clone()),
        None => None,
    }
}

fn has_name(caps: &Vec<String>, name: &str) -> (b: bool)
    ensures
        b == caps@.map_values(|c: String| c@).contains(name@),
{
    let ghost cm = caps@.map_values(|c: String| c@);
    let mut i: usize = 0;
    while i < caps.len()
        invariant
            i <= caps.len(),
            cm == caps@.map_values(|c: String| c@),
            forall|k: int| 0 <= k < i ==> cm[k] != name@,
        decreases caps.len() - i,
    {
        if crate::json::str_eq(caps[i].as_str(), name) {
            assert(cm[i as int] == name@);
            return true;
        }
        i = i + 1;
    }
    false
}

fn context_length_from(mi: &Option<JsonValue>) -> (n: u32)
    ensures
        n == context_length_of(match mi {
            Some(m) => Some(m@),
            None => None,
        }),
{
    let entry = match mi {
        Some(m) => {
            let a = m.get("llama.context_length");
            if a.is_some() {
                a
            } else {
                let b = m.get("qwen2.context_length");
                if b.is_some() {
                    b
                } else {
                    let c = m.get("gemma.context_length");
                    if c.is_some() {
                        c
                    } else {
                        m.get("context_length")
                    }
                }
            }
        },
        None => None,
    };
    let n = match entry {
        Some(v) => v.as_u64(),
        None => None,
    };
    match n {
        Some(k) => k as u32,
        None => 4096,
    }
}

impl ModelCapabilities {
    /// The capabilities profile described by an `/api/show` answer.
    pub fn from_show_response(model: &str, info: &ShowModelResponse) -> (r: Self)
        ensures
            r.model_name@ == model@,
            r.supports_tools == has_capability(
                match info.capabilities {
                    Some(c) => Some(c@.map_values(|s: String| s@)),
                    None => None,
                },
                "tools"@,
            ),
            r.supports_vision == has_capability(
                match info.capabilities {
                    Some(c) => Some(c@.map_values(|s: String| s@)),
                    None => None,
                },
                "vision"@,
            ),
            r.context_length == context_length_of(
                match info.model_info {
                    Some(m) => Some(m@),
                    None => None,
                },
            ),
            match info.details {
                Some(d) => opt_view(r.parameter_size) == opt_view(d.parameter_size) && opt_view(r.family)
                    == opt_view(d.family) && opt_view(r.quantization) == opt_view(d.quantization_level),
                None => r.parameter_size is None && r.family is None && r.quantization is None,
            },
    {
        let (supports_tools, supports_vision) = match &info.capabilities {
            Some(caps) => (has_name(caps, "tools"), has_name(caps, "vision")),
            None => (false, false),
        };
        let context_length = context_length_from(&info.model_info);
        let (parameter_size, family, quantization) = match &info.details {
            Some(d) => (opt_clone(&d.parameter_size), opt_clone(&d.family), opt_clone(&d.quantization_level)),
            None => (None, None, None),
        };
        ModelCapabilities {
            model_name: model.to_owned(),
            supports_tools,
            supports_vision,
            context_length,
            parameter_size,
            family,
            quantization,
        }
    }

    /// Suggested token budget for replies, by context length.
    pub fn reply_token_budget(&self) -> (n: u32)
        ensures
            n == reply_budget(self.context_length),
    {
        if self.context_length >= 32768 {
            8192
        } else if self.context_length >= 8192 {
            4096
        } else {
            2048
        }
    }

    /// Tokens available to the history: context length minus reply budget.
    pub fn history_budget(&self) -> (n: u32)
        ensures
            n == history_tokens(self.context_length),
    {
        self.context_length.saturating_sub(self.reply_token_budget())
    }

    /// Capabilities assumed when detection fails.
    pub fn fallback(model: &str) -> (r: Self)
        ensures
            r.model_name@ == model@,
            !r.supports_tools,
            !r.supports_vision,
            r.context_length == 4096,
            r.parameter_size is None && r.family is None && r.quantization is None,
    {
        ModelCapabilities {
            model_name: model.to_owned(),
            supports_tools: false,
            supports_vision: false,
            context_length: 4096,
            parameter_size: None,
            family: None,
            quantization: None,
        }
    }
}

impl Default for ModelCapabilities {
    fn default() -> (r: Self)
        ensures
            r.model_name@ == "unknown"@,
            !r.supports_tools,
            !r.supports_vision,
            r.context_length == 4096,
            r.parameter_size is None && r.family is None && r.quantization is None,
    {
        ModelCapabilities::fallback("unknown")
    }
}

} // verus!
