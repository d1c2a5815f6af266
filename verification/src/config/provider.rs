//! Model provider configuration (Gemini, OpenAI-compatible, Ollama).
use vstd::prelude::*;

use crate::text::{eq_ignore_ascii_case, eq_ignore_ascii_case_spec, str_eq};

verus! {

/// A configuration type built from the raw form it is read in.
pub trait ParseableConfig<R>: Sized {
    /// The configuration described by `raw`.
    fn from_raw(raw: R) -> Self;
}

/// A model offered by a provider.
#[derive(Debug, PartialEq, Eq, Clone)]
pub struct ModelInfo {
    /// Model identifier used in API calls.
    pub name: String,
    /// Human-readable name for menus.
    pub display_name: Option<String>,
}

/// Configuration of a model provider.
#[derive(Debug, PartialEq, Eq, Clone)]
pub struct ModelProviderConfig {
    /// Unique provider id.
    pub id: String,
    /// API family: `ollama`, `gemini`, `openai`, ...
    pub provider_type: String,
    /// API endpoint URL.
    pub endpoint: String,
    /// API key, possibly a `${VAR}` reference.
    pub api_key: Option<String>,
    /// Custom API path.
    pub api_path: Option<String>,
    /// Models offered.
    pub models: Vec<ModelInfo>,
}

/// A model entry as written: a bare name or a name with a display name.
#[derive(Debug)]
pub enum RawModelInfo {
    Name(String),
    Detailed { name: String, display_name: Option<String> },
}

/// A provider entry as written, with optional endpoint.
#[derive(Debug)]
pub struct RawProviderConfig {
    pub id: String,
    pub provider_type: String,
    pub endpoint: Option<String>,
    pub api_key: Option<String>,
    pub api_path: Option<String>,
    pub models: Vec<RawModelInfo>,
}

/// The model described by a raw entry.
pub open spec fn model_from_raw(raw: RawModelInfo) -> ModelInfo {
    match raw {
        RawModelInfo::Name(name) => ModelInfo { name, display_name: None },
        RawModelInfo::Detailed { name, display_name } => ModelInfo { name, display_name },
    }
}

impl ParseableConfig<RawModelInfo> for ModelInfo {
    fn from_raw(raw: RawModelInfo) -> (r: Self)
        ensures
            r == model_from_raw(raw),
    {
        match raw {
            RawModelInfo::Name(name) => ModelInfo { name, display_name: None },
            RawModelInfo::Detailed { name, display_name } => ModelInfo { name, display_name },
        }
    }
}

impl ParseableConfig<RawProviderConfig> for ModelProviderConfig {
    /// Fields carried over; a missing endpoint becomes empty; each model entry
    /// converted in order.
    fn from_raw(raw: RawProviderConfig) -> (r: Self)
        ensures
            r.id == raw.id,
            r.provider_type == raw.provider_type,
            r.endpoint@ == match raw.endpoint {
                Some(e) => e@,
                None => Seq::<char>::empty(),
            },
            r.api_key == raw.api_key,
            r.api_path == raw.api_path,
            r.models@.len() == raw.models@.len(),
            forall|i: int| 0 <= i < raw.models@.len() ==> #[trigger] r.models@[i] == model_from_raw(raw.models@[i]),
    {
        let endpoint = match raw.endpoint {
            Some(e) => e,
            None => String::new(),
        };
        let mut raw_models = raw.models;
        let ghost all = raw_models@;
        let mut models: Vec<ModelInfo> = Vec::new();
        while raw_models.len() > 0
            invariant
                models@.len() + raw_models@.len() == all.len(),
                raw_models@ == all.subrange(models@.len() as int, all.len() as int),
                forall|i: int| 0 <= i < models@.len() ==> #[trigger] models@[i] == model_from_raw(all[i]),
            decreases raw_models@.len(),
        {
            let ghost k = models@.len() as int;
            let m = raw_models.remove(0);
            assert(m == all[k]);
            models.push(ModelInfo::from_raw(m));
            proof {
                assert(raw_models@ =~= all.subrange(k + 1, all.len() as int));
            }
        }
        ModelProviderConfig {
            id: raw.id,
            provider_type: raw.provider_type,
            endpoint,
            api_key: raw.api_key,
            api_path: raw.api_path,
            models,
        }
    }
}

/// Whether some model of `models` is named `name`.
pub open spec fn has_model(models: Seq<ModelInfo>, name: Seq<char>) -> bool {
    exists|i: int| 0 <= i < models.len() && (#[trigger] models[i]).name@ == name
}

impl ModelProviderConfig {
    /// Add the model `model` (without display name) unless one of that name is
    /// listed already.
    pub fn ensure_model(&mut self, model: &str)
        ensures
            final(self).id == old(self).id,
            final(self).provider_type == old(self).provider_type,
            final(self).endpoint == old(self).endpoint,
            final(self).api_key == old(self).api_key,
            final(self).api_path == old(self).api_path,
            has_model(final(self).models@, model@),
            has_model(old(self).models@, model@) ==> final(self).models@ == old(self).models@,
            !has_model(old(self).models@, model@) ==> final(self).models@.len() == old(self).models@.len() + 1
                && final(self).models@.drop_last() == old(self).models@
                && final(self).models@.last().name@ == model@
                && final(self).models@.last().display_name is None,
    {
        let mut i: usize = 0;
        while i < self.models.len()
            invariant
                i <= self.models@.len(),
                forall|j: int| 0 <= j < i ==> (#[trigger] self.models@[j]).name@ != model@,
            decreases self.models@.len() - i,
        {
            if str_eq(self.models[i].name.as_str(), model) {
                return;
            }
            i = i + 1;
        }
        self.models.push(ModelInfo { name: model.to_owned(), display_name: None });
        proof {
            assert(self.models@.drop_last() =~= old(self).models@);
            assert(self.models@[self.models@.len() - 1].name@ == model@);
        }
    }

    /// Whether the provider type is `ollama`, ignoring ASCII case.
    pub fn is_ollama(&self) -> (r: bool)
        ensures
            r == eq_ignore_ascii_case_spec(self.provider_type@, "ollama"@),
    {
        eq_ignore_ascii_case(self.provider_type.as_str(), "ollama")
    }

    /// Whether the provider type is `gemini`, ignoring ASCII case.
    pub fn is_gemini(&self) -> (r: bool)
        ensures
            r == eq_ignore_ascii_case_spec(self.provider_type@, "gemini"@),
    {
        eq_ignore_ascii_case(self.provider_type.as_str(), "gemini")
    }
}

} // verus!
