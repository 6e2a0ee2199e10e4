//! Which model a provider targets, and the token accounting of a call.

use vstd::prelude::*;

verus! {

/// The model that an adapter targets. Fixed once the adapter is built.
#[derive(Debug, Clone, PartialEq, Eq)]
pub struct ModelConfig {
    pub model_name: String,
    /// The size of the context window, where it is known.
    pub context_limit: Option<usize>,
    /// The most tokens that a completion may hold, where a limit is wanted.
    pub max_tokens: Option<u32>,
}

/// The mathematical reading of a [`ModelConfig`].
pub struct ModelConfigView {
    pub model_name: Seq<char>,
    pub context_limit: Option<usize>,
    pub max_tokens: Option<u32>,
}

impl View for ModelConfig {
    type V = ModelConfigView;

    open spec fn view(&self) -> ModelConfigView {
        ModelConfigView {
            model_name: self.model_name@,
            context_limit: self.context_limit,
            max_tokens: self.max_tokens,
        }
    }
}

impl ModelConfig {
    /// A configuration for the named model, without limits.
    pub fn new(model_name: &str) -> (r: ModelConfig)
        ensures
            r@ == (ModelConfigView { model_name: model_name@, context_limit: None, max_tokens: None }),
    {
        ModelConfig { model_name: String::from_str(model_name), context_limit: None, max_tokens: None }
    }
}

/// Token counts of one completion. A count that the backend did not report
/// is zero.
#[derive(Debug, Clone, Copy, PartialEq, Eq, Structural)]
pub struct Usage {
    pub input_tokens: u64,
    pub output_tokens: u64,
    pub total_tokens: u64,
}

impl Usage {
    /// The usage with every count at zero.
    pub open spec fn zeroed() -> Usage {
        Usage { input_tokens: 0, output_tokens: 0, total_tokens: 0 }
    }

    /// The usage with every count at zero.
    pub fn zero() -> (r: Usage)
        ensures
            r == Usage::zeroed(),
    {
        Usage { input_tokens: 0, output_tokens: 0, total_tokens: 0 }
    }
}

/// The usage of a completion with the model that produced it.
#[derive(Debug, Clone, PartialEq, Eq)]
pub struct ProviderUsage {
    pub model: String,
    pub usage: Usage,
}

/// The mathematical reading of a [`ProviderUsage`].
pub struct ProviderUsageView {
    pub model: Seq<char>,
    pub usage: Usage,
}

impl View for ProviderUsage {
    type V = ProviderUsageView;

    open spec fn view(&self) -> ProviderUsageView {
        ProviderUsageView { model: self.model@, usage: self.usage }
    }
}

impl ProviderUsage {
    /// Pairs a usage with the model that it is accounted to.
    pub fn new(model: String, usage: Usage) -> (r: ProviderUsage)
        ensures
            r@ == (ProviderUsageView { model: model@, usage }),
    {
        ProviderUsage { model, usage }
    }
}

} // verus!
