//! Language model providers with their settings, and the model names of a plain,
//! non-streaming client.
use vstd::prelude::*;

verus! {

/// A language model provider and its settings.
#[derive(Debug)]
pub enum LlmProvider {
    OpenAI { model: String, web_search: bool },
    Mock { latency: core::time::Duration },
}

impl Clone for LlmProvider {
    fn clone(&self) -> (p: Self)
        ensures
            p == *self,
    {
        match self {
            LlmProvider::OpenAI { model, web_search } => LlmProvider::OpenAI {
                model: model.clone(),
                web_search: *web_search,
            },
            LlmProvider::Mock { latency } => LlmProvider::Mock { latency: *latency },
        }
    }
}

impl Default for LlmProvider {
    /// OpenAI's `gpt-4o-mini`, without web search.
    fn default() -> (p: Self)
        ensures
            p matches LlmProvider::OpenAI { model, web_search } && model@ == "gpt-4o-mini"@
                && !web_search,
    {
        LlmProvider::OpenAI { model: String::from_str("gpt-4o-mini"), web_search: false }
    }
}

/// Display name of a provider.
pub open spec fn provider_label(p: LlmProvider) -> Seq<char> {
    match p {
        LlmProvider::OpenAI { .. } => "openAI"@,
        LlmProvider::Mock { .. } => "mock"@,
    }
}

/// Display name of a provider's model.
pub open spec fn provider_model_label(p: LlmProvider) -> Seq<char> {
    match p {
        LlmProvider::OpenAI { model, .. } => model@,
        LlmProvider::Mock { .. } => "—"@,
    }
}

impl LlmProvider {
    /// Returns provider display name.
    pub fn provider_name(&self) -> (s: &'static str)
        ensures
            s@ == provider_label(*self),
    {
        match self {
            LlmProvider::OpenAI { .. } => "openAI",
            LlmProvider::Mock { .. } => "mock",
        }
    }

    /// Returns the model display name.
    pub fn model_name(&self) -> (s: &str)
        ensures
            s@ == provider_model_label(*self),
    {
        match self {
            LlmProvider::OpenAI { model, .. } => model.as_str(),
            LlmProvider::Mock { .. } => "—",
        }
    }
}

/// Author of a message, for the plain client.
#[derive(Clone, Copy, Debug, PartialEq, Eq, Structural)]
pub enum OpenAIRole {
    User,
    Assistant,
}

/// Models the plain client can ask.
#[derive(Clone, Copy, Debug, PartialEq, Eq, Structural)]
pub enum OpenAIModel {
    Gpt4o,
    Gpt4oMini,
    O4Mini,
    O3,
    O3Mini,
}

impl Default for OpenAIModel {
    fn default() -> (m: Self)
        ensures
            m == OpenAIModel::Gpt4o,
    {
        OpenAIModel::Gpt4o
    }
}

/// Display name of a model of the plain client.
pub open spec fn openai_model_label(m: OpenAIModel) -> Seq<char> {
    match m {
        OpenAIModel::Gpt4o => "4o"@,
        OpenAIModel::Gpt4oMini => "4o-mini"@,
        OpenAIModel::O4Mini => "o4-mini"@,
        OpenAIModel::O3 => "o3"@,
        OpenAIModel::O3Mini => "o3-mini"@,
    }
}

impl OpenAIModel {
    /// The model's display name.
    pub fn display_name(&self) -> (s: &'static str)
        ensures
            s@ == openai_model_label(*self),
    {
        match self {
            OpenAIModel::Gpt4o => "4o",
            OpenAIModel::Gpt4oMini => "4o-mini",
            OpenAIModel::O4Mini => "o4-mini",
            OpenAIModel::O3 => "o3",
            OpenAIModel::O3Mini => "o3-mini",
        }
    }
}

} // verus!
