//! Boot-time configuration and the OpenAI API's model names.
use crate::llm::{model_number, LlmSettings, OpenAiModel, OpenAiSettings, Provider};
use vstd::prelude::*;

verus! {

/// Models of the OpenAI responses API.
#[derive(Clone, Copy, Debug, PartialEq, Eq, Structural)]
pub enum Model {
    Gpt4o,
    Gpt4oMini,
    O4Mini,
    O3,
    O3Mini,
}

impl Default for Model {
    fn default() -> (m: Self)
        ensures
            m == Model::Gpt4o,
    {
        Model::Gpt4o
    }
}

/// The API model of the settings model `m`; the default for `Unspecified`.
pub open spec fn api_model(m: OpenAiModel) -> Model {
    match m {
        OpenAiModel::Unspecified => Model::Gpt4o,
        OpenAiModel::Gpt4o => Model::Gpt4o,
        OpenAiModel::Gpt4oMini => Model::Gpt4oMini,
        OpenAiModel::O4Mini => Model::O4Mini,
        OpenAiModel::O3 => Model::O3,
        OpenAiModel::O3Mini => Model::O3Mini,
    }
}

/// The settings model of the API model `m`.
pub open spec fn settings_model(m: Model) -> OpenAiModel {
    match m {
        Model::Gpt4o => OpenAiModel::Gpt4o,
        Model::Gpt4oMini => OpenAiModel::Gpt4oMini,
        Model::O4Mini => OpenAiModel::O4Mini,
        Model::O3 => OpenAiModel::O3,
        Model::O3Mini => OpenAiModel::O3Mini,
    }
}

/// The name of the API model `m` on the wire.
pub open spec fn model_wire_name(m: Model) -> Seq<char> {
    match m {
        Model::Gpt4o => seq!['g', 'p', 't', '-', '4', 'o'],
        Model::Gpt4oMini => seq!['g', 'p', 't', '-', '4', 'o', '-', 'm', 'i', 'n', 'i'],
        Model::O4Mini => seq!['o', '4', '-', 'm', 'i', 'n', 'i'],
        Model::O3 => seq!['o', '3'],
        Model::O3Mini => seq!['o', '3', '-', 'm', 'i', 'n', 'i'],
    }
}

impl Model {
    /// The API model of the settings model `m` (see `api_model`).
    pub fn from_openai(m: OpenAiModel) -> (r: Model)
        ensures
            r == api_model(m),
    {
        match m {
            OpenAiModel::Unspecified => Model::default(),
            OpenAiModel::Gpt4o => Model::Gpt4o,
            OpenAiModel::Gpt4oMini => Model::Gpt4oMini,
            OpenAiModel::O4Mini => Model::O4Mini,
            OpenAiModel::O3 => Model::O3,
            OpenAiModel::O3Mini => Model::O3Mini,
        }
    }

    /// The settings model of this API model (see `settings_model`).
    pub fn to_openai(&self) -> (r: OpenAiModel)
        ensures
            r == settings_model(*self),
    {
        match self {
            Model::Gpt4o => OpenAiModel::Gpt4o,
            Model::Gpt4oMini => OpenAiModel::Gpt4oMini,
            Model::O4Mini => OpenAiModel::O4Mini,
            Model::O3 => OpenAiModel::O3,
            Model::O3Mini => OpenAiModel::O3Mini,
        }
    }

    /// The model's name on the wire.
    pub fn wire_name(&self) -> (s: &'static str)
        ensures
            s@ == model_wire_name(*self),
    {
        proof {
            reveal_strlit("gpt-4o");
            reveal_strlit("gpt-4o-mini");
            reveal_strlit("o4-mini");
            reveal_strlit("o3");
            reveal_strlit("o3-mini");
        }
        match self {
            Model::Gpt4o => "gpt-4o",
            Model::Gpt4oMini => "gpt-4o-mini",
            Model::O4Mini => "o4-mini",
            Model::O3 => "o3",
            Model::O3Mini => "o3-mini",
        }
    }
}

/// OpenAI settings of the configuration.
#[derive(Clone, Copy, Debug)]
pub struct OpenAIConfig {
    pub model: Model,
    pub web_search: bool,
}

/// Boot time static configs.
#[derive(Clone, Copy, Debug)]
pub struct Config {
    pub open_ai: OpenAIConfig,
}

impl Default for Config {
    fn default() -> (c: Self)
        ensures
            c.open_ai.model == Model::Gpt4o,
            c.open_ai.web_search,
    {
        Config { open_ai: OpenAIConfig { model: Model::default(), web_search: true } }
    }
}

/// The model settings a configuration sets.
pub open spec fn config_settings(c: Config) -> LlmSettings {
    LlmSettings {
        provider: Some(
            Provider::OpenAi(
                OpenAiSettings {
                    model: model_number(settings_model(c.open_ai.model)),
                    web_search: c.open_ai.web_search,
                },
            ),
        ),
    }
}

impl Config {
    /// The model settings this configuration sets: OpenAI with its model and
    /// web search option.
    pub fn derive_llm_settings(&self) -> (s: LlmSettings)
        ensures
            s == config_settings(*self),
    {
        let model = self.open_ai.model.to_openai();
        LlmSettings {
            provider: Some(
                Provider::OpenAi(
                    OpenAiSettings { model: model.number(), web_search: self.open_ai.web_search },
                ),
            ),
        }
    }
}

} // verus!
