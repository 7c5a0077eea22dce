//! Language-model settings: provider, model and options.
use vstd::prelude::*;

verus! {

/// OpenAI models, by their wire numbers.
#[derive(Clone, Copy, Debug, PartialEq, Eq, Structural)]
pub enum OpenAiModel {
    Unspecified,
    Gpt4o,
    Gpt4oMini,
    O4Mini,
    O3,
    O3Mini,
}

/// The wire number of an OpenAI model.
pub open spec fn model_number(m: OpenAiModel) -> i32 {
    match m {
        OpenAiModel::Unspecified => 0,
        OpenAiModel::Gpt4o => 1,
        OpenAiModel::Gpt4oMini => 2,
        OpenAiModel::O4Mini => 3,
        OpenAiModel::O3 => 4,
        OpenAiModel::O3Mini => 5,
    }
}

/// The OpenAI model of wire number `n`, or `Unspecified` for an unknown number.
pub open spec fn model_of_number(n: i32) -> OpenAiModel {
    if n == 1 {
        OpenAiModel::Gpt4o
    } else if n == 2 {
        OpenAiModel::Gpt4oMini
    } else if n == 3 {
        OpenAiModel::O4Mini
    } else if n == 4 {
        OpenAiModel::O3
    } else if n == 5 {
        OpenAiModel::O3Mini
    } else {
        OpenAiModel::Unspecified
    }
}

impl OpenAiModel {
    /// The model's wire number.
    pub fn number(&self) -> (n: i32)
        ensures
            n == model_number(*self),
    {
        match self {
            OpenAiModel::Unspecified => 0,
            OpenAiModel::Gpt4o => 1,
            OpenAiModel::Gpt4oMini => 2,
            OpenAiModel::O4Mini => 3,
            OpenAiModel::O3 => 4,
            OpenAiModel::O3Mini => 5,
        }
    }

    /// The model of wire number `n`, `Unspecified` for an unknown number.
    pub fn from_number(n: i32) -> (m: OpenAiModel)
        ensures
            m == model_of_number(n),
    {
        if n == 1 {
            OpenAiModel::Gpt4o
        } else if n == 2 {
            OpenAiModel::Gpt4oMini
        } else if n == 3 {
            OpenAiModel::O4Mini
        } else if n == 4 {
            OpenAiModel::O3
        } else if n == 5 {
            OpenAiModel::O3Mini
        } else {
            OpenAiModel::Unspecified
        }
    }

    /// Short name of the model shown in the interface.
    pub fn display_name(&self) -> (s: &'static str)
        ensures
            s@ == model_display_name(*self),
    {
        proof {
            reveal_strlit("default");
            reveal_strlit("4o");
            reveal_strlit("4o-mini");
            reveal_strlit("o4-mini");
            reveal_strlit("o3");
            reveal_strlit("o3-mini");
        }
        match self {
            OpenAiModel::Unspecified => "default",
            OpenAiModel::Gpt4o => "4o",
            OpenAiModel::Gpt4oMini => "4o-mini",
            OpenAiModel::O4Mini => "o4-mini",
            OpenAiModel::O3 => "o3",
            OpenAiModel::O3Mini => "o3-mini",
        }
    }
}

/// Short name of the model `m` shown in the interface.
pub open spec fn model_display_name(m: OpenAiModel) -> Seq<char> {
    match m {
        OpenAiModel::Unspecified => seq!['d', 'e', 'f', 'a', 'u', 'l', 't'],
        OpenAiModel::Gpt4o => seq!['4', 'o'],
        OpenAiModel::Gpt4oMini => seq!['4', 'o', '-', 'm', 'i', 'n', 'i'],
        OpenAiModel::O4Mini => seq!['o', '4', '-', 'm', 'i', 'n', 'i'],
        OpenAiModel::O3 => seq!['o', '3'],
        OpenAiModel::O3Mini => seq!['o', '3', '-', 'm', 'i', 'n', 'i'],
    }
}

/// The models offered for selection, in order.
pub open spec fn openai_models() -> Seq<OpenAiModel> {
    seq![
        OpenAiModel::Gpt4o,
        OpenAiModel::Gpt4oMini,
        OpenAiModel::O4Mini,
        OpenAiModel::O3,
        OpenAiModel::O3Mini,
    ]
}

/// The models offered for selection, in order.
pub fn openai_model_list() -> (v: Vec<OpenAiModel>)
    ensures
        v@ == openai_models(),
{
    let v = vec![
        OpenAiModel::Gpt4o,
        OpenAiModel::Gpt4oMini,
        OpenAiModel::O4Mini,
        OpenAiModel::O3,
        OpenAiModel::O3Mini,
    ];
    assert(v@ =~= openai_models());
    v
}

/// OpenAI provider settings; `model` is a wire number.
#[derive(Clone, Copy, Debug, PartialEq, Eq, Structural)]
pub struct OpenAiSettings {
    pub model: i32,
    pub web_search: bool,
}

impl OpenAiSettings {
    /// The settings' model, `Unspecified` for an unknown number.
    pub fn model(&self) -> (m: OpenAiModel)
        ensures
            m == model_of_number(self.model),
    {
        OpenAiModel::from_number(self.model)
    }
}

/// The provider of a language model and its settings.
#[derive(Clone, Copy, Debug, PartialEq, Eq, Structural)]
pub enum Provider {
    OpenAi(OpenAiSettings),
}

/// Settings of the language model a chat uses.
#[derive(Clone, Copy, Debug, PartialEq, Eq, Structural)]
pub struct LlmSettings {
    pub provider: Option<Provider>,
}

impl Default for LlmSettings {
    fn default() -> (s: Self)
        ensures
            s.provider == None::<Provider>,
    {
        LlmSettings { provider: None }
    }
}

/// Display name of the settings' provider.
pub open spec fn provider_display_name(s: LlmSettings) -> Seq<char> {
    match s.provider {
        Some(Provider::OpenAi(_)) => seq!['o', 'p', 'e', 'n', 'A', 'I'],
        None => seq!['U', 'n', 's', 'p', 'e', 'c', 'i', 'f', 'i', 'e', 'd'],
    }
}

/// Display name of the settings' model.
pub open spec fn settings_model_name(s: LlmSettings) -> Seq<char> {
    match s.provider {
        Some(Provider::OpenAi(o)) => model_display_name(model_of_number(o.model)),
        None => seq!['U', 'n', 's', 'p', 'e', 'c', 'i', 'f', 'i', 'e', 'd'],
    }
}

impl LlmSettings {
    /// Returns provider display name.
    pub fn provider_name(&self) -> (s: &'static str)
        ensures
            s@ == provider_display_name(*self),
    {
        proof {
            reveal_strlit("openAI");
            reveal_strlit("Unspecified");
        }
        match self.provider {
            Some(Provider::OpenAi(_)) => "openAI",
            None => "Unspecified",
        }
    }

    /// Returns the model display name.
    pub fn model_name(&self) -> (s: &'static str)
        ensures
            s@ == settings_model_name(*self),
    {
        proof {
            reveal_strlit("Unspecified");
        }
        match self.provider {
            Some(Provider::OpenAi(settings)) => settings.model().display_name(),
            None => "Unspecified",
        }
    }
}

} // verus!
