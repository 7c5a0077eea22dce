//! The settings popup: the model settings being edited and the selected
//! entry of the model list.
use crate::llm::{model_number, openai_model_list, openai_models, LlmSettings, OpenAiSettings, Provider};
use vstd::prelude::*;

verus! {

/// The list entry of the model of `settings`: the index of its OpenAI model
/// among `openai_models()`, or none for another provider or an unknown model.
pub open spec fn model_entry(settings: LlmSettings) -> Option<usize> {
    match settings.provider {
        Some(Provider::OpenAi(o)) => if 1 <= o.model <= 5 {
            Some((o.model - 1) as usize)
        } else {
            None
        },
        None => None,
    }
}

/// `settings` with the OpenAI model of list entry `i`.
pub open spec fn with_model_entry(settings: LlmSettings, i: int) -> LlmSettings {
    match settings.provider {
        Some(Provider::OpenAi(o)) => LlmSettings {
            provider: Some(
                Provider::OpenAi(OpenAiSettings { model: model_number(openai_models()[i]), ..o }),
            ),
        },
        None => settings,
    }
}

/// `after` is the popup `before` with the next model selected (see
/// `SettingManager::select_next`).
pub open spec fn model_selected_next(before: SettingManager, after: SettingManager) -> bool {
    &&& after.list_offset() == before.list_offset()
    &&& match before.selection() {
        Some(i) if i + 1 < 5 && before.settings().provider is Some => {
            &&& after.selection() == Some((i + 1) as usize)
            &&& after.settings() == with_model_entry(before.settings(), i + 1)
        },
        _ => after == before,
    }
}

/// `after` is the popup `before` with the previous model selected (see
/// `SettingManager::select_previous`).
pub open spec fn model_selected_previous(before: SettingManager, after: SettingManager) -> bool {
    &&& after.list_offset() == before.list_offset()
    &&& match before.selection() {
        Some(i) if i > 0 && i - 1 < 5 && before.settings().provider is Some => {
            &&& after.selection() == Some((i - 1) as usize)
            &&& after.settings() == with_model_entry(before.settings(), i - 1)
        },
        _ => after == before,
    }
}

/// The settings popup.
pub struct SettingManager {
    llm_settings: LlmSettings,
    /// The selected entry of the model list.
    selected: Option<usize>,
    /// Index of the first entry shown.
    offset: usize,
}

impl SettingManager {
    pub closed spec fn settings(&self) -> LlmSettings {
        self.llm_settings
    }

    pub closed spec fn selection(&self) -> Option<usize> {
        self.selected
    }

    pub closed spec fn list_offset(&self) -> usize {
        self.offset
    }

    /// A popup editing `llm_settings`, its model's entry selected.
    pub fn new(llm_settings: LlmSettings) -> (m: Self)
        ensures
            m.settings() == llm_settings,
            m.selection() == model_entry(llm_settings),
            m.list_offset() == 0,
    {
        // The offered models are listed in the order of their wire numbers,
        // from 1.
        let selected = match llm_settings.provider {
            Some(Provider::OpenAi(o)) => if 1 <= o.model && o.model <= 5 {
                Some((o.model - 1) as usize)
            } else {
                None
            },
            None => None,
        };
        SettingManager { llm_settings, selected, offset: 0 }
    }

    pub fn llm_settings(&self) -> (r: LlmSettings)
        ensures
            r == self.settings(),
    {
        self.llm_settings
    }

    /// Selected entry of the model list, if any.
    pub fn selected(&self) -> (r: Option<usize>)
        ensures
            r == self.selection(),
    {
        self.selected
    }

    /// Index of the first entry shown.
    pub fn offset(&self) -> (r: usize)
        ensures
            r == self.list_offset(),
    {
        self.offset
    }

    /// Sets the index of the first entry shown, as the list widget scrolled.
    pub fn set_offset(&mut self, offset: usize)
        ensures
            final(self).list_offset() == offset,
            final(self).settings() == old(self).settings(),
            final(self).selection() == old(self).selection(),
    {
        self.offset = offset;
    }

    /// Selects the next model: with an entry selected that is not the last
    /// and OpenAI settings, the next entry and its model; otherwise nothing
    /// changes.
    pub fn select_next(&mut self)
        ensures
            model_selected_next(*old(self), *final(self)),
    {
        let models = openai_model_list();
        match self.selected {
            Some(i) => {
                if i < models.len() - 1 {
                    match self.llm_settings.provider {
                        Some(Provider::OpenAi(o)) => {
                            self.selected = Some(i + 1);
                            let model = models[i + 1].number();
                            self.llm_settings = LlmSettings {
                                provider: Some(Provider::OpenAi(OpenAiSettings { model, ..o })),
                            };
                        },
                        None => {},
                    }
                }
            },
            None => {},
        }
    }

    /// Selects the previous model: with an entry selected that is not the
    /// first and OpenAI settings, the previous entry and its model;
    /// otherwise nothing changes.
    pub fn select_previous(&mut self)
        ensures
            model_selected_previous(*old(self), *final(self)),
    {
        let models = openai_model_list();
        match self.selected {
            Some(i) => {
                if i > 0 && i - 1 < models.len() {
                    match self.llm_settings.provider {
                        Some(Provider::OpenAi(o)) => {
                            self.selected = Some(i - 1);
                            let model = models[i - 1].number();
                            self.llm_settings = LlmSettings {
                                provider: Some(Provider::OpenAi(OpenAiSettings { model, ..o })),
                            };
                        },
                        None => {},
                    }
                }
            },
            None => {},
        }
    }
}

/// Moving the selection in the settings popup keeps the settings naming the
/// model of the selected entry: from a popup whose settings name its selected
/// entry's model, as a new popup's do, the next and previous entries are
/// selected with their models (entry `i` being model number `i + 1`).
pub proof fn law_selection_names_the_model(
    before: SettingManager,
    next: SettingManager,
    previous: SettingManager,
)
    requires
        model_entry(before.settings()) == before.selection(),
        model_selected_next(before, next),
        model_selected_previous(before, previous),
    ensures
        model_entry(next.settings()) == next.selection(),
        model_entry(previous.settings()) == previous.selection(),
        before.selection() is Some && before.selection().unwrap() + 1 < 5 ==> {
            let i = before.selection().unwrap();
            &&& next.selection() == Some((i + 1) as usize)
            &&& next.settings().provider matches Some(Provider::OpenAi(o)) && o.model == i + 2
        },
        before.selection() is Some && before.selection().unwrap() > 0 ==> {
            let i = before.selection().unwrap();
            &&& previous.selection() == Some((i - 1) as usize)
            &&& previous.settings().provider matches Some(Provider::OpenAi(o)) && o.model == i
        },
{
}

} // verus!
