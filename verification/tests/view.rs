use cookie::area::Area;
use cookie::config::{Config, Model as ApiModel};
use cookie::editor_viewport::WrapMode;
use cookie::llm::{openai_model_list, LlmSettings, OpenAiModel, OpenAiSettings, Provider};
use cookie::provider::{LlmProvider, OpenAIModel};
use cookie::session::Session;
use cookie::view::{layout_session, record_areas, session_cursor_position, ErrorPopup, SessionState};
use cookie::focus::Focusable;

fn openai(model: i32) -> LlmSettings {
    LlmSettings { provider: Some(Provider::OpenAi(OpenAiSettings { model, web_search: true })) }
}

#[test]
fn the_input_grows_with_its_text_within_bounds() {
    let mut session = Session::new(openai(1));
    session.input_editor.set_input("hello".to_string());
    let (messages_height, input_height) = layout_session(&mut session, 20, 30, 3, 12);
    assert_eq!(input_height, 3);
    assert_eq!(messages_height, 27);
    // Setting the input does not lay it out again; a new width does.
    session.input_editor.set_input("a\nb\nc\nd\ne".to_string());
    let (_, input_height) = layout_session(&mut session, 20, 30, 3, 12);
    assert_eq!(input_height, 3);
    let (messages_height, input_height) = layout_session(&mut session, 21, 30, 3, 12);
    assert_eq!(input_height, 6);
    assert_eq!(messages_height, 24);
    let (messages_height, input_height) = layout_session(&mut session, 20, 4, 3, 4);
    assert_eq!(input_height, 4);
    assert_eq!(messages_height, 0);
}

#[test]
fn the_areas_are_recorded() {
    let mut state = SessionState::default();
    record_areas(&mut state, 80, 20);
    assert_eq!((state.messages_area.height, state.messages_area.width), (20, 80));
    assert_eq!(
        (state.input_editor_area.row, state.input_editor_area.height, state.input_editor_area.width),
        (21, 21, 21)
    );
    let _ = Area::default();
}

#[test]
fn the_cursor_follows_the_focused_part() {
    let mut session = Session::new(openai(1));
    session.input_editor.set_input("hi".to_string());
    layout_session(&mut session, 20, 30, 3, 12);
    assert_eq!(session_cursor_position(&session, 27), None);
    session.input_editor.set_focus(true);
    // The cursor stays at the start of the text set.
    assert_eq!(session_cursor_position(&session, 27), Some((1, 29)));
    let _ = WrapMode::Word;
}

#[test]
fn the_error_popup_holds_its_message() {
    let popup = ErrorPopup::new("boom");
    assert_eq!(popup.msg, "boom");
}

#[test]
fn names_of_providers_and_models() {
    assert_eq!(openai(2).provider_name(), "openAI");
    assert_eq!(openai(2).model_name(), "4o-mini");
    assert_eq!(openai(9).model_name(), "default");
    assert_eq!(LlmSettings { provider: None }.model_name(), "Unspecified");
    assert_eq!(LlmProvider::default().provider_name(), "openAI");
    assert_eq!(LlmProvider::default().model_name(), "gpt-4o-mini");
    assert_eq!(LlmProvider::default().clone().model_name(), "gpt-4o-mini");
    assert_eq!(LlmProvider::Mock { latency: std::time::Duration::from_millis(5) }.model_name(), "—");
    assert_eq!(OpenAIModel::default().display_name(), "4o");
    assert_eq!(OpenAIModel::O3Mini.display_name(), "o3-mini");
    let names: Vec<&str> = openai_model_list().iter().map(|m| m.display_name()).collect();
    assert_eq!(names, vec!["4o", "4o-mini", "o4-mini", "o3", "o3-mini"]);
    assert_eq!(OpenAiModel::from_number(4), OpenAiModel::O3);
}

#[test]
fn the_default_configuration_asks_4o_with_web_search() {
    let cfg = Config::default();
    assert_eq!(cfg.open_ai.model, ApiModel::Gpt4o);
    assert!(cfg.open_ai.web_search);
    assert_eq!(cfg.derive_llm_settings(), openai(1));
    assert_eq!(ApiModel::from_openai(OpenAiModel::Unspecified), ApiModel::Gpt4o);
    assert_eq!(ApiModel::O4Mini.wire_name(), "o4-mini");
}
