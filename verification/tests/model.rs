use cookie::chat::{ChatEvent, ChatSession, Message, Payload, Role, Timestamp};
use cookie::config::Config;
use cookie::focus::Focused;
use cookie::llm::{LlmSettings, OpenAiModel, OpenAiSettings, Provider};
use cookie::messages::Messages;
use cookie::model::Model;

fn now() -> Timestamp {
    let d = std::time::SystemTime::now().duration_since(std::time::UNIX_EPOCH).unwrap();
    Timestamp { seconds: d.as_secs() as i64, nanos: d.subsec_nanos() as i32 }
}

#[test]
fn new_draft_chat() {
    // Setup model.
    let llm_settings = LlmSettings {
        provider: Some(Provider::OpenAi(OpenAiSettings { model: OpenAiModel::Gpt4o.number(), web_search: false })),
    };
    let session_id = uuid::Uuid::new_v4().to_string();
    let title = "Awesome chat".to_string();

    let mut messages = Messages::default();
    let payload = Payload::Message(Message { role: Role::User.number(), msg: "history question".to_string() });
    messages.handle_chat_event_stream(ChatEvent::new(session_id.clone(), Some(llm_settings), payload));
    let payload = Payload::Message(Message { role: Role::Assistant.number(), msg: "history response".to_string() });
    messages.handle_chat_event_stream(ChatEvent::new(session_id.clone(), Some(llm_settings), payload));
    let payload = Payload::Message(Message { role: Role::User.number(), msg: "pending question".to_string() });
    messages.handle_chat_event_stream(ChatEvent::new(session_id.clone(), Some(llm_settings), payload));
    messages.scroll_down();

    let mut model = Model::new(Config::default());
    model.session.messages.set_title(Some(title.clone()));
    model.session.set_messages(messages);
    model.session.input_editor.set_is_editing(false);
    model.session.input_editor.set_input("repeat this".repeat(3));
    model.selected_session_id = Some(session_id.clone());

    model.session_manager.handle_session_summaries(
        vec![ChatSession {
            id: session_id,
            events: vec![],
            title,
            llm_settings: None,
            updated_at: Some(now()),
            created_at: None,
        }],
        model.selected_session_id.clone(),
    );

    // Verify new chat behavior.
    model.new_draft_chat();

    assert_eq!(model.session.messages.chat_events().len(), 0, "history messages are reset");
    assert!(!model.session.messages.is_pending(), "pending messages are reset");
    assert_eq!(
        model.session.messages.viewport.scroll_state().scroll_offset(),
        (0u16, 0u16),
        "messages scroll state is reset"
    );
    assert!(model.selected_session_id.is_none(), "model selected session id is reset");
    assert!(model.session_manager.selected().is_none(), "session manager selected is reset");
    assert!(!model.session.input_editor.input().is_empty(), "input remains");
    assert_eq!(model.focused, Focused::InputEditor, "focus is shifted to session");
    assert!(model.session.input_editor.is_editing(), "editing is enabled")
}

#[test]
fn tab_cycles_back_to_the_editor() {
    let mut model = Model::new(Config::default());
    assert_eq!(model.focused, Focused::InputEditor);
    model.shift_focus();
    assert_eq!(model.focused, Focused::Messages);
    model.shift_focus();
    assert_eq!(model.focused, Focused::InputEditor);
}

#[test]
fn tab_cycles_through_the_sidebar() {
    let mut model = Model::new(Config::default());
    model.toggle_sidebar();
    assert!(model.show_sidebar);
    assert_eq!(model.focused, Focused::SessionManager);
    model.shift_focus();
    assert_eq!(model.focused, Focused::Messages);
    model.shift_focus();
    assert_eq!(model.focused, Focused::InputEditor);
    model.shift_focus();
    assert_eq!(model.focused, Focused::SessionManager);
}

#[test]
fn toggling_the_sidebar_twice_hides_it_again() {
    let mut model = Model::new(Config::default());
    let order = model.focus_order.clone();
    model.toggle_sidebar();
    assert_eq!(model.focus_order, vec![Focused::SessionManager, Focused::Messages, Focused::InputEditor]);
    model.toggle_sidebar();
    assert!(!model.show_sidebar);
    assert_eq!(model.focus_order, order);
    assert_eq!(model.focused, Focused::InputEditor);
}

fn session(id: &str, seconds: Option<i64>) -> ChatSession {
    ChatSession {
        id: id.to_string(),
        events: vec![],
        title: String::new(),
        llm_settings: None,
        updated_at: seconds.map(|s| Timestamp { seconds: s, nanos: 0 }),
        created_at: None,
    }
}

#[test]
fn sessions_are_listed_most_recent_first() {
    let mut model = Model::new(Config::default());
    model.session_manager.handle_session_summaries(
        vec![session("a", Some(1)), session("b", None), session("c", Some(3)), session("d", Some(1))],
        Some("d".to_string()),
    );
    let ids: Vec<String> = model.session_manager.session_summaries().iter().map(|s| s.id.clone()).collect();
    assert_eq!(ids, vec!["c", "a", "d", "b"]);
    assert_eq!(model.session_manager.selected(), Some(2));
}

#[test]
fn next_then_previous_selects_the_same_session() {
    let mut model = Model::new(Config::default());
    model.session_manager.handle_session_summaries(
        vec![session("a", Some(3)), session("b", Some(2)), session("c", Some(1))],
        Some("a".to_string()),
    );
    assert_eq!(model.handle_select_next_session(), Some("b".to_string()));
    assert_eq!(model.handle_select_prev_session(), Some("a".to_string()));
    assert_eq!(model.selected_session_id, Some("a".to_string()));
    assert_eq!(model.session_manager.selected(), Some(0));
}
