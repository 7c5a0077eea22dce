use cookie::area::KeyModifiers;
use cookie::chat::{ChatEvent, ChatSession, Message as ChatMessage, Payload, Timestamp};
use cookie::config::Config;
use cookie::focus::Focused;
use cookie::model::Model;
use cookie::protocol::{ServiceReq, ServiceResp};
use cookie::update::{update, Command, KeyCode, KeyEvent, Message};

fn no_mods() -> KeyModifiers {
    KeyModifiers { shift: false, control: false, alt: false, super_key: false, hyper: false, meta: false }
}

fn key(code: KeyCode) -> Message {
    Message::Key(KeyEvent { code, modifiers: no_mods() })
}

fn ctrl(c: char) -> Message {
    Message::Key(KeyEvent { code: KeyCode::Char(c), modifiers: KeyModifiers { control: true, ..no_mods() } })
}

/// Runs `msg` and every message that follows it; returns the commands asked for.
fn run(model: &mut Model, msg: Message) -> Vec<Command> {
    let mut commands = Vec::new();
    let mut next = Some(msg);
    while let Some(m) = next {
        let (n, c) = update(model, m);
        next = n;
        commands.extend(c);
    }
    commands
}

fn editing_model() -> Model {
    let mut model = Model::new(Config::default());
    model.session.set_viewport_width_for_tests();
    model
}

trait WidthForTests {
    fn set_viewport_width_for_tests(&mut self);
}

impl WidthForTests for cookie::session::Session {
    fn set_viewport_width_for_tests(&mut self) {
        self.input_editor.set_viewport_width(40);
        self.messages.set_viewport_width(40);
    }
}

#[test]
fn typing_and_enter_send_the_message() {
    let mut model = editing_model();
    assert!(model.session.input_editor.is_editing());
    run(&mut model, key(KeyCode::Char('h')));
    run(&mut model, key(KeyCode::Char('i')));
    assert_eq!(model.session.input_editor.input(), "hi");
    let commands = run(&mut model, key(KeyCode::Enter));
    assert_eq!(commands.len(), 1);
    match &commands[0] {
        Command::ServiceReq(ServiceReq::ChatMessage(e)) => {
            assert!(matches!(&e.payload, Some(Payload::Message(m)) if m.msg == "hi" && m.role == 1));
        }
        other => panic!("unexpected command {:?}", other),
    }
    assert_eq!(model.session.input_editor.input(), "");
    assert!(model.session.messages.is_pending());
}

#[test]
fn esc_and_i_toggle_input_mode_and_q_quits() {
    let mut model = editing_model();
    run(&mut model, key(KeyCode::Esc));
    assert!(!model.session.input_editor.is_editing());
    run(&mut model, key(KeyCode::Char('i')));
    assert!(model.session.input_editor.is_editing());
    assert_eq!(model.focused, Focused::InputEditor);
    run(&mut model, key(KeyCode::Esc));
    run(&mut model, key(KeyCode::Char('q')));
    assert!(model.should_quit);
}

#[test]
fn ctrl_e_toggles_the_sidebar_and_tab_shifts_focus() {
    let mut model = editing_model();
    run(&mut model, ctrl('e'));
    assert!(model.show_sidebar);
    assert_eq!(model.focused, Focused::SessionManager);
    run(&mut model, key(KeyCode::Tab));
    assert_eq!(model.focused, Focused::Messages);
    run(&mut model, ctrl('e'));
    assert!(!model.show_sidebar);
    assert_eq!(model.focused, Focused::Messages);
}

#[test]
fn s_opens_the_model_selection_and_esc_cancels_it() {
    let mut model = editing_model();
    run(&mut model, key(KeyCode::Esc));
    run(&mut model, key(KeyCode::Char('s')));
    assert!(model.setting_manager_popup.is_some());
    run(&mut model, key(KeyCode::Char('j')));
    run(&mut model, key(KeyCode::Esc));
    assert!(model.setting_manager_popup.is_none());
}

#[test]
fn e_opens_the_external_editor_with_the_input() {
    let mut model = editing_model();
    run(&mut model, key(KeyCode::Char('x')));
    run(&mut model, key(KeyCode::Esc));
    let commands = run(&mut model, key(KeyCode::Char('e')));
    assert!(matches!(&commands[..], [Command::ExternalEditing(t)] if t == "x"));
    run(&mut model, Message::ExternalEditingComplete("edited".to_string()));
    assert_eq!(model.session.input_editor.input(), "edited");
}

#[test]
fn an_error_is_shown_and_any_key_then_quits() {
    let mut model = editing_model();
    run(&mut model, Message::ServiceResp(ServiceResp::Error("boom".to_string())));
    assert_eq!(model.error_message, Some("boom".to_string()));
    run(&mut model, key(KeyCode::Char('x')));
    assert!(model.should_quit);
}

#[test]
fn listed_sessions_are_sorted_and_navigated() {
    let mut model = editing_model();
    let summary = |id: &str, s: i64| ChatSession {
        id: id.to_string(),
        events: vec![],
        title: id.to_string(),
        llm_settings: None,
        updated_at: Some(Timestamp { seconds: s, nanos: 0 }),
        created_at: None,
    };
    run(&mut model, Message::ServiceResp(ServiceResp::Sessions(vec![summary("old", 1), summary("new", 2)])));
    let ids: Vec<String> = model.session_manager.session_summaries().iter().map(|s| s.id.clone()).collect();
    assert_eq!(ids, vec!["new", "old"]);
    run(&mut model, ctrl('e'));
    let commands = run(&mut model, key(KeyCode::Char('j')));
    assert!(matches!(&commands[..], [Command::ServiceReq(ServiceReq::GetSession(id))] if id == "new"));
    assert_eq!(model.selected_session_id, Some("new".to_string()));
}

#[test]
fn the_echoed_user_message_completes_the_pending_reply() {
    let mut model = editing_model();
    run(&mut model, key(KeyCode::Char('q')));
    let commands = run(&mut model, key(KeyCode::Enter));
    let sent = match &commands[..] {
        [Command::ServiceReq(ServiceReq::ChatMessage(e))] => e.clone(),
        other => panic!("unexpected commands {:?}", other),
    };
    assert!(model.session.messages.is_pending());
    // The service sends the stored user message back: as a complete message
    // it is added and ends the pending state.
    let echoed = sent.clone().with_created_at(Timestamp { seconds: 5, nanos: 0 });
    run(&mut model, Message::ServiceResp(ServiceResp::ChatEvent(echoed)));
    assert!(!model.session.messages.is_pending());
    assert_eq!(model.session.messages.chat_events().len(), 1);
    // With nothing pending, a later message is not added.
    let reply = ChatEvent::new(
        sent.session_id.clone(),
        None,
        Payload::Message(ChatMessage { role: 2, msg: "answer".to_string() }),
    );
    run(&mut model, Message::ServiceResp(ServiceResp::ChatEvent(reply)));
    assert_eq!(model.session.messages.chat_events().len(), 1);
    // An event of another session is ignored.
    let other = ChatEvent::new("other".to_string(), None, Payload::Message(ChatMessage { role: 2, msg: "x".to_string() }));
    run(&mut model, Message::ServiceResp(ServiceResp::ChatEvent(other)));
    assert_eq!(model.session.messages.chat_events().len(), 1);
}

#[test]
fn a_session_that_is_not_selected_is_ignored_unread() {
    let mut model = editing_model();
    let events_before = model.session.messages.chat_events().len();
    // An event of an unknown role could not be shown; the session is not
    // selected, so it is neither read nor shown.
    let odd = ChatEvent::new("other".to_string(), None, Payload::Message(ChatMessage { role: 7, msg: "?".to_string() }));
    let stale = ChatSession {
        id: "other".to_string(),
        events: vec![odd.clone()],
        title: "t".to_string(),
        llm_settings: None,
        updated_at: None,
        created_at: None,
    };
    let resp = ServiceResp::Session(stale);
    assert!(cookie::update::can_show(&model, &resp));
    let commands = run(&mut model, Message::ServiceResp(resp));
    assert!(commands.is_empty());
    assert!(model.session.session_id().is_none());
    assert_eq!(model.session.messages.chat_events().len(), events_before);
    // The same event, for a session that is not the current one, is ignored too.
    let resp = ServiceResp::ChatEvent(odd);
    assert!(cookie::update::can_show(&model, &resp));
    run(&mut model, Message::ServiceResp(resp));
    assert_eq!(model.session.messages.chat_events().len(), events_before);
}

#[test]
fn a_selected_session_with_an_unknown_role_cannot_be_shown() {
    let mut model = editing_model();
    model.selected_session_id = Some("s".to_string());
    let odd = ChatEvent::new("s".to_string(), None, Payload::Message(ChatMessage { role: 7, msg: "?".to_string() }));
    let resp = ServiceResp::Session(ChatSession {
        id: "s".to_string(),
        events: vec![odd],
        title: String::new(),
        llm_settings: None,
        updated_at: None,
        created_at: None,
    });
    assert!(!cookie::update::can_show(&model, &resp));
}
