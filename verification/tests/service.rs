use cookie::chat::{ChatEvent, ChatSession, Message, MessageDelta, Payload, ToolEvent, ToolEventKind, WebSearchCall};
use cookie::config::Model;
use cookie::llm::{LlmSettings, OpenAiSettings, Provider};
use cookie::openai::{
    input_item, response_payloads, stream_payloads, BuildError, ContentItem, InputItem, LlmReq, LlmResp,
    OutputItem, OutputTextDelta, OutputTextDone, Responses, ResponsesReq, ResponsesStream, Role, StreamCommon, Tool,
};
use cookie::worker::{adopt_settings, record_and_request, streamed_event, title_of, title_request, TitleError};

fn openai(model: i32, web_search: bool) -> LlmSettings {
    LlmSettings { provider: Some(Provider::OpenAi(OpenAiSettings { model, web_search })) }
}

fn message(role: i32, msg: &str) -> Payload {
    Payload::Message(Message { role, msg: msg.to_string() })
}

fn common() -> StreamCommon {
    StreamCommon { sequence_number: 1, item_id: "i".to_string(), output_index: 0, content_index: 0, logprobs: vec![] }
}

#[test]
fn build_fails_without_a_provider() {
    let req = LlmReq { events: vec![], settings: LlmSettings { provider: None }, instructions: None };
    let r = ResponsesReq::build(req);
    assert!(matches!(r, Err(BuildError::SettingsMismatch)));
    assert_eq!(BuildError::SettingsMismatch.message(), "Client and settings do not match");
}

#[test]
fn build_takes_model_tools_and_history() {
    let events = vec![
        message(1, "hi"),
        Payload::MessageDelta(MessageDelta { delta: "ignored".to_string() }),
        message(2, "hello"),
        Payload::ToolEvent(ToolEvent {
            event: Some(ToolEventKind::WebSearchCall(WebSearchCall {
                id: "ws".to_string(),
                status: "done".to_string(),
                action_json: "{}".to_string(),
            })),
        }),
        Payload::ToolEvent(ToolEvent { event: None }),
    ];
    let req = LlmReq { events, settings: openai(5, true), instructions: Some("be brief".to_string()) };
    let q = ResponsesReq::build(req).unwrap();
    assert_eq!(q.model, Model::O3Mini);
    assert_eq!(q.tools, vec![Tool::WebSearchPreview]);
    assert_eq!(q.instructions, Some("be brief".to_string()));
    assert!(!q.stream);
    assert_eq!(q.input.len(), 3);
    // Every chat role goes out as the user role.
    assert!(matches!(&q.input[1], InputItem::Message { role: Role::User, content } if content == "hello"));
    assert!(matches!(&q.input[2], InputItem::WebSearchCall { id, .. } if id == "ws"));
    let q = q.with_streaming();
    assert!(q.stream);
}

#[test]
fn build_without_web_search_offers_no_tool() {
    let req = LlmReq { events: vec![], settings: openai(0, false), instructions: None };
    let q = ResponsesReq::build(req).unwrap();
    assert_eq!(q.model, Model::Gpt4o);
    assert!(q.tools.is_empty());
}

#[test]
fn a_delta_is_not_sent() {
    assert!(input_item(&Payload::MessageDelta(MessageDelta { delta: "x".to_string() })).is_none());
    assert!(matches!(input_item(&message(0, "m")), Some(InputItem::Message { role: Role::User, .. })));
}

#[test]
fn response_texts_are_joined_into_one_message() {
    let resp = Responses {
        output: vec![
            OutputItem::Message {
                role: Role::Assistant,
                content: vec![
                    ContentItem::OutputText { text: "Hello, ".to_string(), annotations: vec![] },
                    ContentItem::OutputText { text: "world".to_string(), annotations: vec![] },
                ],
            },
            OutputItem::Unimplement,
            OutputItem::WebSearchCall {
                id: "w".to_string(),
                status: "completed".to_string(),
                action_json: "{\"q\":1}".to_string(),
            },
        ],
    };
    let ps = response_payloads(&resp);
    assert_eq!(ps.len(), 2);
    // The wire role is read as the user role.
    assert!(matches!(&ps[0], Payload::Message(m) if m.msg == "Hello, world" && m.role == 1));
    assert!(matches!(&ps[1], Payload::ToolEvent(ToolEvent { event: Some(ToolEventKind::WebSearchCall(w)) })
        if w.action_json == "{\"q\":1}"));
}

#[test]
fn stream_events_become_payloads() {
    let ps = stream_payloads(ResponsesStream::OutputTextDelta(OutputTextDelta { common: common(), delta: "He".to_string() }));
    assert!(matches!(&ps[..], [Payload::MessageDelta(d)] if d.delta == "He"));
    let ps = stream_payloads(ResponsesStream::OutputTextDone(OutputTextDone { common: common(), text: "Hello".to_string() }));
    assert!(matches!(&ps[..], [Payload::Message(m)] if m.msg == "Hello" && m.role == 2));
    let ps = stream_payloads(ResponsesStream::Completed {
        response: Responses {
            output: vec![
                OutputItem::Message { role: Role::Assistant, content: vec![] },
                OutputItem::WebSearchCall { id: "w".to_string(), status: "s".to_string(), action_json: "{}".to_string() },
            ],
        },
    });
    assert_eq!(ps.len(), 1);
    assert!(matches!(&ps[0], Payload::ToolEvent(_)));
    assert!(stream_payloads(ResponsesStream::Unimplement).is_empty());
    assert!(stream_payloads(ResponsesStream::Created { response: Responses { output: vec![] } }).is_empty());
}

#[test]
fn a_user_message_is_recorded_and_asked_with_the_history() {
    let mut session = ChatSession::new("s".to_string(), None);
    let e1 = ChatEvent::new("s".to_string(), Some(openai(1, false)), message(1, "first"));
    assert!(adopt_settings(&mut session, e1.llm_settings));
    assert_eq!(session.llm_settings, Some(openai(1, false)));
    assert!(session.events.is_empty());
    let req = record_and_request(&mut session, e1);
    assert_eq!(req.events.len(), 1);
    assert_eq!(req.settings, openai(1, false));
    assert!(req.instructions.is_none());
    let e2 = ChatEvent::new("s".to_string(), Some(openai(1, false)), message(1, "second"));
    assert!(!adopt_settings(&mut session, e2.llm_settings));
    let req = record_and_request(&mut session, e2);
    assert_eq!(session.events.len(), 2);
    assert_eq!(req.events.len(), 2);
    assert!(matches!(&req.events[1], Payload::Message(m) if m.msg == "second"));
}

#[test]
fn settings_default_when_the_message_has_none() {
    let mut session = ChatSession::new("s".to_string(), Some(openai(1, false)));
    let e = ChatEvent::new("s".to_string(), None, message(1, "q"));
    assert!(adopt_settings(&mut session, e.llm_settings));
    let req = record_and_request(&mut session, e);
    assert_eq!(req.settings, LlmSettings { provider: None });
}

#[test]
fn deltas_are_not_kept() {
    let session = ChatSession::new("s".to_string(), None);
    let (e, keep) = streamed_event(&session, Payload::MessageDelta(MessageDelta { delta: "d".to_string() }));
    assert!(!keep);
    assert_eq!(e.session_id, "s");
    assert_eq!(e.id.len(), 36);
    let (_, keep) = streamed_event(&session, message(2, "m"));
    assert!(keep);
}

#[test]
fn a_title_is_the_first_message_of_the_answer() {
    let e = ChatEvent::new("s".to_string(), None, message(1, "tell me about cats"));
    let req = title_request(e, openai(0, false)).unwrap();
    assert_eq!(req.events.len(), 1);
    assert!(req.instructions.unwrap().starts_with("You are an AI assistant"));
    let resp = LlmResp {
        output: vec![Payload::MessageDelta(MessageDelta { delta: "x".to_string() }), message(1, "Cats"), message(1, "Dogs")],
    };
    assert_eq!(title_of(&resp).ok(), Some("Cats".to_string()));
    let resp = LlmResp { output: vec![] };
    assert_eq!(title_of(&resp).err(), Some(TitleError::NoTitle));
    assert_eq!(TitleError::NoTitle.message(), "Llm response has no title");
}

#[test]
fn a_title_needs_a_payload() {
    let mut e = ChatEvent::new("s".to_string(), None, message(1, "q"));
    e.payload = None;
    assert_eq!(title_request(e, openai(0, false)).err(), Some(TitleError::NotUserMessage));
}
