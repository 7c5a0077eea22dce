//! The decisions of the chat service around a session: what a language model
//! is asked when a user message arrives, what becomes of each streamed
//! payload, and how a session's title is asked for and read.
use crate::chat::{ChatEvent, ChatSession, Payload};
use crate::llm::LlmSettings;
use crate::openai::{LlmReq, LlmResp};
use vstd::prelude::*;

verus! {

/// The payloads of a session's events, in order, skipping events without one.
pub open spec fn event_payloads(es: Seq<ChatEvent>) -> Seq<Payload>
    decreases es.len(),
{
    if es.len() == 0 {
        Seq::empty()
    } else {
        let before = event_payloads(es.drop_last());
        match es.last().payload {
            Some(p) => before.push(p),
            None => before,
        }
    }
}

/// The settings a request is made with: the given ones, or the default.
pub open spec fn settings_or_default(s: Option<LlmSettings>) -> LlmSettings {
    match s {
        Some(s) => s,
        None => LlmSettings { provider: None },
    }
}

/// `after` is `before` with the settings `settings`.
pub open spec fn settings_adopted(before: ChatSession, after: ChatSession, settings: Option<LlmSettings>) -> bool {
    after == (ChatSession { llm_settings: settings, ..before })
}

/// The settings of a session and of a message are the same.
fn same_settings(a: &Option<LlmSettings>, b: &Option<LlmSettings>) -> (r: bool)
    ensures
        r == (*a == *b),
{
    match (a, b) {
        (Some(x), Some(y)) => *x == *y,
        (None, None) => true,
        _ => false,
    }
}

/// Gives the session the settings of an arriving user message. Returns
/// whether they changed, in which case the session is stored again.
pub fn adopt_settings(session: &mut ChatSession, settings: Option<LlmSettings>) -> (changed: bool)
    ensures
        changed == (old(session).llm_settings != settings),
        settings_adopted(*old(session), *final(session), settings),
{
    let changed = !same_settings(&session.llm_settings, &settings);
    if changed {
        session.llm_settings = settings;
    }
    changed
}

/// Appends a user message to its session and makes the request for the
/// model's answer: the payloads of all the session's events, with the
/// session's settings or the default ones, and no instructions.
pub fn record_and_request(session: &mut ChatSession, user_message: ChatEvent) -> (r: LlmReq)
    ensures
        *final(session) == (ChatSession { events: final(session).events, ..*old(session) }),
        final(session).events@ == old(session).events@.push(user_message),
        r.events@ == event_payloads(final(session).events@),
        r.settings == settings_or_default(old(session).llm_settings),
        r.instructions is None,
{
    session.events.push(user_message);
    let mut events: Vec<Payload> = Vec::new();
    let n = session.events.len();
    let mut k: usize = 0;
    while k < n
        invariant
            n == session.events@.len(),
            k <= n,
            events@ == event_payloads(session.events@.take(k as int)),
        decreases n - k,
    {
        proof {
            assert(session.events@.take(k as int + 1).drop_last() =~= session.events@.take(k as int));
        }
        match &session.events[k].payload {
            Some(p) => {
                events.push(p.duplicate());
            },
            None => {},
        }
        k = k + 1;
    }
    proof {
        assert(session.events@.take(n as int) =~= session.events@);
    }
    let settings = match session.llm_settings {
        Some(s) => s,
        None => LlmSettings { provider: None },
    };
    LlmReq { events, settings, instructions: None }
}

/// A streamed payload is stored, and appended to the session, unless it is a
/// delta.
pub open spec fn is_kept(p: Payload) -> bool {
    !(p is MessageDelta)
}

/// The event a streamed payload becomes: a new event of the session with the
/// session's settings, and whether it is stored.
pub fn streamed_event(session: &ChatSession, payload: Payload) -> (r: (ChatEvent, bool))
    ensures
        r.0.id@.len() == 36,
        r.0.session_id == session.id,
        r.0.llm_settings == session.llm_settings,
        r.0.created_at is None,
        r.0.payload == Some(payload),
        r.1 == is_kept(payload),
{
    let keep = match &payload {
        Payload::MessageDelta(_) => false,
        _ => true,
    };
    (ChatEvent::new(session.id.clone(), session.llm_settings, payload), keep)
}

/// Why no title came of a title request.
#[derive(Clone, Copy, Debug, PartialEq, Eq, Structural)]
pub enum TitleError {
    /// The message the title was asked for has no payload.
    NotUserMessage,
    /// The model answered with no message.
    NoTitle,
}

impl TitleError {
    /// The error's message.
    pub fn message(&self) -> (s: &'static str)
        ensures
            s@ == (match *self {
                TitleError::NotUserMessage => "payload is not user message"@,
                TitleError::NoTitle => "Llm response has no title"@,
            }),
    {
        match self {
            TitleError::NotUserMessage => "payload is not user message",
            TitleError::NoTitle => "Llm response has no title",
        }
    }
}

/// The instructions a title is asked with.
pub open spec fn title_instructions() -> Seq<char> {
    "You are an AI assistant that generates a concise title for a chat session based on the user's message. Generate a title that captures the essence of the conversation, ideally in 3ish words. Only reply with the title, without any additional punctuation, text or explanation. This is very important."@
}

/// The request for a session's title: the first user message alone, with the
/// title instructions and the session's settings. Fails when the message has
/// no payload.
pub fn title_request(user_message: ChatEvent, settings: LlmSettings) -> (r: Result<LlmReq, TitleError>)
    ensures
        r is Ok <==> user_message.payload is Some,
        match r {
            Ok(q) => {
                &&& q.events@ == seq![user_message.payload->0]
                &&& q.settings == settings
                &&& q.instructions matches Some(s) && s@ == title_instructions()
            },
            Err(e) => e == TitleError::NotUserMessage,
        },
{
    let prompt = String::from_str(
        "You are an AI assistant that generates a concise title for a chat session based on the user's message. Generate a title that captures the essence of the conversation, ideally in 3ish words. Only reply with the title, without any additional punctuation, text or explanation. This is very important.",
    );
    let payload = match user_message.payload {
        Some(p) => p,
        None => return Err(TitleError::NotUserMessage),
    };
    let mut events: Vec<Payload> = Vec::new();
    events.push(payload);
    proof {
        assert(events@ =~= seq![user_message.payload->0]);
    }
    Ok(LlmReq { events, instructions: Some(prompt), settings })
}

/// `i` is the first message among the payloads.
pub open spec fn is_first_message(ps: Seq<Payload>, i: int) -> bool {
    &&& 0 <= i < ps.len()
    &&& ps[i] is Message
    &&& forall|j: int| 0 <= j < i ==> !(#[trigger] ps[j] is Message)
}

/// The title in a model's answer: the text of its first message. Fails when
/// the answer holds no message.
pub fn title_of(resp: &LlmResp) -> (r: Result<String, TitleError>)
    ensures
        match r {
            Ok(t) => exists|i: int| #[trigger]
                is_first_message(resp.output@, i) && t@ == resp.output@[i]->Message_0.msg@,
            Err(e) => {
                &&& e == TitleError::NoTitle
                &&& forall|i: int| 0 <= i < resp.output@.len() ==> !(#[trigger] resp.output@[i] is Message)
            },
        },
{
    let n = resp.output.len();
    let mut k: usize = 0;
    while k < n
        invariant
            n == resp.output@.len(),
            k <= n,
            forall|j: int| 0 <= j < k ==> !(#[trigger] resp.output@[j] is Message),
        decreases n - k,
    {
        match &resp.output[k] {
            Payload::Message(m) => {
                let t = m.msg.clone();
                assert(is_first_message(resp.output@, k as int));
                return Ok(t);
            },
            _ => {},
        }
        k = k + 1;
    }
    Err(TitleError::NoTitle)
}

/// Every streamed payload but a delta is stored and appended to the session:
/// complete messages and tool events (such as web search calls) are kept,
/// deltas are not.
pub proof fn law_only_deltas_are_dropped(p: Payload)
    ensures
        p is Message ==> is_kept(p),
        p is ToolEvent ==> is_kept(p),
        p is MessageDelta ==> !is_kept(p),
{
}

/// A request holds the payload of every event that has one, in order: when
/// every event has a payload, one payload per event; and the user message
/// just recorded is the last one asked about.
pub proof fn law_request_keeps_every_payload(es: Seq<ChatEvent>, m: ChatEvent)
    requires
        forall|i: int| 0 <= i < es.len() ==> (#[trigger] es[i]).payload is Some,
        m.payload is Some,
    ensures
        event_payloads(es).len() == es.len(),
        forall|i: int| 0 <= i < es.len() ==> #[trigger] event_payloads(es)[i] == es[i].payload->0,
        event_payloads(es.push(m)) == event_payloads(es).push(m.payload->0),
    decreases es.len(),
{
    assert(es.push(m).drop_last() =~= es);
    if es.len() > 0 {
        let init = es.drop_last();
        law_request_keeps_every_payload(init, es.last());
        assert forall|i: int| 0 <= i < es.len() implies #[trigger] event_payloads(es)[i] == es[i].payload->0 by {
            if i < init.len() {
                assert(init[i] == es[i]);
            }
        }
    }
}

} // verus!
