//! Chat events and sessions as the service stores them and the interface
//! shows them.
use crate::llm::LlmSettings;
use vstd::prelude::*;

verus! {

/// Author of a chat message.
#[derive(Clone, Copy, Debug, PartialEq, Eq, Structural)]
pub enum Role {
    Unspecified,
    User,
    Assistant,
}

/// The wire number of a role.
pub open spec fn role_number(r: Role) -> i32 {
    match r {
        Role::Unspecified => 0,
        Role::User => 1,
        Role::Assistant => 2,
    }
}

impl Role {
    pub fn number(&self) -> (n: i32)
        ensures
            n == role_number(*self),
    {
        match self {
            Role::Unspecified => 0,
            Role::User => 1,
            Role::Assistant => 2,
        }
    }

    /// The role of wire number `n`, or `None` for an unknown number.
    pub fn try_from_number(n: i32) -> (r: Option<Role>)
        ensures
            match r {
                Some(role) => role_number(role) == n,
                None => n < 0 || n > 2,
            },
    {
        if n == 0 {
            Some(Role::Unspecified)
        } else if n == 1 {
            Some(Role::User)
        } else if n == 2 {
            Some(Role::Assistant)
        } else {
            None
        }
    }
}

/// A point in time: seconds and nanoseconds since the Unix epoch.
#[derive(Clone, Copy, Debug, PartialEq, Eq, Structural)]
pub struct Timestamp {
    pub seconds: i64,
    pub nanos: i32,
}

impl Default for Timestamp {
    fn default() -> (t: Self)
        ensures
            t.seconds == 0 && t.nanos == 0,
    {
        Timestamp { seconds: 0, nanos: 0 }
    }
}

/// A complete chat message; `role` is a wire number of `Role`.
#[derive(Clone, Debug)]
pub struct Message {
    pub role: i32,
    pub msg: String,
}

/// A piece of a message being streamed.
#[derive(Clone, Debug)]
pub struct MessageDelta {
    pub delta: String,
}

/// A web search the model made.
#[derive(Clone, Debug)]
pub struct WebSearchCall {
    pub id: String,
    pub status: String,
    pub action_json: String,
}

/// A tool the model used.
#[derive(Clone, Debug)]
pub enum ToolEventKind {
    WebSearchCall(WebSearchCall),
}

/// A tool call event.
#[derive(Clone, Debug)]
pub struct ToolEvent {
    pub event: Option<ToolEventKind>,
}

/// What a chat event carries.
#[derive(Clone, Debug)]
pub enum Payload {
    Message(Message),
    MessageDelta(MessageDelta),
    ToolEvent(ToolEvent),
}

/// What a payload holds, as plain values.
pub enum PayloadView {
    Message { role: i32, msg: Seq<char> },
    MessageDelta { delta: Seq<char> },
    WebSearchCall { id: Seq<char>, status: Seq<char>, action_json: Seq<char> },
    NoTool,
}

/// The plain-value view of a payload.
pub open spec fn payload_view(p: Payload) -> PayloadView {
    match p {
        Payload::Message(m) => PayloadView::Message { role: m.role, msg: m.msg@ },
        Payload::MessageDelta(d) => PayloadView::MessageDelta { delta: d.delta@ },
        Payload::ToolEvent(t) => match t.event {
            Some(ToolEventKind::WebSearchCall(w)) => PayloadView::WebSearchCall {
                id: w.id@,
                status: w.status@,
                action_json: w.action_json@,
            },
            None => PayloadView::NoTool,
        },
    }
}

/// The views of a sequence of payloads.
pub open spec fn payload_views(ps: Seq<Payload>) -> Seq<PayloadView> {
    ps.map_values(|p: Payload| payload_view(p))
}

impl Payload {
    /// A copy of the payload.
    pub fn duplicate(&self) -> (r: Payload)
        ensures
            r == *self,
    {
        match self {
            Payload::Message(m) => Payload::Message(Message { role: m.role, msg: m.msg.clone() }),
            Payload::MessageDelta(d) => Payload::MessageDelta(MessageDelta { delta: d.delta.clone() }),
            Payload::ToolEvent(t) => match &t.event {
                Some(ToolEventKind::WebSearchCall(w)) => Payload::ToolEvent(ToolEvent {
                    event: Some(ToolEventKind::WebSearchCall(WebSearchCall {
                        id: w.id.clone(),
                        status: w.status.clone(),
                        action_json: w.action_json.clone(),
                    })),
                }),
                None => Payload::ToolEvent(ToolEvent { event: None }),
            },
        }
    }
}

/// An event of a chat session.
#[derive(Clone, Debug)]
pub struct ChatEvent {
    pub id: String,
    pub session_id: String,
    pub llm_settings: Option<LlmSettings>,
    pub created_at: Option<Timestamp>,
    pub payload: Option<Payload>,
}

/// A chat session and, when loaded, its events.
#[derive(Clone, Debug)]
pub struct ChatSession {
    pub id: String,
    pub events: Vec<ChatEvent>,
    pub title: String,
    pub llm_settings: Option<LlmSettings>,
    pub updated_at: Option<Timestamp>,
    pub created_at: Option<Timestamp>,
}

/// Calls `uuid::Uuid::new_v4` and formats the identifier.
///
/// Claimed: the text is 36 characters long (the crate's `Display` writes the
/// hyphenated form). It is random, so nothing else is claimed.
#[verifier::external_body]
pub(crate) fn new_uuid_string() -> (s: String)
    ensures
        s@.len() == 36,
{
    uuid::Uuid::new_v4().to_string()
}

impl ChatEvent {
    /// A new event with a fresh random id and no creation time.
    pub fn new(session_id: String, llm_settings: Option<LlmSettings>, payload: Payload) -> (e: Self)
        ensures
            e.id@.len() == 36,
            e.session_id == session_id,
            e.llm_settings == llm_settings,
            e.created_at == None::<Timestamp>,
            e.payload == Some(payload),
    {
        ChatEvent {
            id: new_uuid_string(),
            session_id,
            llm_settings,
            created_at: None,
            payload: Some(payload),
        }
    }

    pub fn with_created_at(self, created_at: Timestamp) -> (e: Self)
        ensures
            e == (ChatEvent { created_at: Some(created_at), ..self }),
    {
        let mut e = self;
        e.created_at = Some(created_at);
        e
    }
}

impl ChatSession {
    /// A new session with no events, an empty title and no timestamps.
    pub fn new(id: String, llm_settings: Option<LlmSettings>) -> (s: Self)
        ensures
            s.id == id,
            s.llm_settings == llm_settings,
            s.events@ == Seq::<ChatEvent>::empty(),
            s.title@ == Seq::<char>::empty(),
            s.updated_at == None::<Timestamp>,
            s.created_at == None::<Timestamp>,
    {
        ChatSession {
            id,
            events: Vec::new(),
            title: String::new(),
            llm_settings,
            updated_at: None,
            created_at: None,
        }
    }
}

} // verus!
