//! The OpenAI responses API: what a request holds, what a response and a
//! streamed response event hold, and the chat payloads made of them.
//!
//! Serialisation is done outside this module; a web search action travels here
//! as its JSON text.
use crate::chat::{
    payload_view, payload_views, role_number, Message, MessageDelta, Payload, PayloadView,
    ToolEvent, ToolEventKind, WebSearchCall,
};
use crate::config::{api_model, Model};
use crate::llm::{model_of_number, LlmSettings, Provider};
use vstd::prelude::*;

verus! {

/// Author of a message on the wire.
#[derive(Clone, Copy, Debug, PartialEq, Eq, Structural)]
pub enum Role {
    User,
    Assistant,
}

/// The wire role a chat role is sent as: every chat role goes out as `User`.
pub open spec fn wire_role(r: crate::chat::Role) -> Role {
    match r {
        crate::chat::Role::Unspecified => Role::User,
        crate::chat::Role::User => Role::User,
        crate::chat::Role::Assistant => Role::User,
    }
}

/// The chat role a wire role is read as: every wire role comes in as `User`.
pub open spec fn chat_role(r: Role) -> crate::chat::Role {
    match r {
        Role::User => crate::chat::Role::User,
        Role::Assistant => crate::chat::Role::User,
    }
}

/// The chat role of a wire number; `Unspecified` for an unknown number.
pub open spec fn role_of_number(n: i32) -> crate::chat::Role {
    if n == 1 {
        crate::chat::Role::User
    } else if n == 2 {
        crate::chat::Role::Assistant
    } else {
        crate::chat::Role::Unspecified
    }
}

impl Role {
    /// The wire role of a chat role (see `wire_role`).
    pub fn from_chat(r: crate::chat::Role) -> (w: Role)
        ensures
            w == wire_role(r),
    {
        match r {
            crate::chat::Role::Unspecified => Role::User,
            crate::chat::Role::User => Role::User,
            crate::chat::Role::Assistant => Role::User,
        }
    }

    /// The chat role of this wire role (see `chat_role`).
    pub fn to_chat(&self) -> (r: crate::chat::Role)
        ensures
            r == chat_role(*self),
    {
        match self {
            Role::User => crate::chat::Role::User,
            Role::Assistant => crate::chat::Role::User,
        }
    }
}

/// The chat role of a wire number (see `role_of_number`).
fn chat_role_of_number(n: i32) -> (r: crate::chat::Role)
    ensures
        r == role_of_number(n),
{
    match crate::chat::Role::try_from_number(n) {
        Some(crate::chat::Role::User) => crate::chat::Role::User,
        Some(crate::chat::Role::Assistant) => crate::chat::Role::Assistant,
        _ => crate::chat::Role::Unspecified,
    }
}

/// An item of a request's input. A web search's action is its JSON text.
#[derive(Debug)]
pub enum InputItem {
    Message { role: Role, content: String },
    WebSearchCall { id: String, status: String, action_json: String },
    FunctionCall { name: String, call_id: String, arguments: String },
    FunctionCallOutput { name: String, call_id: String, output: String },
}

/// What an input item holds, as plain values.
pub enum InputView {
    Message { role: Role, content: Seq<char> },
    WebSearchCall { id: Seq<char>, status: Seq<char>, action_json: Seq<char> },
    FunctionCall { name: Seq<char>, call_id: Seq<char>, arguments: Seq<char> },
    FunctionCallOutput { name: Seq<char>, call_id: Seq<char>, output: Seq<char> },
}

/// The plain-value view of an input item.
pub open spec fn input_view(i: InputItem) -> InputView {
    match i {
        InputItem::Message { role, content } => InputView::Message { role, content: content@ },
        InputItem::WebSearchCall { id, status, action_json } => InputView::WebSearchCall {
            id: id@,
            status: status@,
            action_json: action_json@,
        },
        InputItem::FunctionCall { name, call_id, arguments } => InputView::FunctionCall {
            name: name@,
            call_id: call_id@,
            arguments: arguments@,
        },
        InputItem::FunctionCallOutput { name, call_id, output } => InputView::FunctionCallOutput {
            name: name@,
            call_id: call_id@,
            output: output@,
        },
    }
}

/// The input item a chat payload is sent as, if any: a message with its
/// wire role, a web search call, and nothing for a delta or an empty tool
/// event.
pub open spec fn payload_input(p: Payload) -> Option<InputView> {
    match p {
        Payload::Message(m) => Some(
            InputView::Message { role: wire_role(role_of_number(m.role)), content: m.msg@ },
        ),
        Payload::MessageDelta(_) => None,
        Payload::ToolEvent(t) => match t.event {
            Some(ToolEventKind::WebSearchCall(w)) => Some(
                InputView::WebSearchCall { id: w.id@, status: w.status@, action_json: w.action_json@ },
            ),
            None => None,
        },
    }
}

/// The input items a sequence of payloads is sent as, in order.
pub open spec fn payload_inputs(ps: Seq<Payload>) -> Seq<InputView>
    decreases ps.len(),
{
    if ps.len() == 0 {
        Seq::empty()
    } else {
        let before = payload_inputs(ps.drop_last());
        match payload_input(ps.last()) {
            Some(v) => before.push(v),
            None => before,
        }
    }
}

/// The views of a sequence of input items.
pub open spec fn input_views(is: Seq<InputItem>) -> Seq<InputView> {
    is.map_values(|i: InputItem| input_view(i))
}

/// The input item a chat payload is sent as (see `payload_input`).
pub fn input_item(p: &Payload) -> (r: Option<InputItem>)
    ensures
        match r {
            Some(i) => payload_input(*p) == Some(input_view(i)),
            None => payload_input(*p) is None,
        },
{
    match p {
        Payload::Message(m) => Some(
            InputItem::Message {
                role: Role::from_chat(chat_role_of_number(m.role)),
                content: m.msg.clone(),
            },
        ),
        Payload::MessageDelta(_) => None,
        Payload::ToolEvent(t) => match &t.event {
            Some(ToolEventKind::WebSearchCall(w)) => Some(
                InputItem::WebSearchCall {
                    id: w.id.clone(),
                    status: w.status.clone(),
                    action_json: w.action_json.clone(),
                },
            ),
            None => None,
        },
    }
}

/// A tool the model may use.
#[derive(Clone, Copy, Debug, PartialEq, Eq, Structural)]
pub enum Tool {
    WebSearchPreview,
}

/// A request to a language model: the history, its settings and the system
/// instructions.
#[derive(Debug)]
pub struct LlmReq {
    pub events: Vec<Payload>,
    pub settings: LlmSettings,
    pub instructions: Option<String>,
}

/// What a language model answered.
pub struct LlmResp {
    pub output: Vec<Payload>,
}

/// A request to the responses API.
#[derive(Debug)]
pub struct ResponsesReq {
    pub model: Model,
    /// A system (or developer) message inserted into the model's context.
    pub instructions: Option<String>,
    pub input: Vec<InputItem>,
    pub stream: bool,
    pub tools: Vec<Tool>,
}

impl Default for ResponsesReq {
    fn default() -> (r: Self)
        ensures
            r.model == Model::Gpt4o,
            r.instructions is None,
            r.input@.len() == 0,
            !r.stream,
            r.tools@.len() == 0,
    {
        ResponsesReq {
            model: Model::Gpt4o,
            instructions: None,
            input: Vec::new(),
            stream: false,
            tools: Vec::new(),
        }
    }
}

/// Why a request cannot be built.
#[derive(Clone, Copy, Debug, PartialEq, Eq, Structural)]
pub enum BuildError {
    /// The settings name no provider this client serves.
    SettingsMismatch,
}

impl BuildError {
    /// The error's message.
    pub fn message(&self) -> (s: &'static str)
        ensures
            s@ == "Client and settings do not match"@,
    {
        "Client and settings do not match"
    }
}

/// The tools a request offers: web search when the settings ask for it.
pub open spec fn request_tools(web_search: bool) -> Seq<Tool> {
    if web_search {
        seq![Tool::WebSearchPreview]
    } else {
        Seq::empty()
    }
}

/// `q` is the request built from `req` whose provider is `OpenAi(o)`.
pub open spec fn built_from(q: ResponsesReq, req: LlmReq) -> bool {
    &&& req.settings.provider matches Some(Provider::OpenAi(o))
    &&& q.model == api_model(model_of_number(o.model))
    &&& q.tools@ == request_tools(o.web_search)
    &&& q.instructions == req.instructions
    &&& input_views(q.input@) == payload_inputs(req.events@)
    &&& !q.stream
}

impl ResponsesReq {
    /// The same request, streamed.
    pub fn with_streaming(self) -> (r: Self)
        ensures
            r == (ResponsesReq { stream: true, ..self }),
    {
        let mut r = self;
        r.stream = true;
        r
    }

    /// The request for `llm_req`: its model and tools from the OpenAI settings,
    /// its instructions, and its history as input items. Fails when the
    /// settings name no provider.
    pub fn build(llm_req: LlmReq) -> (r: Result<Self, BuildError>)
        ensures
            r is Ok <==> llm_req.settings.provider is Some,
            match r {
                Ok(q) => built_from(q, llm_req),
                Err(e) => e == BuildError::SettingsMismatch,
            },
    {
        let (model, web_search) = match llm_req.settings.provider {
            Some(Provider::OpenAi(open_ai_settings)) => (
                open_ai_settings.model(),
                open_ai_settings.web_search,
            ),
            None => return Err(BuildError::SettingsMismatch),
        };
        let mut tools: Vec<Tool> = Vec::new();
        if web_search {
            tools.push(Tool::WebSearchPreview);
        }
        let mut input: Vec<InputItem> = Vec::new();
        let n = llm_req.events.len();
        let mut k: usize = 0;
        while k < n
            invariant
                n == llm_req.events@.len(),
                k <= n,
                input_views(input@) == payload_inputs(llm_req.events@.take(k as int)),
            decreases n - k,
        {
            let item = input_item(&llm_req.events[k]);
            proof {
                assert(llm_req.events@.take(k as int + 1).drop_last() =~= llm_req.events@.take(k as int));
            }
            match item {
                Some(i) => {
                    input.push(i);
                },
                None => {},
            }
            proof {
                assert(input_views(input@) =~= payload_inputs(llm_req.events@.take(k as int + 1)));
            }
            k = k + 1;
        }
        proof {
            assert(llm_req.events@.take(n as int) =~= llm_req.events@);
            assert(tools@ =~= request_tools(web_search));
        }
        Ok(
            ResponsesReq {
                model: Model::from_openai(model),
                instructions: llm_req.instructions,
                input,
                stream: false,
                tools,
            },
        )
    }
}

/// An annotation of an output text.
#[derive(Debug)]
pub enum Annotation {
    UrlCitation {
        /// The index of the last character of the URL citation in the message.
        end_index: u64,
        /// The index of the first character of the URL citation in the message.
        start_index: u64,
        title: String,
        url: String,
    },
}

/// A piece of an output message.
#[derive(Debug)]
pub enum ContentItem {
    OutputText { text: String, annotations: Vec<Annotation> },
    Refusal { refusal: String },
}

/// An item of a response's output. A web search's action is its JSON text.
#[derive(Debug)]
pub enum OutputItem {
    Message { role: Role, content: Vec<ContentItem> },
    WebSearchCall { id: String, status: String, action_json: String },
    Unimplement,
}

/// A response of the API.
#[derive(Debug)]
pub struct Responses {
    pub output: Vec<OutputItem>,
}

/// No piece of the content is a refusal.
pub open spec fn no_refusal(cs: Seq<ContentItem>) -> bool {
    forall|i: int| 0 <= i < cs.len() ==> !(#[trigger] cs[i] is Refusal)
}

/// No message of the output holds a refusal.
pub open spec fn refusal_free(os: Seq<OutputItem>) -> bool {
    forall|i: int|
        0 <= i < os.len() ==> match #[trigger] os[i] {
            OutputItem::Message { content, .. } => no_refusal(content@),
            _ => true,
        }
}

/// The texts of the content's output texts, joined.
pub open spec fn output_text(cs: Seq<ContentItem>) -> Seq<char>
    decreases cs.len(),
{
    if cs.len() == 0 {
        Seq::empty()
    } else {
        output_text(cs.drop_last()) + match cs.last() {
            ContentItem::OutputText { text, .. } => text@,
            ContentItem::Refusal { .. } => Seq::empty(),
        }
    }
}

/// The web search payload of a call.
pub open spec fn web_search_view(id: String, status: String, action_json: String) -> PayloadView {
    PayloadView::WebSearchCall { id: id@, status: status@, action_json: action_json@ }
}

/// The payloads an output item answers with: a message of the joined texts
/// in the role the wire role is read as, a web search call, or nothing.
pub open spec fn output_payload(o: OutputItem) -> Seq<PayloadView> {
    match o {
        OutputItem::Message { role, content } => seq![
            PayloadView::Message { role: role_number(chat_role(role)), msg: output_text(content@) },
        ],
        OutputItem::WebSearchCall { id, status, action_json } => seq![
            web_search_view(id, status, action_json),
        ],
        OutputItem::Unimplement => Seq::empty(),
    }
}

/// The payloads of a response's output, in order.
pub open spec fn output_payloads(os: Seq<OutputItem>) -> Seq<PayloadView>
    decreases os.len(),
{
    if os.len() == 0 {
        Seq::empty()
    } else {
        output_payloads(os.drop_last()) + output_payload(os.last())
    }
}

/// The web search calls of a response's output, as payloads, in order.
pub open spec fn web_search_payloads(os: Seq<OutputItem>) -> Seq<PayloadView>
    decreases os.len(),
{
    if os.len() == 0 {
        Seq::empty()
    } else {
        web_search_payloads(os.drop_last()) + match os.last() {
            OutputItem::WebSearchCall { id, status, action_json } => seq![
                web_search_view(id, status, action_json),
            ],
            _ => Seq::empty(),
        }
    }
}

/// The joined text of a message's content.
fn join_output_text(content: &Vec<ContentItem>) -> (msg: String)
    requires
        no_refusal(content@),
    ensures
        msg@ == output_text(content@),
{
    let mut msg = String::new();
    let n = content.len();
    let mut k: usize = 0;
    while k < n
        invariant
            n == content@.len(),
            k <= n,
            no_refusal(content@),
            msg@ == output_text(content@.take(k as int)),
        decreases n - k,
    {
        proof {
            assert(content@.take(k as int + 1).drop_last() =~= content@.take(k as int));
        }
        match &content[k] {
            ContentItem::OutputText { text, .. } => {
                msg.append(text.as_str());
            },
            ContentItem::Refusal { .. } => {
                assert(content@[k as int] is Refusal);
            },
        }
        k = k + 1;
    }
    proof {
        assert(content@.take(n as int) =~= content@);
    }
    msg
}

/// The web search payload of a call.
fn web_search_payload(id: &String, status: &String, action_json: &String) -> (p: Payload)
    ensures
        payload_view(p) == web_search_view(*id, *status, *action_json),
{
    Payload::ToolEvent(
        ToolEvent {
            event: Some(
                ToolEventKind::WebSearchCall(
                    WebSearchCall { id: id.clone(), status: status.clone(), action_json: action_json.clone() },
                ),
            ),
        },
    )
}

/// The chat payloads of a response: each message's output texts joined into
/// one message, each web search call as a tool event, other items dropped.
/// A refusal in a message is not handled.
pub fn response_payloads(resp: &Responses) -> (ps: Vec<Payload>)
    requires
        refusal_free(resp.output@),
    ensures
        payload_views(ps@) == output_payloads(resp.output@),
{
    let mut ps: Vec<Payload> = Vec::new();
    let n = resp.output.len();
    let mut k: usize = 0;
    while k < n
        invariant
            n == resp.output@.len(),
            k <= n,
            refusal_free(resp.output@),
            payload_views(ps@) == output_payloads(resp.output@.take(k as int)),
        decreases n - k,
    {
        proof {
            assert(resp.output@.take(k as int + 1).drop_last() =~= resp.output@.take(k as int));
        }
        let ghost before = ps@;
        match &resp.output[k] {
            OutputItem::Message { content, role } => {
                assert(no_refusal(content@)) by {
                    assert(match resp.output@[k as int] {
                        OutputItem::Message { content, .. } => no_refusal(content@),
                        _ => true,
                    });
                }
                let msg = join_output_text(content);
                let r = role.to_chat().number();
                ps.push(Payload::Message(Message { role: r, msg }));
            },
            OutputItem::WebSearchCall { id, status, action_json } => {
                ps.push(web_search_payload(id, status, action_json));
            },
            OutputItem::Unimplement => {},
        }
        proof {
            assert(payload_views(ps@) =~= payload_views(before) + output_payload(resp.output@[k as int]));
        }
        k = k + 1;
    }
    proof {
        assert(resp.output@.take(n as int) =~= resp.output@);
    }
    ps
}

/// The web search calls of a response's output, as payloads.
fn web_search_calls(output: Vec<OutputItem>) -> (ps: Vec<Payload>)
    ensures
        payload_views(ps@) == web_search_payloads(output@),
{
    let mut ps: Vec<Payload> = Vec::new();
    let n = output.len();
    let mut k: usize = 0;
    while k < n
        invariant
            n == output@.len(),
            k <= n,
            payload_views(ps@) == web_search_payloads(output@.take(k as int)),
        decreases n - k,
    {
        proof {
            assert(output@.take(k as int + 1).drop_last() =~= output@.take(k as int));
        }
        let ghost before = ps@;
        match &output[k] {
            OutputItem::WebSearchCall { id, status, action_json } => {
                ps.push(web_search_payload(id, status, action_json));
            },
            _ => {},
        }
        proof {
            assert(payload_views(ps@) =~= web_search_payloads(output@.take(k as int + 1)));
        }
        k = k + 1;
    }
    proof {
        assert(output@.take(n as int) =~= output@);
    }
    ps
}

/// Fields every streamed text event has.
#[derive(Debug)]
pub struct StreamCommon {
    pub sequence_number: u64,
    pub item_id: String,
    pub output_index: u64,
    pub content_index: u64,
    pub logprobs: Vec<()>,
}

/// A streamed piece of output text.
#[derive(Debug)]
pub struct OutputTextDelta {
    pub common: StreamCommon,
    pub delta: String,
}

/// A streamed output text, complete.
#[derive(Debug)]
pub struct OutputTextDone {
    pub common: StreamCommon,
    pub text: String,
}

/// An event of a streamed response.
#[derive(Debug)]
pub enum ResponsesStream {
    Created { response: Responses },
    InProgress { response: Responses },
    Completed { response: Responses },
    Failed { response: Responses },
    Incomplete { response: Responses },
    OutputTextDelta(OutputTextDelta),
    OutputTextDone(OutputTextDone),
    Unimplement,
}

/// The payloads a streamed event answers with: a delta for a text delta, an
/// assistant message for a complete text, the web search calls of a completed
/// response (a stream carries their actions only there), nothing otherwise.
pub open spec fn stream_event_payloads(e: ResponsesStream) -> Seq<PayloadView> {
    match e {
        ResponsesStream::OutputTextDelta(d) => seq![PayloadView::MessageDelta { delta: d.delta@ }],
        ResponsesStream::OutputTextDone(d) => seq![
            PayloadView::Message { role: role_number(crate::chat::Role::Assistant), msg: d.text@ },
        ],
        ResponsesStream::Completed { response } => web_search_payloads(response.output@),
        _ => Seq::empty(),
    }
}

/// The chat payloads of a streamed event (see `stream_event_payloads`).
pub fn stream_payloads(event: ResponsesStream) -> (ps: Vec<Payload>)
    ensures
        payload_views(ps@) == stream_event_payloads(event),
{
    match event {
        ResponsesStream::OutputTextDelta(d) => {
            let mut ps: Vec<Payload> = Vec::new();
            ps.push(Payload::MessageDelta(MessageDelta { delta: d.delta }));
            proof {
                assert(payload_views(ps@) =~= stream_event_payloads(ResponsesStream::OutputTextDelta(d)));
            }
            ps
        },
        ResponsesStream::OutputTextDone(d) => {
            let mut ps: Vec<Payload> = Vec::new();
            let role = crate::chat::Role::Assistant.number();
            ps.push(Payload::Message(Message { role, msg: d.text }));
            proof {
                assert(payload_views(ps@) =~= stream_event_payloads(ResponsesStream::OutputTextDone(d)));
            }
            ps
        },
        ResponsesStream::Completed { response } => web_search_calls(response.output),
        _ => Vec::new(),
    }
}

} // verus!
