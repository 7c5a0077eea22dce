//! The current chat session: its id, its model settings, its transcript and
//! the input editor.
use crate::chat::{new_uuid_string, ChatEvent, ChatSession, Message, Payload};
use crate::editor::{cleared, Editor};
use crate::focus::Focusable;
use crate::editor_viewport::WrapMode;
use crate::llm::LlmSettings;
use crate::messages::Messages;
use crate::messages_viewport::{all_displayable, displayable, rebuilt};
use vstd::prelude::*;

verus! {

/// The text of `s`, if any.
pub open spec fn opt_text(s: Option<String>) -> Option<Seq<char>> {
    match s {
        Some(t) => Some(t@),
        None => None,
    }
}

/// `after` is the session `before` once the user's message was handed out
/// for sending, `r` being what was handed out (see
/// `Session::handle_sending_user_message`).
pub open spec fn sent(before: Session, after: Session, r: Option<ChatEvent>) -> bool {
    &&& after.wf()
    &&& after.settings() == before.settings()
    &&& before.msgs().pending() || before.editor().text().len() == 0 ==> {
        &&& r == None::<ChatEvent>
        &&& after == before
    }
    &&& !before.msgs().pending() && before.editor().text().len() > 0 ==> {
        &&& r matches Some(e)
        &&& after.id() == Some(e.session_id@)
        &&& before.id() matches Some(id) ==> e.session_id@ == id
        &&& before.id() is None ==> e.session_id@.len() == 36
        &&& e.llm_settings == Some(before.settings())
        &&& e.created_at is None
        &&& e.payload matches Some(Payload::Message(m)) && m.role == 1 && m.msg@ == before.editor().text()
        &&& after.msgs().pending()
        &&& after.msgs().events() == before.msgs().events()
        &&& after.msgs().stream() == before.msgs().stream()
        &&& after.msgs().title_text() == before.msgs().title_text()
        &&& cleared(before.editor(), after.editor())
    }
}

/// `after` is the session `before` once `e` arrived from the service (see
/// `Session::handle_chat_event`).
pub open spec fn chat_event_handled(before: Session, after: Session, e: ChatEvent) -> bool {
    &&& after.wf()
    &&& after.id() == before.id()
    &&& after.settings() == before.settings()
    &&& after.editor() == before.editor()
    &&& before.id() != Some(e.session_id@) ==> after.msgs() == before.msgs()
    &&& before.id() == Some(e.session_id@) ==> {
        &&& (after.msgs().events(), after.msgs().stream(), after.msgs().pending())
            == crate::messages::stream_step(
            before.msgs().events(),
            before.msgs().stream(),
            before.msgs().pending(),
            e,
        )
        &&& after.msgs().title_text() == before.msgs().title_text()
        &&& after.msgs().has_focus() == before.msgs().has_focus()
        &&& rebuilt(before.msgs().vp(), after.msgs().vp(), after.msgs().events(), after.msgs().stream())
    }
}

/// `after` is the session `before` replaced by the loaded `session` (see
/// `Session::handle_session`).
pub open spec fn session_loaded(before: Session, after: Session, session: ChatSession) -> bool {
    &&& after.wf()
    &&& after.id() == Some(session.id@)
    &&& after.settings() == match session.llm_settings {
        Some(s) => s,
        None => LlmSettings { provider: None },
    }
    &&& after.editor() == before.editor()
    &&& after.msgs().events() == session.events@
    &&& after.msgs().title_text() == Some(session.title@)
    &&& after.msgs().stream() == None::<Seq<char>>
    &&& !after.msgs().pending()
    &&& !after.msgs().has_focus()
}

/// `after` is the session `before` with the title of `summary` when it is of
/// this session (see `Session::handle_session_summary`).
pub open spec fn summary_handled(before: Session, after: Session, summary: ChatSession) -> bool {
    &&& after.wf()
    &&& after.id() == before.id()
    &&& after.settings() == before.settings()
    &&& after.editor() == before.editor()
    &&& after.msgs().events() == before.msgs().events()
    &&& after.msgs().stream() == before.msgs().stream()
    &&& after.msgs().pending() == before.msgs().pending()
    &&& after.msgs().has_focus() == before.msgs().has_focus()
    &&& after.msgs().vp() == before.msgs().vp()
    &&& after.msgs().title_text() == if before.id() == Some(summary.id@) {
        Some(summary.title@)
    } else {
        before.msgs().title_text()
    }
}

/// The session would show `e`: it is of this session and a reply is pending.
pub open spec fn shown_by(s: Session, e: ChatEvent) -> bool {
    s.id() == Some(e.session_id@) && s.msgs().pending()
}

/// The current chat session.
pub struct Session {
    /// Session Id of current session. None for new session before sending first message.
    pub session_id: Option<String>,
    pub llm_settings: LlmSettings,
    pub messages: Messages,
    pub input_editor: Editor,
}

impl Session {
    /// The session's id.
    pub open spec fn id(&self) -> Option<Seq<char>> {
        opt_text(self.session_id)
    }

    pub open spec fn settings(&self) -> LlmSettings {
        self.llm_settings
    }

    pub open spec fn msgs(&self) -> Messages {
        self.messages
    }

    pub open spec fn editor(&self) -> Editor {
        self.input_editor
    }

    pub open spec fn wf(&self) -> bool {
        &&& self.msgs().wf()
        &&& self.editor().wf()
    }

    /// A new session with `llm_settings`, no id, an empty transcript and an
    /// empty editor.
    pub fn new(llm_settings: LlmSettings) -> (s: Self)
        ensures
            s.wf(),
            s.id() == None::<Seq<char>>,
            s.settings() == llm_settings,
            s.msgs().is_empty(),
            s.editor().text() == Seq::<char>::empty(),
            s.editor().cursor() == 0,
            !s.editor().editing(),
            !s.editor().focus_flag(),
            s.editor().vp().is_fresh(WrapMode::Character),
    {
        Session {
            session_id: None,
            llm_settings,
            messages: Messages::new(),
            input_editor: Editor::new(String::new(), WrapMode::default()),
        }
    }

    pub fn session_id(&self) -> (r: Option<&String>)
        ensures
            opt_text(match r {
                Some(t) => Some(*t),
                None => None,
            }) == self.id(),
    {
        self.session_id.as_ref()
    }

    pub fn set_messages(&mut self, messages: Messages)
        requires
            old(self).wf(),
            messages.wf(),
        ensures
            final(self).wf(),
            final(self).msgs() == messages,
            final(self).id() == old(self).id(),
            final(self).settings() == old(self).settings(),
            final(self).editor() == old(self).editor(),
    {
        self.messages = messages;
    }

    pub fn llm_settings(&self) -> (r: LlmSettings)
        ensures
            r == self.settings(),
    {
        self.llm_settings
    }

    pub fn set_llm_settings(&mut self, llm_settings: LlmSettings)
        ensures
            *final(self) == (Session { llm_settings, ..*old(self) }),
            final(self).settings() == llm_settings,
            final(self).id() == old(self).id(),
            final(self).msgs() == old(self).msgs(),
            final(self).editor() == old(self).editor(),
    {
        self.llm_settings = llm_settings;
    }

    /// Clears everything except for editor input, with the given settings.
    pub fn reset(&mut self, settings: LlmSettings)
        requires
            old(self).wf(),
        ensures
            final(self).wf(),
            final(self).id() == None::<Seq<char>>,
            final(self).settings() == settings,
            final(self).msgs().is_empty(),
            final(self).editor() == old(self).editor(),
    {
        self.session_id = None;
        self.llm_settings = settings;
        self.messages.reset();
    }

    // ----------------------------------------------------------------
    // Event handlers.
    // ----------------------------------------------------------------
    /// If no reply is pending and the editor is not empty, returns the user
    /// message to send: in this session (which gets a new random id if it
    /// has none), with its settings, the editor's text as a user message and
    /// no creation time. The transcript marks a reply as pending and the
    /// editor is cleared. Otherwise nothing changes and nothing is returned.
    pub fn handle_sending_user_message(&mut self) -> (r: Option<ChatEvent>)
        requires
            old(self).wf(),
        ensures
            sent(*old(self), *final(self), r),
    {
        // only send response if no response is pending or in progress
        if self.messages.is_pending() {
            return None;
        }
        let msg = self.input_editor.input();
        // early return if input is empty.
        if msg.as_str().is_empty() {
            return None;
        }
        let session_id = match &self.session_id {
            Some(id) => id.clone(),
            None => {
                let id = new_uuid_string();
                self.session_id = Some(id.clone());
                id
            },
        };
        let payload = Payload::Message(Message { role: 1, msg });
        let user_message = ChatEvent::new(session_id, Some(self.llm_settings), payload);
        self.messages.handle_send();
        self.input_editor.clear();
        Some(user_message)
    }

    /// Passes an event of this session to the transcript; events of other
    /// sessions are ignored.
    pub fn handle_chat_event(&mut self, chat_event: ChatEvent)
        requires
            old(self).wf(),
            shown_by(*old(self), chat_event) ==> displayable(chat_event),
        ensures
            chat_event_handled(*old(self), *final(self), chat_event),
    {
        let same = match &self.session_id {
            Some(id) => *id == chat_event.session_id,
            None => false,
        };
        if same {
            self.messages.handle_chat_event_stream(chat_event);
        }
    }

    /// Replaces the session's id, settings and transcript with those of
    /// `session` (default settings when it has none), keeping the editor.
    pub fn handle_session(&mut self, session: ChatSession)
        requires
            old(self).wf(),
            all_displayable(session.events@),
        ensures
            session_loaded(*old(self), *final(self), session),
    {
        self.session_id = Some(session.id);
        self.llm_settings = match session.llm_settings {
            Some(s) => s,
            None => LlmSettings::default(),
        };
        self.messages.reset();
        self.messages.set_title(Some(session.title));
        self.messages.handle_chat_events(session.events);
    }

    /// Updates the title when `session_summary` is of this session.
    pub fn handle_session_summary(&mut self, session_summary: ChatSession)
        requires
            old(self).wf(),
        ensures
            summary_handled(*old(self), *final(self), session_summary),
    {
        let same = match &self.session_id {
            Some(id) => *id == session_summary.id,
            None => false,
        };
        if same {
            self.messages.set_title(Some(session_summary.title));
        }
    }
}

} // verus!
