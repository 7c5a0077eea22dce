//! The update function: how each input or service message changes the
//! application model, and which message follows and which side effect is
//! asked for.
use crate::area::{KeyModifiers, MouseEvent};
use crate::chat::{ChatEvent, ChatSession};
use crate::editor::{deleted, editing_set, entered, moved_left, moved_right, moved_vertically, pasted, replaced, Editor};
use crate::focus::{Focusable, Focused};
use crate::messages::Messages;
use crate::messages_viewport::{
    all_displayable, displayable, moved_left_in, moved_right_in, moved_vertically_in, selection_cleared,
    selection_toggled, yanked, MessagesViewport,
};
use crate::model::{
    drafted, focus_shifted, focus_shifted_to, sidebar_toggled, Model,
};
use crate::protocol::{ServiceReq, ServiceResp};
use crate::session::{chat_event_handled, opt_text, sent, session_loaded, summary_handled, Session};
use crate::session_manager::{selected_next, selected_previous};
use crate::setting_manager::{model_selected_next, model_selected_previous, SettingManager};
use vstd::prelude::*;

verus! {

/// A key of the keyboard.
#[derive(Clone, Copy, Debug, PartialEq, Eq, Structural)]
pub enum KeyCode {
    Char(char),
    Backspace,
    Enter,
    Left,
    Right,
    Up,
    Down,
    Tab,
    Esc,
    /// Any other key.
    Other,
}

/// A key press and the modifiers held.
#[derive(Clone, Copy, Debug, PartialEq, Eq, Structural)]
pub struct KeyEvent {
    pub code: KeyCode,
    pub modifiers: KeyModifiers,
}

/// Drives update.
#[derive(Debug)]
pub enum Message {
    Key(KeyEvent),
    MouseEvent(MouseEvent),
    CrosstermClose,
    ServiceResp(ServiceResp),
    /* ----- model wide activities ----- */
    /// Sends message.
    Send,
    /// Focuses on editor and enter editing mode.
    Editing,
    /// Opens setting manager or saves setting manager update and closes it.
    Setting,
    /// Starts new empty chat at tui.
    NewSession,
    /// Deletes currently selected session and navigates to the next session.
    DeleteSession,
    /// Selects next session in session manager.
    SelectNextSession,
    /// Selects previews session in session manager.
    SelectPrevSession,
    /* ----- editor activities ----- */
    /// Pastes event from crossterm.
    Paste(String),
    /// Updates editor input accordingly after editing with system's editor finished
    ExternalEditingComplete(String),
}

/// Side effect of update.
#[derive(Debug)]
pub enum Command {
    ServiceReq(ServiceReq),
    /// Opens system's editor to continue editing.
    ExternalEditing(String),
    /// Opens system's editor with content, but throws away editing content.
    ExternalEditingReadOnly(String),
    /// Puts given input to system clipboard.
    CopyToClipboard(String),
}

/// The message that follows an update, and the side effect it asks for.
pub type Update = (Option<Message>, Option<Command>);

// ----------------------------------------------------------------
// What each handler does.
// ----------------------------------------------------------------

/// No message follows and no side effect is asked for.
pub open spec fn nothing(r: Update) -> bool {
    r.0 is None && r.1 is None
}

/// Only `msg` follows.
pub open spec fn follows(r: Update, msg: Message) -> bool {
    r.0 == Some(msg) && r.1 is None
}

/// `after` is `before` asked to quit.
pub open spec fn quit_set(before: Model, after: Model) -> bool {
    after == Model { should_quit: true, ..before }
}

/// `after` is `before` but for the input editor.
pub open spec fn with_editor(before: Model, after: Model) -> bool {
    after == Model {
        session: Session { input_editor: after.session.input_editor, ..before.session },
        ..before
    }
}

/// `after` is `before` but for the transcript's viewport.
pub open spec fn with_viewport(before: Model, after: Model) -> bool {
    &&& after == Model {
        session: Session { messages: after.session.messages, ..before.session },
        ..before
    }
    &&& after.session.messages.events() == before.session.messages.events()
    &&& after.session.messages.stream() == before.session.messages.stream()
    &&& after.session.messages.pending() == before.session.messages.pending()
    &&& after.session.messages.title_text() == before.session.messages.title_text()
    &&& after.session.messages.has_focus() == before.session.messages.has_focus()
}

/// The input editor of `m`.
pub open spec fn ed(m: Model) -> Editor {
    m.session.input_editor
}

/// The transcript viewport of `m`.
pub open spec fn tv(m: Model) -> MessagesViewport {
    m.session.messages.vp()
}

/// Handling `evt` with the focus on the input editor.
pub open spec fn editor_key(m: Model, after: Model, evt: KeyEvent, r: Update) -> bool {
    let c = evt.code;
    let ctrl = evt.modifiers.is_control();
    if ed(m).editing() {
        if c == KeyCode::Char('e') && ctrl {
            sidebar_toggled(m, after) && nothing(r)
        } else if c is Char {
            with_editor(m, after) && entered(ed(m), ed(after), c->0) && nothing(r)
        } else if c == KeyCode::Backspace {
            with_editor(m, after) && deleted(ed(m), ed(after)) && nothing(r)
        } else if c == KeyCode::Left {
            with_editor(m, after) && moved_left(ed(m), ed(after)) && nothing(r)
        } else if c == KeyCode::Right {
            with_editor(m, after) && moved_right(ed(m), ed(after)) && nothing(r)
        } else if c == KeyCode::Esc {
            with_editor(m, after) && editing_set(ed(m), ed(after), false) && nothing(r)
        } else if c == KeyCode::Tab {
            focus_shifted(m, after) && nothing(r)
        } else if c == KeyCode::Enter && evt.modifiers.is_shift() {
            with_editor(m, after) && entered(ed(m), ed(after), '\n') && nothing(r)
        } else if c == KeyCode::Enter {
            after == m && follows(r, Message::Send)
        } else if c == KeyCode::Down {
            with_editor(m, after) && moved_vertically(ed(m), ed(after), true) && nothing(r)
        } else if c == KeyCode::Up {
            with_editor(m, after) && moved_vertically(ed(m), ed(after), false) && nothing(r)
        } else {
            after == m && nothing(r)
        }
    } else {
        if c == KeyCode::Char('q') {
            quit_set(m, after) && nothing(r)
        } else if c == KeyCode::Char('e') && ctrl {
            sidebar_toggled(m, after) && nothing(r)
        } else if c == KeyCode::Char('n') {
            after == m && follows(r, Message::NewSession)
        } else if c == KeyCode::Tab {
            focus_shifted(m, after) && nothing(r)
        } else if c == KeyCode::Char('i') {
            after == m && follows(r, Message::Editing)
        } else if c == KeyCode::Char('s') {
            after == m && follows(r, Message::Setting)
        } else if c == KeyCode::Char('e') {
            &&& after == m
            &&& r.0 is None
            &&& r.1 matches Some(Command::ExternalEditing(t)) && t@ == ed(m).text()
        } else if c == KeyCode::Enter {
            after == m && follows(r, Message::Send)
        } else if c == KeyCode::Left || c == KeyCode::Char('h') {
            with_editor(m, after) && moved_left(ed(m), ed(after)) && nothing(r)
        } else if c == KeyCode::Right || c == KeyCode::Char('l') {
            with_editor(m, after) && moved_right(ed(m), ed(after)) && nothing(r)
        } else if c == KeyCode::Down || c == KeyCode::Char('j') {
            with_editor(m, after) && moved_vertically(ed(m), ed(after), true) && nothing(r)
        } else if c == KeyCode::Up || c == KeyCode::Char('k') {
            with_editor(m, after) && moved_vertically(ed(m), ed(after), false) && nothing(r)
        } else {
            after == m && nothing(r)
        }
    }
}

/// Handling `evt` with the focus on the transcript.
pub open spec fn messages_key(m: Model, after: Model, evt: KeyEvent, r: Update) -> bool {
    let c = evt.code;
    if c == KeyCode::Char('q') {
        quit_set(m, after) && nothing(r)
    } else if c == KeyCode::Char('e') && evt.modifiers.is_control() {
        sidebar_toggled(m, after) && nothing(r)
    } else if c == KeyCode::Char('n') {
        after == m && follows(r, Message::NewSession)
    } else if c == KeyCode::Tab {
        focus_shifted(m, after) && nothing(r)
    } else if c == KeyCode::Char('i') {
        after == m && follows(r, Message::Editing)
    } else if c == KeyCode::Char('s') {
        after == m && follows(r, Message::Setting)
    } else if c == KeyCode::Char('e') {
        &&& after == m
        &&& r.0 is None
        &&& r.1 matches Some(Command::ExternalEditingReadOnly(t)) && t@ == tv(m).text()
    } else if c == KeyCode::Char('v') {
        with_viewport(m, after) && selection_toggled(tv(m), tv(after)) && nothing(r)
    } else if c == KeyCode::Char('y') {
        &&& with_viewport(m, after)
        &&& r.0 is None
        &&& yanked(
            tv(m),
            tv(after),
            match r.1 {
                Some(Command::CopyToClipboard(t)) => Some(t@),
                _ => None,
            },
        )
        &&& r.1 is None || r.1 matches Some(Command::CopyToClipboard(_))
    } else if c == KeyCode::Esc {
        with_viewport(m, after) && selection_cleared(tv(m), tv(after)) && nothing(r)
    } else if c == KeyCode::Left || c == KeyCode::Char('h') {
        with_viewport(m, after) && moved_left_in(tv(m), tv(after)) && nothing(r)
    } else if c == KeyCode::Right || c == KeyCode::Char('l') {
        with_viewport(m, after) && moved_right_in(tv(m), tv(after)) && nothing(r)
    } else if c == KeyCode::Down || c == KeyCode::Char('j') {
        with_viewport(m, after) && moved_vertically_in(tv(m), tv(after), true) && nothing(r)
    } else if c == KeyCode::Up || c == KeyCode::Char('k') {
        with_viewport(m, after) && moved_vertically_in(tv(m), tv(after), false) && nothing(r)
    } else {
        after == m && nothing(r)
    }
}

/// Handling `evt` with the focus on the session list.
pub open spec fn manager_key(m: Model, after: Model, evt: KeyEvent, r: Update) -> bool {
    let c = evt.code;
    if c == KeyCode::Char('q') {
        quit_set(m, after) && nothing(r)
    } else if c == KeyCode::Char('e') && evt.modifiers.is_control() {
        sidebar_toggled(m, after) && nothing(r)
    } else if c == KeyCode::Char('n') {
        after == m && follows(r, Message::NewSession)
    } else if c == KeyCode::Char('d') {
        after == m && follows(r, Message::DeleteSession)
    } else if c == KeyCode::Char('i') {
        after == m && follows(r, Message::Editing)
    } else if c == KeyCode::Char('s') {
        after == m && follows(r, Message::Setting)
    } else if c == KeyCode::Down || c == KeyCode::Char('j') {
        after == m && follows(r, Message::SelectNextSession)
    } else if c == KeyCode::Up || c == KeyCode::Char('k') {
        after == m && follows(r, Message::SelectPrevSession)
    } else if c == KeyCode::Tab {
        focus_shifted(m, after) && nothing(r)
    } else {
        after == m && nothing(r)
    }
}

/// Handling `evt` with the settings popup `p` open.
pub open spec fn popup_key(m: Model, after: Model, p: SettingManager, evt: KeyEvent, r: Update) -> bool {
    let c = evt.code;
    if c == KeyCode::Down || c == KeyCode::Char('j') {
        &&& after.setting_manager_popup matches Some(q) && model_selected_next(p, q)
        &&& after == Model { setting_manager_popup: after.setting_manager_popup, ..m }
        &&& nothing(r)
    } else if c == KeyCode::Up || c == KeyCode::Char('k') {
        &&& after.setting_manager_popup matches Some(q) && model_selected_previous(p, q)
        &&& after == Model { setting_manager_popup: after.setting_manager_popup, ..m }
        &&& nothing(r)
    } else if c == KeyCode::Esc {
        after == Model { setting_manager_popup: None, ..m } && nothing(r)
    } else if c == KeyCode::Enter {
        after == m && follows(r, Message::Setting)
    } else {
        after == m && nothing(r)
    }
}

/// Handling the key event `evt`: with an error shown, any key asks to quit;
/// then the settings popup, when open, takes the key, and otherwise the
/// focused part does.
pub open spec fn key_step(before: Model, after: Model, evt: KeyEvent, r: Update) -> bool {
    let m = if before.error_message is Some {
        Model { should_quit: true, ..before }
    } else {
        before
    };
    match m.setting_manager_popup {
        Some(p) => popup_key(m, after, p, evt, r),
        None => match m.focused {
            Focused::InputEditor => editor_key(m, after, evt, r),
            Focused::Messages => messages_key(m, after, evt, r),
            Focused::SessionManager => manager_key(m, after, evt, r),
        },
    }
}

/// Handling the service response `resp`.
pub open spec fn resp_step(before: Model, after: Model, resp: ServiceResp) -> bool {
    match resp {
        ServiceResp::ChatEvent(e) => {
            &&& after == Model { session: after.session, ..before }
            &&& chat_event_handled(before.session, after.session, e)
        },
        ServiceResp::Sessions(s) => {
            &&& after == Model { session_manager: after.session_manager, ..before }
            &&& after.session_manager.summaries() == crate::session_manager::by_recency(s@)
            &&& after.session_manager.selection() == match before.selected_id() {
                Some(id) => match crate::session_manager::position_of(
                    crate::session_manager::by_recency(s@),
                    id,
                ) {
                    Some(i) => Some(i as usize),
                    None => None,
                },
                None => None::<usize>,
            }
            &&& after.session_manager.has_focus() == before.session_manager.has_focus()
            &&& after.session_manager.mouse_area() == before.session_manager.mouse_area()
        },
        ServiceResp::Session(s) => if before.selected_id() == Some(s.id@) {
            &&& after == Model { session: after.session, ..before }
            &&& session_loaded(before.session, after.session, s)
        } else {
            after == before
        },
        ServiceResp::SessionSummary(s) => {
            &&& after == Model {
                session: after.session,
                session_manager: after.session_manager,
                ..before
            }
            &&& if before.selected_id() == Some(s.id@) {
                summary_handled(before.session, after.session, s)
            } else {
                after.session == before.session
            }
            &&& after.session_manager.selection() == before.session_manager.selection()
            &&& after.session_manager.list_offset() == before.session_manager.list_offset()
            &&& after.session_manager.has_focus() == before.session_manager.has_focus()
            &&& after.session_manager.summaries().len() == before.session_manager.summaries().len()
            &&& match crate::session_manager::position_of(before.session_manager.summaries(), s.id@) {
                Some(i) => after.session_manager.summaries()[i].title@ == s.title@,
                None => after.session_manager.summaries() == before.session_manager.summaries(),
            }
        },
        ServiceResp::Error(msg) => after == Model { error_message: Some(msg), ..before },
    }
}


/// Handles a key event with the focus on the input editor (see
/// `editor_key`).
pub fn input_editor_key_event(model: &mut Model, evt: KeyEvent) -> (r: Update)
    requires
        old(model).wf(),
    ensures
        final(model).wf(),
        editor_key(*old(model), *final(model), evt, r),
{
    let code = evt.code;
    let ctrl = evt.modifiers.control_only();
    if model.session.input_editor.is_editing() {
        if code == KeyCode::Char('e') && ctrl {
            model.toggle_sidebar();
            return (None, None);
        }
        match code {
            KeyCode::Char(c) => model.session.input_editor.enter_char(c),
            KeyCode::Backspace => model.session.input_editor.delete_char(),
            KeyCode::Left => model.session.input_editor.move_cursor_left(),
            KeyCode::Right => model.session.input_editor.move_cursor_right(),
            KeyCode::Esc => model.session.input_editor.set_is_editing(false),
            KeyCode::Tab => model.shift_focus(),
            KeyCode::Enter => {
                if evt.modifiers.shift_only() {
                    model.session.input_editor.enter_char('\n');
                } else {
                    return (Some(Message::Send), None);
                }
            },
            KeyCode::Down => model.session.input_editor.move_cursor_down(),
            KeyCode::Up => model.session.input_editor.move_cursor_up(),
            KeyCode::Other => {},
        }
    } else {
        if code == KeyCode::Char('q') {
            model.quit();
        } else if code == KeyCode::Char('e') && ctrl {
            model.toggle_sidebar();
        } else if code == KeyCode::Char('n') {
            return (Some(Message::NewSession), None);
        } else if code == KeyCode::Tab {
            model.shift_focus();
        } else if code == KeyCode::Char('i') {
            return (Some(Message::Editing), None);
        } else if code == KeyCode::Char('s') {
            return (Some(Message::Setting), None);
        } else if code == KeyCode::Char('e') {
            return (None, Some(Command::ExternalEditing(model.session.input_editor.input())));
        } else if code == KeyCode::Enter {
            return (Some(Message::Send), None);
        } else if code == KeyCode::Left || code == KeyCode::Char('h') {
            model.session.input_editor.move_cursor_left();
        } else if code == KeyCode::Right || code == KeyCode::Char('l') {
            model.session.input_editor.move_cursor_right();
        } else if code == KeyCode::Down || code == KeyCode::Char('j') {
            model.session.input_editor.move_cursor_down();
        } else if code == KeyCode::Up || code == KeyCode::Char('k') {
            model.session.input_editor.move_cursor_up();
        }
    }
    (None, None)
}

/// Handles a key event with the focus on the transcript (see
/// `messages_key`).
pub fn messages_key_event(model: &mut Model, evt: KeyEvent) -> (r: Update)
    requires
        old(model).wf(),
    ensures
        final(model).wf(),
        messages_key(*old(model), *final(model), evt, r),
{
    let code = evt.code;
    if code == KeyCode::Char('q') {
        model.quit();
    } else if code == KeyCode::Char('e') && evt.modifiers.control_only() {
        model.toggle_sidebar();
    } else if code == KeyCode::Char('n') {
        return (Some(Message::NewSession), None);
    } else if code == KeyCode::Tab {
        model.shift_focus();
    } else if code == KeyCode::Char('i') {
        return (Some(Message::Editing), None);
    } else if code == KeyCode::Char('s') {
        return (Some(Message::Setting), None);
    } else if code == KeyCode::Char('e') {
        return (None, Some(Command::ExternalEditingReadOnly(model.session.messages.viewport().input())));
    } else if code == KeyCode::Char('v') {
        model.session.messages.viewport_mut().toggle_visual_selection();
    } else if code == KeyCode::Char('y') {
        match model.session.messages.viewport_mut().yank_visual_selection() {
            Some(selected) => {
                return (None, Some(Command::CopyToClipboard(selected)));
            },
            None => {},
        }
    } else if code == KeyCode::Esc {
        model.session.messages.viewport_mut().clear_visual_selection();
    } else if code == KeyCode::Left || code == KeyCode::Char('h') {
        model.session.messages.viewport_mut().move_cursor_left();
    } else if code == KeyCode::Right || code == KeyCode::Char('l') {
        model.session.messages.viewport_mut().move_cursor_right();
    } else if code == KeyCode::Down || code == KeyCode::Char('j') {
        model.session.messages.viewport_mut().move_cursor_down();
    } else if code == KeyCode::Up || code == KeyCode::Char('k') {
        model.session.messages.viewport_mut().move_cursor_up();
    }
    (None, None)
}

/// Handles a key event with the focus on the session list (see
/// `manager_key`).
pub fn session_manager_key_event(model: &mut Model, evt: KeyEvent) -> (r: Update)
    requires
        old(model).wf(),
    ensures
        final(model).wf(),
        manager_key(*old(model), *final(model), evt, r),
{
    let code = evt.code;
    if code == KeyCode::Char('q') {
        model.quit();
    } else if code == KeyCode::Char('e') && evt.modifiers.control_only() {
        model.toggle_sidebar();
    } else if code == KeyCode::Char('n') {
        return (Some(Message::NewSession), None);
    } else if code == KeyCode::Char('d') {
        return (Some(Message::DeleteSession), None);
    } else if code == KeyCode::Char('i') {
        return (Some(Message::Editing), None);
    } else if code == KeyCode::Char('s') {
        return (Some(Message::Setting), None);
    } else if code == KeyCode::Down || code == KeyCode::Char('j') {
        return (Some(Message::SelectNextSession), None);
    } else if code == KeyCode::Up || code == KeyCode::Char('k') {
        return (Some(Message::SelectPrevSession), None);
    } else if code == KeyCode::Tab {
        model.shift_focus();
    }
    (None, None)
}

/// Handles a key event (see `key_step`).
pub fn handle_key_event(model: &mut Model, evt: KeyEvent) -> (r: Update)
    requires
        old(model).wf(),
    ensures
        final(model).wf(),
        key_step(*old(model), *final(model), evt, r),
{
    // Quit on any key if there is an error message.
    if model.error_message.is_some() {
        model.quit();
    }
    match model.setting_manager_popup.take() {
        Some(mut setting_manager) => {
            let code = evt.code;
            if code == KeyCode::Down || code == KeyCode::Char('j') {
                setting_manager.select_next();
                model.setting_manager_popup = Some(setting_manager);
            } else if code == KeyCode::Up || code == KeyCode::Char('k') {
                setting_manager.select_previous();
                model.setting_manager_popup = Some(setting_manager);
            } else if code == KeyCode::Esc {
            } else if code == KeyCode::Enter {
                model.setting_manager_popup = Some(setting_manager);
                return (Some(Message::Setting), None);
            } else {
                model.setting_manager_popup = Some(setting_manager);
            }
            return (None, None);
        },
        None => {},
    }
    match model.focused {
        Focused::InputEditor => input_editor_key_event(model, evt),
        Focused::Messages => messages_key_event(model, evt),
        Focused::SessionManager => session_manager_key_event(model, evt),
    }
}


/// A copy of the id and title of `s`, the rest left empty.
fn summary_of(s: &ChatSession) -> (r: ChatSession)
    ensures
        r.id@ == s.id@,
        r.title@ == s.title@,
{
    ChatSession {
        id: s.id.clone(),
        events: Vec::new(),
        title: s.title.clone(),
        llm_settings: s.llm_settings,
        updated_at: s.updated_at,
        created_at: s.created_at,
    }
}

/// Whether `id` is `Some` and its text is `other`.
fn is_selected(id: &Option<String>, other: &String) -> (r: bool)
    ensures
        r == (opt_text(*id) == Some(other@)),
{
    match id {
        Some(i) => *i == *other,
        None => false,
    }
}

/// What the model would show of `resp` can be shown: a chat event of the
/// current session while a reply is pending, or every event of the selected
/// session when the response carries it. Responses the model ignores are
/// not read.
pub open spec fn resp_showable(m: Model, resp: ServiceResp) -> bool {
    match resp {
        ServiceResp::ChatEvent(e) => crate::session::shown_by(m.session, e) ==> displayable(e),
        ServiceResp::Session(s) => m.selected_id() == Some(s.id@) ==> all_displayable(s.events@),
        _ => true,
    }
}

/// Whether the model can show what it would show of `resp` (see
/// `resp_showable`).
pub fn can_show(model: &Model, resp: &ServiceResp) -> (r: bool)
    ensures
        r == resp_showable(*model, *resp),
{
    match resp {
        ServiceResp::ChatEvent(e) => {
            let shown = is_selected(&model.session.session_id, &e.session_id)
                && model.session.messages.is_pending();
            !shown || crate::messages_viewport::is_displayable(e)
        },
        ServiceResp::Session(s) => {
            !is_selected(&model.selected_session_id, &s.id)
                || crate::messages_viewport::are_displayable(&s.events)
        },
        _ => true,
    }
}

/// A copy of `id`.
fn copy_id(id: &Option<String>) -> (r: Option<String>)
    ensures
        opt_text(r) == opt_text(*id),
{
    match id {
        Some(i) => Some(i.clone()),
        None => None,
    }
}

/// Handles a response of the service (see `resp_step`).
pub fn handle_service_resp(model: &mut Model, resp: ServiceResp) -> (r: Update)
    requires
        old(model).wf(),
        resp_showable(*old(model), resp),
    ensures
        final(model).wf(),
        resp_step(*old(model), *final(model), resp),
        nothing(r),
{
    match resp {
        ServiceResp::ChatEvent(chat_event) => model.session.handle_chat_event(chat_event),
        ServiceResp::Sessions(session_summaries) => {
            let selected = copy_id(&model.selected_session_id);
            model.session_manager.handle_session_summaries(session_summaries, selected);
        },
        ServiceResp::Session(session) => {
            if is_selected(&model.selected_session_id, &session.id) {
                model.session.handle_session(session);
            }
        },
        ServiceResp::SessionSummary(session_summary) => {
            if is_selected(&model.selected_session_id, &session_summary.id) {
                model.session.handle_session_summary(summary_of(&session_summary));
            }
            model.session_manager.handle_session_summary(session_summary);
        },
        ServiceResp::Error(msg) => {
            model.error_message = Some(msg);
        },
    }
    (None, None)
}

/// Handles a mouse event on the transcript; it changes nothing.
pub fn messages_mouse_event(model: &mut Model, evt: MouseEvent) -> (r: Update)
    ensures
        *final(model) == *old(model),
        nothing(r),
{
    (None, None)
}

/// Handles a mouse event on the input editor; it changes nothing.
pub fn input_editor_mouse_event(model: &mut Model, evt: MouseEvent) -> (r: Update)
    ensures
        *final(model) == *old(model),
        nothing(r),
{
    (None, None)
}

/// Dispatches a mouse event to the part it falls in: the session list when
/// the sidebar is shown, else the transcript, else the input editor. No
/// part reacts to the mouse yet, so nothing changes.
pub fn handle_mouse_event(model: &mut Model, evt: MouseEvent) -> (r: Update)
    ensures
        *final(model) == *old(model),
        nothing(r),
{
    if model.show_sidebar && model.session_manager.area().maybe_mouse_event(evt).is_some() {
        return (None, None);
    }
    match model.session.messages.viewport().area().maybe_mouse_event(evt) {
        Some(e) => {
            return messages_mouse_event(model, e);
        },
        None => {},
    }
    match model.session.input_editor.viewport().area().maybe_mouse_event(evt) {
        Some(e) => {
            return input_editor_mouse_event(model, e);
        },
        None => {},
    }
    (None, None)
}

/// What `update` does with the message `msg`.
pub open spec fn update_step(before: Model, after: Model, msg: Message, r: Update) -> bool {
    match msg {
        Message::Key(evt) => key_step(before, after, evt, r),
        Message::CrosstermClose => quit_set(before, after) && nothing(r),
        Message::MouseEvent(_) => after == before && nothing(r),
        Message::ServiceResp(resp) => resp_step(before, after, resp) && nothing(r),
        Message::Send => exists|s: Option<ChatEvent>|
            {
                &&& sent(before.session, after.session, s)
                &&& after == Model {
                    session: after.session,
                    selected_session_id: after.selected_session_id,
                    ..before
                }
                &&& match s {
                    Some(e) => {
                        &&& after.selected_id() == Some(e.session_id@)
                        &&& r.0 is None
                        &&& r.1 matches Some(Command::ServiceReq(ServiceReq::ChatMessage(c))) && c
                            == e
                    },
                    None => after.selected_id() == before.selected_id() && nothing(r),
                }
            },
        Message::Editing => exists|m: Model|
            {
                &&& focus_shifted_to(before, m, Focused::InputEditor)
                &&& with_editor(m, after)
                &&& editing_set(ed(m), ed(after), true)
                &&& nothing(r)
            },
        Message::Setting => {
            &&& nothing(r)
            &&& match before.setting_manager_popup {
                None => after.setting_manager_popup matches Some(p) && p.settings()
                    == before.session.llm_settings && p.selection()
                    == crate::setting_manager::model_entry(before.session.llm_settings) && after
                    == Model { setting_manager_popup: after.setting_manager_popup, ..before },
                Some(p) => after == Model {
                    setting_manager_popup: None,
                    session: Session { llm_settings: p.settings(), ..before.session },
                    ..before
                },
            }
        },
        Message::NewSession => drafted(before, after) && nothing(r),
        Message::DeleteSession => match before.selected_id() {
            Some(id) => {
                &&& after == before
                &&& r.0 == Some(Message::SelectNextSession)
                &&& r.1 matches Some(Command::ServiceReq(ServiceReq::DeleteSession(d))) && d@ == id
            },
            None => after == before && nothing(r),
        },
        Message::SelectNextSession => exists|id: Option<Seq<char>>|
            {
                &&& selected_next(before.session_manager, after.session_manager, id)
                &&& after == Model {
                    session_manager: after.session_manager,
                    selected_session_id: after.selected_session_id,
                    ..before
                }
                &&& after.selected_id() == match id {
                    Some(i) => Some(i),
                    None => before.selected_id(),
                }
                &&& r.0 is None
                &&& match id {
                    Some(i) => r.1 matches Some(Command::ServiceReq(ServiceReq::GetSession(g))) && g@
                        == i,
                    None => r.1 is None,
                }
            },
        Message::SelectPrevSession => exists|id: Option<Seq<char>>|
            {
                &&& selected_previous(before.session_manager, after.session_manager, id)
                &&& after == Model {
                    session_manager: after.session_manager,
                    selected_session_id: after.selected_session_id,
                    ..before
                }
                &&& after.selected_id() == match id {
                    Some(i) => Some(i),
                    None => before.selected_id(),
                }
                &&& r.0 is None
                &&& match id {
                    Some(i) => r.1 matches Some(Command::ServiceReq(ServiceReq::GetSession(g))) && g@
                        == i,
                    None => r.1 is None,
                }
            },
        Message::Paste(data) => {
            &&& nothing(r)
            &&& before.focused == Focused::InputEditor ==> {
                &&& with_editor(before, after)
                &&& pasted(ed(before), ed(after), data@)
            }
            &&& before.focused != Focused::InputEditor ==> after == before
        },
        Message::ExternalEditingComplete(data) => {
            &&& nothing(r)
            &&& with_editor(before, after)
            &&& replaced(ed(before), ed(after), data@)
        },
    }
}

/// Updates the model with the message `msg` and returns the message that
/// follows, for a chained update, and the side effect asked for (see
/// `update_step`).
pub fn update(model: &mut Model, msg: Message) -> (r: Update)
    requires
        old(model).wf(),
        msg matches Message::ServiceResp(resp) ==> resp_showable(*old(model), resp),
    ensures
        final(model).wf(),
        update_step(*old(model), *final(model), msg, r),
{
    match msg {
        Message::Key(evt) => {
            return handle_key_event(model, evt);
        },
        Message::CrosstermClose => {
            model.should_quit = true;
        },
        Message::MouseEvent(evt) => {
            return handle_mouse_event(model, evt);
        },
        Message::ServiceResp(resp) => {
            return handle_service_resp(model, resp);
        },
        /* ----- model wide activities ----- */
        Message::Send => {
            let sent_message = model.session.handle_sending_user_message();
            match sent_message {
                Some(user_message) => {
                    model.selected_session_id = Some(user_message.session_id.clone());
                    return (None, Some(Command::ServiceReq(ServiceReq::ChatMessage(user_message))));
                },
                None => {},
            }
        },
        Message::Editing => {
            model.shift_focus_to(Focused::InputEditor);
            let ghost m = *model;
            model.session.input_editor.set_is_editing(true);
            assert(with_editor(m, *model));
        },
        Message::Setting => {
            match model.setting_manager_popup.take() {
                None => {
                    model.setting_manager_popup = Some(SettingManager::new(model.session.llm_settings()));
                },
                Some(setting_manager) => {
                    model.session.llm_settings = setting_manager.llm_settings();
                },
            }
        },
        Message::NewSession => {
            model.new_draft_chat();
        },
        Message::DeleteSession => {
            match &model.selected_session_id {
                Some(session_id) => {
                    return (
                        Some(Message::SelectNextSession),
                        Some(Command::ServiceReq(ServiceReq::DeleteSession(session_id.clone()))),
                    );
                },
                None => {},
            }
        },
        Message::SelectNextSession => {
            let selected = model.handle_select_next_session();
            let ghost id = opt_text(selected);
            let maybe_cmd = match selected {
                Some(id) => Some(Command::ServiceReq(ServiceReq::GetSession(id))),
                None => None,
            };
            assert(selected_next(old(model).session_manager, model.session_manager, id));
            assert(model.selected_id() == match id {
                Some(i) => Some(i),
                None => old(model).selected_id(),
            });
            return (None, maybe_cmd);
        },
        Message::SelectPrevSession => {
            let selected = model.handle_select_prev_session();
            let ghost id = opt_text(selected);
            let maybe_cmd = match selected {
                Some(id) => Some(Command::ServiceReq(ServiceReq::GetSession(id))),
                None => None,
            };
            assert(selected_previous(old(model).session_manager, model.session_manager, id));
            assert(model.selected_id() == match id {
                Some(i) => Some(i),
                None => old(model).selected_id(),
            });
            return (None, maybe_cmd);
        },
        /* ----- editor activities ----- */
        Message::Paste(data) => {
            if model.focused == Focused::InputEditor {
                model.session.input_editor.paste_data(data.as_str());
            }
        },
        Message::ExternalEditingComplete(data) => {
            model.session.input_editor.handle_editting_in_editor(data);
        },
    }
    (None, None)
}

/// A key event with no modifier held.
pub open spec fn plain_key(code: KeyCode) -> KeyEvent {
    KeyEvent {
        code,
        modifiers: KeyModifiers {
            shift: false,
            control: false,
            alt: false,
            super_key: false,
            hyper: false,
            meta: false,
        },
    }
}

/// In the input editor, `Esc` leaves input mode and `i` enters it again: the
/// editor is back in input mode with the same text and cursor, and keeps the
/// focus.
pub proof fn law_esc_then_i(
    m0: Model,
    m1: Model,
    m2: Model,
    m3: Model,
    r1: Update,
    r2: Update,
    r3: Update,
)
    requires
        m0.wf(),
        m0.error_message is None,
        m0.setting_manager_popup is None,
        m0.focused == Focused::InputEditor,
        ed(m0).editing(),
        update_step(m0, m1, Message::Key(plain_key(KeyCode::Esc)), r1),
        update_step(m1, m2, Message::Key(plain_key(KeyCode::Char('i'))), r2),
        update_step(m2, m3, r2.0->0, r3),
    ensures
        !ed(m1).editing(),
        r2.0 == Some(Message::Editing),
        ed(m3).editing(),
        m3.focused == Focused::InputEditor,
        ed(m3).text() == ed(m0).text(),
        ed(m3).cursor() == ed(m0).cursor(),
        nothing(r3),
{
    assert(!plain_key(KeyCode::Esc).modifiers.is_control());
    assert(ed(m1).editing() == false);
    assert(m1.focused == Focused::InputEditor);
    assert(m2 == m1);
    let m = choose|m: Model|
        {
            &&& focus_shifted_to(m2, m, Focused::InputEditor)
            &&& with_editor(m, m3)
            &&& editing_set(ed(m), ed(m3), true)
            &&& nothing(r3)
        };
    assert(crate::editor::same_but_focus(ed(m2), ed(m)));
}

/// Outside input mode, `s` opens the model selection and `Esc` closes it
/// again, leaving the model as it was.
pub proof fn law_settings_cancelled(
    m0: Model,
    m1: Model,
    m2: Model,
    m3: Model,
    r1: Update,
    r2: Update,
    r3: Update,
)
    requires
        m0.wf(),
        m0.error_message is None,
        m0.setting_manager_popup is None,
        m0.focused != Focused::InputEditor || !ed(m0).editing(),
        update_step(m0, m1, Message::Key(plain_key(KeyCode::Char('s'))), r1),
        update_step(m1, m2, r1.0->0, r2),
        update_step(m2, m3, Message::Key(plain_key(KeyCode::Esc)), r3),
    ensures
        r1.0 == Some(Message::Setting),
        m2.setting_manager_popup is Some,
        m3 == m0,
        nothing(r3),
{
    assert(m1 == m0);
}

/// With the focus on the session list, Down or `j` asks for the next session
/// and Up or `k` for the previous one; neither changes the model, and the two
/// messages differ.
pub proof fn law_session_list_up_and_down(
    m: Model,
    after_up: Model,
    after_down: Model,
    up: KeyEvent,
    down: KeyEvent,
    r_up: Update,
    r_down: Update,
)
    requires
        up.code == KeyCode::Up || up.code == KeyCode::Char('k'),
        down.code == KeyCode::Down || down.code == KeyCode::Char('j'),
        manager_key(m, after_up, up, r_up),
        manager_key(m, after_down, down, r_down),
    ensures
        r_up.0 == Some(Message::SelectPrevSession),
        r_up.1 is None,
        r_down.0 == Some(Message::SelectNextSession),
        r_down.1 is None,
        r_up.0 != r_down.0,
        after_up == m,
        after_down == m,
{
}

/// With the focus on the session list, `n` asks for a new session, `d` for
/// deleting the selected one, `i` for editing and `s` for the settings, each
/// leaving the model as it is; `q` asks to quit and asks for nothing.
pub proof fn law_session_list_keys(m: Model, after: Model, evt: KeyEvent, r: Update)
    requires
        manager_key(m, after, evt, r),
    ensures
        evt.code == KeyCode::Char('n') ==> after == m && r.0 == Some(Message::NewSession) && r.1 is None,
        evt.code == KeyCode::Char('d') ==> after == m && r.0 == Some(Message::DeleteSession) && r.1 is None,
        evt.code == KeyCode::Char('i') ==> after == m && r.0 == Some(Message::Editing) && r.1 is None,
        evt.code == KeyCode::Char('s') ==> after == m && r.0 == Some(Message::Setting) && r.1 is None,
        evt.code == KeyCode::Char('q') ==> after.should_quit && r.0 is None && r.1 is None,
{
}

/// In the settings popup, Down or `j` selects the next model entry and Up or
/// `k` the previous one (when there is one and settings to change), Enter asks
/// to apply the settings and Esc closes the popup.
pub proof fn law_popup_keys(m: Model, after: Model, p: SettingManager, evt: KeyEvent, r: Update)
    requires
        popup_key(m, after, p, evt, r),
        p.selection() is Some,
        p.settings().provider is Some,
    ensures
        (evt.code == KeyCode::Down || evt.code == KeyCode::Char('j')) && p.selection().unwrap() + 1 < 5
            ==> (after.setting_manager_popup matches Some(q) && q.selection() == Some(
            (p.selection().unwrap() + 1) as usize,
        )),
        (evt.code == KeyCode::Up || evt.code == KeyCode::Char('k')) && 0 < p.selection().unwrap() < 5
            ==> (after.setting_manager_popup matches Some(q) && q.selection() == Some(
            (p.selection().unwrap() - 1) as usize,
        )),
        evt.code == KeyCode::Enter ==> r.0 == Some(Message::Setting) && after == m,
        evt.code == KeyCode::Esc ==> after.setting_manager_popup is None && r.0 is None,
{
}

} // verus!
