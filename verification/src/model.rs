//! The application model: the current session, the session list, the
//! settings popup, the error to show, and which part holds the focus.
use crate::config::{config_settings, Config};
use crate::focus::{Focusable, Focused};
use crate::messages::Messages;
use crate::session::{opt_text, Session};
use crate::session_manager::{selected_id, selected_next, selected_previous, SessionManager};
use crate::setting_manager::SettingManager;
use vstd::prelude::*;

verus! {

/// The order in which Tab moves the focus: the session list first when the
/// sidebar is shown, then the transcript, then the input editor.
pub open spec fn focus_order_for(show_sidebar: bool) -> Seq<Focused> {
    if show_sidebar {
        seq![Focused::SessionManager, Focused::Messages, Focused::InputEditor]
    } else {
        seq![Focused::Messages, Focused::InputEditor]
    }
}

/// Index of `f` in `order`, if listed.
pub open spec fn index_in(order: Seq<Focused>, f: Focused) -> Option<int> {
    if order.len() > 0 && order[0] == f {
        Some(0)
    } else if order.len() > 1 && order[1] == f {
        Some(1)
    } else if order.len() > 2 && order[2] == f {
        Some(2)
    } else {
        None
    }
}

/// The part after `f` in `order`, cyclically, if `f` is listed.
pub open spec fn next_focus(order: Seq<Focused>, f: Focused) -> Option<Focused> {
    match index_in(order, f) {
        Some(i) => Some(order[(i + 1) % (order.len() as int)]),
        None => None,
    }
}

/// `after` is `before` with the focus cycled to the next part of the focus
/// order; unchanged when the focused part is not listed.
pub open spec fn focus_shifted(before: Model, after: Model) -> bool {
    &&& after.wf()
    &&& match next_focus(before.order(), before.focus()) {
        Some(to) => before.focus_moved(after, before.focus(), to),
        None => after == before,
    }
}

/// `after` is `before` with the focus moved to `new` (see
/// `Model::shift_focus_to`).
pub open spec fn focus_shifted_to(before: Model, after: Model, new: Focused) -> bool {
    &&& after.wf()
    &&& index_in(before.order(), before.focus()) is None ==> after == before
    &&& index_in(before.order(), before.focus()) is Some ==> {
        &&& after.same_but_focus(before)
        &&& after.focus() == new
        &&& index_in(before.order(), new) is Some ==> after.flag(new)
        &&& index_in(before.order(), new) is None ==> after.flag(new) == (if new == before.focus() {
            false
        } else {
            before.flag(new)
        })
        &&& new != before.focus() ==> !after.flag(before.focus())
        &&& forall|f: Focused| f != before.focus() && f != new ==> after.flag(f) == before.flag(f)
    }
}

/// The application model.
pub struct Model {
    pub configs: Config,
    /// Current session.
    pub session: Session,
    pub session_manager: SessionManager,
    /// Source of truth for selected session id.
    /// It might not be in session_manager for newly created session.
    /// It might not be the same as id in session while waiting for fetching selected session.
    pub selected_session_id: Option<String>,
    pub setting_manager_popup: Option<SettingManager>,
    /// Irrecoverable failure message.
    pub error_message: Option<String>,
    pub show_sidebar: bool,
    pub focused: Focused,
    /// The order in which Tab moves the focus.
    pub focus_order: Vec<Focused>,
    pub should_quit: bool,
}

impl Model {
    pub open spec fn cfg(&self) -> Config {
        self.configs
    }

    pub open spec fn sess(&self) -> Session {
        self.session
    }

    pub open spec fn mgr(&self) -> SessionManager {
        self.session_manager
    }

    pub open spec fn selected_id(&self) -> Option<Seq<char>> {
        opt_text(self.selected_session_id)
    }

    pub open spec fn popup(&self) -> Option<SettingManager> {
        self.setting_manager_popup
    }

    pub open spec fn error(&self) -> Option<Seq<char>> {
        opt_text(self.error_message)
    }

    pub open spec fn sidebar(&self) -> bool {
        self.show_sidebar
    }

    pub open spec fn focus(&self) -> Focused {
        self.focused
    }

    pub open spec fn order(&self) -> Seq<Focused> {
        self.focus_order@
    }

    pub open spec fn quitting(&self) -> bool {
        self.should_quit
    }

    /// The focus order matches the sidebar and the session is well formed.
    pub open spec fn wf(&self) -> bool {
        &&& self.order() == focus_order_for(self.sidebar())
        &&& self.sess().wf()
    }

    /// The focus flag of the part `f`.
    pub open spec fn flag(&self, f: Focused) -> bool {
        match f {
            Focused::InputEditor => self.sess().editor().has_focus(),
            Focused::Messages => self.sess().msgs().has_focus(),
            Focused::SessionManager => self.mgr().has_focus(),
        }
    }

    /// `self` and `other` are the same model but for the focused part and the
    /// focus flags.
    pub open spec fn same_but_focus(&self, other: Model) -> bool {
        &&& self.cfg() == other.cfg()
        &&& self.selected_id() == other.selected_id()
        &&& self.popup() == other.popup()
        &&& self.error() == other.error()
        &&& self.sidebar() == other.sidebar()
        &&& self.order() == other.order()
        &&& self.quitting() == other.quitting()
        &&& self.sess().id() == other.sess().id()
        &&& self.sess().settings() == other.sess().settings()
        &&& crate::editor::same_but_focus(self.sess().editor(), other.sess().editor())
        &&& crate::messages::same_but_focus(self.sess().msgs(), other.sess().msgs())
        &&& crate::session_manager::same_but_focus(self.mgr(), other.mgr())
    }

    /// `after` is this model with the focus moved from `from` to `to`: the
    /// flag of `from` off, then that of `to` on, the other flag unchanged.
    pub open spec fn focus_moved(&self, after: Model, from: Focused, to: Focused) -> bool {
        &&& after.same_but_focus(*self)
        &&& after.focus() == to
        &&& after.flag(to)
        &&& from != to ==> !after.flag(from)
        &&& forall|f: Focused| f != from && f != to ==> after.flag(f) == self.flag(f)
    }

    /// Sets the focus flag of the part `which`.
    fn set_flag(&mut self, which: Focused, on: bool)
        requires
            old(self).wf(),
        ensures
            final(self).wf(),
            final(self).same_but_focus(*old(self)),
            final(self).focus() == old(self).focus(),
            final(self).flag(which) == on,
            forall|f: Focused| f != which ==> final(self).flag(f) == old(self).flag(f),
    {
        match which {
            Focused::InputEditor => self.session.input_editor.set_focus(on),
            Focused::Messages => self.session.messages.set_focus(on),
            Focused::SessionManager => self.session_manager.set_focus(on),
        }
    }

    /// Index of the focused part in the focus order, if listed.
    pub fn get_focused_idx(&self) -> (r: Option<usize>)
        ensures
            match r {
                Some(i) => index_in(self.order(), self.focus()) == Some(i as int) && i < self.order().len(),
                None => index_in(self.order(), self.focus()) == None::<int>,
            },
    {
        let n = self.focus_order.len();
        if n > 0 && self.focus_order[0] == self.focused {
            Some(0)
        } else if n > 1 && self.focus_order[1] == self.focused {
            Some(1)
        } else if n > 2 && self.focus_order[2] == self.focused {
            Some(2)
        } else {
            None
        }
    }

    /// Cycles the focus to the next part in the focus order; nothing changes
    /// when the focused part is not listed.
    pub fn shift_focus(&mut self)
        requires
            old(self).wf(),
        ensures
            focus_shifted(*old(self), *final(self)),
    {
        match self.get_focused_idx() {
            Some(old_idx) => {
                let from = self.focused;
                self.set_flag(from, false);
                let new_idx = (old_idx + 1) % self.focus_order.len();
                let to = self.focus_order[new_idx];
                self.focused = to;
                self.set_flag(to, true);
            },
            None => {},
        }
    }

    /// Moves the focus to `new`: when the focused part is listed, its flag
    /// goes off and the focus moves to `new`, whose flag goes on when `new`
    /// is listed; otherwise nothing changes.
    pub fn shift_focus_to(&mut self, new: Focused)
        requires
            old(self).wf(),
        ensures
            focus_shifted_to(*old(self), *final(self), new),
    {
        match self.get_focused_idx() {
            Some(_) => {
                let from = self.focused;
                self.set_flag(from, false);
            },
            None => {
                return;
            },
        }
        self.focused = new;
        match self.get_focused_idx() {
            Some(_) => self.set_flag(new, true),
            None => {},
        }
    }
}


/// The model `after` is `before` with the sidebar toggled: shown, it comes
/// first in the focus order and takes the focus; hidden, it leaves the order
/// and hands the focus, if it had it, to the input editor.
pub open spec fn sidebar_toggled(before: Model, after: Model) -> bool {
    &&& after.wf()
    &&& after.sidebar() == !before.sidebar()
    &&& !before.sidebar() ==> {
        &&& after.focus() == Focused::SessionManager
        &&& after.flag(Focused::SessionManager)
        &&& before.focus() != Focused::SessionManager ==> !after.flag(before.focus())
        &&& forall|f: Focused|
            f != before.focus() && f != Focused::SessionManager ==> after.flag(f) == before.flag(f)
    }
    &&& before.sidebar() && before.focus() == Focused::SessionManager ==> {
        &&& after.focus() == Focused::InputEditor
        &&& after.flag(Focused::InputEditor)
        &&& !after.flag(Focused::SessionManager)
        &&& after.flag(Focused::Messages) == before.flag(Focused::Messages)
    }
    &&& before.sidebar() && before.focus() != Focused::SessionManager ==> {
        &&& after.focus() == before.focus()
        &&& forall|f: Focused| after.flag(f) == before.flag(f)
    }
    &&& after.cfg() == before.cfg()
    &&& after.selected_id() == before.selected_id()
    &&& after.popup() == before.popup()
    &&& after.error() == before.error()
    &&& after.quitting() == before.quitting()
    &&& after.sess().id() == before.sess().id()
    &&& after.sess().settings() == before.sess().settings()
    &&& crate::editor::same_but_focus(after.sess().editor(), before.sess().editor())
    &&& crate::messages::same_but_focus(after.sess().msgs(), before.sess().msgs())
    &&& crate::session_manager::same_but_focus(after.mgr(), before.mgr())
}

/// `after` is `before` with a new empty chat opened for editing (see
/// `Model::new_draft_chat`).
pub open spec fn drafted(before: Model, after: Model) -> bool {
    &&& after.wf()
    &&& after.sess().id() == None::<Seq<char>>
    &&& after.sess().settings() == config_settings(before.cfg())
    &&& after.sess().msgs().events() == Seq::<crate::chat::ChatEvent>::empty()
    &&& after.sess().msgs().stream() == None::<Seq<char>>
    &&& !after.sess().msgs().pending()
    &&& after.sess().msgs().vp().scroll().vertical_scroll_offset == 0
    &&& after.sess().msgs().vp().text() == Seq::<char>::empty()
    &&& after.selected_id() == None::<Seq<char>>
    &&& after.mgr().selection() == None::<usize>
    &&& after.mgr().summaries() == before.mgr().summaries()
    &&& after.sess().editor().text() == before.sess().editor().text()
    &&& after.sess().editor().editing()
    &&& index_in(before.order(), before.focus()) is Some ==> {
                &&& after.focus() == Focused::InputEditor
                &&& after.flag(Focused::InputEditor)
            }
    &&& after.cfg() == before.cfg()
    &&& after.sidebar() == before.sidebar()
    &&& after.popup() == before.popup()
    &&& after.error() == before.error()
    &&& after.quitting() == before.quitting()
}

impl Model {
    /// A model for the configuration `configs`: a new session with the
    /// configured settings, no sessions listed, the sidebar hidden, and the
    /// focus on the input editor, which is editing.
    pub fn new(configs: Config) -> (m: Self)
        ensures
            m.wf(),
            m.cfg() == configs,
            m.sess().id() == None::<Seq<char>>,
            m.sess().settings() == config_settings(configs),
            m.sess().msgs().is_empty(),
            m.sess().editor().text() == Seq::<char>::empty(),
            m.sess().editor().editing(),
            m.mgr().summaries() == Seq::<crate::chat::ChatSession>::empty(),
            m.mgr().selection() == None::<usize>,
            m.selected_id() == None::<Seq<char>>,
            m.popup() == None::<SettingManager>,
            m.error() == None::<Seq<char>>,
            !m.sidebar(),
            !m.quitting(),
            m.focus() == Focused::InputEditor,
            m.flag(Focused::InputEditor),
            !m.flag(Focused::Messages),
            !m.flag(Focused::SessionManager),
    {
        let default_llm_settings = configs.derive_llm_settings();
        let mut this = Model {
            configs,
            session: Session::new(default_llm_settings),
            session_manager: SessionManager::new(),
            selected_session_id: None,
            setting_manager_popup: None,
            error_message: None,
            show_sidebar: false,
            should_quit: false,
            focused: Focused::InputEditor,
            focus_order: Vec::new(),
        };
        this.focus_order.push(Focused::Messages);
        this.focus_order.push(Focused::InputEditor);
        assert(this.focus_order@ =~= focus_order_for(false));
        this.shift_focus_to(Focused::InputEditor);
        assert(!this.flag(Focused::Messages));
        assert(!this.flag(Focused::SessionManager));
        this.session.input_editor.set_is_editing(true);
        this
    }

    pub fn quit(&mut self)
        ensures
            final(self).quitting(),
            *final(self) == (Model { should_quit: true, ..*old(self) }),
    {
        self.should_quit = true;
    }

    /// Shows or hides the sidebar (see `sidebar_toggled`).
    pub fn toggle_sidebar(&mut self)
        requires
            old(self).wf(),
        ensures
            sidebar_toggled(*old(self), *final(self)),
    {
        if !self.show_sidebar {
            self.focus_order.insert(0, Focused::SessionManager);
            assert(self.focus_order@ =~= focus_order_for(true));
            self.show_sidebar = true;
            self.shift_focus_to(Focused::SessionManager);
        } else {
            if self.focused == Focused::SessionManager {
                self.shift_focus_to(Focused::InputEditor);
            }
            self.focus_order.remove(0);
            assert(self.focus_order@ =~= focus_order_for(false));
            self.show_sidebar = false;
        }
    }

    /// Opens a new empty chat with the configured settings and enables
    /// editing: the session, its transcript and the selection are reset, the
    /// input is kept, and the focus moves to the input editor.
    pub fn new_draft_chat(&mut self)
        requires
            old(self).wf(),
        ensures
            drafted(*old(self), *final(self)),
    {
        let settings = self.configs.derive_llm_settings();
        self.session.reset(settings);
        self.selected_session_id = None;
        self.session_manager.set_selected(None);
        self.shift_focus_to(Focused::InputEditor);
        self.session.input_editor.set_is_editing(true);
    }

    /// Selects the next session in the session list and returns its id,
    /// which becomes the selected session id; nothing else changes when
    /// there is none.
    pub fn handle_select_next_session(&mut self) -> (r: Option<String>)
        requires
            old(self).wf(),
        ensures
            final(self).wf(),
            selected_next(old(self).mgr(), final(self).mgr(), opt_text(r)),
            final(self).selected_id() == match r {
                Some(id) => Some(id@),
                None => old(self).selected_id(),
            },
            *final(self) == (Model {
                session_manager: final(self).session_manager,
                selected_session_id: final(self).selected_session_id,
                ..*old(self)
            }),
            final(self).sess() == old(self).sess(),
            final(self).cfg() == old(self).cfg(),
            final(self).popup() == old(self).popup(),
            final(self).error() == old(self).error(),
            final(self).sidebar() == old(self).sidebar(),
            final(self).focus() == old(self).focus(),
            final(self).order() == old(self).order(),
            final(self).quitting() == old(self).quitting(),
    {
        match self.session_manager.select_next() {
            Some(selected_session_id) => {
                self.selected_session_id = Some(selected_session_id.clone());
                Some(selected_session_id)
            },
            None => None,
        }
    }

    /// Selects the previous session in the session list and returns its id,
    /// which becomes the selected session id; nothing else changes when
    /// there is none.
    pub fn handle_select_prev_session(&mut self) -> (r: Option<String>)
        requires
            old(self).wf(),
        ensures
            final(self).wf(),
            selected_previous(old(self).mgr(), final(self).mgr(), opt_text(r)),
            final(self).selected_id() == match r {
                Some(id) => Some(id@),
                None => old(self).selected_id(),
            },
            *final(self) == (Model {
                session_manager: final(self).session_manager,
                selected_session_id: final(self).selected_session_id,
                ..*old(self)
            }),
            final(self).sess() == old(self).sess(),
            final(self).cfg() == old(self).cfg(),
            final(self).popup() == old(self).popup(),
            final(self).error() == old(self).error(),
            final(self).sidebar() == old(self).sidebar(),
            final(self).focus() == old(self).focus(),
            final(self).order() == old(self).order(),
            final(self).quitting() == old(self).quitting(),
    {
        match self.session_manager.select_previous() {
            Some(selected_session_id) => {
                self.selected_session_id = Some(selected_session_id.clone());
                Some(selected_session_id)
            },
            None => None,
        }
    }
}

/// Pressing Tab once for each part of the focus order brings the focus back
/// to the part that had it, with that part's focus flag on, and leaves the
/// order as it was.
pub proof fn law_tab_cycles(ms: Seq<Model>)
    requires
        ms.len() == ms[0].order().len() + 1,
        ms[0].wf(),
        index_in(ms[0].order(), ms[0].focus()) is Some,
        forall|i: int| 0 <= i < ms.len() - 1 ==> focus_shifted(#[trigger] ms[i], ms[i + 1]),
    ensures
        ms.last().focus() == ms[0].focus(),
        ms.last().flag(ms[0].focus()),
        ms.last().order() == ms[0].order(),
        ms.last().sidebar() == ms[0].sidebar(),
{
    let order = ms[0].order();
    assert(focus_shifted(ms[0], ms[1]));
    assert(ms[1].order() == order && ms[1].sidebar() == ms[0].sidebar());
    assert(focus_shifted(ms[1], ms[2]));
    assert(ms[2].order() == order && ms[2].sidebar() == ms[0].sidebar());
    if ms[0].sidebar() {
        assert(order == seq![Focused::SessionManager, Focused::Messages, Focused::InputEditor]);
        assert(1int % 3 == 1 && 2int % 3 == 2 && 3int % 3 == 0);
        assert(focus_shifted(ms[2], ms[3]));
        if ms[0].focus() == Focused::SessionManager {
            assert(ms[1].focus() == Focused::Messages);
            assert(ms[2].focus() == Focused::InputEditor);
        } else if ms[0].focus() == Focused::Messages {
            assert(ms[1].focus() == Focused::InputEditor);
            assert(ms[2].focus() == Focused::SessionManager);
        } else {
            assert(ms[1].focus() == Focused::SessionManager);
            assert(ms[2].focus() == Focused::Messages);
        }
    } else {
        assert(order == seq![Focused::Messages, Focused::InputEditor]);
        assert(ms[2].focus() == ms[0].focus());
    }
}

/// Toggling the sidebar twice shows or hides it as before, with the same focus
/// order; the focus ends on the session list when the sidebar was shown, and on
/// the input editor when it was hidden.
pub proof fn law_sidebar_toggled_twice(m0: Model, m1: Model, m2: Model)
    requires
        m0.wf(),
        sidebar_toggled(m0, m1),
        sidebar_toggled(m1, m2),
    ensures
        m2.sidebar() == m0.sidebar(),
        m2.order() == m0.order(),
        m2.focus() == (if m0.sidebar() {
            Focused::SessionManager
        } else {
            Focused::InputEditor
        }),
        m2.flag(m2.focus()),
        m2.sess().editor().text() == m0.sess().editor().text(),
        m2.sess().msgs().events() == m0.sess().msgs().events(),
        m2.mgr().summaries() == m0.mgr().summaries(),
{
}

} // verus!
