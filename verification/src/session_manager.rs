//! The list of chat sessions in the sidebar: most recently updated first,
//! with the selected one.
use crate::area::Area;
use crate::chat::{ChatSession, Timestamp};
use crate::focus::{Focusable, Focused};
use crate::session::opt_text;
use vstd::prelude::*;

verus! {

/// `a` sorts before `b` as update times: no time before any time, then by
/// seconds and nanoseconds.
pub open spec fn time_lt(a: Option<Timestamp>, b: Option<Timestamp>) -> bool {
    match (a, b) {
        (None, Some(_)) => true,
        (Some(x), Some(y)) => x.seconds < y.seconds || (x.seconds == y.seconds && x.nanos < y.nanos),
        _ => false,
    }
}

/// Where `x` goes among the sessions `s` sorted by recency: before the first
/// one updated earlier than it.
pub open spec fn insert_pos(s: Seq<ChatSession>, x: ChatSession) -> int
    decreases s.len(),
{
    if s.len() == 0 {
        0
    } else if time_lt(s[0].updated_at, x.updated_at) {
        0
    } else {
        1 + insert_pos(s.drop_first(), x)
    }
}

/// The sessions `items` sorted by update time, most recent first; sessions
/// updated at the same time (or without a time) keep their order.
pub open spec fn by_recency(items: Seq<ChatSession>) -> Seq<ChatSession>
    decreases items.len(),
{
    if items.len() == 0 {
        items
    } else {
        let s = by_recency(items.drop_last());
        s.insert(insert_pos(s, items.last()), items.last())
    }
}

/// Index of the first session of `s` with id `id`, if any.
pub open spec fn position_of(s: Seq<ChatSession>, id: Seq<char>) -> Option<int>
    decreases s.len(),
{
    if s.len() == 0 {
        None
    } else if s[0].id@ == id {
        Some(0)
    } else {
        match position_of(s.drop_first(), id) {
            Some(i) => Some(i + 1),
            None => None,
        }
    }
}

/// Whether `a` sorts before `b` as update times (see `time_lt`).
fn time_less(a: &Option<Timestamp>, b: &Option<Timestamp>) -> (r: bool)
    ensures
        r == time_lt(*a, *b),
{
    match (a, b) {
        (None, Some(_)) => true,
        (Some(x), Some(y)) => x.seconds < y.seconds || (x.seconds == y.seconds && x.nanos < y.nanos),
        _ => false,
    }
}

/// Index of the first session of `s` with id `id` (see `position_of`).
fn find_session(s: &Vec<ChatSession>, id: &String) -> (r: Option<usize>)
    ensures
        match r {
            Some(i) => position_of(s@, id@) == Some(i as int) && i < s@.len(),
            None => position_of(s@, id@) == None::<int>,
        },
{
    let mut i: usize = 0;
    assert(s@.skip(0) =~= s@);
    while i < s.len()
        invariant
            i <= s@.len(),
            position_of(s@, id@) == match position_of(s@.skip(i as int), id@) {
                Some(k) => Some(k + i),
                None => None::<int>,
            },
        decreases s.len() - i,
    {
        let ghost sk = s@.skip(i as int);
        assert(sk[0] == s@[i as int]);
        assert(sk.drop_first() =~= s@.skip(i + 1));
        if s[i].id == *id {
            return Some(i);
        }
        i = i + 1;
    }
    assert(s@.skip(i as int) =~= Seq::<ChatSession>::empty());
    None
}

/// `a` and `b` are the same session list but for the focus.
pub open spec fn same_but_focus(a: SessionManager, b: SessionManager) -> bool {
    &&& a.summaries() == b.summaries()
    &&& a.selection() == b.selection()
    &&& a.list_offset() == b.list_offset()
    &&& a.mouse_area() == b.mouse_area()
}

/// `after` is the session list `before` with the next session selected, and
/// `r` the id of the session selected (see `SessionManager::select_next`).
pub open spec fn selected_next(before: SessionManager, after: SessionManager, r: Option<Seq<char>>) -> bool {
    &&& after.summaries() == before.summaries()
    &&& after.list_offset() == before.list_offset()
    &&& after.has_focus() == before.has_focus()
    &&& after.mouse_area() == before.mouse_area()
    &&& match before.selection() {
        Some(i) => if i + 1 < before.summaries().len() {
            &&& after.selection() == Some((i + 1) as usize)
            &&& r == Some(before.summaries()[i + 1].id@)
        } else {
            &&& after.selection() == before.selection()
            &&& r == None::<Seq<char>>
        },
        None => {
            &&& after.selection() == Some(0usize)
            &&& r == if before.summaries().len() > 0 {
                Some(before.summaries()[0].id@)
            } else {
                None
            }
        },
    }
}

/// `after` is the session list `before` with the previous session selected,
/// and `r` the id of the session selected (see
/// `SessionManager::select_previous`).
pub open spec fn selected_previous(before: SessionManager, after: SessionManager, r: Option<Seq<char>>) -> bool {
    &&& after.summaries() == before.summaries()
    &&& after.list_offset() == before.list_offset()
    &&& after.has_focus() == before.has_focus()
    &&& after.mouse_area() == before.mouse_area()
    &&& match before.selection() {
        Some(i) => if i > 0 {
            &&& after.selection() == Some((i - 1) as usize)
            &&& r == if i - 1 < before.summaries().len() {
                Some(before.summaries()[i - 1].id@)
            } else {
                None
            }
        } else {
            &&& after.selection() == before.selection()
            &&& r == None::<Seq<char>>
        },
        None => after.selection() == before.selection() && r == None::<Seq<char>>,
    }
}

/// `after` is the session list `before` with the session of id `id` (if any
/// and listed) selected (see `SessionManager::set_selected`).
pub open spec fn selected_id(before: SessionManager, after: SessionManager, id: Option<Seq<char>>) -> bool {
    &&& after.summaries() == before.summaries()
    &&& after.has_focus() == before.has_focus()
    &&& after.mouse_area() == before.mouse_area()
    &&& after.selection() == match id {
        Some(id) => match position_of(before.summaries(), id) {
            Some(i) => Some(i as usize),
            None => None,
        },
        None => None::<usize>,
    }
    &&& after.list_offset() == if after.selection() is None {
        0
    } else {
        before.list_offset()
    }
}

/// The sessions in the sidebar.
pub struct SessionManager {
    session_summaries: Vec<ChatSession>,
    /// Index of the selected session.
    selected: Option<usize>,
    /// Index of the first session shown.
    offset: usize,
    focused: bool,
    area: Area,
}

impl Focusable for SessionManager {
    closed spec fn has_focus(&self) -> bool {
        self.focused
    }

    closed spec fn kind(&self) -> Focused {
        Focused::SessionManager
    }

    fn set_focus(&mut self, focused: bool)
        ensures
            same_but_focus(*old(self), *final(self)),
    {
        self.focused = focused;
    }

    fn is_focused(&self) -> (r: bool) {
        self.focused
    }

    fn to_focused(&self) -> (r: Focused) {
        Focused::SessionManager
    }
}

impl SessionManager {
    pub closed spec fn summaries(&self) -> Seq<ChatSession> {
        self.session_summaries@
    }

    pub closed spec fn selection(&self) -> Option<usize> {
        self.selected
    }

    pub closed spec fn list_offset(&self) -> usize {
        self.offset
    }

    pub closed spec fn mouse_area(&self) -> Area {
        self.area
    }

    /// No sessions, none selected, not scrolled, not focused.
    pub fn new() -> (m: Self)
        ensures
            m.summaries() == Seq::<ChatSession>::empty(),
            m.selection() == None::<usize>,
            m.list_offset() == 0,
            !m.has_focus(),
            m.mouse_area() == (Area { column: 0, row: 0, height: 0, width: 0 }),
    {
        SessionManager {
            session_summaries: Vec::new(),
            selected: None,
            offset: 0,
            focused: false,
            area: Area::default(),
        }
    }

    pub fn session_summaries(&self) -> (r: &[ChatSession])
        ensures
            r@ == self.summaries(),
    {
        self.session_summaries.as_slice()
    }

    /// Index of the selected session, if any.
    pub fn selected(&self) -> (r: Option<usize>)
        ensures
            r == self.selection(),
    {
        self.selected
    }

    /// Index of the first session shown.
    pub fn offset(&self) -> (r: usize)
        ensures
            r == self.list_offset(),
    {
        self.offset
    }

    /// Sets the index of the first session shown, as the list widget scrolled.
    pub fn set_offset(&mut self, offset: usize)
        ensures
            final(self).list_offset() == offset,
            final(self).summaries() == old(self).summaries(),
            final(self).selection() == old(self).selection(),
            final(self).has_focus() == old(self).has_focus(),
            final(self).mouse_area() == old(self).mouse_area(),
    {
        self.offset = offset;
    }

    pub fn area(&self) -> (r: &Area)
        ensures
            *r == self.mouse_area(),
    {
        &self.area
    }

    pub fn set_area(&mut self, area: Area)
        ensures
            final(self).mouse_area() == area,
            final(self).summaries() == old(self).summaries(),
            final(self).selection() == old(self).selection(),
            final(self).list_offset() == old(self).list_offset(),
            final(self).has_focus() == old(self).has_focus(),
    {
        self.area = area;
    }

    /// Selects the next session and returns its id: from a selection that
    /// is not the last, the one after it; from no selection, the first
    /// (index 0 is selected even in an empty list). Otherwise nothing
    /// changes and nothing is returned.
    pub fn select_next(&mut self) -> (r: Option<String>)
        ensures
            selected_next(*old(self), *final(self), opt_text(r)),
    {
        match self.selected {
            Some(i) => {
                if i < self.session_summaries.len() && i + 1 < self.session_summaries.len() {
                    self.selected = Some(i + 1);
                    Some(self.session_summaries[i + 1].id.clone())
                } else {
                    None
                }
            },
            None => {
                self.selected = Some(0);
                if self.session_summaries.len() > 0 {
                    Some(self.session_summaries[0].id.clone())
                } else {
                    None
                }
            },
        }
    }

    /// Selects the previous session and returns its id, when the selection
    /// is not the first; otherwise nothing changes and nothing is returned.
    pub fn select_previous(&mut self) -> (r: Option<String>)
        ensures
            selected_previous(*old(self), *final(self), opt_text(r)),
    {
        match self.selected {
            Some(i) => {
                if i > 0 {
                    self.selected = Some(i - 1);
                    if i - 1 < self.session_summaries.len() {
                        Some(self.session_summaries[i - 1].id.clone())
                    } else {
                        None
                    }
                } else {
                    None
                }
            },
            None => None,
        }
    }

    /// Selects the session with id `session_id` if provided and listed, and
    /// nothing otherwise; with no selection the list scrolls back to the top.
    pub fn set_selected(&mut self, session_id: Option<String>)
        ensures
            selected_id(*old(self), *final(self), opt_text(session_id)),
    {
        let selected = match &session_id {
            Some(id) => find_session(&self.session_summaries, id),
            None => None,
        };
        self.selected = selected;
        if selected.is_none() {
            self.offset = 0;
        }
    }

    // ----------------------------------------------------------------
    // Event handlers.
    // ----------------------------------------------------------------
    /// Replaces the sessions with `session_summaries` sorted by recency (see
    /// `by_recency`) and selects the session with id `session_id`.
    pub fn handle_session_summaries(&mut self, session_summaries: Vec<ChatSession>, session_id: Option<String>)
        ensures
            final(self).summaries() == by_recency(session_summaries@),
            final(self).has_focus() == old(self).has_focus(),
            final(self).mouse_area() == old(self).mouse_area(),
            final(self).selection() == match session_id {
                Some(id) => match position_of(by_recency(session_summaries@), id@) {
                    Some(i) => Some(i as usize),
                    None => None,
                },
                None => None::<usize>,
            },
            final(self).list_offset() == if final(self).selection() is None {
                0
            } else {
                old(self).list_offset()
            },
    {
        self.session_summaries = sort_by_recency(session_summaries);
        self.set_selected(session_id);
    }

    /// Updates the title of the first listed session with the id of
    /// `session_summary`.
    pub fn handle_session_summary(&mut self, session_summary: ChatSession)
        ensures
            final(self).selection() == old(self).selection(),
            final(self).list_offset() == old(self).list_offset(),
            final(self).has_focus() == old(self).has_focus(),
            final(self).mouse_area() == old(self).mouse_area(),
            final(self).summaries().len() == old(self).summaries().len(),
            match position_of(old(self).summaries(), session_summary.id@) {
                Some(i) => {
                    &&& final(self).summaries()[i].title@ == session_summary.title@
                    &&& final(self).summaries()[i].id@ == old(self).summaries()[i].id@
                    &&& final(self).summaries()[i].events@ == old(self).summaries()[i].events@
                    &&& final(self).summaries()[i].llm_settings == old(self).summaries()[i].llm_settings
                    &&& final(self).summaries()[i].updated_at == old(self).summaries()[i].updated_at
                    &&& final(self).summaries()[i].created_at == old(self).summaries()[i].created_at
                    &&& forall|j: int|
                        0 <= j < old(self).summaries().len() && j != i ==> final(self).summaries()[j]
                            == old(self).summaries()[j]
                },
                None => final(self).summaries() == old(self).summaries(),
            },
    {
        match find_session(&self.session_summaries, &session_summary.id) {
            Some(i) => {
                let mut s = self.session_summaries.remove(i);
                s.title = session_summary.title;
                self.session_summaries.insert(i, s);
            },
            None => {},
        }
    }
}

/// `items` sorted by recency (see `by_recency`).
fn sort_by_recency(items: Vec<ChatSession>) -> (r: Vec<ChatSession>)
    ensures
        r@ == by_recency(items@),
{
    let ghost orig = items@;
    let mut items = items;
    let mut out: Vec<ChatSession> = Vec::new();
    let mut k: usize = 0;
    assert(orig.take(0) =~= Seq::<ChatSession>::empty());
    assert(orig.skip(0) =~= orig);
    assert(orig.len() == items.len());
    while items.len() > 0
        invariant
            k <= orig.len(),
            orig.len() <= usize::MAX,
            items@ == orig.skip(k as int),
            out@ == by_recency(orig.take(k as int)),
        decreases items.len(),
    {
        let x = items.remove(0);
        assert(x == orig[k as int]);
        assert(items@ =~= orig.skip(k + 1));
        let ghost s = out@;
        let mut pos: usize = 0;
        assert(s.skip(0) =~= s);
        while pos < out.len() && !time_less(&out[pos].updated_at, &x.updated_at)
            invariant
                s == out@,
                pos <= s.len(),
                insert_pos(s, x) == pos + insert_pos(s.skip(pos as int), x),
            decreases out.len() - pos,
        {
            let ghost sk = s.skip(pos as int);
            assert(sk[0] == s[pos as int]);
            assert(sk.drop_first() =~= s.skip(pos + 1));
            pos = pos + 1;
        }
        proof {
            if pos < s.len() {
                let sk = s.skip(pos as int);
                assert(sk[0] == s[pos as int]);
            } else {
                assert(s.skip(pos as int) =~= Seq::<ChatSession>::empty());
            }
        }
        out.insert(pos, x);
        assert(orig.take(k + 1).drop_last() =~= orig.take(k as int));
        assert(orig.take(k + 1).last() == x);
        k = k + 1;
    }
    assert(orig.take(k as int) =~= orig) by {
        assert(orig.skip(k as int).len() == 0);
    }
    out
}

/// The sessions are in order of recency: none is updated later than one
/// before it.
pub open spec fn recency_sorted(s: Seq<ChatSession>) -> bool {
    forall|i: int, j: int| 0 <= i < j < s.len() ==> !time_lt(#[trigger] s[i].updated_at, #[trigger] s[j].updated_at)
}

/// A time no later than `b`, which is earlier than `c`, is earlier than `c`.
proof fn lemma_time_lt_after_le(a: Option<Timestamp>, b: Option<Timestamp>, c: Option<Timestamp>)
    requires
        !time_lt(b, a),
        time_lt(b, c),
    ensures
        time_lt(a, c),
{
}

/// Inserting a session where `insert_pos` puts it keeps sessions sorted by
/// recency.
proof fn lemma_insert_sorted(s: Seq<ChatSession>, x: ChatSession)
    requires
        recency_sorted(s),
    ensures
        0 <= insert_pos(s, x) <= s.len(),
        recency_sorted(s.insert(insert_pos(s, x), x)),
        forall|q: int| 0 <= q < insert_pos(s, x) ==> !time_lt(#[trigger] s[q].updated_at, x.updated_at),
    decreases s.len(),
{
    if s.len() == 0 {
        return;
    }
    if time_lt(s[0].updated_at, x.updated_at) {
        let r = s.insert(0, x);
        assert forall|i: int, j: int| 0 <= i < j < r.len() implies !time_lt(
            #[trigger] r[i].updated_at,
            #[trigger] r[j].updated_at,
        ) by {
            if i == 0 {
                if j > 1 {
                    assert(!time_lt(s[0].updated_at, s[j - 1].updated_at));
                }
                assert(r[j] == s[j - 1]);
                if time_lt(x.updated_at, s[j - 1].updated_at) {
                    lemma_time_lt_after_le(s[j - 1].updated_at, s[0].updated_at, x.updated_at);
                }
            } else {
                assert(r[i] == s[i - 1] && r[j] == s[j - 1]);
            }
        }
    } else {
        let t = s.drop_first();
        assert forall|i: int, j: int| 0 <= i < j < t.len() implies !time_lt(
            #[trigger] t[i].updated_at,
            #[trigger] t[j].updated_at,
        ) by {
            assert(t[i] == s[i + 1] && t[j] == s[j + 1]);
        }
        lemma_insert_sorted(t, x);
        let p = insert_pos(t, x);
        let rt = t.insert(p, x);
        let r = s.insert(p + 1, x);
        assert(r =~= seq![s[0]] + rt);
        assert forall|q: int| 0 <= q < insert_pos(s, x) implies !time_lt(#[trigger] s[q].updated_at, x.updated_at) by {
            if q > 0 {
                assert(s[q] == t[q - 1]);
            }
        }
        assert forall|i: int, j: int| 0 <= i < j < r.len() implies !time_lt(
            #[trigger] r[i].updated_at,
            #[trigger] r[j].updated_at,
        ) by {
            if i == 0 {
                assert(r[0] == s[0]);
                if j == p + 1 {
                    assert(r[j] == x);
                } else if j <= p {
                    assert(r[j] == s[j]);
                } else {
                    assert(r[j] == s[j - 1]);
                }
            } else {
                assert(r[i] == rt[i - 1] && r[j] == rt[j - 1]);
            }
        }
    }
}

/// Sorting by recency puts the sessions in order of recency and keeps every
/// session: the result holds the same sessions, each as often.
pub proof fn law_sessions_by_recency(items: Seq<ChatSession>)
    ensures
        recency_sorted(by_recency(items)),
        by_recency(items).to_multiset() == items.to_multiset(),
    decreases items.len(),
{
    if items.len() == 0 {
        assert(by_recency(items).to_multiset() =~= items.to_multiset());
        return;
    }
    let rest = items.drop_last();
    law_sessions_by_recency(rest);
    let s = by_recency(rest);
    lemma_insert_sorted(s, items.last());
    let p = insert_pos(s, items.last());
    let x = items.last();
    let a = s.take(p);
    let b = s.skip(p);
    assert(s =~= a + b);
    assert(s.insert(p, x) =~= (a + seq![x]) + b);
    vstd::seq_lib::lemma_multiset_commutative(a, b);
    vstd::seq_lib::lemma_multiset_commutative(a + seq![x], b);
    vstd::seq_lib::lemma_multiset_commutative(a, seq![x]);
    assert(items =~= rest + seq![x]);
    vstd::seq_lib::lemma_multiset_commutative(rest, seq![x]);
    assert(by_recency(items) == s.insert(p, x));
    assert(by_recency(items).to_multiset() =~= items.to_multiset());
}

/// Selecting the next session and then the previous one selects again the
/// session that was selected, when it was not the last, and reports its id.
pub proof fn law_next_then_previous(
    m0: SessionManager,
    m1: SessionManager,
    m2: SessionManager,
    r1: Option<Seq<char>>,
    r2: Option<Seq<char>>,
)
    requires
        m0.selection() matches Some(i) && i + 1 < m0.summaries().len(),
        m0.summaries().len() <= usize::MAX,
        selected_next(m0, m1, r1),
        selected_previous(m1, m2, r2),
    ensures
        m2.selection() == m0.selection(),
        m2.summaries() == m0.summaries(),
        r2 == Some(m0.summaries()[m0.selection()->0 as int].id@),
{
    let i = m0.selection()->0;
    assert(m1.selection() == Some((i + 1) as usize));
    assert(m2.selection() == Some(i));
}

} // verus!
