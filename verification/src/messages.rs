//! The chat transcript of the current session: its events, the message being
//! streamed, whether a reply is pending, its title, and its viewport.
use crate::chat::{ChatEvent, MessageDelta, Payload};
use crate::focus::{Focusable, Focused};
use crate::messages_viewport::{all_displayable, displayable, rebuilt, MessagesViewport};
use crate::unicode::string_from_chars;
use vstd::prelude::*;

verus! {

/// The streamed text of `m`, if any.
pub open spec fn stream_text(m: Option<MessageDelta>) -> Option<Seq<char>> {
    match m {
        Some(d) => Some(d.delta@),
        None => None,
    }
}

/// The events, streamed text and pending flag after the event `e` arrives
/// in reply: while a reply is pending, a complete message is added and ends
/// the reply, and a message delta extends the streamed text; any other event,
/// and any event when no reply is pending, changes nothing.
pub open spec fn stream_step(
    events: Seq<ChatEvent>,
    stream: Option<Seq<char>>,
    pending: bool,
    e: ChatEvent,
) -> (Seq<ChatEvent>, Option<Seq<char>>, bool) {
    if !pending {
        (events, stream, pending)
    } else {
        match e.payload {
            Some(Payload::Message(_)) => (events.push(e), None, false),
            Some(Payload::MessageDelta(d)) => (
                events,
                Some(
                    match stream {
                        Some(t) => t,
                        None => Seq::empty(),
                    } + d.delta@,
                ),
                true,
            ),
            _ => (events, stream, pending),
        }
    }
}

/// `a` and `b` are the same transcript but for the focus.
pub open spec fn same_but_focus(a: Messages, b: Messages) -> bool {
    &&& a.events() == b.events()
    &&& a.stream() == b.stream()
    &&& a.pending() == b.pending()
    &&& a.title_text() == b.title_text()
    &&& a.vp() == b.vp()
}

/// The chat transcript.
pub struct Messages {
    chat_events: Vec<ChatEvent>,
    stream_message: Option<MessageDelta>,
    is_pending: bool,
    focused: bool,
    title: Option<String>,
    pub viewport: MessagesViewport,
}

impl Default for Messages {
    fn default() -> (m: Self)
        ensures
            m.wf(),
            m.is_empty(),
    {
        Messages::new()
    }
}

impl Focusable for Messages {
    closed spec fn has_focus(&self) -> bool {
        self.focused
    }

    closed spec fn kind(&self) -> Focused {
        Focused::Messages
    }

    fn set_focus(&mut self, focused: bool)
        ensures
            same_but_focus(*old(self), *final(self)),
    {
        self.focused = focused;
    }

    fn is_focused(&self) -> (r: bool) {
        self.focused
    }

    fn to_focused(&self) -> (r: Focused) {
        Focused::Messages
    }
}

impl Messages {
    pub closed spec fn events(&self) -> Seq<ChatEvent> {
        self.chat_events@
    }

    /// The text streamed so far of the reply in progress.
    pub closed spec fn stream(&self) -> Option<Seq<char>> {
        stream_text(self.stream_message)
    }

    pub closed spec fn vp(&self) -> MessagesViewport {
        self.viewport
    }

    pub closed spec fn pending(&self) -> bool {
        self.is_pending
    }

    pub closed spec fn title_text(&self) -> Option<Seq<char>> {
        match self.title {
            Some(t) => Some(t@),
            None => None,
        }
    }

    /// The viewport is well formed and the transcript can show every event.
    pub open spec fn wf(&self) -> bool {
        &&& self.vp().wf()
        &&& all_displayable(self.events())
    }

    /// No events, nothing streamed, no reply pending, not focused, no title,
    /// an empty viewport.
    pub open spec fn is_empty(&self) -> bool {
        &&& self.events() == Seq::<ChatEvent>::empty()
        &&& self.stream() == None::<Seq<char>>
        &&& !self.pending()
        &&& !self.has_focus()
        &&& self.title_text() == None::<Seq<char>>
        &&& self.vp().text() == Seq::<char>::empty()
        &&& self.vp().paras().len() == 0
        &&& self.vp().width() == 0
        &&& self.vp().scroll().vertical_scroll_offset == 0
        &&& self.vp().scroll().cursor_position == None::<(u16, u16)>
        &&& self.vp().cursor() == 0
        &&& self.vp().selection() == None::<usize>
    }

    /// An empty transcript (see `is_empty`) whose viewport has no screen
    /// area yet.
    pub fn new() -> (m: Self)
        ensures
            m.wf(),
            m.is_empty(),
            m.vp().mouse_area() == (crate::area::Area { column: 0, row: 0, height: 0, width: 0 }),
    {
        Messages {
            chat_events: Vec::new(),
            stream_message: None,
            is_pending: false,
            focused: false,
            title: None,
            viewport: MessagesViewport::new(),
        }
    }

    pub fn viewport(&self) -> (r: &MessagesViewport)
        ensures
            *r == self.vp(),
    {
        &self.viewport
    }

    /// The transcript's viewport, to change it in place.
    pub fn viewport_mut(&mut self) -> (r: &mut MessagesViewport)
        ensures
            *r == old(self).vp(),
            final(self).vp() == *final(r),
            final(self).events() == old(self).events(),
            final(self).stream() == old(self).stream(),
            final(self).pending() == old(self).pending(),
            final(self).title_text() == old(self).title_text(),
            final(self).has_focus() == old(self).has_focus(),
    {
        &mut self.viewport
    }

    pub fn is_pending(&self) -> (r: bool)
        ensures
            r == self.pending(),
    {
        self.is_pending
    }

    pub fn chat_events(&self) -> (r: &[ChatEvent])
        ensures
            r@ == self.events(),
    {
        self.chat_events.as_slice()
    }

    /// Replaces the events, leaving the viewport as it is.
    pub fn set_chat_events(&mut self, chat_events: Vec<ChatEvent>)
        requires
            old(self).wf(),
            all_displayable(chat_events@),
        ensures
            final(self).wf(),
            final(self).events() == chat_events@,
            final(self).stream() == old(self).stream(),
            final(self).pending() == old(self).pending(),
            final(self).title_text() == old(self).title_text(),
            final(self).vp() == old(self).vp(),
    {
        self.chat_events = chat_events;
    }

    pub fn stream_message(&self) -> (r: Option<&MessageDelta>)
        ensures
            stream_text(match r {
                Some(d) => Some(*d),
                None => None,
            }) == self.stream(),
    {
        self.stream_message.as_ref()
    }

    pub fn title(&self) -> (r: Option<String>)
        ensures
            match r {
                Some(t) => self.title_text() == Some(t@),
                None => self.title_text() == None::<Seq<char>>,
            },
    {
        match &self.title {
            Some(t) => Some(t.clone()),
            None => None,
        }
    }

    pub fn set_title(&mut self, title: Option<String>)
        ensures
            final(self).title_text() == match title {
                Some(t) => Some(t@),
                None => None::<Seq<char>>,
            },
            final(self).events() == old(self).events(),
            final(self).stream() == old(self).stream(),
            final(self).pending() == old(self).pending(),
            final(self).has_focus() == old(self).has_focus(),
            final(self).vp() == old(self).vp(),
    {
        self.title = title;
    }

    // ----------------------------------------------------------------
    // Scroll.
    // ----------------------------------------------------------------
    /// Scrolls the transcript one line down.
    pub fn scroll_down(&mut self)
        requires
            old(self).wf(),
        ensures
            final(self).wf(),
            final(self).events() == old(self).events(),
            final(self).stream() == old(self).stream(),
            final(self).pending() == old(self).pending(),
            final(self).title_text() == old(self).title_text(),
            final(self).has_focus() == old(self).has_focus(),
            final(self).vp().text() == old(self).vp().text(),
            final(self).vp().paras() == old(self).vp().paras(),
            final(self).vp().cursor() == old(self).vp().cursor(),
            final(self).vp().scroll().vertical_scroll_offset == (if old(
                self,
            ).vp().scroll().vertical_scroll_offset == usize::MAX {
                usize::MAX as int
            } else {
                old(self).vp().scroll().vertical_scroll_offset + 1
            }),
    {
        self.viewport.scroll_state_mut().scroll_down();
    }

    /// Scrolls the transcript one line up.
    pub fn scroll_up(&mut self)
        requires
            old(self).wf(),
        ensures
            final(self).wf(),
            final(self).events() == old(self).events(),
            final(self).stream() == old(self).stream(),
            final(self).pending() == old(self).pending(),
            final(self).title_text() == old(self).title_text(),
            final(self).has_focus() == old(self).has_focus(),
            final(self).vp().text() == old(self).vp().text(),
            final(self).vp().paras() == old(self).vp().paras(),
            final(self).vp().cursor() == old(self).vp().cursor(),
            final(self).vp().scroll().vertical_scroll_offset == (if old(
                self,
            ).vp().scroll().vertical_scroll_offset == 0 {
                0
            } else {
                old(self).vp().scroll().vertical_scroll_offset - 1
            }),
    {
        self.viewport.scroll_state_mut().scroll_up();
    }

    /// Sets the transcript's viewport width.
    pub fn set_viewport_width(&mut self, viewport_width: usize)
        requires
            old(self).wf(),
        ensures
            final(self).wf(),
            final(self).vp().width() == viewport_width,
            final(self).events() == old(self).events(),
            final(self).stream() == old(self).stream(),
            final(self).pending() == old(self).pending(),
            final(self).title_text() == old(self).title_text(),
            final(self).has_focus() == old(self).has_focus(),
    {
        self.viewport.set_viewport_width(viewport_width);
    }

    // ----------------------------------------------------------------
    // Event handling.
    // ----------------------------------------------------------------
    /// Resets to an empty transcript on navigating.
    pub fn reset(&mut self)
        ensures
            final(self).wf(),
            final(self).is_empty(),
    {
        *self = Messages::new();
    }

    /// Marks a reply as pending for a message being sent and moves the
    /// cursor past the end of the transcript, scrolled to the top.
    pub fn handle_send(&mut self)
        requires
            old(self).wf(),
        ensures
            final(self).wf(),
            final(self).pending(),
            final(self).events() == old(self).events(),
            final(self).stream() == old(self).stream(),
            final(self).title_text() == old(self).title_text(),
            final(self).has_focus() == old(self).has_focus(),
            final(self).vp().text() == old(self).vp().text(),
            final(self).vp().paras() == old(self).vp().paras(),
            final(self).vp().cursor() == old(self).vp().text().len(),
    {
        self.viewport.scroll_to_top();
        self.is_pending = true;
    }

    /// Handles sending the user's chat message: the transcript moves past
    /// its end, the message is added and a reply is pending.
    pub fn handle_user_chat_message(&mut self, user_chat_message: ChatEvent)
        requires
            old(self).wf(),
            displayable(user_chat_message),
        ensures
            final(self).wf(),
            final(self).pending(),
            final(self).events() == old(self).events().push(user_chat_message),
            final(self).stream() == old(self).stream(),
            final(self).title_text() == old(self).title_text(),
            final(self).has_focus() == old(self).has_focus(),
            final(self).vp().cursor() == old(self).vp().text().len(),
    {
        self.viewport.scroll_to_top();
        let ghost before = self.chat_events@;
        self.chat_events.push(user_chat_message);
        assert forall|i: int| 0 <= i < self.chat_events@.len() implies displayable(#[trigger] self.chat_events@[i]) by {
            if i < before.len() {
                assert(self.chat_events@[i] == before[i]);
            }
        }
        self.is_pending = true;

        self.viewport.build_lines(self.chat_events.as_slice(), self.stream_message.as_ref());
    }

    /// Handles an event streamed in reply: while a reply is pending, a
    /// complete message is added and ends the reply, and a message delta
    /// extends the streamed text; other events, and any event when no reply
    /// is pending, are ignored. The transcript is rebuilt in every case.
    pub fn handle_chat_event_stream(&mut self, chat_event: ChatEvent)
        requires
            old(self).wf(),
            old(self).pending() ==> displayable(chat_event),
        ensures
            final(self).wf(),
            final(self).title_text() == old(self).title_text(),
            final(self).has_focus() == old(self).has_focus(),
            (final(self).events(), final(self).stream(), final(self).pending()) == stream_step(
                old(self).events(),
                old(self).stream(),
                old(self).pending(),
                chat_event,
            ),
            rebuilt(old(self).vp(), final(self).vp(), final(self).events(), final(self).stream()),
    {
        if self.is_pending {
            let delta = match &chat_event.payload {
                Some(Payload::MessageDelta(d)) => Some(crate::text::chars_of(d.delta.as_str())),
                _ => None,
            };
            let is_message = match &chat_event.payload {
                Some(Payload::Message(_)) => true,
                _ => false,
            };
            if is_message {
                let ghost before = self.chat_events@;
                self.chat_events.push(chat_event);
                assert forall|i: int| 0 <= i < self.chat_events@.len() implies displayable(#[trigger] self.chat_events@[i]) by {
                    if i < before.len() {
                        assert(self.chat_events@[i] == before[i]);
                    }
                }
                self.stream_message = None;
                self.is_pending = false;
            } else {
                match delta {
                    Some(d) => {
                        let mut text = match &self.stream_message {
                            Some(s) => crate::text::chars_of(s.delta.as_str()),
                            None => Vec::new(),
                        };
                        crate::text::append_chars(&mut text, d.as_slice());
                        self.stream_message = Some(MessageDelta { delta: string_from_chars(text.as_slice()) });
                    },
                    None => {},
                }
            }
        }
        self.viewport.build_lines(self.chat_events.as_slice(), self.stream_message.as_ref());
    }

    /// Replaces the events with those loaded from storage and rebuilds the
    /// transcript.
    pub fn handle_chat_events(&mut self, chat_events: Vec<ChatEvent>)
        requires
            old(self).wf(),
            all_displayable(chat_events@),
        ensures
            final(self).wf(),
            final(self).events() == chat_events@,
            final(self).stream() == old(self).stream(),
            final(self).pending() == old(self).pending(),
            final(self).title_text() == old(self).title_text(),
            final(self).has_focus() == old(self).has_focus(),
            rebuilt(old(self).vp(), final(self).vp(), chat_events@, old(self).stream()),
    {
        self.chat_events = chat_events;
        self.viewport.build_lines(self.chat_events.as_slice(), self.stream_message.as_ref());
    }
}

/// The transcript state after the events `es` arrive one by one (see
/// `stream_step`).
pub open spec fn stream_run(
    events: Seq<ChatEvent>,
    stream: Option<Seq<char>>,
    pending: bool,
    es: Seq<ChatEvent>,
) -> (Seq<ChatEvent>, Option<Seq<char>>, bool)
    decreases es.len(),
{
    if es.len() == 0 {
        (events, stream, pending)
    } else {
        let (e2, s2, p2) = stream_run(events, stream, pending, es.drop_last());
        stream_step(e2, s2, p2, es.last())
    }
}

/// The texts of the deltas `es`, joined.
pub open spec fn delta_text(es: Seq<ChatEvent>) -> Seq<char>
    decreases es.len(),
{
    if es.len() == 0 {
        Seq::empty()
    } else {
        delta_text(es.drop_last()) + match es.last().payload {
            Some(Payload::MessageDelta(d)) => d.delta@,
            _ => Seq::empty(),
        }
    }
}

/// Every event of `es` is a message delta.
pub open spec fn all_deltas(es: Seq<ChatEvent>) -> bool {
    forall|i: int| 0 <= i < es.len() ==> (#[trigger] es[i]).payload matches Some(Payload::MessageDelta(_))
}

/// While a reply is pending, its deltas add up: the streamed text is their
/// texts joined, the events are unchanged and the reply stays pending.
pub proof fn law_deltas_accumulate(events: Seq<ChatEvent>, es: Seq<ChatEvent>)
    requires
        all_deltas(es),
    ensures
        stream_run(events, None, true, es) == (
            events,
            if es.len() == 0 {
                None::<Seq<char>>
            } else {
                Some(delta_text(es))
            },
            true,
        ),
    decreases es.len(),
{
    if es.len() > 0 {
        let rest = es.drop_last();
        assert forall|i: int| 0 <= i < rest.len() implies (#[trigger] rest[i]).payload matches Some(
            Payload::MessageDelta(_),
        ) by {
            assert(rest[i] == es[i]);
        }
        law_deltas_accumulate(events, rest);
        assert(es[es.len() - 1] == es.last());
        if rest.len() == 0 {
            assert(delta_text(rest) == Seq::<char>::empty());
            assert(delta_text(es) =~= Seq::<char>::empty() + match es.last().payload {
                Some(Payload::MessageDelta(d)) => d.delta@,
                _ => Seq::empty(),
            });
        }
    }
}

/// A reply that streams deltas and then completes with a message ends with
/// that message added to the events, no streamed text, and nothing pending.
pub proof fn law_reply_completes(events: Seq<ChatEvent>, es: Seq<ChatEvent>, m: ChatEvent)
    requires
        all_deltas(es),
        m.payload matches Some(Payload::Message(_)),
    ensures
        stream_run(events, None, true, es.push(m)) == (events.push(m), None::<Seq<char>>, false),
{
    law_deltas_accumulate(events, es);
    assert(es.push(m).drop_last() =~= es);
}

} // verus!
