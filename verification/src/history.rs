//! The message history of the room: formatted lines in the order of their
//! arrival.
//!
//! The limit bounds what a backfill takes over. Messages that arrive
//! afterwards are appended without a bound; `trim_to` evicts the oldest lines
//! for an owner that wants the live history bounded too.

use vstd::prelude::*;
use vstd::string::StringExecFns;
use crate::seqs::{lemma_filter_keeps_all, lemma_filter_nothing, lemma_filter_step};
use crate::text::same_text;

verus! {

/// What a room event carries.
#[derive(Debug, Clone, Copy, PartialEq, Eq, Structural)]
pub enum MessageKind {
    /// A plain text message.
    Text,
    /// Anything else: an image, a notice, a state change, an event that
    /// could not be read.
    Other,
}

/// An event of a room, reduced to what the history needs.
#[derive(Debug)]
pub struct RoomEvent {
    pub room_id: String,
    pub sender: String,
    pub kind: MessageKind,
    pub body: String,
}

/// What an event holds, as plain sequences.
pub struct EventView {
    pub room_id: Seq<char>,
    pub sender: Seq<char>,
    pub kind: MessageKind,
    pub body: Seq<char>,
}

impl View for RoomEvent {
    type V = EventView;

    open spec fn view(&self) -> EventView {
        EventView {
            room_id: self.room_id@,
            sender: self.sender@,
            kind: self.kind,
            body: self.body@,
        }
    }
}

/// The view of a list of events.
pub open spec fn events_view(events: Seq<RoomEvent>) -> Seq<EventView> {
    Seq::new(events.len(), |i: int| events[i]@)
}

/// The view of a list of lines.
pub open spec fn lines_view(lines: Seq<String>) -> Seq<Seq<char>> {
    Seq::new(lines.len(), |i: int| lines[i]@)
}

/// The view of a line that may be absent.
pub open spec fn line_view(line: Option<String>) -> Option<Seq<char>> {
    match line {
        Some(l) => Some(l@),
        None => None,
    }
}

/// The line of a message: the sender, a colon and a space, the body.
pub open spec fn formatted(sender: Seq<char>, body: Seq<char>) -> Seq<char> {
    sender + ": "@ + body
}

/// The events that are text messages.
pub open spec fn is_text() -> spec_fn(EventView) -> bool {
    |e: EventView| e.kind is Text
}

/// The line of an event.
pub open spec fn line_of() -> spec_fn(EventView) -> Seq<char> {
    |e: EventView| formatted(e.sender, e.body)
}

/// The lines of the text messages among the events, in their order.
pub open spec fn text_lines(events: Seq<EventView>) -> Seq<Seq<char>> {
    events.filter(is_text()).map_values(line_of())
}

/// The events that a backfill takes over from those on offer, which come
/// newest first: the `limit` newest, or all where there are fewer, oldest
/// first.
pub open spec fn backfill_window(newest_first: Seq<EventView>, limit: nat) -> Seq<EventView> {
    if limit < newest_first.len() {
        newest_first.take(limit as int).reverse()
    } else {
        newest_first.reverse()
    }
}

/// The history after a backfill.
pub open spec fn backfilled(newest_first: Seq<EventView>, limit: nat) -> Seq<Seq<char>> {
    text_lines(backfill_window(newest_first, limit))
}

/// The line that an arriving event adds to the history of the room
/// `room_id`, if it adds one: the event must belong to that room and be a
/// text message.
pub open spec fn inbound_line(room_id: Seq<char>, event: EventView) -> Option<Seq<char>> {
    if event.room_id == room_id && event.kind is Text {
        Some(formatted(event.sender, event.body))
    } else {
        None
    }
}

/// The newest `limit` lines, or all where there are fewer.
pub open spec fn newest(lines: Seq<Seq<char>>, limit: nat) -> Seq<Seq<char>> {
    if limit < lines.len() {
        lines.skip(lines.len() - limit)
    } else {
        lines
    }
}

/// The line of a message.
pub fn format_message(sender: &str, body: &str) -> (out: String)
    ensures
        out@ == formatted(sender@, body@),
{
    let mut out = sender.to_owned();
    out.append(": ");
    out.append(body);
    out
}

/// The history of the room.
#[derive(Debug)]
pub struct HistoryBuffer {
    entries: Vec<String>,
}

impl View for HistoryBuffer {
    type V = Seq<Seq<char>>;

    closed spec fn view(&self) -> Seq<Seq<char>> {
        lines_view(self.entries@)
    }
}

impl HistoryBuffer {
    /// An empty history.
    pub fn new() -> (out: Self)
        ensures
            out@ == Seq::<Seq<char>>::empty(),
    {
        let out = HistoryBuffer { entries: Vec::new() };
        assert(out@ =~= Seq::<Seq<char>>::empty());
        out
    }

    /// The number of lines.
    pub fn len(&self) -> (out: usize)
        ensures
            out == self@.len(),
    {
        self.entries.len()
    }

    /// Replaces the history by the text messages among the `limit` newest
    /// of the events on offer, oldest first. The events come newest first,
    /// as the server hands them out.
    pub fn backfill(&mut self, newest_first: &Vec<RoomEvent>, limit: usize)
        ensures
            final(self)@ == backfilled(events_view(newest_first@), limit as nat),
            final(self)@.len() <= limit,
    {
        let ghost offered = events_view(newest_first@);
        let ghost window = backfill_window(offered, limit as nat);
        let count: usize = if limit < newest_first.len() {
            limit
        } else {
            newest_first.len()
        };
        let mut lines: Vec<String> = Vec::new();
        let mut left: usize = count;
        proof {
            lemma_filter_nothing(window, is_text());
        }
        while left > 0
            invariant
                left <= count,
                count <= newest_first.len(),
                count == window.len(),
                offered == events_view(newest_first@),
                forall|k: int| 0 <= k < count ==> window[k] == offered[count - 1 - k],
                lines_view(lines@) =~= text_lines(window.take(count - left)),
            decreases left,
        {
            let ghost done = count - left;
            let ghost lines_before = lines_view(lines@);
            proof {
                lemma_filter_step(window, is_text(), done);
            }
            left -= 1;
            let event = &newest_first[left];
            assert(event@ == window[done]);
            match event.kind {
                MessageKind::Text => {
                    lines.push(format_message(event.sender.as_str(), event.body.as_str()));
                    assert(lines_view(lines@) =~= lines_before.push(line_of()(window[done])));
                    assert(text_lines(window.take(done + 1)) =~= text_lines(
                        window.take(done),
                    ).push(line_of()(window[done])));
                },
                MessageKind::Other => {},
            }
        }
        assert(window.take(count as int) =~= window);
        proof {
            lemma_backfill_is_bounded(offered, limit as nat);
        }
        self.entries = lines;
    }

    /// Takes in an event that arrived. A text message of the room `room_id`
    /// is appended to the history as a line, and the line is returned for
    /// publishing. Any other event changes nothing.
    pub fn on_inbound(&mut self, room_id: &str, event: &RoomEvent) -> (out: Option<String>)
        ensures
            line_view(out) == inbound_line(room_id@, event@),
            final(self)@ == match inbound_line(room_id@, event@) {
                Some(line) => old(self)@.push(line),
                None => old(self)@,
            },
    {
        if !same_text(event.room_id.as_str(), room_id) {
            return None;
        }
        match event.kind {
            MessageKind::Other => None,
            MessageKind::Text => {
                let line = format_message(event.sender.as_str(), event.body.as_str());
                self.entries.push(line.clone());
                assert(self@ =~= old(self)@.push(line@));
                Some(line)
            },
        }
    }

    /// A copy of the lines, oldest first.
    pub fn snapshot(&self) -> (out: Vec<String>)
        ensures
            lines_view(out@) == self@,
    {
        let mut out: Vec<String> = Vec::with_capacity(self.entries.len());
        let mut i: usize = 0;
        while i < self.entries.len()
            invariant
                i <= self.entries.len(),
                out@.len() == i,
                forall|k: int| 0 <= k < i ==> out@[k]@ == self.entries@[k]@,
            decreases self.entries.len() - i,
        {
            out.push(self.entries[i].clone());
            i += 1;
        }
        assert(lines_view(out@) =~= self@);
        out
    }

    /// Evicts the oldest lines until at most `limit` are left.
    pub fn trim_to(&mut self, limit: usize)
        ensures
            final(self)@ == newest(old(self)@, limit as nat),
            final(self)@.len() <= limit,
    {
        if limit < self.entries.len() {
            let first: usize = self.entries.len() - limit;
            let kept = self.entries.split_off(first);
            self.entries = kept;
            assert(self@ =~= newest(old(self)@, limit as nat));
        }
    }

    /// Removes every line.
    pub fn clear(&mut self)
        ensures
            final(self)@ == Seq::<Seq<char>>::empty(),
    {
        self.entries = Vec::new();
        assert(self@ =~= Seq::<Seq<char>>::empty());
    }
}

/// A backfill leaves at most `limit` lines.
pub proof fn lemma_backfill_is_bounded(newest_first: Seq<EventView>, limit: nat)
    ensures
        backfilled(newest_first, limit).len() <= limit,
        backfilled(newest_first, limit).len() <= newest_first.len(),
{
    let window = backfill_window(newest_first, limit);
    window.lemma_filter_len(is_text());
}

/// Where the events on offer are all text messages, a backfill leaves the
/// `limit` newest of them, or all where there are fewer, oldest first.
pub proof fn lemma_backfill_of_text_messages(newest_first: Seq<EventView>, limit: nat)
    requires
        forall|i: int| 0 <= i < newest_first.len() ==> newest_first[i].kind is Text,
    ensures
        ({
            let lines = backfilled(newest_first, limit);
            let count = if limit < newest_first.len() {
                limit
            } else {
                newest_first.len()
            };
            &&& lines.len() == count
            &&& forall|k: int|
                0 <= k < count ==> #[trigger] lines[k] == formatted(
                    newest_first[count - 1 - k].sender,
                    newest_first[count - 1 - k].body,
                )
        }),
{
    let window = backfill_window(newest_first, limit);
    lemma_filter_keeps_all(window, is_text());
}

} // verus!
