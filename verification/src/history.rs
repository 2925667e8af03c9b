//! Whole sessions: what holds of every sequence of events that a session can
//! be told of.
//!
//! The paste's file holds what the caller appended to it, in order, so what
//! is stored is read off the actions that the session asked for.

use vstd::prelude::*;
use crate::config::ZeroRead;
use crate::idle::capped;
use crate::session::{ActionView, EventView, SessionView, State};
use crate::url::reply_text;

verus! {

impl SessionView {
    /// The session after `events`, taken in one after the other.
    pub open spec fn run(self, events: Seq<EventView>) -> SessionView
        decreases events.len(),
    {
        if events.len() == 0 {
            self
        } else {
            self.next(events[0]).run(events.drop_first())
        }
    }

    /// The actions that the session asks for while it takes in `events`, in
    /// order. A refused event asks for none.
    pub open spec fn actions(self, events: Seq<EventView>) -> Seq<ActionView>
        decreases events.len(),
    {
        if events.len() == 0 {
            Seq::empty()
        } else {
            let rest = self.next(events[0]).actions(events.drop_first());
            if self.accepts(events[0]) {
                seq![self.action(events[0])] + rest
            } else {
                rest
            }
        }
    }

    /// The event leaves a reading session reading: it brings bytes, or it
    /// finds the connection silent for no longer than the idle timeout.
    pub open spec fn goes_on(self, event: EventView) -> bool {
        match event {
            EventView::Read { bytes, now } => bytes.len() > 0 || (self.zero_read
                == ZeroRead::Transient && !self.idle.timed_out(now)),
            EventView::WouldBlock { now } => !self.idle.timed_out(now),
            _ => false,
        }
    }

    /// The event ends the reading without a fault: it finds the connection
    /// silent for longer than the idle timeout, or closed by the peer.
    pub open spec fn ends_reading(self, event: EventView) -> bool {
        match event {
            EventView::Read { bytes, now } => bytes.len() == 0 && (self.zero_read
                == ZeroRead::Closed || self.idle.timed_out(now)),
            EventView::WouldBlock { now } => self.idle.timed_out(now),
            EventView::Closed => true,
            _ => false,
        }
    }

    /// While the session takes in `events`, no silence lasts longer than the
    /// idle timeout, the peer does not close and nothing fails.
    pub open spec fn unbroken(self, events: Seq<EventView>) -> bool
        decreases events.len(),
    {
        events.len() > 0 ==> self.goes_on(events[0]) && self.next(events[0]).unbroken(
            events.drop_first(),
        )
    }
}

/// The bytes that an action adds to the paste's file.
pub open spec fn appended(action: ActionView) -> Seq<u8> {
    match action {
        ActionView::Append { bytes } => bytes,
        _ => Seq::empty(),
    }
}

/// What the paste's file holds once `actions` have been carried out on a
/// new file.
pub open spec fn stored(actions: Seq<ActionView>) -> Seq<u8>
    decreases actions.len(),
{
    if actions.len() == 0 {
        Seq::empty()
    } else {
        appended(actions[0]) + stored(actions.drop_first())
    }
}

/// The number of reply lines among `actions`.
pub open spec fn replies(actions: Seq<ActionView>) -> nat
    decreases actions.len(),
{
    if actions.len() == 0 {
        0
    } else if actions[0] is Reply {
        1 + replies(actions.drop_first())
    } else {
        replies(actions.drop_first())
    }
}

/// The bytes that an event brings from the client.
pub open spec fn brought(event: EventView) -> Seq<u8> {
    match event {
        EventView::Read { bytes, .. } => bytes,
        _ => Seq::empty(),
    }
}

/// All that the client sent, as the reads among `events` brought it.
pub open spec fn payload(events: Seq<EventView>) -> Seq<u8>
    decreases events.len(),
{
    if events.len() == 0 {
        Seq::empty()
    } else {
        brought(events[0]) + payload(events.drop_first())
    }
}

/// Running over two sequences of events one after the other is running over
/// their concatenation.
pub proof fn lemma_run_concat(s: SessionView, a: Seq<EventView>, b: Seq<EventView>)
    ensures
        s.run(a + b) == s.run(a).run(b),
        s.actions(a + b) == s.actions(a) + s.run(a).actions(b),
    decreases a.len(),
{
    if a.len() > 0 {
        assert((a + b).drop_first() =~= a.drop_first() + b);
        lemma_run_concat(s.next(a[0]), a.drop_first(), b);
    }
}

/// What is stored by two sequences of actions is what each stores, in order.
pub proof fn lemma_stored_concat(a: Seq<ActionView>, b: Seq<ActionView>)
    ensures
        stored(a + b) == stored(a) + stored(b),
        replies(a + b) == replies(a) + replies(b),
    decreases a.len(),
{
    if a.len() > 0 {
        assert((a + b).drop_first() =~= a.drop_first() + b);
        lemma_stored_concat(a.drop_first(), b);
        assert((appended(a[0]) + stored(a.drop_first())) + stored(b) =~= appended(a[0]) + (stored(
            a.drop_first(),
        ) + stored(b)));
    }
}

/// What one more action in front adds to the file and to the replies.
pub proof fn lemma_stored_cons(first: ActionView, rest: Seq<ActionView>)
    ensures
        stored(seq![first] + rest) == appended(first) + stored(rest),
        replies(seq![first] + rest) == replies(rest) + if first is Reply {
            1nat
        } else {
            0nat
        },
{
    assert((seq![first] + rest).drop_first() =~= rest);
}

/// A session never changes what it was set up with: its slug, its peer, the
/// URL's domain and port, the meaning of an empty read, the idle timeout.
pub proof fn law_setup_is_kept(s: SessionView, events: Seq<EventView>)
    ensures
        s.run(events).slug == s.slug,
        s.run(events).peer == s.peer,
        s.run(events).domain == s.domain,
        s.run(events).http_port == s.http_port,
        s.run(events).zero_read == s.zero_read,
        s.run(events).idle.timeout == s.idle.timeout,
    decreases events.len(),
{
    if events.len() > 0 {
        law_setup_is_kept(s.next(events[0]), events.drop_first());
    }
}

/// A session only moves forward: one past reading never reads again, one
/// that has replied stays so, and a terminal state is final.
pub proof fn law_states_move_forward(s: SessionView, events: Seq<EventView>)
    ensures
        s.state != State::Reading ==> s.run(events).state != State::Reading,
        s.state == State::Replying || s.state == State::Done ==> s.run(events).state
            == State::Replying || s.run(events).state == State::Done,
        s.state.is_terminal() ==> s.run(events) == s,
    decreases events.len(),
{
    if events.len() > 0 {
        law_states_move_forward(s.next(events[0]), events.drop_first());
    }
}

/// Bytes reach the file only while the session reads: once it has left the
/// reading state, and so after the reply, nothing more is stored.
pub proof fn law_nothing_stored_after_reading(s: SessionView, events: Seq<EventView>)
    requires
        s.state != State::Reading,
    ensures
        stored(s.actions(events)) == Seq::<u8>::empty(),
    decreases events.len(),
{
    if events.len() > 0 {
        let rest = s.next(events[0]).actions(events.drop_first());
        law_nothing_stored_after_reading(s.next(events[0]), events.drop_first());
        if s.accepts(events[0]) {
            lemma_stored_cons(s.action(events[0]), rest);
        }
    }
}

/// The count of bytes received goes up by what is stored: after any events
/// it is the count before them plus the number of bytes that the session
/// asked to append, as far as a `u64` counts.
pub proof fn law_received_counts_stored(s: SessionView, events: Seq<EventView>)
    requires
        s.received <= u64::MAX,
    ensures
        s.run(events).received == capped(s.received + stored(s.actions(events)).len()),
    decreases events.len(),
{
    if events.len() > 0 {
        let e = events[0];
        let rest = s.next(e).actions(events.drop_first());
        law_received_counts_stored(s.next(e), events.drop_first());
        if s.accepts(e) {
            lemma_stored_cons(s.action(e), rest);
        }
    }
}

/// A session replies exactly once if it gets as far as replying, and never
/// otherwise: whatever the events, one reply line is asked for where the
/// session starts before the reply and ends in `Replying` or `Done`, and
/// none in every other case. A session that ends in `Errored` or `Aborted`
/// has asked for none.
pub proof fn law_one_reply(s: SessionView, events: Seq<EventView>)
    ensures
        replies(s.actions(events)) == if (s.state == State::Reading || s.state
            == State::Finalizing) && (s.run(events).state == State::Replying || s.run(
            events,
        ).state == State::Done) {
            1nat
        } else {
            0nat
        },
    decreases events.len(),
{
    if events.len() > 0 {
        let e = events[0];
        let rest = s.next(e).actions(events.drop_first());
        law_one_reply(s.next(e), events.drop_first());
        law_states_move_forward(s.next(e), events.drop_first());
        if s.accepts(e) {
            lemma_stored_cons(s.action(e), rest);
        }
    }
}

/// While nothing breaks the reading, every byte that arrives is stored, in
/// the order of arrival, and the session goes on reading without a reply.
pub proof fn law_reading_stores_payload(s: SessionView, events: Seq<EventView>)
    requires
        s.state == State::Reading,
        s.unbroken(events),
    ensures
        s.run(events).state == State::Reading,
        stored(s.actions(events)) == payload(events),
        replies(s.actions(events)) == 0,
    decreases events.len(),
{
    if events.len() > 0 {
        let e = events[0];
        let rest = s.next(e).actions(events.drop_first());
        law_reading_stores_payload(s.next(e), events.drop_first());
        lemma_stored_cons(s.action(e), rest);
    }
}

/// A wait leads to the timeout: a reading session that finds the connection
/// silent is told to wait for the time that is left, and where the
/// connection is still silent when that time has passed, the session ends
/// the reading and has the file closed.
pub proof fn law_silence_after_the_wait_ends_reading(s: SessionView, now: nat)
    requires
        s.state == State::Reading,
        !s.idle.timed_out(now),
    ensures
        ({
            let quiet = EventView::WouldBlock { now };
            let still_quiet = EventView::WouldBlock { now: now + s.idle.due_in(now) };
            &&& s.next(quiet) == s
            &&& s.action(quiet) == (ActionView::Wait { due_in: capped(s.idle.due_in(now)) })
            &&& s.next(still_quiet).state == State::Finalizing
            &&& s.action(still_quiet) == ActionView::CloseFile
        }),
{
}

/// A payload sent without a silence longer than the idle timeout is stored
/// exactly: when the reading then ends, by a timeout or by the peer closing,
/// and the file is closed, the file holds the payload byte for byte, and the
/// one reply that the session asks for is the URL that ends in the slug, the
/// name of that file.
pub proof fn law_payload_is_stored(s: SessionView, events: Seq<EventView>, closing: EventView)
    requires
        s.state == State::Reading,
        s.unbroken(events),
        s.run(events).ends_reading(closing),
    ensures
        ({
            let whole = events.push(closing).push(EventView::FileClosed);
            &&& s.run(whole).state == State::Replying
            &&& stored(s.actions(whole)) == payload(events)
            &&& replies(s.actions(whole)) == 1
            &&& s.actions(whole).last() == (ActionView::Reply {
                line: reply_text(s.domain, s.slug, s.http_port),
            })
        }),
{
    let end = seq![closing, EventView::FileClosed];
    let whole = events.push(closing).push(EventView::FileClosed);
    let r = s.run(events);
    assert(whole =~= events + end);
    law_reading_stores_payload(s, events);
    law_setup_is_kept(s, events);
    lemma_run_concat(s, events, end);
    lemma_stored_concat(s.actions(events), r.actions(end));
    let f = r.next(closing);
    assert(end.drop_first() =~= seq![EventView::FileClosed]);
    let reply = ActionView::Reply { line: reply_text(s.domain, s.slug, s.http_port) };
    assert(f.actions(seq![EventView::FileClosed]) =~= seq![reply]) by {
        reveal_with_fuel(SessionView::actions, 2);
    }
    assert(r.actions(end) =~= seq![ActionView::CloseFile, reply]) by {
        reveal_with_fuel(SessionView::actions, 2);
    }
    assert(r.run(end).state == State::Replying) by {
        reveal_with_fuel(SessionView::run, 3);
    }
    assert(stored(r.actions(end)) =~= Seq::<u8>::empty()) by {
        reveal_with_fuel(stored, 3);
    }
    assert(replies(r.actions(end)) == 1) by {
        reveal_with_fuel(replies, 3);
    }
}

/// A client sends `a`, pauses for less than the idle timeout, sends `b` and
/// then stays silent for longer than the idle timeout: the file holds `a`
/// followed by `b`, and one reply is asked for.
pub proof fn law_two_chunks_with_a_pause(
    s: SessionView,
    a: Seq<u8>,
    b: Seq<u8>,
    sent_a: nat,
    paused: nat,
    sent_b: nat,
    silent: nat,
)
    requires
        s.state == State::Reading,
        a.len() > 0,
        b.len() > 0,
        paused - sent_a <= s.idle.timeout,
        silent - sent_b > s.idle.timeout,
    ensures
        ({
            let whole = seq![
                EventView::Read { bytes: a, now: sent_a },
                EventView::WouldBlock { now: paused },
                EventView::Read { bytes: b, now: sent_b },
                EventView::WouldBlock { now: silent },
                EventView::FileClosed,
            ];
            &&& s.run(whole).state == State::Replying
            &&& stored(s.actions(whole)) == a + b
            &&& replies(s.actions(whole)) == 1
        }),
{
    let events = seq![
        EventView::Read { bytes: a, now: sent_a },
        EventView::WouldBlock { now: paused },
        EventView::Read { bytes: b, now: sent_b },
    ];
    let closing = EventView::WouldBlock { now: silent };
    let whole = seq![
        EventView::Read { bytes: a, now: sent_a },
        EventView::WouldBlock { now: paused },
        EventView::Read { bytes: b, now: sent_b },
        EventView::WouldBlock { now: silent },
        EventView::FileClosed,
    ];
    assert(whole =~= events.push(closing).push(EventView::FileClosed));
    let s1 = s.next(events[0]);
    let s2 = s1.next(events[1]);
    let s3 = s2.next(events[2]);
    let e1 = events.drop_first();
    let e2 = e1.drop_first();
    let e3 = e2.drop_first();
    assert(s3.unbroken(e3));
    assert(s2.unbroken(e2));
    assert(s1.unbroken(e1));
    assert(s.run(events) == s3) by {
        assert(s3.run(e3) == s3);
        assert(s2.run(e2) == s3);
        assert(s1.run(e1) == s3);
    }
    assert(payload(events) =~= a + b) by {
        assert(payload(e3) =~= Seq::<u8>::empty());
        assert(payload(e2) =~= b);
        assert(payload(e1) =~= b);
    }
    law_payload_is_stored(s, events, closing);
}

} // verus!
