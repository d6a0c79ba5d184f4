//! What holds of every session, whatever calls are made on it and in whatever order.
//!
//! A history is a sequence of [`Event`]s: the calls made on one session, oldest first. The
//! functions here say what a session has become and what it has sent after a history, over
//! the same transition functions as the contracts of [`ChatSocket`](crate::session::ChatSocket).

use crate::fragment::fragment_text;
use crate::frame::{CloseReasonView, InboundFrameView, OutboundFrameView};
use crate::payload::chat_message_of;
use crate::sanitizer::{sanitizable, sanitized};
use crate::session::{
    greeting, greeting_from, idle, reaction_to, request_of, state_after,
    state_after_establishment, ReactionView, SessionState,
};
use vstd::prelude::*;

verus! {

/// One call made on a session.
pub enum Event {
    /// `started`: the connection is established.
    Established,
    /// `handle`: a frame has arrived.
    Frame(InboundFrameView),
}

/// The state in which `event` leaves a session that was in `state`.
pub open spec fn step_state(state: SessionState, event: Event) -> SessionState {
    match event {
        Event::Established => state_after_establishment(state),
        Event::Frame(frame) => state_after(state, request_of(frame)),
    }
}

/// What a session in `state` does about `event`.
pub open spec fn step_reaction(state: SessionState, event: Event) -> ReactionView {
    match event {
        Event::Established => ReactionView { frame: greeting_from(state), release: false },
        Event::Frame(frame) => reaction_to(state, request_of(frame)),
    }
}

/// The state of a session that was in `state` and has since seen `events`.
pub open spec fn run(state: SessionState, events: Seq<Event>) -> SessionState
    decreases events.len(),
{
    if events.len() == 0 {
        state
    } else {
        step_state(run(state, events.drop_last()), events.last())
    }
}

/// The reaction to the event at position `at` of a history that began in `state`.
pub open spec fn reaction_at(state: SessionState, events: Seq<Event>, at: int) -> ReactionView {
    step_reaction(run(state, events.take(at)), events[at])
}

/// The frames of a reaction, as a sequence of none or one.
pub open spec fn frames_of(reaction: ReactionView) -> Seq<OutboundFrameView> {
    match reaction.frame {
        Some(frame) => seq![frame],
        None => Seq::empty(),
    }
}

/// Every frame sent over a history that began in `state`, in the order of sending.
pub open spec fn sent(state: SessionState, events: Seq<Event>) -> Seq<OutboundFrameView>
    decreases events.len(),
{
    if events.len() == 0 {
        Seq::empty()
    } else {
        sent(state, events.drop_last()) + frames_of(
            step_reaction(run(state, events.drop_last()), events.last()),
        )
    }
}

/// True where none of the first `until` events is a close frame.
pub open spec fn no_close_before(events: Seq<Event>, until: int) -> bool {
    forall|k: int|
        0 <= k < until ==> !(#[trigger] events[k] matches Event::Frame(
            InboundFrameView::Close(_),
        ))
}

/// A session only moves forward: no history takes it to an earlier state.
pub proof fn law_states_only_advance(state: SessionState, events: Seq<Event>)
    ensures
        run(state, events).rank() >= state.rank(),
    decreases events.len(),
{
    if events.len() > 0 {
        law_states_only_advance(state, events.drop_last());
    }
}

/// Between calls a session is never found closing: the acknowledgment of a close and the
/// release of the transport are one step.
pub proof fn law_closing_is_never_observed(state: SessionState, events: Seq<Event>)
    requires
        !(state is Closing),
    ensures
        !(run(state, events) is Closing),
    decreases events.len(),
{
    if events.len() > 0 {
        law_closing_is_never_observed(state, events.drop_last());
    }
}

/// A longer history leaves a session no earlier than any of its beginnings.
pub proof fn law_prefixes_come_first(state: SessionState, events: Seq<Event>, early: int, late: int)
    requires
        0 <= early <= late <= events.len(),
    ensures
        run(state, events.take(early)).rank() <= run(state, events.take(late)).rank(),
    decreases late - early,
{
    if early < late {
        law_prefixes_come_first(state, events, early, late - 1);
        assert(events.take(late).drop_last() =~= events.take(late - 1));
    }
}

/// The first frame that a connection sends is the greeting, and until it is out no inbound
/// frame is acted upon: a session that has not greeted has sent nothing, and one that has
/// greeted has sent the greeting before anything else.
pub proof fn law_greeting_comes_first(events: Seq<Event>)
    ensures
        run(SessionState::Started, events) is Started ==> sent(SessionState::Started, events).len()
            == 0,
        !(run(SessionState::Started, events) is Started) ==> sent(
            SessionState::Started,
            events,
        ).len() > 0,
        sent(SessionState::Started, events).len() > 0 ==> sent(SessionState::Started, events)[0]
            == greeting(),
    decreases events.len(),
{
    if events.len() > 0 {
        law_greeting_comes_first(events.drop_last());
    }
}

/// A connection is greeted once: after an establishment that sent the greeting, no later
/// establishment sends anything.
pub proof fn law_one_greeting(events: Seq<Event>, first: int, second: int)
    requires
        0 <= first < second < events.len(),
        events[first] is Established,
        events[second] is Established,
        reaction_at(SessionState::Started, events, first).frame is Some,
    ensures
        reaction_at(SessionState::Started, events, second) == idle(),
{
    law_prefixes_come_first(SessionState::Started, events, first + 1, second);
}

/// A text frame that carries a chat message within the sanitizer's limit is answered by one
/// text frame, the fragment that shows the sanitized message, and the session stays active.
pub proof fn law_message_is_shown_sanitized(payload: Seq<char>, message: Seq<char>)
    requires
        chat_message_of(payload) == Some(message),
        sanitizable(message),
    ensures
        step_reaction(SessionState::Active, Event::Frame(InboundFrameView::Text(payload)))
            == (ReactionView {
            frame: Some(OutboundFrameView::Text(fragment_text(sanitized(message)))),
            release: false,
        }),
        step_state(SessionState::Active, Event::Frame(InboundFrameView::Text(payload)))
            == SessionState::Active,
{
}

/// Whatever text a session sends in answer to a frame is a fragment around the sanitized chat
/// message of that very frame. No other text of a peer is ever sent back as text.
pub proof fn law_text_replies_are_sanitized(state: SessionState, frame: InboundFrameView)
    ensures
        step_reaction(state, Event::Frame(frame)).frame matches Some(OutboundFrameView::Text(text))
            ==> frame matches InboundFrameView::Text(payload) && chat_message_of(payload) matches Some(
            message,
        ) && sanitizable(message) && text == fragment_text(sanitized(message)),
{
}

/// A chat message beyond the sanitizer's limit is never shown, sanitized or not: the frame is
/// dropped, and the session stays active.
pub proof fn law_oversized_message_is_dropped(payload: Seq<char>, message: Seq<char>)
    requires
        chat_message_of(payload) == Some(message),
        !sanitizable(message),
    ensures
        step_reaction(SessionState::Active, Event::Frame(InboundFrameView::Text(payload)))
            == idle(),
        step_state(SessionState::Active, Event::Frame(InboundFrameView::Text(payload)))
            == SessionState::Active,
{
}

/// A text frame that does not decode, or decodes without a chat message, is dropped: nothing
/// is sent, the session stays active, and the next frame is answered as if the dropped one
/// had never come.
pub proof fn law_undecodable_text_is_dropped(payload: Seq<char>, next: InboundFrameView)
    requires
        chat_message_of(payload) is None,
    ensures
        step_reaction(SessionState::Active, Event::Frame(InboundFrameView::Text(payload)))
            == idle(),
        step_state(SessionState::Active, Event::Frame(InboundFrameView::Text(payload)))
            == SessionState::Active,
        reaction_at(
            SessionState::Active,
            seq![Event::Frame(InboundFrameView::Text(payload)), Event::Frame(next)],
            1,
        ) == step_reaction(SessionState::Active, Event::Frame(next)),
{
    let events = seq![Event::Frame(InboundFrameView::Text(payload)), Event::Frame(next)];
    assert(run(SessionState::Active, events.take(1).drop_last()) == SessionState::Active);
}

/// A binary frame is answered by a binary frame with the same bytes, untouched.
pub proof fn law_binary_is_echoed(bytes: Seq<u8>)
    ensures
        step_reaction(SessionState::Active, Event::Frame(InboundFrameView::Binary(bytes)))
            == (ReactionView { frame: Some(OutboundFrameView::Binary(bytes)), release: false }),
        step_state(SessionState::Active, Event::Frame(InboundFrameView::Binary(bytes)))
            == SessionState::Active,
{
}

/// Until a close frame arrives, an active session answers each frame as if it were the only
/// one: the answer at a position depends on the frame at that position and on nothing that
/// came before it.
pub proof fn law_replies_are_independent(events: Seq<Event>, at: int)
    requires
        0 <= at < events.len(),
        no_close_before(events, at),
    ensures
        run(SessionState::Active, events.take(at)) == SessionState::Active,
        reaction_at(SessionState::Active, events, at) == step_reaction(
            SessionState::Active,
            events[at],
        ),
    decreases at,
{
    if at > 0 {
        law_replies_are_independent(events, at - 1);
        assert(events.take(at).drop_last() =~= events.take(at - 1));
    }
}

/// Two chat messages within the sanitizer's limit, one after the other, are answered by two
/// fragments in the same order, each around its own message alone.
pub proof fn law_two_messages_in_order(
    first_payload: Seq<char>,
    first: Seq<char>,
    second_payload: Seq<char>,
    second: Seq<char>,
)
    requires
        chat_message_of(first_payload) == Some(first),
        chat_message_of(second_payload) == Some(second),
        sanitizable(first),
        sanitizable(second),
    ensures
        sent(
            SessionState::Active,
            seq![
                Event::Frame(InboundFrameView::Text(first_payload)),
                Event::Frame(InboundFrameView::Text(second_payload)),
            ],
        ) == seq![
            OutboundFrameView::Text(fragment_text(sanitized(first))),
            OutboundFrameView::Text(fragment_text(sanitized(second))),
        ],
{
    let state = SessionState::Active;
    let events = seq![
        Event::Frame(InboundFrameView::Text(first_payload)),
        Event::Frame(InboundFrameView::Text(second_payload)),
    ];
    let head = events.drop_last();
    assert(sent(state, head.drop_last()) =~= Seq::<OutboundFrameView>::empty());
    assert(sent(state, head) =~= seq![OutboundFrameView::Text(fragment_text(sanitized(first)))]);
    assert(sent(state, events) =~= seq![
        OutboundFrameView::Text(fragment_text(sanitized(first))),
        OutboundFrameView::Text(fragment_text(sanitized(second))),
    ]);
}

/// A close frame to an active session is acknowledged with the reason it came with, the
/// transport is released, and the session is terminated for good.
pub proof fn law_close_terminates(reason: Option<CloseReasonView>, later: Seq<Event>)
    ensures
        step_reaction(SessionState::Active, Event::Frame(InboundFrameView::Close(reason)))
            == (ReactionView { frame: Some(OutboundFrameView::Close(reason)), release: true }),
        step_state(SessionState::Active, Event::Frame(InboundFrameView::Close(reason)))
            == SessionState::Terminated,
        run(SessionState::Terminated, later) == SessionState::Terminated,
        sent(SessionState::Terminated, later).len() == 0,
    decreases later.len(),
{
    if later.len() > 0 {
        law_close_terminates(reason, later.drop_last());
    }
}

/// Over any history there is at most one close acknowledgment and at most one release: once
/// a session has asked for the release of its transport, every later call is answered with
/// nothing.
pub proof fn law_nothing_follows_release(
    state: SessionState,
    events: Seq<Event>,
    released: int,
    later: int,
)
    requires
        0 <= released < later < events.len(),
        reaction_at(state, events, released).release,
    ensures
        reaction_at(state, events, released).frame matches Some(OutboundFrameView::Close(_)),
        run(state, events.take(later)) == SessionState::Terminated,
        reaction_at(state, events, later) == idle(),
{
    assert(events.take(released + 1).drop_last() =~= events.take(released));
    law_prefixes_come_first(state, events, released + 1, later);
}

/// No history holds two close acknowledgments: a connection is closed once.
pub proof fn law_one_close_acknowledgment(
    state: SessionState,
    events: Seq<Event>,
    one: int,
    other: int,
)
    requires
        0 <= one < events.len(),
        0 <= other < events.len(),
        reaction_at(state, events, one).frame matches Some(OutboundFrameView::Close(_)),
        reaction_at(state, events, other).frame matches Some(OutboundFrameView::Close(_)),
    ensures
        one == other,
{
    if one < other {
        law_nothing_follows_release(state, events, one, other);
    } else if other < one {
        law_nothing_follows_release(state, events, other, one);
    }
}

/// A close acknowledgment is only ever sent together with the release of the transport.
pub proof fn law_close_acknowledgment_releases(state: SessionState, event: Event)
    ensures
        step_reaction(state, event).frame matches Some(OutboundFrameView::Close(_)) <==> step_reaction(
            state,
            event,
        ).release,
{
}

} // verus!
