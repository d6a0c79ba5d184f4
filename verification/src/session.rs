//! The per-connection session: a state machine from inbound frames to outbound frames.
//!
//! A session only decides. It owns no transport: each call returns what is to be sent and
//! whether the transport is to be released, and the host that owns the connection carries
//! that out before it hands over the next frame.

use crate::fragment::{fragment_text, render_fragment, GREETING};
use crate::frame::{
    frame_view, reason_view, CloseReason, CloseReasonView, InboundFrame, InboundFrameView,
    OutboundFrame, OutboundFrameView,
};
use crate::payload::{chat_message_of, ChatPayload};
use crate::sanitizer::{sanitizable, sanitize, sanitized};
use vstd::prelude::*;
use vstd::string::*;

verus! {

/// Where a session stands in its life. A session only ever moves forward through these.
#[derive(Clone, Copy, Debug, PartialEq, Eq, Structural)]
pub enum SessionState {
    /// The connection is established and the greeting is still owed.
    Started,
    /// The greeting is out; inbound frames are acted upon.
    Active,
    /// A close is being acknowledged. No call leaves a session here.
    Closing,
    /// The transport is released; nothing is acted upon any more.
    Terminated,
}

impl SessionState {
    /// The position of a state in the order in which states are passed through.
    pub open spec fn rank(self) -> nat {
        match self {
            SessionState::Started => 0,
            SessionState::Active => 1,
            SessionState::Closing => 2,
            SessionState::Terminated => 3,
        }
    }
}

/// What an inbound frame asks of a session, once its payload has been interpreted.
#[derive(Clone, Debug, PartialEq, Eq)]
pub enum Request {
    /// Show a chat message. The text is the sanitized message.
    Post(String),
    /// Send the bytes back as they came.
    Echo(Vec<u8>),
    /// Close the connection, for the given reason if there is one.
    Close(Option<CloseReason>),
    /// Nothing: a frame without meaning for the session, a payload that does not decode, or a
    /// chat message too long for the sanitizer.
    Ignore,
}

/// Model of a [`Request`].
pub enum RequestView {
    Post(Seq<char>),
    Echo(Seq<u8>),
    Close(Option<CloseReasonView>),
    Ignore,
}

impl View for Request {
    type V = RequestView;

    open spec fn view(&self) -> RequestView {
        match self {
            Request::Post(message) => RequestView::Post(message@),
            Request::Echo(bytes) => RequestView::Echo(bytes@),
            Request::Close(reason) => RequestView::Close(reason_view(*reason)),
            Request::Ignore => RequestView::Ignore,
        }
    }
}

/// What the host is to do after a call: send `frame` if there is one, then release the
/// transport if `release` is set.
#[derive(Clone, Debug, PartialEq, Eq)]
pub struct Reaction {
    pub frame: Option<OutboundFrame>,
    pub release: bool,
}

/// Model of a [`Reaction`].
pub struct ReactionView {
    pub frame: Option<OutboundFrameView>,
    pub release: bool,
}

impl View for Reaction {
    type V = ReactionView;

    open spec fn view(&self) -> ReactionView {
        ReactionView { frame: frame_view(self.frame), release: self.release }
    }
}

/// The reaction that sends nothing and keeps the transport.
pub open spec fn idle() -> ReactionView {
    ReactionView { frame: None, release: false }
}

/// The frame that greets the peer.
pub open spec fn greeting() -> OutboundFrameView {
    OutboundFrameView::Text(GREETING@)
}

/// How a frame is interpreted. A text frame asks for its chat message to be shown, sanitized
/// first; one that carries no chat message, or one too long to be sanitized, asks for
/// nothing. Binary payloads are never sanitized. Continuation and empty frames ask for
/// nothing.
pub open spec fn request_of(frame: InboundFrameView) -> RequestView {
    match frame {
        InboundFrameView::Text(payload) => match chat_message_of(payload) {
            Some(message) => if sanitizable(message) {
                RequestView::Post(sanitized(message))
            } else {
                RequestView::Ignore
            },
            None => RequestView::Ignore,
        },
        InboundFrameView::Binary(payload) => RequestView::Echo(payload),
        InboundFrameView::Close(reason) => RequestView::Close(reason),
        InboundFrameView::Continuation(_) => RequestView::Ignore,
        InboundFrameView::Nop => RequestView::Ignore,
    }
}

/// What a session in `state` does about `request`. Only an active session does anything.
pub open spec fn reaction_to(state: SessionState, request: RequestView) -> ReactionView {
    if state is Active {
        match request {
            RequestView::Post(message) => ReactionView {
                frame: Some(OutboundFrameView::Text(fragment_text(message))),
                release: false,
            },
            RequestView::Echo(bytes) => ReactionView {
                frame: Some(OutboundFrameView::Binary(bytes)),
                release: false,
            },
            RequestView::Close(reason) => ReactionView {
                frame: Some(OutboundFrameView::Close(reason)),
                release: true,
            },
            RequestView::Ignore => idle(),
        }
    } else {
        idle()
    }
}

/// The state in which `request` leaves a session that was in `state`. Only a close request
/// to an active session moves it.
pub open spec fn state_after(state: SessionState, request: RequestView) -> SessionState {
    if state is Active && request is Close {
        SessionState::Terminated
    } else {
        state
    }
}

/// The state in which establishment leaves a session that was in `state`.
pub open spec fn state_after_establishment(state: SessionState) -> SessionState {
    if state is Started {
        SessionState::Active
    } else {
        state
    }
}

/// What establishment sends from a session in `state`: the greeting, once.
pub open spec fn greeting_from(state: SessionState) -> Option<OutboundFrameView> {
    if state is Started {
        Some(greeting())
    } else {
        None
    }
}

/// Interprets an inbound frame: decodes the payload of a text frame and sanitizes the chat
/// message found in it. No text of a peer gets into a request unsanitized: a message that the
/// sanitizer does not take is dropped like a payload that does not decode.
pub fn classify(frame: InboundFrame) -> (request: Request)
    ensures
        request@ == request_of(frame@),
{
    match frame {
        InboundFrame::Text(payload) => match ChatPayload::decode(payload.as_str()) {
            Some(decoded) => match sanitize(decoded.chat_message.as_str()) {
                Some(safe) => Request::Post(safe),
                None => Request::Ignore,
            },
            None => Request::Ignore,
        },
        InboundFrame::Binary(payload) => Request::Echo(payload),
        InboundFrame::Close(reason) => Request::Close(reason),
        InboundFrame::Continuation(_) => Request::Ignore,
        InboundFrame::Nop => Request::Ignore,
    }
}

/// The session of one duplex connection.
#[derive(Debug)]
pub struct ChatSocket {
    state: SessionState,
}

impl View for ChatSocket {
    type V = SessionState;

    closed spec fn view(&self) -> SessionState {
        self.state
    }
}

impl ChatSocket {
    /// A session for a connection that has just been established.
    pub fn new() -> (socket: ChatSocket)
        ensures
            socket@ == SessionState::Started,
    {
        ChatSocket { state: SessionState::Started }
    }

    /// The state the session is in.
    pub fn state(&self) -> (state: SessionState)
        ensures
            state == self@,
    {
        self.state
    }

    /// Marks the connection as established. The first call returns the greeting, which the
    /// host sends before it hands over any inbound frame; later calls return nothing.
    pub fn started(&mut self) -> (sent: Option<OutboundFrame>)
        ensures
            final(self)@ == state_after_establishment(old(self)@),
            frame_view(sent) == greeting_from(old(self)@),
    {
        if self.state == SessionState::Started {
            self.state = SessionState::Active;
            Some(OutboundFrame::Text(String::from_str(GREETING)))
        } else {
            None
        }
    }

    /// Carries out an interpreted request.
    pub fn perform(&mut self, request: Request) -> (reaction: Reaction)
        ensures
            final(self)@ == state_after(old(self)@, request@),
            reaction@ == reaction_to(old(self)@, request@),
    {
        if self.state != SessionState::Active {
            return Reaction { frame: None, release: false };
        }
        match request {
            Request::Post(message) => Reaction {
                frame: Some(OutboundFrame::Text(render_fragment(message.as_str()))),
                release: false,
            },
            Request::Echo(bytes) => Reaction {
                frame: Some(OutboundFrame::Binary(bytes)),
                release: false,
            },
            Request::Close(reason) => {
                self.state = SessionState::Closing;
                let acknowledgment = OutboundFrame::Close(reason);
                self.state = SessionState::Terminated;
                Reaction { frame: Some(acknowledgment), release: true }
            },
            Request::Ignore => Reaction { frame: None, release: false },
        }
    }

    /// Handles one inbound frame. A session that is not active neither interprets the frame
    /// nor answers it.
    pub fn handle(&mut self, frame: InboundFrame) -> (reaction: Reaction)
        ensures
            final(self)@ == state_after(old(self)@, request_of(frame@)),
            reaction@ == reaction_to(old(self)@, request_of(frame@)),
    {
        if self.state != SessionState::Active {
            return Reaction { frame: None, release: false };
        }
        self.perform(classify(frame))
    }
}

} // verus!
