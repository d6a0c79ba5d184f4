//! The frames exchanged over one duplex connection, and their mathematical models.

use vstd::prelude::*;

verus! {

/// Why a peer closes the connection: a status code and an optional explanation.
#[derive(Clone, Debug, PartialEq, Eq)]
pub struct CloseReason {
    pub code: u16,
    pub description: Option<String>,
}

/// Model of a [`CloseReason`].
pub struct CloseReasonView {
    pub code: u16,
    pub description: Option<Seq<char>>,
}

impl View for CloseReason {
    type V = CloseReasonView;

    open spec fn view(&self) -> CloseReasonView {
        CloseReasonView {
            code: self.code,
            description: match self.description {
                Some(text) => Some(text@),
                None => None,
            },
        }
    }
}

/// Model of an optional close reason.
pub open spec fn reason_view(reason: Option<CloseReason>) -> Option<CloseReasonView> {
    match reason {
        Some(r) => Some(r@),
        None => None,
    }
}

/// A frame received from the peer.
#[derive(Clone, Debug, PartialEq, Eq)]
pub enum InboundFrame {
    /// UTF-8 text, expected to carry a chat payload.
    Text(String),
    /// Raw bytes, never interpreted.
    Binary(Vec<u8>),
    /// The peer asks to close, with or without a reason.
    Close(Option<CloseReason>),
    /// A fragment of a larger message; it carries no meaning for the session.
    Continuation(Vec<u8>),
    /// A frame with nothing in it.
    Nop,
}

/// Model of an [`InboundFrame`].
pub enum InboundFrameView {
    Text(Seq<char>),
    Binary(Seq<u8>),
    Close(Option<CloseReasonView>),
    Continuation(Seq<u8>),
    Nop,
}

impl View for InboundFrame {
    type V = InboundFrameView;

    open spec fn view(&self) -> InboundFrameView {
        match self {
            InboundFrame::Text(payload) => InboundFrameView::Text(payload@),
            InboundFrame::Binary(payload) => InboundFrameView::Binary(payload@),
            InboundFrame::Close(reason) => InboundFrameView::Close(reason_view(*reason)),
            InboundFrame::Continuation(payload) => InboundFrameView::Continuation(payload@),
            InboundFrame::Nop => InboundFrameView::Nop,
        }
    }
}

/// A frame sent to the peer.
#[derive(Clone, Debug, PartialEq, Eq)]
pub enum OutboundFrame {
    Text(String),
    Binary(Vec<u8>),
    Close(Option<CloseReason>),
}

/// Model of an [`OutboundFrame`].
pub enum OutboundFrameView {
    Text(Seq<char>),
    Binary(Seq<u8>),
    Close(Option<CloseReasonView>),
}

impl View for OutboundFrame {
    type V = OutboundFrameView;

    open spec fn view(&self) -> OutboundFrameView {
        match self {
            OutboundFrame::Text(payload) => OutboundFrameView::Text(payload@),
            OutboundFrame::Binary(payload) => OutboundFrameView::Binary(payload@),
            OutboundFrame::Close(reason) => OutboundFrameView::Close(reason_view(*reason)),
        }
    }
}

/// Model of an optional outbound frame.
pub open spec fn frame_view(frame: Option<OutboundFrame>) -> Option<OutboundFrameView> {
    match frame {
        Some(f) => Some(f@),
        None => None,
    }
}

} // verus!
