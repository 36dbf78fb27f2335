//! The decisions of the ICE WebSocket: what to do with each frame the browser
//! sends, with each message queued for it, and with the outcome of each step.
//!
//! The socket and the peer connection are driven by the caller, which hands
//! every event to an [`IceSocket`] and carries out the action it returns.

use tokio::sync::mpsc::UnboundedSender;
use vstd::prelude::*;

use crate::operations::validate_ice_candidate;
use crate::session::registry::{after_set_ws_sender, SessionRegistry};
use crate::types::{IceCandidate, IceWsMessage, PeerId, SdpAnswer};

verus! {

/// A text frame from the browser, as far as it could be decoded: a full
/// `IceWsMessage` envelope, else a bare `IceCandidate`, else neither.
pub enum TextPayload {
    Envelope(IceWsMessage),
    BareCandidate(IceCandidate),
    Unrecognized,
}

/// What the browser's side of the socket produced.
pub enum IncomingFrame {
    /// A text frame.
    Text(TextPayload),
    /// A close frame.
    Close,
    /// A binary, ping or pong frame.
    Other,
    /// The stream ended or failed.
    Ended,
}

/// How sending a queued message on the socket went.
pub enum SendOutcome {
    /// The frame was written.
    Delivered,
    /// The message could not be encoded as JSON; nothing was written.
    Unencodable,
    /// Writing the frame failed.
    Failed,
}

/// What the caller is to do next.
pub enum IceAction {
    /// Wait for the next event.
    Continue,
    /// Close the socket; no further event is handled.
    Stop,
    /// Add the candidate to the peer connection, then report the outcome.
    AddIceCandidate(IceCandidate),
    /// Apply the answer to the connection of the peer, then report the outcome.
    ApplyRemoteAnswer(PeerId, SdpAnswer),
    /// Encode the message as JSON and write it on the socket, then report how
    /// that went.
    Send(IceWsMessage),
}

/// The action for a candidate: forward it when it carries a candidate line,
/// pass over it otherwise.
pub open spec fn candidate_action(c: IceCandidate, act: IceAction) -> bool {
    if c.candidate@.len() > 0 {
        act == IceAction::AddIceCandidate(c)
    } else {
        act is Continue
    }
}

/// The action taken for `frame` on an open socket that belongs to `peer_id`.
pub open spec fn incoming_action(peer_id: Option<PeerId>, frame: IncomingFrame, act: IceAction) -> bool {
    match frame {
        IncomingFrame::Ended => act is Stop,
        IncomingFrame::Close => act is Stop,
        IncomingFrame::Other => act is Continue,
        IncomingFrame::Text(TextPayload::Unrecognized) => act is Continue,
        IncomingFrame::Text(TextPayload::BareCandidate(c)) => candidate_action(c, act),
        IncomingFrame::Text(TextPayload::Envelope(IceWsMessage::Candidate(c))) => candidate_action(c, act),
        IncomingFrame::Text(TextPayload::Envelope(IceWsMessage::Answer(a))) => match peer_id {
            Some(id) => act == IceAction::ApplyRemoteAnswer(id, a),
            None => act is Continue,
        },
        IncomingFrame::Text(TextPayload::Envelope(IceWsMessage::Offer(_))) => act is Continue,
        IncomingFrame::Text(TextPayload::Envelope(IceWsMessage::Done)) => act is Continue,
    }
}

/// The action for the next message queued for the browser on an open
/// socket: send it, or stop when the queue has been closed.
pub open spec fn outgoing_action(msg: Option<IceWsMessage>) -> IceAction {
    match msg {
        Some(m) => IceAction::Send(m),
        None => IceAction::Stop,
    }
}

/// Whether an open socket stays open after an attempt to send: only a failed
/// write closes it.
pub open spec fn open_after_sent(outcome: SendOutcome) -> bool {
    !(outcome is Failed)
}

/// The actions an ICE socket that is open when `open` holds takes for the
/// messages `ms` queued for the browser, each written successfully once its
/// `Send` comes, and whether the socket is open afterwards.
pub open spec fn written(open: bool, ms: Seq<IceWsMessage>) -> (Seq<IceAction>, bool)
    decreases ms.len(),
{
    if ms.len() == 0 {
        (Seq::empty(), open)
    } else {
        let (acts, was_open) = written(open, ms.drop_last());
        let act = if was_open {
            outgoing_action(Some(ms.last()))
        } else {
            IceAction::Stop
        };
        let still_open = was_open && !(act is Stop);
        (acts.push(act), still_open && open_after_sent(SendOutcome::Delivered))
    }
}

/// The message that tells the browser of a candidate the server gathered,
/// or, when gathering is complete, that no more will come.
pub fn server_candidate_message(candidate: Option<IceCandidate>) -> (m: IceWsMessage)
    ensures
        match candidate {
            Some(c) => m == IceWsMessage::Candidate(c),
            None => m is Done,
        },
{
    match candidate {
        Some(c) => IceWsMessage::Candidate(c),
        None => IceWsMessage::Done,
    }
}

/// The state of one ICE WebSocket.
///
/// When the socket names no peer, it holds the sender of its own message
/// queue, so that the queue stays open for as long as the socket does.
pub struct IceSocket {
    pub peer_id: Option<PeerId>,
    pub open: bool,
    pub queue_tx: Option<UnboundedSender<IceWsMessage>>,
}

impl IceSocket {
    /// Opens the socket of `peer_id` and, when the peer is named, attaches
    /// `tx` (the queue of messages for this socket) to it in the registry.
    pub fn open(registry: &mut SessionRegistry, peer_id: Option<PeerId>, tx: UnboundedSender<
        IceWsMessage,
    >) -> (socket: IceSocket)
        ensures
            socket.peer_id == peer_id,
            socket.open,
            peer_id is None ==> socket.queue_tx == Some(tx),
            peer_id is Some ==> socket.queue_tx is None,
            match peer_id {
                Some(id) => final(registry)@ == after_set_ws_sender(old(registry)@, id.0, tx),
                None => final(registry)@ == old(registry)@,
            },
    {
        match peer_id {
            Some(id) => {
                registry.set_ws_sender(id, tx);
                IceSocket { peer_id, open: true, queue_tx: None }
            },
            None => IceSocket { peer_id, open: true, queue_tx: Some(tx) },
        }
    }

    /// Decides what to do with a frame from the browser.
    ///
    /// The socket closes when the stream ends or a close frame comes. A
    /// candidate, in an envelope or bare, is forwarded when it carries a
    /// candidate line; an answer is applied when the socket names its peer;
    /// anything else is passed over. A closed socket only answers `Stop`.
    pub fn on_incoming(&mut self, frame: IncomingFrame) -> (act: IceAction)
        ensures
            final(self).peer_id == old(self).peer_id,
            final(self).queue_tx == old(self).queue_tx,
            !old(self).open ==> act is Stop && !final(self).open,
            old(self).open ==> incoming_action(old(self).peer_id, frame, act),
            final(self).open == (old(self).open && !(act is Stop)),
    {
        if !self.open {
            return IceAction::Stop;
        }
        let act = match frame {
            IncomingFrame::Ended => IceAction::Stop,
            IncomingFrame::Close => IceAction::Stop,
            IncomingFrame::Other => IceAction::Continue,
            IncomingFrame::Text(payload) => match payload {
                TextPayload::Unrecognized => IceAction::Continue,
                TextPayload::BareCandidate(c) => Self::candidate(c),
                TextPayload::Envelope(msg) => match msg {
                    IceWsMessage::Candidate(c) => Self::candidate(c),
                    IceWsMessage::Answer(a) => match self.peer_id {
                        Some(id) => IceAction::ApplyRemoteAnswer(id, a),
                        None => IceAction::Continue,
                    },
                    IceWsMessage::Offer(_) => IceAction::Continue,
                    IceWsMessage::Done => IceAction::Continue,
                },
            },
        };
        if matches!(act, IceAction::Stop) {
            self.open = false;
        }
        act
    }

    /// Forwards a candidate that passes `validate_ice_candidate`.
    fn candidate(c: IceCandidate) -> (act: IceAction)
        ensures
            candidate_action(c, act),
    {
        if validate_ice_candidate(&c).is_ok() {
            IceAction::AddIceCandidate(c)
        } else {
            IceAction::Continue
        }
    }

    /// Decides what to do with the next message queued for the browser:
    /// send it, or close the socket when the queue has been closed.
    pub fn on_outgoing(&mut self, msg: Option<IceWsMessage>) -> (act: IceAction)
        ensures
            final(self).peer_id == old(self).peer_id,
            final(self).queue_tx == old(self).queue_tx,
            !old(self).open ==> act is Stop,
            old(self).open ==> act == outgoing_action(msg),
            final(self).open == (old(self).open && !(act is Stop)),
    {
        if !self.open {
            return IceAction::Stop;
        }
        match msg {
            Some(m) => IceAction::Send(m),
            None => {
                self.open = false;
                IceAction::Stop
            },
        }
    }

    /// Decides what follows an attempt to add a candidate or apply an answer:
    /// a failure closes the socket.
    pub fn on_peer_outcome(&mut self, ok: bool) -> (act: IceAction)
        ensures
            final(self).peer_id == old(self).peer_id,
            final(self).queue_tx == old(self).queue_tx,
            act is Stop <==> (!old(self).open || !ok),
            !(act is Stop) ==> act is Continue,
            final(self).open == (old(self).open && ok),
    {
        if !self.open || !ok {
            self.open = false;
            return IceAction::Stop;
        }
        IceAction::Continue
    }

    /// Decides what follows an attempt to send a queued message: a failed
    /// write closes the socket; a message that could not be encoded is
    /// dropped and the socket goes on.
    pub fn on_sent(&mut self, outcome: SendOutcome) -> (act: IceAction)
        ensures
            final(self).peer_id == old(self).peer_id,
            final(self).queue_tx == old(self).queue_tx,
            act is Stop <==> (!old(self).open || !open_after_sent(outcome)),
            !(act is Stop) ==> act is Continue,
            final(self).open == (old(self).open && open_after_sent(outcome)),
    {
        if !self.open {
            return IceAction::Stop;
        }
        match outcome {
            SendOutcome::Failed => {
                self.open = false;
                IceAction::Stop
            },
            _ => IceAction::Continue,
        }
    }
}

} // verus!
