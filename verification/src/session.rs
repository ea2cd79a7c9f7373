//! The bridge pump's session logic: the connection buffer of the TCP read
//! path, and the decision step that maps each observed event to the next
//! session state and the action the pump must perform.
//!
//! The pump itself lives with the I/O: it waits on the bus socket and the
//! TCP stream, turns whatever becomes ready into a `BridgeEvent`, calls
//! `session_step`, and performs the returned `BridgeAction`. Every decision
//! is taken here, so the loop around it carries none.

use vstd::prelude::*;
use bytes::BytesMut;
use crate::bytebuf::{buf_bytes, buf_len, buf_new, buf_put_slice};
use crate::codec::{spec_decode, CanFrameCodec, CodecError, DecodeModel};
use crate::frame::{frame_wf, CanFrame};

verus! {

/// The state of one bridging session.
#[derive(Debug, Clone, Copy, PartialEq, Eq, Structural)]
pub enum SessionState {
    /// Waiting for the bus handle and the TCP connection to be available.
    Idle,
    /// Forwarding frames in both directions.
    Running,
    /// One side ended cleanly with no partial frame pending; the pump
    /// returns control in good order.
    Closed,
    /// The TCP stream ended mid-frame: the peer broke the framing contract,
    /// classified as a connection reset by the peer.
    Faulted,
}

/// One observation the pump reacts to while a session runs.
#[derive(Debug, PartialEq, Eq)]
pub enum BridgeEvent {
    /// The bus yielded the next inbound frame.
    BusFrame(CanFrame),
    /// A bus read, send or flush failed; transient.
    BusFault,
    /// The bus yields no more frames.
    BusClosed,
    /// One complete frame was decoded from the TCP stream.
    TcpFrame(CanFrame),
    /// A TCP read, write, flush or decode failed; transient.
    TcpFault,
    /// The TCP stream reached end of input; `mid_frame` says whether a
    /// partially received frame was still buffered.
    TcpClosed { mid_frame: bool },
}

/// What the pump must do in reaction to one event.
#[derive(Debug, PartialEq, Eq)]
pub enum BridgeAction {
    /// Encode the frame, write it to the TCP side, and flush at once.
    WriteTcp(CanFrame),
    /// Send the frame on the bus, flush, then hold for the post-send delay
    /// before returning to the wait state.
    SendBus(CanFrame),
    /// Log the transient fault and return to waiting on both sources.
    Continue,
    /// The session is over: perform no forwarding and return to the driver.
    Finish,
}

/// The pump's reaction to one event while the session runs: frames are
/// forwarded to the opposite side; a single fault never ends the session;
/// a clean end of either stream closes it; a TCP end mid-frame faults it.
pub open spec fn session_transition(event: BridgeEvent) -> (SessionState, BridgeAction) {
    match event {
        BridgeEvent::BusFrame(f) => (SessionState::Running, BridgeAction::WriteTcp(f)),
        BridgeEvent::BusFault => (SessionState::Running, BridgeAction::Continue),
        BridgeEvent::BusClosed => (SessionState::Closed, BridgeAction::Finish),
        BridgeEvent::TcpFrame(f) => (SessionState::Running, BridgeAction::SendBus(f)),
        BridgeEvent::TcpFault => (SessionState::Running, BridgeAction::Continue),
        BridgeEvent::TcpClosed { mid_frame } => if mid_frame {
            (SessionState::Faulted, BridgeAction::Finish)
        } else {
            (SessionState::Closed, BridgeAction::Finish)
        },
    }
}

/// React to one event of a running session.
pub fn session_step(event: BridgeEvent) -> (r: (SessionState, BridgeAction))
    ensures
        r == session_transition(event),
{
    match event {
        BridgeEvent::BusFrame(f) => (SessionState::Running, BridgeAction::WriteTcp(f)),
        BridgeEvent::BusFault => (SessionState::Running, BridgeAction::Continue),
        BridgeEvent::BusClosed => (SessionState::Closed, BridgeAction::Finish),
        BridgeEvent::TcpFrame(f) => (SessionState::Running, BridgeAction::SendBus(f)),
        BridgeEvent::TcpFault => (SessionState::Running, BridgeAction::Continue),
        BridgeEvent::TcpClosed { mid_frame } => if mid_frame {
            (SessionState::Faulted, BridgeAction::Finish)
        } else {
            (SessionState::Closed, BridgeAction::Finish)
        },
    }
}

/// Session continuity under a transient error: a single failed bus read
/// leaves the session running, and a subsequent successful read is still
/// forwarded to the TCP side. The same holds for a transient TCP fault.
pub proof fn lemma_session_survives_transient_fault(f: CanFrame)
    ensures
        session_transition(BridgeEvent::BusFault).0 is Running,
        session_transition(BridgeEvent::TcpFault).0 is Running,
        session_transition(BridgeEvent::BusFrame(f)) == (
        SessionState::Running,
        BridgeAction::WriteTcp(f),
        ),
        session_transition(BridgeEvent::TcpFrame(f)) == (
        SessionState::Running,
        BridgeAction::SendBus(f),
        ),
{
}

/// The TCP read path of one session: the codec over the connection buffer
/// that accumulates received bytes and yields each complete frame in order.
/// Its view is the sequence of buffered, not yet consumed bytes.
pub struct FrameReader {
    codec: CanFrameCodec,
    buf: BytesMut,
}

impl View for FrameReader {
    type V = Seq<u8>;

    closed spec fn view(&self) -> Seq<u8> {
        buf_bytes(self.buf)
    }
}

impl FrameReader {
    /// A reader with an empty buffer, for a freshly accepted connection.
    pub fn new() -> (r: FrameReader)
        ensures
            r@ == Seq::<u8>::empty(),
    {
        FrameReader { codec: CanFrameCodec, buf: buf_new() }
    }

    /// Append newly received bytes to the connection buffer.
    pub fn feed(&mut self, chunk: &[u8])
        requires
            old(self)@.len() + chunk@.len() <= isize::MAX,
        ensures
            final(self)@ == old(self)@ + chunk@,
    {
        buf_put_slice(&mut self.buf, chunk);
    }

    /// Try to extract the next frame from the buffered bytes; the codec's
    /// decode on the connection buffer.
    pub fn poll_frame(&mut self) -> (res: Result<Option<CanFrame>, CodecError>)
        ensures
            spec_decode(old(self)@) is NeedMore ==> res == Ok::<Option<CanFrame>, CodecError>(None)
                && final(self)@ == old(self)@,
            (spec_decode(old(self)@) matches DecodeModel::Frame { frame, consumed } ==> (
            res matches Ok(Some(f)) && f@ == frame) && frame_wf(frame) && final(self)@ == old(
                self,
            )@.skip(consumed)),
            spec_decode(old(self)@) is Unsupported ==> res == Err::<Option<CanFrame>, CodecError>(
                CodecError::UnsupportedFrame,
            ) && final(self)@ == old(self)@.skip(5),
            spec_decode(old(self)@) is Malformed ==> res == Err::<Option<CanFrame>, CodecError>(
                CodecError::InvalidLength,
            ) && final(self)@ == old(self)@.skip(5),
    {
        self.codec.decode(&mut self.buf)
    }

    /// The number of buffered bytes not yet consumed.
    pub fn pending(&self) -> (n: usize)
        ensures
            n == self@.len(),
    {
        buf_len(&self.buf)
    }

    /// Whether a partially received frame is still buffered. At end of
    /// input this tells a clean close from a peer reset.
    pub fn has_partial(&self) -> (r: bool)
        ensures
            r == (self@.len() > 0),
    {
        buf_len(&self.buf) > 0
    }
}

} // verus!
