//! The per-connection state machine: which inbound message each state
//! permits, where it leads, and what the controller does about it.
use vstd::prelude::*;

verus! {

/// The states of a session.
#[derive(Debug, Clone, Copy, PartialEq, Eq, Structural)]
pub enum SessionState {
    Init,
    KeyAgreed,
    Authenticated,
    Streaming,
    Closed,
}

/// The variants of the protocol's message set, without their fields.
#[derive(Debug, Clone, Copy, PartialEq, Eq, Structural)]
pub enum MessageKind {
    KeyExchange,
    KeyExchangeAck,
    AuthRequest,
    AuthResponse,
    StartStream,
    StopStream,
    Disconnect,
    Ping,
    Pong,
    ScreenFrame,
    DeltaFrame,
    QualityChange,
    RequestQualityChange,
    QualityMetricsReport,
    FrameAck,
    NetworkStats,
    MouseMove,
    MouseClick,
    MouseScroll,
    KeyEvent,
}

/// What the controller does on an inbound message.
#[derive(Debug, Clone, Copy, PartialEq, Eq, Structural)]
pub enum Action {
    /// Host: answer with `KeyExchangeAck` and derive the channel key.
    SendKeyExchangeAck,
    /// Viewer: derive the channel key and send `AuthRequest`.
    SendAuthRequest,
    /// Host: issue a token and send `AuthResponse{success=true}`.
    AcceptAuth,
    /// Host: send `AuthResponse{success=false}` and close.
    RejectAuth,
    /// Viewer: send `StartStream`.
    SendStartStream,
    /// Viewer: report that authentication failed, and close.
    AuthenticationFailed,
    /// Host: send the current `QualityChange` and start emitting frames.
    BeginStream,
    /// Host: hand the input event to the input worker.
    ForwardInput,
    /// Host: feed the acknowledgement to the quality controller.
    RecordFrameAck,
    /// Host: pin the requested mode and confirm it with `QualityChange`.
    ApplyQualityRequest,
    /// Viewer: apply the frame to the frame sink.
    ApplyFrame,
    /// Viewer: take the announced mode.
    SetQuality,
    /// Answer a `Ping` with a `Pong`.
    SendPong,
    /// Nothing to do.
    Ignore,
    /// The peer disconnected in order: close.
    CloseSession,
    /// The message is not permitted here: close with a protocol violation.
    ProtocolViolation,
}

/// The state after a message and the action it calls for.
#[derive(Debug, Clone, Copy, PartialEq, Eq, Structural)]
pub struct Transition {
    pub next: SessionState,
    pub action: Action,
}

pub open spec fn is_input_event(k: MessageKind) -> bool {
    ||| k == MessageKind::MouseMove
    ||| k == MessageKind::MouseClick
    ||| k == MessageKind::MouseScroll
    ||| k == MessageKind::KeyEvent
}

/// The inbound messages the host accepts in each state.
pub open spec fn host_permits(s: SessionState, k: MessageKind) -> bool {
    match s {
        SessionState::Init => k == MessageKind::KeyExchange,
        SessionState::KeyAgreed => k == MessageKind::AuthRequest,
        SessionState::Authenticated => {
            ||| k == MessageKind::StartStream
            ||| is_input_event(k)
            ||| k == MessageKind::Ping
            ||| k == MessageKind::RequestQualityChange
            ||| k == MessageKind::QualityMetricsReport
        },
        SessionState::Streaming => {
            ||| is_input_event(k)
            ||| k == MessageKind::FrameAck
            ||| k == MessageKind::RequestQualityChange
            ||| k == MessageKind::Ping
            ||| k == MessageKind::Pong
            ||| k == MessageKind::Disconnect
        },
        SessionState::Closed => false,
    }
}

/// The inbound messages the viewer accepts in each state.
pub open spec fn viewer_permits(s: SessionState, k: MessageKind) -> bool {
    match s {
        SessionState::Init => k == MessageKind::KeyExchangeAck,
        SessionState::KeyAgreed => k == MessageKind::AuthResponse,
        SessionState::Authenticated | SessionState::Streaming => {
            ||| k == MessageKind::ScreenFrame
            ||| k == MessageKind::DeltaFrame
            ||| k == MessageKind::QualityChange
            ||| k == MessageKind::QualityMetricsReport
            ||| k == MessageKind::Ping
            ||| k == MessageKind::Pong
            ||| k == MessageKind::Disconnect
        },
        SessionState::Closed => false,
    }
}

pub open spec fn violation() -> Transition {
    Transition { next: SessionState::Closed, action: Action::ProtocolViolation }
}

/// The host's transition on `k` in `s`; `auth_ok` is the outcome of checking
/// the code of an `AuthRequest`.
pub open spec fn host_step_spec(s: SessionState, k: MessageKind, auth_ok: bool) -> Transition {
    if !host_permits(s, k) {
        violation()
    } else {
        match s {
            SessionState::Init => Transition {
                next: SessionState::KeyAgreed,
                action: Action::SendKeyExchangeAck,
            },
            SessionState::KeyAgreed => if auth_ok {
                Transition { next: SessionState::Authenticated, action: Action::AcceptAuth }
            } else {
                Transition { next: SessionState::Closed, action: Action::RejectAuth }
            },
            _ => if k == MessageKind::StartStream {
                Transition { next: SessionState::Streaming, action: Action::BeginStream }
            } else if is_input_event(k) {
                Transition { next: s, action: Action::ForwardInput }
            } else if k == MessageKind::FrameAck {
                Transition { next: s, action: Action::RecordFrameAck }
            } else if k == MessageKind::RequestQualityChange {
                Transition { next: s, action: Action::ApplyQualityRequest }
            } else if k == MessageKind::Ping {
                Transition { next: s, action: Action::SendPong }
            } else if k == MessageKind::Disconnect {
                Transition { next: SessionState::Closed, action: Action::CloseSession }
            } else {
                Transition { next: s, action: Action::Ignore }
            },
        }
    }
}

/// The viewer's transition on `k` in `s`; `auth_ok` is the `success` field
/// of an `AuthResponse`. The viewer sends `StartStream` as soon as it is
/// authenticated, so it goes on to `Streaming` at once.
pub open spec fn viewer_step_spec(s: SessionState, k: MessageKind, auth_ok: bool) -> Transition {
    if !viewer_permits(s, k) {
        violation()
    } else {
        match s {
            SessionState::Init => Transition {
                next: SessionState::KeyAgreed,
                action: Action::SendAuthRequest,
            },
            SessionState::KeyAgreed => if auth_ok {
                Transition { next: SessionState::Streaming, action: Action::SendStartStream }
            } else {
                Transition { next: SessionState::Closed, action: Action::AuthenticationFailed }
            },
            _ => if k == MessageKind::ScreenFrame || k == MessageKind::DeltaFrame {
                Transition { next: s, action: Action::ApplyFrame }
            } else if k == MessageKind::QualityChange {
                Transition { next: s, action: Action::SetQuality }
            } else if k == MessageKind::Ping {
                Transition { next: s, action: Action::SendPong }
            } else if k == MessageKind::Disconnect {
                Transition { next: SessionState::Closed, action: Action::CloseSession }
            } else {
                Transition { next: s, action: Action::Ignore }
            },
        }
    }
}

fn is_input(k: MessageKind) -> (r: bool)
    ensures
        r == is_input_event(k),
{
    match k {
        MessageKind::MouseMove | MessageKind::MouseClick | MessageKind::MouseScroll
        | MessageKind::KeyEvent => true,
        _ => false,
    }
}

/// Whether the host accepts `k` in `s`.
pub fn host_permits_message(s: SessionState, k: MessageKind) -> (r: bool)
    ensures
        r == host_permits(s, k),
{
    match s {
        SessionState::Init => k == MessageKind::KeyExchange,
        SessionState::KeyAgreed => k == MessageKind::AuthRequest,
        SessionState::Authenticated => k == MessageKind::StartStream || is_input(k) || k
            == MessageKind::Ping || k == MessageKind::RequestQualityChange || k
            == MessageKind::QualityMetricsReport,
        SessionState::Streaming => is_input(k) || k == MessageKind::FrameAck || k
            == MessageKind::RequestQualityChange || k == MessageKind::Ping || k
            == MessageKind::Pong || k == MessageKind::Disconnect,
        SessionState::Closed => false,
    }
}

/// Whether the viewer accepts `k` in `s`.
pub fn viewer_permits_message(s: SessionState, k: MessageKind) -> (r: bool)
    ensures
        r == viewer_permits(s, k),
{
    match s {
        SessionState::Init => k == MessageKind::KeyExchangeAck,
        SessionState::KeyAgreed => k == MessageKind::AuthResponse,
        SessionState::Authenticated | SessionState::Streaming => k == MessageKind::ScreenFrame || k
            == MessageKind::DeltaFrame || k == MessageKind::QualityChange || k
            == MessageKind::QualityMetricsReport || k == MessageKind::Ping || k
            == MessageKind::Pong || k == MessageKind::Disconnect,
        SessionState::Closed => false,
    }
}

/// The host's transition on an inbound message.
pub fn host_step(s: SessionState, k: MessageKind, auth_ok: bool) -> (r: Transition)
    ensures
        r == host_step_spec(s, k, auth_ok),
{
    if !host_permits_message(s, k) {
        return Transition { next: SessionState::Closed, action: Action::ProtocolViolation };
    }
    match s {
        SessionState::Init => Transition {
            next: SessionState::KeyAgreed,
            action: Action::SendKeyExchangeAck,
        },
        SessionState::KeyAgreed => if auth_ok {
            Transition { next: SessionState::Authenticated, action: Action::AcceptAuth }
        } else {
            Transition { next: SessionState::Closed, action: Action::RejectAuth }
        },
        _ => if k == MessageKind::StartStream {
            Transition { next: SessionState::Streaming, action: Action::BeginStream }
        } else if is_input(k) {
            Transition { next: s, action: Action::ForwardInput }
        } else if k == MessageKind::FrameAck {
            Transition { next: s, action: Action::RecordFrameAck }
        } else if k == MessageKind::RequestQualityChange {
            Transition { next: s, action: Action::ApplyQualityRequest }
        } else if k == MessageKind::Ping {
            Transition { next: s, action: Action::SendPong }
        } else if k == MessageKind::Disconnect {
            Transition { next: SessionState::Closed, action: Action::CloseSession }
        } else {
            Transition { next: s, action: Action::Ignore }
        },
    }
}

/// The viewer's transition on an inbound message.
pub fn viewer_step(s: SessionState, k: MessageKind, auth_ok: bool) -> (r: Transition)
    ensures
        r == viewer_step_spec(s, k, auth_ok),
{
    if !viewer_permits_message(s, k) {
        return Transition { next: SessionState::Closed, action: Action::ProtocolViolation };
    }
    match s {
        SessionState::Init => Transition {
            next: SessionState::KeyAgreed,
            action: Action::SendAuthRequest,
        },
        SessionState::KeyAgreed => if auth_ok {
            Transition { next: SessionState::Streaming, action: Action::SendStartStream }
        } else {
            Transition { next: SessionState::Closed, action: Action::AuthenticationFailed }
        },
        _ => if k == MessageKind::ScreenFrame || k == MessageKind::DeltaFrame {
            Transition { next: s, action: Action::ApplyFrame }
        } else if k == MessageKind::QualityChange {
            Transition { next: s, action: Action::SetQuality }
        } else if k == MessageKind::Ping {
            Transition { next: s, action: Action::SendPong }
        } else if k == MessageKind::Disconnect {
            Transition { next: SessionState::Closed, action: Action::CloseSession }
        } else {
            Transition { next: s, action: Action::Ignore }
        },
    }
}

/// A message outside a state's table closes the session as a protocol
/// violation and asks for nothing else to be done; a permitted one never
/// counts as a violation, and a closed session permits nothing.
pub proof fn lemma_state_machine(s: SessionState, k: MessageKind, auth_ok: bool)
    ensures
        !host_permits(s, k) ==> host_step_spec(s, k, auth_ok) == violation(),
        host_permits(s, k) ==> host_step_spec(s, k, auth_ok).action != Action::ProtocolViolation,
        !viewer_permits(s, k) ==> viewer_step_spec(s, k, auth_ok) == violation(),
        viewer_permits(s, k) ==> viewer_step_spec(s, k, auth_ok).action
            != Action::ProtocolViolation,
        !host_permits(SessionState::Closed, k) && !viewer_permits(SessionState::Closed, k),
{
}

/// Before authentication only the handshake moves a session forward: no
/// frame, input or quality message is acted on, and a failed check of the
/// code always closes the session.
pub proof fn lemma_handshake_order(k: MessageKind, auth_ok: bool)
    ensures
        host_step_spec(SessionState::Init, k, auth_ok).next == SessionState::KeyAgreed
            || host_step_spec(SessionState::Init, k, auth_ok).next == SessionState::Closed,
        host_step_spec(SessionState::KeyAgreed, k, auth_ok).next == SessionState::Authenticated
            ==> k == MessageKind::AuthRequest && auth_ok,
        !auth_ok ==> host_step_spec(SessionState::KeyAgreed, k, auth_ok).next
            == SessionState::Closed,
{
}

} // verus!
