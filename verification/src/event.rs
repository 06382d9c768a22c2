//! The closed set of values that flow through the session event loop: what the
//! loop is woken by, what it asks of the protocol engine, what the engine answers,
//! and what the loop tells its collaborators to do.

use crate::cursor::{CursorError, CursorStyle, PointerBitmap};
#[allow(unused_imports)]
use crate::input::{batch_events, batch_is_empty, FastPathInputEvents};
use vstd::prelude::*;

verus! {

/// A clipboard format offered by one side.
#[derive(Debug, PartialEq, Eq)]
pub struct ClipboardFormat {
    pub id: u32,
    pub name: Option<String>,
}

/// Clipboard data answered to a request of the remote side.
#[derive(Debug, PartialEq, Eq)]
pub struct FormatDataResponse {
    pub is_error: bool,
    pub data: Vec<u8>,
}

/// A message from the local clipboard backend that concerns the remote side.
#[derive(Debug, PartialEq, Eq)]
pub enum ClipboardMessage {
    /// Local clipboard content changed; the formats can be announced.
    SendInitiateCopy(Vec<ClipboardFormat>),
    /// Format data is ready to be sent.
    SendFormatData(FormatDataResponse),
    /// Data in the given format is wanted from the remote side.
    SendInitiatePaste(u32),
    /// The backend failed.
    Error(String),
}

/// An event produced locally and consumed once by the run loop. `B` is the
/// message type of the clipboard backend, which the loop only passes on.
#[derive(Debug, PartialEq, Eq)]
pub enum RdpInputEvent<B> {
    Cliprdr(ClipboardMessage),
    ClipboardBackend(B),
    FastPath(FastPathInputEvents),
    Resize { width: u32, height: u32, scale_factor: Option<u32>, physical_size: Option<(u32, u32)> },
    TerminateSession,
}

/// Which way of addressing a frame the transport framing found.
#[derive(Debug, Clone, Copy, PartialEq, Eq, Structural)]
pub enum FrameAction {
    FastPath,
    X224,
}

/// One protocol frame as read from the security-wrapped stream.
#[derive(Debug, PartialEq, Eq)]
pub struct Frame {
    pub action: FrameAction,
    pub payload: Vec<u8>,
}

/// The source that won the race of one loop iteration, with what it yielded.
#[derive(Debug, PartialEq, Eq)]
pub enum LoopInput<B> {
    /// The framed reader finished: a frame, or the description of a read fault.
    Frame(Result<Frame, String>),
    /// The local-event queue finished: an event, or nothing once every producer
    /// is gone.
    Event(Option<RdpInputEvent<B>>),
}

/// What is available in the session for this iteration.
#[derive(Debug, Clone, Copy, PartialEq, Eq, Structural)]
pub struct Channels {
    /// Whether a clipboard channel was negotiated with the remote side.
    pub clipboard_channel: bool,
    /// Whether a local clipboard backend is attached.
    pub clipboard_backend: bool,
}

/// Why an event needs no work.
#[derive(Debug, PartialEq, Eq)]
pub enum IgnoreReason {
    /// A clipboard message arrived, but no clipboard channel was negotiated.
    ClipboardUnavailable,
    /// The clipboard backend reported a failure of its own.
    ClipboardBackendError(String),
    /// A clipboard-backend message arrived, but no backend is attached.
    BackendUnavailable,
    /// A resize to an empty surface was asked for.
    DegenerateResize,
}

/// The one thing the loop asks of its collaborators for an input.
#[derive(Debug, PartialEq, Eq)]
pub enum EngineRequest<B> {
    /// Nothing to do; the reason is worth a log line.
    Ignored(IgnoreReason),
    /// Hand the frame to the engine together with the decoded image.
    ProcessFrame(Frame),
    /// Announce the local clipboard formats.
    InitiateCopy(Vec<ClipboardFormat>),
    /// Send clipboard data.
    SubmitFormatData(FormatDataResponse),
    /// Ask for clipboard data in a format.
    InitiatePaste(u32),
    /// Pass the message to the clipboard backend.
    ClipboardBackend(B),
    /// Hand the events to the engine's fast-path input handler.
    FastPathInput(FastPathInputEvents),
    /// Encode a display resize.
    EncodeResize {
        width: u32,
        height: u32,
        scale_factor: Option<u32>,
        physical_size: Option<(u32, u32)>,
    },
    /// Encode the graceful shutdown request.
    GracefulShutdown,
}

/// The kind of a request, for error reports.
#[derive(Debug, Clone, Copy, PartialEq, Eq, Structural)]
pub enum RequestKind {
    Ignored,
    ProcessFrame,
    InitiateCopy,
    SubmitFormatData,
    InitiatePaste,
    ClipboardBackend,
    FastPathInput,
    EncodeResize,
    GracefulShutdown,
}

impl<B> EngineRequest<B> {
    pub open spec fn spec_kind(&self) -> RequestKind {
        match self {
            EngineRequest::Ignored(_) => RequestKind::Ignored,
            EngineRequest::ProcessFrame(_) => RequestKind::ProcessFrame,
            EngineRequest::InitiateCopy(_) => RequestKind::InitiateCopy,
            EngineRequest::SubmitFormatData(_) => RequestKind::SubmitFormatData,
            EngineRequest::InitiatePaste(_) => RequestKind::InitiatePaste,
            EngineRequest::ClipboardBackend(_) => RequestKind::ClipboardBackend,
            EngineRequest::FastPathInput(_) => RequestKind::FastPathInput,
            EngineRequest::EncodeResize { .. } => RequestKind::EncodeResize,
            EngineRequest::GracefulShutdown => RequestKind::GracefulShutdown,
        }
    }

    /// The kind of this request.
    pub fn kind(&self) -> (kind: RequestKind)
        ensures
            kind == self.spec_kind(),
    {
        match self {
            EngineRequest::Ignored(_) => RequestKind::Ignored,
            EngineRequest::ProcessFrame(_) => RequestKind::ProcessFrame,
            EngineRequest::InitiateCopy(_) => RequestKind::InitiateCopy,
            EngineRequest::SubmitFormatData(_) => RequestKind::SubmitFormatData,
            EngineRequest::InitiatePaste(_) => RequestKind::InitiatePaste,
            EngineRequest::ClipboardBackend(_) => RequestKind::ClipboardBackend,
            EngineRequest::FastPathInput(_) => RequestKind::FastPathInput,
            EngineRequest::EncodeResize { .. } => RequestKind::EncodeResize,
            EngineRequest::GracefulShutdown => RequestKind::GracefulShutdown,
        }
    }
}

/// A rectangle of the desktop, borders included.
#[derive(Debug, Clone, Copy, PartialEq, Eq, Structural)]
pub struct InclusiveRectangle {
    pub left: u16,
    pub top: u16,
    pub right: u16,
    pub bottom: u16,
}

/// Why a session ended gracefully.
#[derive(Debug, PartialEq, Eq)]
pub enum GracefulDisconnectReason {
    UserInitiated,
    ServerInitiated,
    Other(String),
}

/// One action produced by the protocol engine, consumed by the run loop.
#[derive(Debug, PartialEq, Eq)]
pub enum OutputAction {
    /// Bytes to send to the remote side.
    ResponseFrame(Vec<u8>),
    /// A region of the decoded image changed.
    GraphicsUpdate(InclusiveRectangle),
    PointerDefault,
    PointerHidden,
    PointerPosition { x: u16, y: u16 },
    PointerBitmap(PointerBitmap),
    /// The remote side asks for a full reactivation of the display channel.
    DeactivateAll,
    /// The session is over.
    Terminate(GracefulDisconnectReason),
}

/// What the engine, or the clipboard backend, answered to a request.
#[derive(Debug, PartialEq, Eq)]
pub enum EngineResponse {
    /// Output actions, in the order they are to be handled.
    Outputs(Vec<OutputAction>),
    /// One encoded frame to send.
    Frame(Vec<u8>),
    /// The work was done and produced nothing.
    Done,
    /// The engine has no channel for the request.
    Unavailable,
    /// The request was rejected; the description is the collaborator's own.
    Failed(String),
}

/// What a collaborator is told to do for one output action.
#[derive(Debug, PartialEq, Eq)]
pub enum Effect {
    /// Put the frame on the outbound queue.
    SendFrame(Vec<u8>),
    /// Extract the region from the decoded image and present it.
    DrawRegion(InclusiveRectangle),
    /// Hand the style to the cursor-style callback.
    SetCursor(CursorStyle),
    /// Nothing to do.
    Nothing,
    /// Run the reactivation sub-loop before anything else.
    Reactivate,
    /// Leave the run loop with this reason.
    Exit(GracefulDisconnectReason),
}

/// A fault that ends the run loop, or a misuse of the session.
#[derive(Debug, PartialEq, Eq)]
pub enum SessionError {
    /// The run loop was started before.
    AlreadyStarted,
    /// The run loop is not running.
    NotRunning,
    /// A reactivation is in progress and owns the reader.
    ReactivationInProgress,
    /// No reactivation is in progress.
    NoReactivation,
    /// A request to the engine is outstanding.
    Busy,
    /// No request to the engine is outstanding.
    NoRequest,
    /// The session has terminated; nothing can be queued for it.
    Terminated,
    /// Reading or decoding a frame failed.
    ReadFrame(String),
    /// The local-event queue has no producer left.
    InputEventsClosed,
    /// The outbound frame queue has no consumer left.
    WriterClosed,
    /// The engine or the clipboard backend rejected a request.
    Rejected { request: RequestKind, detail: String },
    /// A presentation or cursor callback failed.
    Callback(String),
    /// A reactivation step failed.
    Reactivation(String),
    /// A pointer bitmap could not be turned into a cursor.
    Cursor(CursorError),
    /// An input frame could not be encoded.
    Encode(String),
}

/// The request that an event calls for.
pub open spec fn event_request<B>(event: RdpInputEvent<B>, channels: Channels) -> EngineRequest<B> {
    match event {
        RdpInputEvent::Cliprdr(message) => if !channels.clipboard_channel {
            EngineRequest::Ignored(IgnoreReason::ClipboardUnavailable)
        } else {
            match message {
                ClipboardMessage::SendInitiateCopy(formats) => EngineRequest::InitiateCopy(formats),
                ClipboardMessage::SendFormatData(response) => EngineRequest::SubmitFormatData(
                    response,
                ),
                ClipboardMessage::SendInitiatePaste(format) => EngineRequest::InitiatePaste(format),
                ClipboardMessage::Error(description) => EngineRequest::Ignored(
                    IgnoreReason::ClipboardBackendError(description),
                ),
            }
        },
        RdpInputEvent::ClipboardBackend(message) => if channels.clipboard_backend {
            EngineRequest::ClipboardBackend(message)
        } else {
            EngineRequest::Ignored(IgnoreReason::BackendUnavailable)
        },
        RdpInputEvent::FastPath(events) => EngineRequest::FastPathInput(events),
        RdpInputEvent::Resize { width, height, scale_factor, physical_size } => if width == 0
            || height == 0 {
            EngineRequest::Ignored(IgnoreReason::DegenerateResize)
        } else {
            EngineRequest::EncodeResize { width, height, scale_factor, physical_size }
        },
        RdpInputEvent::TerminateSession => EngineRequest::GracefulShutdown,
    }
}

/// Decides what a local event calls for.
///
/// A clipboard message becomes a clipboard operation only if a clipboard channel
/// was negotiated, and a backend failure is never passed on. A backend message
/// goes to the backend. Input goes to the fast-path handler. A resize to an empty
/// surface is ignored. A termination request becomes a graceful shutdown.
pub fn dispatch_event<B>(event: RdpInputEvent<B>, channels: Channels) -> (request: EngineRequest<B>)
    ensures
        request == event_request(event, channels),
{
    match event {
        RdpInputEvent::Cliprdr(message) => {
            if !channels.clipboard_channel {
                EngineRequest::Ignored(IgnoreReason::ClipboardUnavailable)
            } else {
                match message {
                    ClipboardMessage::SendInitiateCopy(formats) => EngineRequest::InitiateCopy(
                        formats,
                    ),
                    ClipboardMessage::SendFormatData(response) => EngineRequest::SubmitFormatData(
                        response,
                    ),
                    ClipboardMessage::SendInitiatePaste(format) => EngineRequest::InitiatePaste(
                        format,
                    ),
                    ClipboardMessage::Error(description) => EngineRequest::Ignored(
                        IgnoreReason::ClipboardBackendError(description),
                    ),
                }
            }
        },
        RdpInputEvent::ClipboardBackend(message) => {
            if channels.clipboard_backend {
                EngineRequest::ClipboardBackend(message)
            } else {
                EngineRequest::Ignored(IgnoreReason::BackendUnavailable)
            }
        },
        RdpInputEvent::FastPath(events) => EngineRequest::FastPathInput(events),
        RdpInputEvent::Resize { width, height, scale_factor, physical_size } => {
            if width == 0 || height == 0 {
                EngineRequest::Ignored(IgnoreReason::DegenerateResize)
            } else {
                EngineRequest::EncodeResize { width, height, scale_factor, physical_size }
            }
        },
        RdpInputEvent::TerminateSession => EngineRequest::GracefulShutdown,
    }
}

/// The input event for a batch of fast-path events: none for an empty batch.
pub open spec fn input_batch_event<B>(inputs: FastPathInputEvents) -> Option<RdpInputEvent<B>> {
    if batch_events(inputs).len() == 0 {
        None
    } else {
        Some(RdpInputEvent::FastPath(inputs))
    }
}

/// Wraps a batch of fast-path events for the run loop; an empty batch is not
/// worth an event.
pub fn h_send_inputs<B>(inputs: FastPathInputEvents) -> (event: Option<RdpInputEvent<B>>)
    ensures
        event == input_batch_event::<B>(inputs),
{
    if batch_is_empty(&inputs) {
        None
    } else {
        Some(RdpInputEvent::FastPath(inputs))
    }
}

/// The resize event for a request of the presentation layer: the physical size is
/// present only if both of its sides are.
pub open spec fn resize_event<B>(
    width: u32,
    height: u32,
    scale_factor: Option<u32>,
    physical_width: Option<u32>,
    physical_height: Option<u32>,
) -> RdpInputEvent<B> {
    RdpInputEvent::Resize {
        width,
        height,
        scale_factor,
        physical_size: match (physical_width, physical_height) {
            (Some(w), Some(h)) => Some((w, h)),
            _ => None,
        },
    }
}

} // verus!
