//! The session event loop as a state machine.
//!
//! The embedding application owns the suspension points: it races the framed
//! reader against the local-event queue, drives the protocol engine and performs
//! effects. Every decision in between is taken here. One iteration of the loop is
//! [`Session::dispatch`] on the input that won the race, the engine call it asks
//! for, [`Session::complete`] on the answer, and one [`Session::handle_output`]
//! for each output action, in order. A reactivation request suspends the outer
//! loop until [`Session::reactivation_step`] has seen the activation finalized.

use crate::config::DesktopSize;
#[allow(unused_imports)]
use crate::cursor::{encode_cursor, encode_cursor_post, CursorStyle};
#[allow(unused_imports)]
use crate::event::{
    event_request, dispatch_event, resize_event, h_send_inputs, Channels, Effect, EngineRequest,
    EngineResponse, GracefulDisconnectReason, LoopInput, OutputAction, RdpInputEvent,
    RequestKind, SessionError,
};
#[allow(unused_imports)]
use crate::input::{
    applied_events, batch_events, database_apply, database_new, database_release_all,
    encode_synchronize, released_events, synchronize_frame, FastPathInputEvents,
};
use ironrdp::pdu::input::fast_path::FastPathInputEvent;
use ironrdp::input::{Database, Operation};
use vstd::prelude::*;
use vstd::string::*;

verus! {

/// Where the run loop stands.
#[derive(Debug, Clone, Copy, PartialEq, Eq, Structural)]
pub enum RunPhase {
    /// The loop was never entered.
    NotStarted,
    /// The loop is running.
    Running,
    /// The loop is inside the reactivation sub-loop, which owns the reader.
    Reactivating,
    /// The loop was left, by a termination action or by a fault.
    Finished,
}

/// An engine request that was handed out and not answered yet.
#[derive(Debug, Clone, Copy, PartialEq, Eq, Structural)]
pub struct Receipt {
    pub kind: RequestKind,
    /// Surface width asked for, for a resize; zero otherwise.
    pub width: u32,
    /// Surface height asked for, for a resize; zero otherwise.
    pub height: u32,
}

/// Everything the run loop decides upon.
#[derive(Debug, Clone, Copy, PartialEq, Eq, Structural)]
pub struct SessionState {
    pub phase: RunPhase,
    /// Desktop size negotiated when the connection was made.
    pub desktop_size: DesktopSize,
    /// Dimensions of the decoded image.
    pub image: DesktopSize,
    /// Width of the presentation surface.
    pub canvas_width: u32,
    /// Height of the presentation surface.
    pub canvas_height: u32,
    /// The request that the engine has not answered yet, if any.
    pub awaiting: Option<Receipt>,
}

/// What has to be set up when the loop is entered.
#[derive(Debug, Clone, Copy, PartialEq, Eq, Structural)]
pub struct StartPlan {
    pub canvas_width: u32,
    pub canvas_height: u32,
    pub image: DesktopSize,
}

/// State of a session right after the connection was made.
pub open spec fn initial_state(desktop_size: DesktopSize) -> SessionState {
    SessionState {
        phase: RunPhase::NotStarted,
        desktop_size,
        image: desktop_size,
        canvas_width: desktop_size.width as u32,
        canvas_height: desktop_size.height as u32,
        awaiting: None,
    }
}

/// Why the loop cannot take an input or an output action now, if it cannot.
pub open spec fn not_ready(state: SessionState) -> Option<SessionError> {
    match state.phase {
        RunPhase::NotStarted => Some(SessionError::NotRunning),
        RunPhase::Finished => Some(SessionError::NotRunning),
        RunPhase::Reactivating => Some(SessionError::ReactivationInProgress),
        RunPhase::Running => if state.awaiting is Some {
            Some(SessionError::Busy)
        } else {
            None
        },
    }
}

/// The state with the loop left.
pub open spec fn finished(state: SessionState) -> SessionState {
    SessionState { phase: RunPhase::Finished, awaiting: None, ..state }
}

/// The receipt kept for a request.
pub open spec fn receipt_of<B>(request: EngineRequest<B>) -> Option<Receipt> {
    match request {
        EngineRequest::Ignored(_) => None,
        EngineRequest::EncodeResize { width, height, .. } => Some(
            Receipt { kind: RequestKind::EncodeResize, width, height },
        ),
        _ => Some(Receipt { kind: request.spec_kind(), width: 0, height: 0 }),
    }
}

/// The request for a loop input, or the fault that the input is.
pub open spec fn input_request<B>(input: LoopInput<B>, channels: Channels) -> Result<
    EngineRequest<B>,
    SessionError,
> {
    match input {
        LoopInput::Frame(Ok(frame)) => Ok(EngineRequest::ProcessFrame(frame)),
        LoopInput::Frame(Err(description)) => Err(SessionError::ReadFrame(description)),
        LoopInput::Event(Some(event)) => Ok(event_request(event, channels)),
        LoopInput::Event(None) => Err(SessionError::InputEventsClosed),
    }
}

/// State and result of dispatching `input` in `state`.
pub open spec fn dispatched<B>(state: SessionState, input: LoopInput<B>, channels: Channels) -> (
    SessionState,
    Result<EngineRequest<B>, SessionError>,
) {
    match not_ready(state) {
        Some(error) => (state, Err(error)),
        None => match input_request(input, channels) {
            Ok(request) => (SessionState { awaiting: receipt_of(request), ..state }, Ok(request)),
            Err(error) => (finished(state), Err(error)),
        },
    }
}

/// The output actions, or the fault, that an answer amounts to.
pub open spec fn response_outputs(kind: RequestKind, response: EngineResponse) -> Result<
    Seq<OutputAction>,
    SessionError,
> {
    match response {
        EngineResponse::Outputs(outputs) => Ok(outputs@),
        EngineResponse::Frame(frame) => Ok(seq![OutputAction::ResponseFrame(frame)]),
        EngineResponse::Done => Ok(Seq::<OutputAction>::empty()),
        EngineResponse::Unavailable => Ok(Seq::<OutputAction>::empty()),
        EngineResponse::Failed(detail) => Err(SessionError::Rejected { request: kind, detail }),
    }
}

/// Whether the answer to a resize request means that the engine took the resize
/// up, so that the presentation surface follows.
pub open spec fn resize_taken(receipt: Receipt, response: EngineResponse) -> bool {
    receipt.kind == RequestKind::EncodeResize && (response is Frame || response is Failed)
}

/// State and result of completing the outstanding request with `response`.
pub open spec fn completed(state: SessionState, response: EngineResponse) -> (
    SessionState,
    Result<Seq<OutputAction>, SessionError>,
) {
    if state.phase != RunPhase::Running {
        (state, Err(SessionError::NotRunning))
    } else {
        match state.awaiting {
            None => (state, Err(SessionError::NoRequest)),
            Some(receipt) => {
                let outputs = response_outputs(receipt.kind, response);
                let resized = if resize_taken(receipt, response) {
                    SessionState {
                        canvas_width: receipt.width,
                        canvas_height: receipt.height,
                        awaiting: None,
                        ..state
                    }
                } else {
                    SessionState { awaiting: None, ..state }
                };
                if outputs is Ok {
                    (resized, outputs)
                } else {
                    (finished(resized), outputs)
                }
            },
        }
    }
}

/// The new size of the presentation surface, if the answer to the outstanding
/// request means that the surface is to be resized now.
pub open spec fn surface_resize(state: SessionState, response: EngineResponse) -> Option<
    (u32, u32),
> {
    if state.phase == RunPhase::Running && state.awaiting is Some && resize_taken(
        state.awaiting->0,
        response,
    ) {
        Some((state.awaiting->0.width, state.awaiting->0.height))
    } else {
        None
    }
}

/// What came of an answer of the engine.
#[derive(Debug, PartialEq, Eq)]
pub struct Completion {
    /// The new width and height of the presentation surface, if it is to be
    /// resized; this comes first, before any output action is handled.
    pub resize_surface: Option<(u32, u32)>,
    /// The output actions to handle, or the fault that ended the loop.
    pub outputs: Result<Vec<OutputAction>, SessionError>,
}

/// View of a list of output actions, or of the fault in its place.
pub open spec fn outputs_view(r: Result<Vec<OutputAction>, SessionError>) -> Result<
    Seq<OutputAction>,
    SessionError,
> {
    match r {
        Ok(outputs) => Ok(outputs@),
        Err(error) => Err(error),
    }
}

/// The effect of an output action that needs no computation; none for a pointer
/// bitmap, which goes through the cursor pipeline.
pub open spec fn plain_effect(output: OutputAction) -> Option<Effect> {
    match output {
        OutputAction::ResponseFrame(frame) => Some(Effect::SendFrame(frame)),
        OutputAction::GraphicsUpdate(region) => Some(Effect::DrawRegion(region)),
        OutputAction::PointerDefault => Some(Effect::SetCursor(CursorStyle::Default)),
        OutputAction::PointerHidden => Some(Effect::SetCursor(CursorStyle::Hidden)),
        OutputAction::PointerPosition { .. } => Some(Effect::Nothing),
        OutputAction::PointerBitmap(_) => None,
        OutputAction::DeactivateAll => Some(Effect::Reactivate),
        OutputAction::Terminate(reason) => Some(Effect::Exit(reason)),
    }
}

/// Whether `r` is a result of handling `output`: the plain effect of the action,
/// or for a pointer bitmap an outcome of the cursor pipeline.
pub open spec fn output_handled(output: OutputAction, r: Result<Effect, SessionError>) -> bool {
    match output {
        OutputAction::PointerBitmap(pointer) => match r {
            Ok(Effect::SetCursor(style)) => encode_cursor_post(pointer, Ok(style)),
            Err(SessionError::Cursor(error)) => encode_cursor_post(pointer, Err(error)),
            _ => false,
        },
        _ => r is Ok && Some(r->Ok_0) == plain_effect(output),
    }
}

/// Whether the loop stops handling output actions after this effect.
pub open spec fn stops(effect: Effect) -> bool {
    effect is Exit || effect is Reactivate
}

/// The phase in which handling an output action leaves a running loop.
pub open spec fn phase_after(r: Result<Effect, SessionError>) -> RunPhase {
    match r {
        Ok(Effect::Exit(_)) => RunPhase::Finished,
        Ok(Effect::Reactivate) => RunPhase::Reactivating,
        Ok(_) => RunPhase::Running,
        Err(_) => RunPhase::Finished,
    }
}

/// Whether handling `output` in state `before` may give `r` and leave `after`.
pub open spec fn handles(
    before: SessionState,
    output: OutputAction,
    r: Result<Effect, SessionError>,
    after: SessionState,
) -> bool {
    match not_ready(before) {
        Some(error) => r is Err && r->Err_0 == error && after == before,
        None => output_handled(output, r) && after == SessionState {
            phase: phase_after(r),
            ..before
        },
    }
}

/// What came of handling a list of output actions.
#[derive(Debug, PartialEq, Eq)]
pub struct OutputsReport {
    /// The effects to perform, in order.
    pub effects: Vec<Effect>,
    /// The output actions that were not handled.
    pub remaining: Vec<OutputAction>,
    /// The fault that ended the handling, if any.
    pub error: Option<SessionError>,
}

/// Whether `report` and `after` may come of handling `outputs` in order from a
/// state that is ready: every effect belongs to its output action, only the last
/// effect may stop the loop, and nothing behind a stop or a fault was handled.
pub open spec fn outputs_processed(
    before: SessionState,
    outputs: Seq<OutputAction>,
    report: OutputsReport,
    after: SessionState,
) -> bool {
    let k = report.effects@.len() as int;
    let handled = if report.error is Some {
        k + 1
    } else {
        k
    };
    let stopped = k > 0 && stops(report.effects@[k - 1]);
    &&& handled <= outputs.len()
    &&& report.remaining@ == outputs.skip(handled)
    &&& forall|i: int| 0 <= i < k ==> output_handled(outputs[i], Ok(#[trigger] report.effects@[i]))
    &&& forall|i: int| 0 <= i < k - 1 ==> !stops(#[trigger] report.effects@[i])
    &&& report.error matches Some(error) ==> !stopped && output_handled(outputs[k], Err(error))
    &&& report.error is None && !stopped ==> handled == outputs.len()
    &&& after == SessionState {
        phase: if report.error is Some {
            RunPhase::Finished
        } else if stopped {
            phase_after(Ok(report.effects@[k - 1]))
        } else {
            RunPhase::Running
        },
        ..before
    }
}

/// The session: the state of its run loop and its input database.
pub struct Session {
    state: SessionState,
    input_database: Database,
}

impl View for Session {
    type V = SessionState;

    closed spec fn view(&self) -> SessionState {
        self.state
    }
}

impl Session {
    /// The input database, which tracks the keys and buttons that are held.
    pub closed spec fn input_database(&self) -> Database {
        self.input_database
    }

    /// A session for a connection that negotiated `desktop_size`. Its input
    /// database holds nothing as pressed.
    pub fn new(desktop_size: DesktopSize) -> (session: Session)
        ensures
            session@ == initial_state(desktop_size),
            released_events(session.input_database()).len() == 0,
    {
        Session {
            state: SessionState {
                phase: RunPhase::NotStarted,
                desktop_size,
                image: desktop_size,
                canvas_width: desktop_size.width as u32,
                canvas_height: desktop_size.height as u32,
                awaiting: None,
            },
            input_database: database_new(),
        }
    }

    /// The state of the run loop.
    pub fn state(&self) -> (state: SessionState)
        ensures
            state == self@,
    {
        self.state
    }

    /// Desktop size negotiated when the connection was made.
    pub fn desktop_size(&self) -> (size: DesktopSize)
        ensures
            size == self@.desktop_size,
    {
        self.state.desktop_size
    }

    /// Enters the run loop. This works once: a session that was started before,
    /// whether it still runs or not, refuses and stays as it is.
    pub fn start(&mut self) -> (r: Result<StartPlan, SessionError>)
        ensures
            final(self).input_database() == old(self).input_database(),
            old(self)@.phase == RunPhase::NotStarted ==> r is Ok && r->Ok_0 == (StartPlan {
                canvas_width: old(self)@.desktop_size.width as u32,
                canvas_height: old(self)@.desktop_size.height as u32,
                image: old(self)@.desktop_size,
            }) && final(self)@ == (SessionState {
                phase: RunPhase::Running,
                image: old(self)@.desktop_size,
                canvas_width: old(self)@.desktop_size.width as u32,
                canvas_height: old(self)@.desktop_size.height as u32,
                awaiting: None,
                ..old(self)@
            }),
            old(self)@.phase != RunPhase::NotStarted ==> r is Err && r->Err_0
                == SessionError::AlreadyStarted && final(self)@ == old(self)@,
    {
        match self.state.phase {
            RunPhase::NotStarted => {
                let size = self.state.desktop_size;
                self.state.phase = RunPhase::Running;
                self.state.image = size;
                self.state.canvas_width = size.width as u32;
                self.state.canvas_height = size.height as u32;
                self.state.awaiting = None;
                Ok(
                    StartPlan {
                        canvas_width: size.width as u32,
                        canvas_height: size.height as u32,
                        image: size,
                    },
                )
            },
            _ => Err(SessionError::AlreadyStarted),
        }
    }

    /// Ends the run loop after a fault that a collaborator met while performing
    /// an effect or a reactivation step, and hands the fault back.
    pub fn abort(&mut self, fault: SessionError) -> (r: SessionError)
        ensures
            final(self).input_database() == old(self).input_database(),
            r == fault,
            final(self)@ == finished(old(self)@),
    {
        self.state.phase = RunPhase::Finished;
        self.state.awaiting = None;
        fault
    }

    fn check_ready(&self) -> (r: Option<SessionError>)
        ensures
            r == not_ready(self@),
    {
        match self.state.phase {
            RunPhase::NotStarted => Some(SessionError::NotRunning),
            RunPhase::Finished => Some(SessionError::NotRunning),
            RunPhase::Reactivating => Some(SessionError::ReactivationInProgress),
            RunPhase::Running => {
                if self.state.awaiting.is_some() {
                    Some(SessionError::Busy)
                } else {
                    None
                }
            },
        }
    }

    /// Takes the input that won the race of this iteration and says what to ask
    /// of the engine for it. A frame goes to the engine; a local event is
    /// dispatched by [`dispatch_event`]. A read fault, or the end of the event
    /// queue, ends the loop. Unless the request is ignored, the session waits for
    /// its answer and takes nothing else until [`Session::complete`].
    pub fn dispatch<B>(&mut self, input: LoopInput<B>, channels: Channels) -> (r: Result<
        EngineRequest<B>,
        SessionError,
    >)
        ensures
            final(self).input_database() == old(self).input_database(),
            final(self)@ == dispatched(old(self)@, input, channels).0,
            r == dispatched(old(self)@, input, channels).1,
    {
        match self.check_ready() {
            Some(error) => {
                return Err(error);
            },
            None => {},
        }
        let request = match input {
            LoopInput::Frame(Ok(frame)) => EngineRequest::ProcessFrame(frame),
            LoopInput::Frame(Err(description)) => {
                self.state.phase = RunPhase::Finished;
                self.state.awaiting = None;
                return Err(SessionError::ReadFrame(description));
            },
            LoopInput::Event(Some(event)) => dispatch_event(event, channels),
            LoopInput::Event(None) => {
                self.state.phase = RunPhase::Finished;
                self.state.awaiting = None;
                return Err(SessionError::InputEventsClosed);
            },
        };
        let receipt = match &request {
            EngineRequest::Ignored(_) => None,
            EngineRequest::EncodeResize { width, height, .. } => Some(
                Receipt { kind: RequestKind::EncodeResize, width: *width, height: *height },
            ),
            _ => Some(Receipt { kind: request.kind(), width: 0, height: 0 }),
        };
        self.state.awaiting = receipt;
        Ok(request)
    }

    /// Takes the answer to the outstanding request and hands out the output
    /// actions to handle. A single frame becomes one response-frame action; an
    /// answer without content gives no action. When the engine took a resize up,
    /// the presentation surface is to get the new dimensions first, whether or
    /// not the encoding then succeeded. A rejection ends the loop.
    pub fn complete(&mut self, response: EngineResponse) -> (completion: Completion)
        ensures
            final(self).input_database() == old(self).input_database(),
            final(self)@ == completed(old(self)@, response).0,
            completion.resize_surface == surface_resize(old(self)@, response),
            outputs_view(completion.outputs) == completed(old(self)@, response).1,
    {
        match self.state.phase {
            RunPhase::Running => {},
            _ => {
                return Completion { resize_surface: None, outputs: Err(SessionError::NotRunning) };
            },
        }
        let receipt = match self.state.awaiting {
            None => {
                return Completion { resize_surface: None, outputs: Err(SessionError::NoRequest) };
            },
            Some(receipt) => receipt,
        };
        self.state.awaiting = None;
        let taken = match (receipt.kind, &response) {
            (RequestKind::EncodeResize, EngineResponse::Frame(_)) => true,
            (RequestKind::EncodeResize, EngineResponse::Failed(_)) => true,
            _ => false,
        };
        let resize_surface = if taken {
            self.state.canvas_width = receipt.width;
            self.state.canvas_height = receipt.height;
            Some((receipt.width, receipt.height))
        } else {
            None
        };
        let outputs = match response {
            EngineResponse::Outputs(outputs) => Ok(outputs),
            EngineResponse::Frame(frame) => {
                let mut outputs: Vec<OutputAction> = Vec::new();
                outputs.push(OutputAction::ResponseFrame(frame));
                Ok(outputs)
            },
            EngineResponse::Done => Ok(Vec::new()),
            EngineResponse::Unavailable => Ok(Vec::new()),
            EngineResponse::Failed(detail) => {
                self.state.phase = RunPhase::Finished;
                Err(SessionError::Rejected { request: receipt.kind, detail })
            },
        };
        Completion { resize_surface, outputs }
    }

    /// Handles one output action of the engine and says what to do for it. A
    /// response frame is to be queued, a graphics update drawn, a pointer style
    /// handed to the cursor callback (a bitmap after it went through the cursor
    /// pipeline), a pointer position dropped. A reactivation request suspends the
    /// loop, a termination ends it, and so does a failure of the cursor pipeline.
    pub fn handle_output(&mut self, output: OutputAction) -> (r: Result<Effect, SessionError>)
        ensures
            final(self).input_database() == old(self).input_database(),
            handles(old(self)@, output, r, final(self)@),
    {
        match self.check_ready() {
            Some(error) => {
                return Err(error);
            },
            None => {},
        }
        match output {
            OutputAction::ResponseFrame(frame) => Ok(Effect::SendFrame(frame)),
            OutputAction::GraphicsUpdate(region) => Ok(Effect::DrawRegion(region)),
            OutputAction::PointerDefault => Ok(Effect::SetCursor(CursorStyle::Default)),
            OutputAction::PointerHidden => Ok(Effect::SetCursor(CursorStyle::Hidden)),
            OutputAction::PointerPosition { .. } => Ok(Effect::Nothing),
            OutputAction::PointerBitmap(pointer) => {
                match encode_cursor(&pointer) {
                    Ok(style) => Ok(Effect::SetCursor(style)),
                    Err(error) => {
                        self.state.phase = RunPhase::Finished;
                        Err(SessionError::Cursor(error))
                    },
                }
            },
            OutputAction::DeactivateAll => {
                self.state.phase = RunPhase::Reactivating;
                Ok(Effect::Reactivate)
            },
            OutputAction::Terminate(reason) => {
                self.state.phase = RunPhase::Finished;
                Ok(Effect::Exit(reason))
            },
        }
    }
}


impl Session {
    /// Handles output actions in order until the list is done, an effect stops
    /// the loop (a reactivation or the exit), or a fault ends it. Nothing behind
    /// a stop or a fault is handled: what was not handled is handed back, to be
    /// taken up again after a reactivation. A session that is not ready handles
    /// nothing and reports why.
    pub fn process_outputs(&mut self, outputs: Vec<OutputAction>) -> (report: OutputsReport)
        ensures
            final(self).input_database() == old(self).input_database(),
            not_ready(old(self)@) matches Some(error) ==> report.effects@.len() == 0
                && report.remaining == outputs && report.error == Some(error) && final(self)@
                == old(self)@,
            not_ready(old(self)@) is None ==> outputs_processed(
                old(self)@,
                outputs@,
                report,
                final(self)@,
            ),
    {
        match self.check_ready() {
            Some(error) => {
                return OutputsReport { effects: Vec::new(), remaining: outputs, error: Some(error) };
            },
            None => {},
        }
        let ghost before = self@;
        let ghost all = outputs@;
        let mut remaining = outputs;
        let mut effects: Vec<Effect> = Vec::new();
        let mut stopped = false;
        while remaining.len() > 0 && !stopped
            invariant
                before == old(self)@,
                self.input_database() == old(self).input_database(),
                all == outputs@,
                not_ready(before) is None,
                effects@.len() + remaining@.len() == all.len(),
                remaining@ == all.skip(effects@.len() as int),
                forall|i: int|
                    0 <= i < effects@.len() ==> output_handled(all[i], Ok(#[trigger] effects@[i])),
                stopped <==> effects@.len() > 0 && stops(effects@[effects@.len() - 1]),
                forall|i: int| 0 <= i < effects@.len() - 1 ==> !stops(#[trigger] effects@[i]),
                self@ == (SessionState {
                    phase: if stopped {
                        phase_after(Ok(effects@[effects@.len() - 1]))
                    } else {
                        RunPhase::Running
                    },
                    ..before
                }),
            decreases remaining@.len(),
        {
            let ghost k = effects@.len() as int;
            let output = remaining.remove(0);
            assert(remaining@ =~= all.skip(k + 1));
            match self.handle_output(output) {
                Ok(effect) => {
                    stopped =
                    match effect {
                        Effect::Exit(_) => true,
                        Effect::Reactivate => true,
                        _ => false,
                    };
                    effects.push(effect);
                },
                Err(error) => {
                    return OutputsReport { effects, remaining, error: Some(error) };
                },
            }
        }
        OutputsReport { effects, remaining, error: None }
    }
}

/// State of the activation sequence that a reactivation request carries.
#[derive(Debug, Clone, Copy, PartialEq, Eq, Structural)]
pub enum ConnectionActivationState {
    /// Capabilities are still being exchanged.
    Negotiating,
    /// The activation is complete.
    Finalized {
        io_channel_id: u16,
        user_channel_id: u16,
        desktop_size: DesktopSize,
        no_server_pointer: bool,
        pointer_software_rendering: bool,
    },
}

/// What one handshake step of a reactivation came to: the bytes it produced, if
/// any, and the activation state after it.
#[derive(Debug, PartialEq, Eq)]
pub struct ActivationStep {
    pub written: Option<Vec<u8>>,
    pub state: ConnectionActivationState,
}

/// Settings of the fast-path processor that is rebuilt after a reactivation.
#[derive(Debug, Clone, Copy, PartialEq, Eq, Structural)]
pub struct FastPathSettings {
    pub io_channel_id: u16,
    pub user_channel_id: u16,
    pub no_server_pointer: bool,
    pub pointer_software_rendering: bool,
}

/// What to set up once a reactivation is finalized: a new decoded image of the
/// given size in place of the old one, a new fast-path processor, and the
/// engine's "no server pointer" flag.
#[derive(Debug, Clone, Copy, PartialEq, Eq, Structural)]
pub struct Reactivated {
    pub image: DesktopSize,
    pub fast_path: FastPathSettings,
    pub no_server_pointer: bool,
}

/// What to do after one reactivation step.
#[derive(Debug, PartialEq, Eq)]
pub struct StepOutcome {
    /// Bytes to put on the outbound queue right away.
    pub frame: Option<Vec<u8>>,
    /// Present once the activation is finalized; the sub-loop is then over.
    pub finalized: Option<Reactivated>,
}

/// What a finalized activation state asks to set up; nothing while negotiating.
pub open spec fn reactivated_by(state: ConnectionActivationState) -> Option<Reactivated> {
    match state {
        ConnectionActivationState::Negotiating => None,
        ConnectionActivationState::Finalized {
            io_channel_id,
            user_channel_id,
            desktop_size,
            no_server_pointer,
            pointer_software_rendering,
        } => Some(
            Reactivated {
                image: desktop_size,
                fast_path: FastPathSettings {
                    io_channel_id,
                    user_channel_id,
                    no_server_pointer,
                    pointer_software_rendering,
                },
                no_server_pointer,
            },
        ),
    }
}

/// The session state after a reactivation step that left the activation in
/// `state`: once finalized, the image has the new dimensions and the outer loop
/// runs again.
pub open spec fn after_step(session: SessionState, state: ConnectionActivationState) -> SessionState {
    match reactivated_by(state) {
        Some(setup) => SessionState { phase: RunPhase::Running, image: setup.image, ..session },
        None => session,
    }
}

/// Index of the first step of a script that leaves the activation finalized.
pub open spec fn first_finalized(steps: Seq<ActivationStep>) -> Option<int>
    decreases steps.len(),
{
    if steps.len() == 0 {
        None
    } else if steps[0].state is Finalized {
        Some(0)
    } else {
        match first_finalized(steps.drop_first()) {
            Some(k) => Some(k + 1),
            None => None,
        }
    }
}

/// The frames written by the steps of a script, in order.
pub open spec fn written_frames(steps: Seq<ActivationStep>) -> Seq<Vec<u8>>
    decreases steps.len(),
{
    if steps.len() == 0 {
        Seq::<Vec<u8>>::empty()
    } else {
        let rest = written_frames(steps.drop_last());
        match steps.last().written {
            Some(frame) => rest.push(frame),
            None => rest,
        }
    }
}

/// The session state after the reactivation sub-loop ran on a script of steps,
/// starting inside a reactivation: the state after the first finalizing step, or
/// the unchanged state if the script never finalizes.
pub open spec fn reactivated(session: SessionState, steps: Seq<ActivationStep>) -> SessionState {
    match first_finalized(steps) {
        Some(k) => after_step(session, steps[k].state),
        None => session,
    }
}

/// The first finalizing step of a script is a step of the script, it finalizes,
/// and no step before it does.
pub proof fn lemma_first_finalized(steps: Seq<ActivationStep>)
    ensures
        first_finalized(steps) matches Some(k) ==> 0 <= k < steps.len()
            && steps[k].state is Finalized && forall|j: int|
            0 <= j < k ==> !(#[trigger] steps[j].state is Finalized),
        first_finalized(steps) is None ==> forall|j: int|
            0 <= j < steps.len() ==> !(#[trigger] steps[j].state is Finalized),
    decreases steps.len(),
{
    if steps.len() > 0 && !(steps[0].state is Finalized) {
        let rest = steps.drop_first();
        lemma_first_finalized(rest);
        match first_finalized(rest) {
            Some(k) => {
                assert forall|j: int| 0 <= j < k + 1 implies !(#[trigger] steps[j].state
                    is Finalized) by {
                    if j > 0 {
                        assert(steps[j] == rest[j - 1]);
                    }
                }
            },
            None => {
                assert forall|j: int| 0 <= j < steps.len() implies !(#[trigger] steps[j].state
                    is Finalized) by {
                    if j > 0 {
                        assert(steps[j] == rest[j - 1]);
                    }
                }
            },
        }
    }
}

/// A step that finalizes, with no finalizing step before it, is the first
/// finalizing step.
pub proof fn lemma_first_finalized_is(steps: Seq<ActivationStep>, k: int)
    requires
        0 <= k < steps.len(),
        steps[k].state is Finalized,
        forall|j: int| 0 <= j < k ==> !(#[trigger] steps[j].state is Finalized),
    ensures
        first_finalized(steps) == Some(k),
    decreases steps.len(),
{
    if k > 0 {
        lemma_first_finalized_is(steps.drop_first(), k - 1);
    }
}

/// A scripted reactivation that reaches the finalized state with new desktop
/// dimensions leaves the decoded image with exactly those dimensions, in place of
/// whatever image there was, and the outer loop running again.
pub proof fn lemma_reactivation_replaces_image(
    session: SessionState,
    steps: Seq<ActivationStep>,
    k: int,
)
    requires
        session.phase == RunPhase::Reactivating,
        0 <= k < steps.len(),
        steps[k].state is Finalized,
        forall|j: int| 0 <= j < k ==> !(#[trigger] steps[j].state is Finalized),
    ensures
        reactivated(session, steps).image == steps[k].state->desktop_size,
        reactivated(session, steps).phase == RunPhase::Running,
        reactivated(session, steps) == (SessionState {
            image: steps[k].state->desktop_size,
            phase: RunPhase::Running,
            ..session
        }),
{
    lemma_first_finalized_is(steps, k);
}

/// What came of running the reactivation sub-loop on a script of steps.
#[derive(Debug, PartialEq, Eq)]
pub struct ReactivationReport {
    /// The frames to put on the outbound queue, in order.
    pub frames: Vec<Vec<u8>>,
    /// Number of steps that were consumed.
    pub steps_taken: usize,
    /// Present if the activation was finalized.
    pub finalized: Option<Reactivated>,
}

impl Session {
    /// Takes the outcome of one handshake step of the reactivation sub-loop. The
    /// bytes the step wrote are to be queued at once. When the activation is
    /// finalized, the decoded image is replaced by one of the new dimensions, the
    /// fast-path processor is to be rebuilt, and the outer loop resumes.
    /// Outside of a reactivation the step is refused and nothing changes.
    pub fn reactivation_step(&mut self, step: ActivationStep) -> (r: Result<
        StepOutcome,
        SessionError,
    >)
        ensures
            final(self).input_database() == old(self).input_database(),
            old(self)@.phase == RunPhase::Reactivating ==> r is Ok && r->Ok_0.frame
                == step.written && r->Ok_0.finalized == reactivated_by(step.state) && final(self)@ == after_step(old(self)@, step.state),
            old(self)@.phase != RunPhase::Reactivating ==> r is Err && r->Err_0
                == SessionError::NoReactivation && final(self)@ == old(self)@,
    {
        match self.state.phase {
            RunPhase::Reactivating => {},
            _ => {
                return Err(SessionError::NoReactivation);
            },
        }
        let finalized = match step.state {
            ConnectionActivationState::Negotiating => None,
            ConnectionActivationState::Finalized {
                io_channel_id,
                user_channel_id,
                desktop_size,
                no_server_pointer,
                pointer_software_rendering,
            } => {
                self.state.image = desktop_size;
                self.state.phase = RunPhase::Running;
                Some(
                    Reactivated {
                        image: desktop_size,
                        fast_path: FastPathSettings {
                            io_channel_id,
                            user_channel_id,
                            no_server_pointer,
                            pointer_software_rendering,
                        },
                        no_server_pointer,
                    },
                )
            },
        };
        Ok(StepOutcome { frame: step.written, finalized })
    }

    /// Runs the reactivation sub-loop on a script of step outcomes: one step
    /// after the other until a step leaves the activation finalized. The steps
    /// behind that one are not looked at. If the script ends before, the session
    /// stays inside the reactivation.
    pub fn reactivate(&mut self, steps: Vec<ActivationStep>) -> (r: Result<
        ReactivationReport,
        SessionError,
    >)
        ensures
            final(self).input_database() == old(self).input_database(),
            old(self)@.phase != RunPhase::Reactivating ==> r is Err && r->Err_0
                == SessionError::NoReactivation && final(self)@ == old(self)@,
            old(self)@.phase == RunPhase::Reactivating ==> r is Ok && final(self)@ == reactivated(
                old(self)@,
                steps@,
            ) && match first_finalized(steps@) {
                Some(k) => r->Ok_0.steps_taken == k + 1 && r->Ok_0.frames@ == written_frames(
                    steps@.take(k + 1),
                ) && r->Ok_0.finalized == reactivated_by(steps@[k].state),
                None => r->Ok_0.steps_taken == steps@.len() && r->Ok_0.frames@ == written_frames(
                    steps@,
                ) && r->Ok_0.finalized is None,
            },
    {
        match self.state.phase {
            RunPhase::Reactivating => {},
            _ => {
                return Err(SessionError::NoReactivation);
            },
        }
        let ghost before = self@;
        let ghost all = steps@;
        let mut remaining = steps;
        let total: usize = remaining.len();
        let mut frames: Vec<Vec<u8>> = Vec::new();
        let mut taken: usize = 0;
        let mut finalized: Option<Reactivated> = None;
        while remaining.len() > 0 && finalized.is_none()
            invariant
                before.phase == RunPhase::Reactivating,
                self.input_database() == old(self).input_database(),
                all.len() == total,
                taken + remaining@.len() == all.len(),
                remaining@ == all.skip(taken as int),
                frames@ == written_frames(all.take(taken as int)),
                finalized is None ==> self@ == before && forall|j: int|
                    0 <= j < taken ==> !(#[trigger] all[j].state is Finalized),
                finalized is Some ==> taken > 0 && all[taken - 1].state is Finalized
                    && finalized == reactivated_by(all[taken - 1].state) && self@ == after_step(
                    before,
                    all[taken - 1].state,
                ) && forall|j: int|
                    0 <= j < taken - 1 ==> !(#[trigger] all[j].state is Finalized),
            decreases remaining@.len(),
        {
            let step = remaining.remove(0);
            proof {
                assert(all.take(taken + 1).drop_last() =~= all.take(taken as int));
            }
            match self.reactivation_step(step) {
                Ok(outcome) => {
                    match outcome.frame {
                        Some(frame) => {
                            frames.push(frame);
                        },
                        None => {},
                    }
                    finalized = outcome.finalized;
                },
                Err(error) => {
                    return Err(error);
                },
            }
            taken = taken + 1;
        }
        proof {
            if finalized is Some {
                lemma_first_finalized_is(all, taken - 1);
            } else {
                lemma_first_finalized(all);
            }
        }
        Ok(ReactivationReport { frames, steps_taken: taken, finalized })
    }
}

/// How a session ended.
#[derive(Debug, PartialEq, Eq)]
pub struct SessionTerminationInfo {
    reason: GracefulDisconnectReason,
}

/// Text of a disconnect reason.
pub open spec fn reason_text(reason: GracefulDisconnectReason) -> Seq<char> {
    match reason {
        GracefulDisconnectReason::UserInitiated => "user initiated disconnect"@,
        GracefulDisconnectReason::ServerInitiated => "server initiated disconnect"@,
        GracefulDisconnectReason::Other(description) => description@,
    }
}

impl SessionTerminationInfo {
    /// The reason the session ended with.
    pub closed spec fn disconnect_reason(&self) -> GracefulDisconnectReason {
        self.reason
    }

    /// Termination info for the reason carried by the exit effect.
    pub fn new(reason: GracefulDisconnectReason) -> (info: SessionTerminationInfo)
        ensures
            info.disconnect_reason() == reason,
    {
        SessionTerminationInfo { reason }
    }

    /// The reason in words.
    pub fn reason(&self) -> (text: String)
        ensures
            text@ == reason_text(self.disconnect_reason()),
    {
        match &self.reason {
            GracefulDisconnectReason::UserInitiated => String::from_str(
                "user initiated disconnect",
            ),
            GracefulDisconnectReason::ServerInitiated => String::from_str(
                "server initiated disconnect",
            ),
            GracefulDisconnectReason::Other(description) => description.clone(),
        }
    }
}

/// The result of queueing `item` for a session in `phase`: the item itself, and
/// a refusal only once the session has terminated.
pub open spec fn queued<T>(phase: RunPhase, item: T) -> Result<T, SessionError> {
    if phase == RunPhase::Finished {
        Err(SessionError::Terminated)
    } else {
        Ok(item)
    }
}

/// Whether `r` is the result of queueing the input events `events` for a session
/// in `phase`: nothing to queue for no events, which is never an error; else one
/// fast-path event that holds exactly these events, and a refusal once the
/// session has terminated.
pub open spec fn inputs_queued<B>(
    phase: RunPhase,
    events: Seq<FastPathInputEvent>,
    r: Result<Option<RdpInputEvent<B>>, SessionError>,
) -> bool {
    if events.len() == 0 {
        r is Ok && r->Ok_0 is None
    } else if phase == RunPhase::Finished {
        r is Err && r->Err_0 == SessionError::Terminated
    } else {
        r is Ok && r->Ok_0 is Some && r->Ok_0->0 is FastPath && batch_events(
            r->Ok_0->0->FastPath_0,
        ) == events
    }
}

/// The frame to queue for an encoding outcome, or why there is none.
pub open spec fn queued_encoding(phase: RunPhase, encoded: Result<Vec<u8>, String>) -> Result<
    Vec<u8>,
    SessionError,
> {
    match encoded {
        Ok(frame) => queued(phase, frame),
        Err(detail) => Err(SessionError::Encode(detail)),
    }
}

impl Session {
    /// Clears `item` for one of the session's queues. Queueing is fire and
    /// forget; it fails only if the session has terminated.
    pub fn enqueue<T>(&self, item: T) -> (r: Result<T, SessionError>)
        ensures
            r == queued(self@.phase, item),
    {
        match self.state.phase {
            RunPhase::Finished => Err(SessionError::Terminated),
            _ => Ok(item),
        }
    }

    /// The input event to queue for a batch of fast-path events: none for an
    /// empty batch, which is never an error.
    pub fn queue_inputs<B>(&self, inputs: FastPathInputEvents) -> (r: Result<
        Option<RdpInputEvent<B>>,
        SessionError,
    >)
        ensures
            batch_events(inputs).len() == 0 ==> r is Ok && r->Ok_0 is None,
            batch_events(inputs).len() > 0 ==> r == queued(
                self@.phase,
                Some(RdpInputEvent::<B>::FastPath(inputs)),
            ),
    {
        match h_send_inputs::<B>(inputs) {
            None => Ok(None),
            Some(event) => self.enqueue(Some(event)),
        }
    }

    /// Applies an input transaction to the session's input database and hands
    /// out the event to queue for the run loop: the events that the database
    /// produced for the transaction, if it produced any. An empty transaction
    /// produces none and leaves the database as it was.
    pub fn apply_inputs<B>(&mut self, transaction: Vec<Operation>) -> (r: Result<
        Option<RdpInputEvent<B>>,
        SessionError,
    >)
        ensures
            final(self)@ == old(self)@,
            inputs_queued(
                old(self)@.phase,
                applied_events(old(self).input_database(), transaction@),
                r,
            ),
            transaction@.len() == 0 ==> r is Ok && r->Ok_0 is None && final(self).input_database()
                == old(self).input_database(),
    {
        let inputs = database_apply(&mut self.input_database, transaction);
        self.queue_inputs(inputs)
    }

    /// Releases every key and button that the session's input database holds
    /// as pressed and hands out the event to queue for the run loop: the release
    /// events, if anything was held. Afterwards nothing is held.
    pub fn release_all_inputs<B>(&mut self) -> (r: Result<Option<RdpInputEvent<B>>, SessionError>)
        ensures
            final(self)@ == old(self)@,
            inputs_queued(old(self)@.phase, released_events(old(self).input_database()), r),
            released_events(final(self).input_database()).len() == 0,
    {
        let inputs = database_release_all(&mut self.input_database);
        self.queue_inputs(inputs)
    }

    /// Clears an encoded frame for the outbound queue, or reports the encoder's
    /// failure.
    pub fn queue_encoded(&self, encoded: Result<Vec<u8>, String>) -> (r: Result<
        Vec<u8>,
        SessionError,
    >)
        ensures
            r == queued_encoding(self@.phase, encoded),
    {
        match encoded {
            Ok(frame) => self.enqueue(frame),
            Err(detail) => Err(SessionError::Encode(detail)),
        }
    }

    /// Encodes the frame that synchronizes the lock keys, to be put on the
    /// outbound queue: the three bytes of [`synchronize_frame`], and a refusal
    /// only once the session has terminated.
    pub fn synchronize_lock_keys(
        &self,
        scroll_lock: bool,
        num_lock: bool,
        caps_lock: bool,
        kana_lock: bool,
    ) -> (r: Result<Vec<u8>, SessionError>)
        ensures
            self@.phase != RunPhase::Finished ==> r is Ok && r->Ok_0@ == synchronize_frame(
                scroll_lock,
                num_lock,
                caps_lock,
                kana_lock,
            ),
            self@.phase == RunPhase::Finished ==> r is Err && r->Err_0 == SessionError::Terminated,
    {
        let encoded = encode_synchronize(scroll_lock, num_lock, caps_lock, kana_lock);
        self.queue_encoded(encoded)
    }

    /// The termination request to queue for the run loop.
    pub fn shutdown<B>(&self) -> (r: Result<RdpInputEvent<B>, SessionError>)
        ensures
            r == queued(self@.phase, RdpInputEvent::<B>::TerminateSession),
    {
        self.enqueue(RdpInputEvent::TerminateSession)
    }

    /// The clipboard-backend event to queue for a change of the local clipboard.
    pub fn on_clipboard_paste<B>(&self, message: B) -> (r: Result<RdpInputEvent<B>, SessionError>)
        ensures
            r == queued(self@.phase, RdpInputEvent::ClipboardBackend(message)),
    {
        self.enqueue(RdpInputEvent::ClipboardBackend(message))
    }

    /// The resize event to queue for a request of the presentation layer. The
    /// physical size is passed on only if both of its sides are given.
    pub fn resize<B>(
        &self,
        width: u32,
        height: u32,
        scale_factor: Option<u32>,
        physical_width: Option<u32>,
        physical_height: Option<u32>,
    ) -> (r: Result<RdpInputEvent<B>, SessionError>)
        ensures
            r == queued(
                self@.phase,
                resize_event::<B>(width, height, scale_factor, physical_width, physical_height),
            ),
    {
        let physical_size = match (physical_width, physical_height) {
            (Some(w), Some(h)) => Some((w, h)),
            _ => None,
        };
        self.enqueue(RdpInputEvent::Resize { width, height, scale_factor, physical_size })
    }

    /// Key combinations work with plain scancode events only.
    pub fn supports_unicode_keyboard_shortcuts(&self) -> (supported: bool)
        ensures
            !supported,
    {
        false
    }
}

/// A resize to an empty surface asks nothing of the engine, so no frame can come
/// of it, and it leaves the session, the presentation dimensions included, as it
/// was.
pub proof fn lemma_degenerate_resize_is_ignored<B>(
    session: SessionState,
    width: u32,
    height: u32,
    scale_factor: Option<u32>,
    physical_size: Option<(u32, u32)>,
    channels: Channels,
)
    requires
        width == 0 || height == 0,
        not_ready(session) is None,
    ensures
        ({
            let event = RdpInputEvent::<B>::Resize { width, height, scale_factor, physical_size };
            let step = dispatched(session, LoopInput::Event(Some(event)), channels);
            &&& step.1 is Ok
            &&& step.1->Ok_0 is Ignored
            &&& step.0 == session
            &&& step.0.canvas_width == session.canvas_width
            &&& step.0.canvas_height == session.canvas_height
            &&& forall|response: EngineResponse| (#[trigger] completed(step.0, response)).1 is Err
                && completed(step.0, response).0 == session && surface_resize(step.0, response)
                is None
        }),
{
}

/// Once an exit effect was handed out the loop is over: no further output action
/// is handled, whatever it is, and the session stays as it is.
pub proof fn lemma_nothing_after_exit(
    before: SessionState,
    output: OutputAction,
    r: Result<Effect, SessionError>,
    after: SessionState,
    next: OutputAction,
    next_r: Result<Effect, SessionError>,
    last: SessionState,
)
    requires
        handles(before, output, r, after),
        r is Ok,
        r->Ok_0 is Exit,
        handles(after, next, next_r, last),
    ensures
        after.phase == RunPhase::Finished,
        next_r is Err,
        next_r->Err_0 == SessionError::NotRunning,
        last == after,
{
}

/// Whether a state can be reached: a request to the engine is outstanding only
/// while the loop runs, and an outstanding resize is never to an empty surface.
pub open spec fn well_formed(session: SessionState) -> bool {
    session.awaiting matches Some(receipt) ==> {
        &&& session.phase == RunPhase::Running
        &&& receipt.kind == RequestKind::EncodeResize ==> receipt.width > 0 && receipt.height > 0
    }
}

/// A fresh session is well-formed, and every transition keeps a session so.
pub proof fn lemma_transitions_keep_well_formed<B>(session: SessionState)
    requires
        well_formed(session),
    ensures
        forall|desktop_size: DesktopSize| well_formed(#[trigger] initial_state(desktop_size)),
        forall|input: LoopInput<B>, channels: Channels|
            well_formed((#[trigger] dispatched(session, input, channels)).0),
        forall|response: EngineResponse| well_formed((#[trigger] completed(session, response)).0),
        forall|output: OutputAction, r: Result<Effect, SessionError>, after: SessionState| #[trigger]
            handles(session, output, r, after) ==> well_formed(after),
        forall|outputs: Seq<OutputAction>, report: OutputsReport, after: SessionState|
            not_ready(session) is None && #[trigger] outputs_processed(
                session,
                outputs,
                report,
                after,
            ) ==> well_formed(after),
        forall|state: ConnectionActivationState| well_formed(#[trigger] after_step(session, state)),
        forall|steps: Seq<ActivationStep>| well_formed(#[trigger] reactivated(session, steps)),
        well_formed(finished(session)),
        forall|response: EngineResponse| #[trigger]
            surface_resize(session, response) matches Some((width, height)) ==> width > 0
                && height > 0,
{
    assert forall|steps: Seq<ActivationStep>| well_formed(
        #[trigger] reactivated(session, steps),
    ) by {
        lemma_first_finalized(steps);
    }
}

/// A second start is always refused: whatever happens to a session once it was
/// started, its phase is never "not started" again, so [`Session::start`] refuses
/// from then on.
pub proof fn lemma_started_session_stays_started<B>(session: SessionState)
    requires
        session.phase != RunPhase::NotStarted,
    ensures
        forall|input: LoopInput<B>, channels: Channels|
            (#[trigger] dispatched(session, input, channels)).0.phase != RunPhase::NotStarted,
        forall|response: EngineResponse|
            (#[trigger] completed(session, response)).0.phase != RunPhase::NotStarted,
        forall|output: OutputAction, r: Result<Effect, SessionError>, after: SessionState| #[trigger]
            handles(session, output, r, after) ==> after.phase != RunPhase::NotStarted,
        forall|outputs: Seq<OutputAction>, report: OutputsReport, after: SessionState|
            not_ready(session) is None && #[trigger] outputs_processed(
                session,
                outputs,
                report,
                after,
            ) ==> after.phase != RunPhase::NotStarted,
        forall|state: ConnectionActivationState| (#[trigger] after_step(session, state)).phase
            != RunPhase::NotStarted,
        forall|steps: Seq<ActivationStep>| (#[trigger] reactivated(session, steps)).phase
            != RunPhase::NotStarted,
        finished(session).phase != RunPhase::NotStarted,
{
    assert forall|steps: Seq<ActivationStep>| (#[trigger] reactivated(session, steps)).phase
        != RunPhase::NotStarted by {
        lemma_first_finalized(steps);
    }
}

} // verus!
