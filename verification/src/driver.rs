//! The driver loop's decision core: the state it owns, how one command is
//! dispatched, and what one clock step asks the surrounding process to do.
//!
//! The loop itself alternates machine clocking with window, audio and file
//! work that lives outside this crate. Each iteration it hands this module
//! its observations (whether a frame completed, the audio queue occupancy,
//! the producing flag) and gets back the full plan for the iteration: the
//! state change, at most one dispatched command, and the frame-handling
//! obligations. Every decision is stated here and proved; the surroundings
//! only carry them out.

use vstd::prelude::*;

use crate::backpressure::producing_after_spec;
use crate::backpressure::producing_after;
use crate::command::MAX_BASE_FRAME_MICROS;
use crate::command::Message;
use crate::command::target_frame_micros;
use crate::command::target_frame_micros_spec;
use crate::mailbox::Mailbox;

verus! {

pub const MAIN_WINDOW_WIDTH: u32 = 256;

pub const MAIN_WINDOW_HEIGHT: u32 = 240;

pub const DEBUG_WINDOW_WIDTH: u32 = 256;

/// From top to bottom: the main picture, a separator, the pattern tables,
/// another separator, and the palette strip.
pub const DEBUG_WINDOW_HEIGHT: u32 = 240 + 2 + 128 + 2 + 6;

/// An operation the dispatched command asks of the machine. A failure of any
/// of these is a malformed-input dispatch failure, which is fatal.
pub enum MachineOp {
    /// Forward raw input bits of one controller.
    Input(usize, u8),
    /// Reset to power-on state, keeping the cartridge.
    Reset,
    /// Select the debug palette; ids 8 and above are malformed.
    SetPaletteId(u8),
}

/// An operation the dispatched command asks of the presentation surface.
/// These never touch the machine, and one arriving when nothing is ready to
/// show is a no-op, not an error.
pub enum SurfaceOp {
    /// Ask the window for a redraw.
    Redraw,
    /// Resize the window surface.
    ResizeSurface(u32, u32),
    /// Resize the pixel buffer, after the debug overlay was toggled.
    ResizeBuffer(u32, u32),
}

/// A best-effort persistence request; its failure is logged, never fatal.
pub enum PersistOp {
    /// Write the full machine state to the given path.
    SaveState(String),
    /// Write the game save to the given path.
    Save(String),
}

/// Everything one dispatched command asks the surrounding process to do.
pub enum Effect {
    /// The command was absorbed by the driver state alone.
    Nothing,
    Machine(MachineOp),
    Surface(SurfaceOp),
    Persist(PersistOp),
    /// Terminal: attempt one best-effort save, then leave the loop.
    SaveAndExit,
}

/// Whether a failure while carrying the effect out must terminate the
/// process. Machine dispatch failures are fatal; persistence failures are
/// logged only, and the terminal save attempt is best-effort by design.
pub open spec fn failure_is_fatal_spec(effect: Effect) -> bool {
    match effect {
        Effect::Machine(_) => true,
        _ => false,
    }
}

/// Classifies a failure while carrying out an effect.
pub fn failure_is_fatal(effect: &Effect) -> (fatal: bool)
    ensures
        fatal == failure_is_fatal_spec(*effect),
{
    match effect {
        Effect::Machine(_) => true,
        _ => false,
    }
}

/// The state the driver loop owns across iterations: whether it keeps
/// running, whether the debug overlay is shown, and the pacing durations.
pub struct DriverState {
    pub running: bool,
    pub debug: bool,
    /// The machine's own duration of one frame, in microseconds.
    pub base_frame_micros: u64,
    /// The wall-clock duration one frame should take, in microseconds.
    pub target_frame_micros: u64,
}

impl DriverState {
    /// The bound under which the speed arithmetic can never overflow.
    pub open spec fn wf(self) -> bool {
        self.base_frame_micros <= MAX_BASE_FRAME_MICROS
    }

    /// The state the loop starts in: running, no debug overlay, and a target
    /// duration of exactly one machine frame (normal speed).
    pub fn new(base_frame_micros: u64) -> (state: DriverState)
        requires
            base_frame_micros <= MAX_BASE_FRAME_MICROS,
        ensures
            state == (DriverState {
                running: true,
                debug: false,
                base_frame_micros,
                target_frame_micros: base_frame_micros,
            }),
            state.wf(),
    {
        DriverState { running: true, debug: false, base_frame_micros, target_frame_micros: base_frame_micros }
    }
}

/// The state after dispatching one command, and the effect the command asks
/// of the surrounding process. Only a speed change, the overlay toggle and
/// the terminal command touch the state; every other command passes through
/// as an effect.
pub open spec fn dispatch_spec(state: DriverState, message: Message) -> (DriverState, Effect) {
    match message {
        Message::Input(id, bits) => (state, Effect::Machine(MachineOp::Input(id, bits))),
        Message::Reset => (state, Effect::Machine(MachineOp::Reset)),
        Message::DrawFrame => (state, Effect::Surface(SurfaceOp::Redraw)),
        Message::ChangePaletteId(id) => (state, Effect::Machine(MachineOp::SetPaletteId(id))),
        Message::ChangeEmulationSpeed(factor_milli) => (
            DriverState {
                target_frame_micros: target_frame_micros_spec(state.base_frame_micros, factor_milli),
                ..state
            },
            Effect::Nothing,
        ),
        Message::SaveState(path) => (state, Effect::Persist(PersistOp::SaveState(path))),
        Message::Save(path) => (state, Effect::Persist(PersistOp::Save(path))),
        Message::ResizeWindow(width, height) => (
            state,
            Effect::Surface(SurfaceOp::ResizeSurface(width, height)),
        ),
        Message::ToggleDebugWindow => (
            DriverState { debug: !state.debug, ..state },
            Effect::Surface(
                SurfaceOp::ResizeBuffer(
                    DEBUG_WINDOW_WIDTH,
                    if !state.debug {
                        DEBUG_WINDOW_HEIGHT
                    } else {
                        MAIN_WINDOW_HEIGHT
                    },
                ),
            ),
        ),
        Message::CloseApp => (DriverState { running: false, ..state }, Effect::SaveAndExit),
    }
}

impl DriverState {
    /// Dispatches one command: applies its state change and returns the
    /// effect the surrounding process must carry out.
    pub fn handle_message(&mut self, message: Message) -> (effect: Effect)
        requires
            old(self).wf(),
        ensures
            *final(self) == dispatch_spec(*old(self), message).0,
            effect == dispatch_spec(*old(self), message).1,
            final(self).wf(),
    {
        match message {
            Message::Input(id, bits) => Effect::Machine(MachineOp::Input(id, bits)),
            Message::Reset => Effect::Machine(MachineOp::Reset),
            Message::DrawFrame => Effect::Surface(SurfaceOp::Redraw),
            Message::ChangePaletteId(id) => Effect::Machine(MachineOp::SetPaletteId(id)),
            Message::ChangeEmulationSpeed(factor_milli) => {
                self.target_frame_micros = target_frame_micros(self.base_frame_micros, factor_milli);
                Effect::Nothing
            },
            Message::SaveState(path) => Effect::Persist(PersistOp::SaveState(path)),
            Message::Save(path) => Effect::Persist(PersistOp::Save(path)),
            Message::ResizeWindow(width, height) => Effect::Surface(
                SurfaceOp::ResizeSurface(width, height),
            ),
            Message::ToggleDebugWindow => {
                let resize = if !self.debug {
                    SurfaceOp::ResizeBuffer(DEBUG_WINDOW_WIDTH, DEBUG_WINDOW_HEIGHT)
                } else {
                    SurfaceOp::ResizeBuffer(DEBUG_WINDOW_WIDTH, MAIN_WINDOW_HEIGHT)
                };
                self.debug = !self.debug;
                Effect::Surface(resize)
            },
            Message::CloseApp => {
                self.running = false;
                Effect::SaveAndExit
            },
        }
    }
}

/// The driver state after one clock step: unchanged when the mailbox was
/// empty, else the dispatch of the oldest queued command.
pub open spec fn step_state_spec(state: DriverState, pending: Seq<Message>) -> DriverState {
    if pending.len() == 0 {
        state
    } else {
        dispatch_spec(state, pending[0]).0
    }
}

/// The effect of the at most one command a clock step dispatches.
pub open spec fn step_effect_spec(state: DriverState, pending: Seq<Message>) -> Option<Effect> {
    if pending.len() == 0 {
        None
    } else {
        Some(dispatch_spec(state, pending[0]).1)
    }
}

/// The mailbox contents after one clock step: at most the oldest command
/// leaves, and the rest keep their order.
pub open spec fn step_mailbox_spec(pending: Seq<Message>) -> Seq<Message> {
    if pending.len() == 0 {
        pending
    } else {
        pending.skip(1)
    }
}

/// Whether the step handles a completed frame: only when the machine finished
/// one and the loop is still running after dispatch — a terminal command
/// skips the frame it arrived with.
pub open spec fn step_handles_frame_spec(
    state: DriverState,
    pending: Seq<Message>,
    frame_ready: bool,
) -> bool {
    frame_ready && step_state_spec(state, pending).running
}

/// The backpressure transition the step asks for: only when a frame is
/// handled, and only when the hysteresis actually flips the producing flag.
pub open spec fn step_set_producing_spec(
    state: DriverState,
    pending: Seq<Message>,
    frame_ready: bool,
    occupancy: u32,
    producing: bool,
) -> Option<bool> {
    if step_handles_frame_spec(state, pending, frame_ready) && producing_after_spec(
        producing,
        occupancy,
    ) != producing {
        Some(producing_after_spec(producing, occupancy))
    } else {
        None
    }
}

/// Everything one clock step asks the surrounding process to do.
pub struct StepPlan {
    /// The effect of the one dispatched command, if one was pending.
    pub effect: Option<Effect>,
    /// Whether a completed frame must be shown, its audio flushed, and the
    /// pacer run.
    pub handle_frame: bool,
    /// Whether the debug overlay must additionally be composed from the
    /// machine's introspection data and shown below the main picture.
    pub compose_debug: bool,
    /// The producing-flag transition to forward to the machine, if any.
    pub set_producing: Option<bool>,
    /// Whether the pacing reference timestamp advances; it does exactly when
    /// a frame is handled, whether or not the pacer slept.
    pub advance_timestamp: bool,
}

/// One clock step's decisions. Dequeues at most one command from the mailbox
/// and dispatches it, then plans the frame handling from the observations:
/// `frame_ready` is whether the machine completed a video frame during this
/// step, `occupancy` the audio queue's sample-frame count, and `producing`
/// the machine's current producing flag.
pub fn step(
    state: &mut DriverState,
    mailbox: &mut Mailbox,
    frame_ready: bool,
    occupancy: u32,
    producing: bool,
) -> (plan: StepPlan)
    requires
        old(state).wf(),
    ensures
        *final(state) == step_state_spec(*old(state), old(mailbox)@),
        final(mailbox)@ == step_mailbox_spec(old(mailbox)@),
        final(mailbox)@.len() >= old(mailbox)@.len() - 1,
        plan.effect == step_effect_spec(*old(state), old(mailbox)@),
        plan.handle_frame == step_handles_frame_spec(*old(state), old(mailbox)@, frame_ready),
        plan.compose_debug == (step_handles_frame_spec(*old(state), old(mailbox)@, frame_ready)
            && step_state_spec(*old(state), old(mailbox)@).debug),
        plan.set_producing == step_set_producing_spec(
            *old(state),
            old(mailbox)@,
            frame_ready,
            occupancy,
            producing,
        ),
        plan.advance_timestamp == plan.handle_frame,
        final(state).wf(),
{
    let effect = match mailbox.poll() {
        Some(message) => Some(state.handle_message(message)),
        None => None,
    };
    let handle_frame = frame_ready && state.running;
    let set_producing = if handle_frame {
        let next = producing_after(producing, occupancy);
        if next != producing {
            Some(next)
        } else {
            None
        }
    } else {
        None
    };
    let compose_debug = handle_frame && state.debug;
    StepPlan { effect, handle_frame, compose_debug, set_producing, advance_timestamp: handle_frame }
}

/// The driver state and mailbox after `n` clock steps in which no new
/// command arrives: each step dequeues and dispatches at most one command.
pub open spec fn drain_spec(state: DriverState, pending: Seq<Message>, n: nat) -> (
    DriverState,
    Seq<Message>,
)
    decreases n,
{
    if n == 0 {
        (state, pending)
    } else {
        drain_spec(step_state_spec(state, pending), step_mailbox_spec(pending), (n - 1) as nat)
    }
}

/// Bounded dispatch latency: over any number of clock steps, at most one
/// queued command is dequeued and applied per step, and the commands that
/// remain are exactly the unconsumed suffix, still in submission order.
pub proof fn lemma_one_command_per_step(state: DriverState, pending: Seq<Message>, n: nat)
    ensures
        drain_spec(state, pending, n).1.len() >= pending.len() - n,
        n < pending.len() ==> drain_spec(state, pending, n).1 == pending.skip(n as int),
        n >= pending.len() ==> drain_spec(state, pending, n).1.len() == 0,
    decreases n,
{
    if n > 0 {
        lemma_one_command_per_step(
            step_state_spec(state, pending),
            step_mailbox_spec(pending),
            (n - 1) as nat,
        );
        if pending.len() > 0 && n < pending.len() {
            assert(pending.skip(1).skip(n - 1) =~= pending.skip(n as int));
        }
    }
}

/// The terminal command: with `CloseApp` as the sole queued command, the very
/// next clock step dispatches it, the loop is no longer running afterwards —
/// so the frame that step might have completed is not handled — and the one
/// effect asked of the surroundings is the final save attempt before exit.
pub proof fn lemma_close_app_exits(state: DriverState, pending: Seq<Message>, frame_ready: bool)
    requires
        pending == seq![Message::CloseApp],
    ensures
        !step_state_spec(state, pending).running,
        step_effect_spec(state, pending) == Some(Effect::SaveAndExit),
        step_mailbox_spec(pending).len() == 0,
        !step_handles_frame_spec(state, pending, frame_ready),
{
}

/// Speed change is idempotent: dispatching the same speed factor twice
/// leaves exactly the state the first dispatch produced, because the target
/// duration is recomputed from the base duration, never from itself.
pub proof fn lemma_speed_change_idempotent(state: DriverState, factor_milli: u32)
    ensures
        dispatch_spec(
            dispatch_spec(state, Message::ChangeEmulationSpeed(factor_milli)).0,
            Message::ChangeEmulationSpeed(factor_milli),
        ).0 == dispatch_spec(state, Message::ChangeEmulationSpeed(factor_milli)).0,
{
}

} // verus!
