//! Door actuator controller: turns protocol-level commands into
//! mutually-exclusive, time-bounded output changes.
//!
//! The controller does not touch hardware itself. Every operation returns
//! the ordered script of output writes to perform; the caller drives the
//! physical pins in exactly that order and treats any write failure as
//! fatal for the invocation. A ghost trace records every output state the
//! controller has driven the pins through, so the exclusivity invariant
//! speaks of every observed instant, including the window in the middle
//! of a command transition.

use vstd::prelude::*;

use crate::manage_command::MANAGECommand;

verus! {

/// Quiescence window for the motorized variant, in milliseconds: once no
/// command has arrived for this long, a tick drives all outputs low so no
/// motor winding stays energized.
pub const MOTOR_IDLE_MS: u64 = 500;

/// The two supported door wirings, selected at construction.
#[derive(Clone, Copy, Debug, PartialEq, Eq, Structural)]
pub enum DoorSecurityDoorType {
    /// Open/close/stop drive a motor; outputs auto-idle after
    /// [`MOTOR_IDLE_MS`] without a new command.
    Motorized,
    /// Open/close plus a combined stop/unlock output; a timed unlock arms
    /// a release deadline, and a tick past the deadline re-secures the
    /// lock.
    LockFailSecure,
}

/// One of the three physical actuator outputs.
#[derive(Clone, Copy, Debug, PartialEq, Eq, Structural)]
pub enum DoorPin {
    Open,
    Close,
    StopUnlock,
}

/// One physical output write: drive `pin` to level `high`.
#[derive(Clone, Copy, Debug, PartialEq, Eq, Structural)]
pub struct PinWrite {
    pub pin: DoorPin,
    pub high: bool,
}

/// The levels of the three actuator outputs at one instant.
#[derive(Clone, Copy, Debug, PartialEq, Eq, Structural)]
pub struct OutputLevels {
    pub open: bool,
    pub close: bool,
    pub stop_unlock: bool,
}

/// At most one of the three exclusionary outputs is driven high.
pub open spec fn exclusive(o: OutputLevels) -> bool {
    &&& !(o.open && o.close)
    &&& !(o.open && o.stop_unlock)
    &&& !(o.close && o.stop_unlock)
}

/// All outputs low: the idle (secured) state.
pub open spec fn all_low() -> OutputLevels {
    OutputLevels { open: false, close: false, stop_unlock: false }
}

/// The output state after one write.
pub open spec fn apply_write(o: OutputLevels, w: PinWrite) -> OutputLevels {
    match w.pin {
        DoorPin::Open => OutputLevels { open: w.high, ..o },
        DoorPin::Close => OutputLevels { close: w.high, ..o },
        DoorPin::StopUnlock => OutputLevels { stop_unlock: w.high, ..o },
    }
}

/// The sequence of output states passed through while performing `ws`
/// one write at a time, starting from `o` (one state per write).
pub open spec fn states_along(o: OutputLevels, ws: Seq<PinWrite>) -> Seq<OutputLevels>
    decreases ws.len(),
{
    if ws.len() == 0 {
        Seq::empty()
    } else {
        seq![apply_write(o, ws[0])] + states_along(apply_write(o, ws[0]), ws.skip(1))
    }
}

/// The write script of a command: every exclusionary output is deasserted
/// before the one the command implies is asserted, never concurrently.
pub open spec fn command_writes(cmd: MANAGECommand) -> Seq<PinWrite> {
    match cmd {
        MANAGECommand::DoorOpen => seq![
            PinWrite { pin: DoorPin::Close, high: false },
            PinWrite { pin: DoorPin::StopUnlock, high: false },
            PinWrite { pin: DoorPin::Open, high: true },
        ],
        MANAGECommand::DoorClose => seq![
            PinWrite { pin: DoorPin::Open, high: false },
            PinWrite { pin: DoorPin::StopUnlock, high: false },
            PinWrite { pin: DoorPin::Close, high: true },
        ],
        MANAGECommand::DoorStop => seq![
            PinWrite { pin: DoorPin::Open, high: false },
            PinWrite { pin: DoorPin::Close, high: false },
            PinWrite { pin: DoorPin::StopUnlock, high: true },
        ],
        MANAGECommand::DoorUnlock { .. } => seq![
            PinWrite { pin: DoorPin::Open, high: false },
            PinWrite { pin: DoorPin::Close, high: false },
            PinWrite { pin: DoorPin::StopUnlock, high: true },
        ],
    }
}

/// The output state a command leaves the pins in.
pub open spec fn command_final(cmd: MANAGECommand) -> OutputLevels {
    match cmd {
        MANAGECommand::DoorOpen => OutputLevels { open: true, close: false, stop_unlock: false },
        MANAGECommand::DoorClose => OutputLevels { open: false, close: true, stop_unlock: false },
        MANAGECommand::DoorStop => OutputLevels { open: false, close: false, stop_unlock: true },
        MANAGECommand::DoorUnlock { .. } => OutputLevels {
            open: false,
            close: false,
            stop_unlock: true,
        },
    }
}

/// The timer-free part of the controller state, for stating laws about
/// its transitions.
pub struct DoorModel {
    pub door_type: DoorSecurityDoorType,
    pub outputs: OutputLevels,
    pub last_action_time_ms: u64,
    pub lock_release_deadline_ms: u64,
}

/// The controller state after handling one command at time `now_ms`.
pub open spec fn spec_handle(m: DoorModel, cmd: MANAGECommand, now_ms: u64) -> DoorModel {
    DoorModel {
        outputs: command_final(cmd),
        last_action_time_ms: now_ms,
        lock_release_deadline_ms: match cmd {
            MANAGECommand::DoorUnlock { duration } => (now_ms + duration * 1000) as u64,
            _ => m.lock_release_deadline_ms,
        },
        ..m
    }
}

/// Whether a motorized tick at `now_ms` auto-idles the outputs.
pub open spec fn motor_idle_due(m: DoorModel, now_ms: u64) -> bool {
    now_ms - m.last_action_time_ms > MOTOR_IDLE_MS
}

/// Whether a fail-secure tick at `now_ms` re-secures the lock: the
/// release deadline has passed and the stop/unlock output is still high.
pub open spec fn lock_release_due(m: DoorModel, now_ms: u64) -> bool {
    now_ms >= m.lock_release_deadline_ms && m.outputs.stop_unlock
}

/// The controller state after one tick at time `now_ms`.
pub open spec fn spec_tick(m: DoorModel, now_ms: u64) -> DoorModel {
    match m.door_type {
        DoorSecurityDoorType::Motorized => if motor_idle_due(m, now_ms) {
            DoorModel { outputs: all_low(), ..m }
        } else {
            m
        },
        DoorSecurityDoorType::LockFailSecure => if lock_release_due(m, now_ms) {
            DoorModel { outputs: OutputLevels { stop_unlock: false, ..m.outputs }, ..m }
        } else {
            m
        },
    }
}

/// The write script of one tick at time `now_ms`.
pub open spec fn tick_writes(m: DoorModel, now_ms: u64) -> Seq<PinWrite> {
    match m.door_type {
        DoorSecurityDoorType::Motorized => if motor_idle_due(m, now_ms) {
            seq![
                PinWrite { pin: DoorPin::Open, high: false },
                PinWrite { pin: DoorPin::Close, high: false },
                PinWrite { pin: DoorPin::StopUnlock, high: false },
            ]
        } else {
            Seq::empty()
        },
        DoorSecurityDoorType::LockFailSecure => if lock_release_due(m, now_ms) {
            seq![PinWrite { pin: DoorPin::StopUnlock, high: false }]
        } else {
            Seq::empty()
        },
    }
}

/// The door actuator controller.
///
/// Owns the model of the three actuator output levels and the two timers.
/// `trace` is the ghost history of every output state the controller has
/// driven, in order, starting with the initial state.
pub struct DoorSecurity {
    pub door_type: DoorSecurityDoorType,
    pub outputs: OutputLevels,
    pub last_action_time_ms: u64,
    pub lock_release_deadline_ms: u64,
    pub trace: Ghost<Seq<OutputLevels>>,
}

impl View for DoorSecurity {
    type V = DoorModel;

    open spec fn view(&self) -> DoorModel {
        DoorModel {
            door_type: self.door_type,
            outputs: self.outputs,
            last_action_time_ms: self.last_action_time_ms,
            lock_release_deadline_ms: self.lock_release_deadline_ms,
        }
    }
}

impl DoorSecurity {
    /// The controller's invariant: the trace ends in the current output
    /// state and every state ever driven is exclusive.
    pub open spec fn wf(self) -> bool {
        &&& self.trace@.len() > 0
        &&& self.trace@.last() == self.outputs
        &&& forall|i: int| 0 <= i < self.trace@.len() ==> exclusive(#[trigger] self.trace@[i])
    }

    /// Builds a controller for the given wiring with all outputs low (the
    /// hardware reset state) and both timers set to the current time.
    pub fn new(door_type: DoorSecurityDoorType, now_ms: u64) -> (d: DoorSecurity)
        ensures
            d.wf(),
            d.door_type == door_type,
            d.outputs == all_low(),
            d.last_action_time_ms == now_ms,
            d.lock_release_deadline_ms == now_ms,
            d.trace@ =~= seq![all_low()],
    {
        let ghost initial_trace: Seq<OutputLevels> = seq![all_low()];
        DoorSecurity {
            door_type,
            outputs: OutputLevels { open: false, close: false, stop_unlock: false },
            last_action_time_ms: now_ms,
            lock_release_deadline_ms: now_ms,
            trace: Ghost(initial_trace),
        }
    }

    /// Performs one output write: records it in the script, applies it to
    /// the output model and appends the new state to the trace.
    fn drive(&mut self, w: PinWrite, script: &mut Vec<PinWrite>)
        requires
            old(self).wf(),
            exclusive(apply_write(old(self).outputs, w)),
        ensures
            final(self).wf(),
            final(self).outputs == apply_write(old(self).outputs, w),
            final(self).trace@ == old(self).trace@.push(apply_write(old(self).outputs, w)),
            final(self).door_type == old(self).door_type,
            final(self).last_action_time_ms == old(self).last_action_time_ms,
            final(self).lock_release_deadline_ms == old(self).lock_release_deadline_ms,
            final(script)@ == old(script)@.push(w),
    {
        let next = match w.pin {
            DoorPin::Open => OutputLevels { open: w.high, ..self.outputs },
            DoorPin::Close => OutputLevels { close: w.high, ..self.outputs },
            DoorPin::StopUnlock => OutputLevels { stop_unlock: w.high, ..self.outputs },
        };
        self.outputs = next;
        proof {
            self.trace@ = self.trace@.push(next);
        }
        script.push(w);
    }

    /// Applies one command: deasserts every exclusionary output first,
    /// then asserts exactly the one the command implies, and updates the
    /// timers. Returns the ordered script of output writes performed, for
    /// the caller to replay onto the physical pins.
    pub fn handle_command(&mut self, command: MANAGECommand, now_ms: u64) -> (script: Vec<
        PinWrite,
    >)
        requires
            old(self).wf(),
            command matches MANAGECommand::DoorUnlock { duration } ==> now_ms + duration * 1000
                <= u64::MAX,
        ensures
            final(self).wf(),
            final(self)@ == spec_handle(old(self)@, command, now_ms),
            script@ == command_writes(command),
            final(self).trace@ == old(self).trace@ + states_along(
                old(self).outputs,
                command_writes(command),
            ),
    {
        let mut script: Vec<PinWrite> = Vec::new();
        match command {
            MANAGECommand::DoorOpen => {
                self.last_action_time_ms = now_ms;
                self.drive(PinWrite { pin: DoorPin::Close, high: false }, &mut script);
                self.drive(PinWrite { pin: DoorPin::StopUnlock, high: false }, &mut script);
                self.drive(PinWrite { pin: DoorPin::Open, high: true }, &mut script);
            },
            MANAGECommand::DoorClose => {
                self.last_action_time_ms = now_ms;
                self.drive(PinWrite { pin: DoorPin::Open, high: false }, &mut script);
                self.drive(PinWrite { pin: DoorPin::StopUnlock, high: false }, &mut script);
                self.drive(PinWrite { pin: DoorPin::Close, high: true }, &mut script);
            },
            MANAGECommand::DoorStop => {
                self.last_action_time_ms = now_ms;
                self.drive(PinWrite { pin: DoorPin::Open, high: false }, &mut script);
                self.drive(PinWrite { pin: DoorPin::Close, high: false }, &mut script);
                self.drive(PinWrite { pin: DoorPin::StopUnlock, high: true }, &mut script);
            },
            MANAGECommand::DoorUnlock { duration } => {
                self.last_action_time_ms = now_ms;
                self.lock_release_deadline_ms = now_ms + (duration as u64) * 1000;
                self.drive(PinWrite { pin: DoorPin::Open, high: false }, &mut script);
                self.drive(PinWrite { pin: DoorPin::Close, high: false }, &mut script);
                self.drive(PinWrite { pin: DoorPin::StopUnlock, high: true }, &mut script);
            },
        }
        proof {
            lemma_states_along_of_script(old(self).outputs, command);
            assert(self.trace@ =~= old(self).trace@ + states_along(
                old(self).outputs,
                command_writes(command),
            ));
        }
        script
    }

    /// Applies the variant's timeout logic for one control-loop tick:
    /// auto-idle for the motorized wiring, release-deadline check for the
    /// fail-secure lock. Returns the script of output writes performed.
    pub fn tick(&mut self, now_ms: u64) -> (script: Vec<PinWrite>)
        requires
            old(self).wf(),
            old(self).last_action_time_ms <= now_ms,
        ensures
            final(self).wf(),
            final(self)@ == spec_tick(old(self)@, now_ms),
            script@ == tick_writes(old(self)@, now_ms),
            final(self).trace@ == old(self).trace@ + states_along(
                old(self).outputs,
                tick_writes(old(self)@, now_ms),
            ),
    {
        let mut script: Vec<PinWrite> = Vec::new();
        match self.door_type {
            DoorSecurityDoorType::Motorized => {
                if now_ms - self.last_action_time_ms > MOTOR_IDLE_MS {
                    self.drive(PinWrite { pin: DoorPin::Open, high: false }, &mut script);
                    self.drive(PinWrite { pin: DoorPin::Close, high: false }, &mut script);
                    self.drive(PinWrite { pin: DoorPin::StopUnlock, high: false }, &mut script);
                }
            },
            DoorSecurityDoorType::LockFailSecure => {
                if now_ms >= self.lock_release_deadline_ms && self.outputs.stop_unlock {
                    self.drive(PinWrite { pin: DoorPin::StopUnlock, high: false }, &mut script);
                }
            },
        }
        proof {
            lemma_states_along_small(old(self).outputs, tick_writes(old(self)@, now_ms));
            assert(self.trace@ =~= old(self).trace@ + states_along(
                old(self).outputs,
                tick_writes(old(self)@, now_ms),
            ));
        }
        script
    }

    /// One iteration of the actuator control loop: a pending command
    /// always preempts the tick, so commands are never delayed behind the
    /// tick cadence; only a quiet iteration applies the timeout logic.
    pub fn control_step(&mut self, pending: Option<MANAGECommand>, now_ms: u64) -> (script: Vec<
        PinWrite,
    >)
        requires
            old(self).wf(),
            old(self).last_action_time_ms <= now_ms,
            pending matches Some(MANAGECommand::DoorUnlock { duration }) ==> now_ms + duration
                * 1000 <= u64::MAX,
        ensures
            final(self).wf(),
            match pending {
                Some(cmd) => final(self)@ == spec_handle(old(self)@, cmd, now_ms) && script@
                    == command_writes(cmd),
                None => final(self)@ == spec_tick(old(self)@, now_ms) && script@ == tick_writes(
                    old(self)@,
                    now_ms,
                ),
            },
    {
        match pending {
            Some(cmd) => self.handle_command(cmd, now_ms),
            None => self.tick(now_ms),
        }
    }
}

/// Unfolds `states_along` for scripts of up to three writes.
proof fn lemma_states_along_small(o: OutputLevels, ws: Seq<PinWrite>)
    requires
        ws.len() <= 3,
    ensures
        states_along(o, ws).len() == ws.len(),
        ws.len() >= 1 ==> states_along(o, ws)[0] == apply_write(o, ws[0]),
        ws.len() >= 2 ==> states_along(o, ws)[1] == apply_write(apply_write(o, ws[0]), ws[1]),
        ws.len() == 3 ==> states_along(o, ws)[2] == apply_write(
            apply_write(apply_write(o, ws[0]), ws[1]),
            ws[2],
        ),
    decreases ws.len(),
{
    if ws.len() >= 1 {
        let tail = ws.skip(1);
        lemma_states_along_small(apply_write(o, ws[0]), tail);
        if ws.len() >= 2 {
            assert(tail[0] == ws[1]);
            if ws.len() == 3 {
                assert(tail[1] == ws[2]);
            }
        }
    }
}

/// The trace a command's script drives through equals the successive
/// applications of its writes.
proof fn lemma_states_along_of_script(o: OutputLevels, cmd: MANAGECommand)
    ensures
        states_along(o, command_writes(cmd)) =~= seq![
            apply_write(o, command_writes(cmd)[0]),
            apply_write(apply_write(o, command_writes(cmd)[0]), command_writes(cmd)[1]),
            apply_write(
                apply_write(apply_write(o, command_writes(cmd)[0]), command_writes(cmd)[1]),
                command_writes(cmd)[2],
            ),
        ],
{
    lemma_states_along_small(o, command_writes(cmd));
}

/// Exclusivity law, transition part: from any exclusive output state, the
/// write script of any command passes through exclusive states only — the
/// hazard window in the middle of a transition never drives two
/// exclusionary outputs at once.
pub proof fn lemma_command_exclusivity(o: OutputLevels, cmd: MANAGECommand)
    requires
        exclusive(o),
    ensures
        forall|i: int|
            0 <= i < states_along(o, command_writes(cmd)).len() ==> exclusive(
                #[trigger] states_along(o, command_writes(cmd))[i],
            ),
{
    lemma_states_along_of_script(o, cmd);
}

/// Exclusivity law, history part: in a well-formed controller, every
/// output state ever driven — after any sequence of commands and ticks —
/// is exclusive.
pub proof fn lemma_trace_exclusive(d: DoorSecurity)
    requires
        d.wf(),
    ensures
        forall|i: int| 0 <= i < d.trace@.len() ==> exclusive(#[trigger] d.trace@[i]),
{
}

/// Auto-idle law: on a motorized door, if the quiescence window elapses
/// after the last command with no new command, a tick drives all outputs
/// low.
pub proof fn lemma_auto_idle(m: DoorModel, cmd: MANAGECommand, t_cmd: u64, t_tick: u64)
    requires
        m.door_type == DoorSecurityDoorType::Motorized,
        t_tick - t_cmd > MOTOR_IDLE_MS,
        t_cmd <= t_tick,
    ensures
        spec_tick(spec_handle(m, cmd, t_cmd), t_tick).outputs == all_low(),
{
}

/// Timed-unlock law: `DoorUnlock` asserts the stop/unlock output
/// immediately; a tick before `now + duration` seconds leaves it
/// asserted; a tick at or past the deadline deasserts it, with a
/// one-write script; and the release happens exactly once — a later tick
/// writes nothing further and the output stays low.
pub proof fn lemma_timed_unlock(m: DoorModel, duration: u32, t0: u64, t1: u64, t2: u64)
    requires
        m.door_type == DoorSecurityDoorType::LockFailSecure,
        t0 + duration * 1000 <= u64::MAX,
        t1 <= t2,
    ensures
        spec_handle(m, MANAGECommand::DoorUnlock { duration }, t0).outputs.stop_unlock,
        t1 < t0 + duration * 1000 ==> spec_tick(
            spec_handle(m, MANAGECommand::DoorUnlock { duration }, t0),
            t1,
        ).outputs.stop_unlock,
        t1 >= t0 + duration * 1000 ==> {
            let released = spec_tick(spec_handle(m, MANAGECommand::DoorUnlock { duration }, t0), t1);
            &&& !released.outputs.stop_unlock
            &&& tick_writes(spec_handle(m, MANAGECommand::DoorUnlock { duration }, t0), t1)
                =~= seq![PinWrite { pin: DoorPin::StopUnlock, high: false }]
            &&& tick_writes(released, t2) =~= Seq::<PinWrite>::empty()
            &&& !spec_tick(released, t2).outputs.stop_unlock
        },
{
}

} // verus!
