use vstd::prelude::*;
use crate::codec::{decode_block, frame_is_block, frame_payload, read_block, read_request};
use crate::command::{
    dbma_command, dven_command, exec_begin, exec_step, lock_command, relock_command,
    reset_command, vdms_command, Command, CommandExec, CommandTag, CommandView, ExecView,
    Phase,
};
use crate::error::Error;
use crate::io::{elapsed, elapsed_ms, Action, ActionView, Event, EventView};
use crate::registers::{
    decode_mode, decode_power_status, mode_of_tag, power_status_of, Mode, MODE_LEN,
    POWER_STATUS_LEN, REG_MODE, REG_POWER_STATUS,
};
use crate::vdm::{
    dfu_objects, dfu_vdos, local_serial_objects, local_serial_vdos, reboot_objects, reboot_vdos,
    serial_objects, serial_vdos, vdo_count_ok, VdmSopType,
};

verus! {

/// Pause after the reboot message, while the link drops, and again after the
/// link is back, before the controller is spoken to.
pub const RECONNECT_WAIT_MS: u64 = 1000;

/// Pause between two looks at the link while waiting for it to come back.
pub const LINK_POLL_MS: u64 = 100;

/// How long the link may take to come back.
pub const RECONNECT_TIMEOUT_MS: u64 = 3000;

/// What is to happen once a vendor-defined message has been dispatched.
#[derive(Clone, Copy, Debug, PartialEq, Eq, Structural)]
pub enum Follow {
    /// Nothing: the operation is over.
    Nothing,
    /// The local end is switched to serial as well.
    LocalSerial,
    /// The link is awaited, and then the serial sequence runs.
    Reconnect,
}

/// Where a device stands. But for `Idle`, a stage is named after what is in
/// flight.
#[derive(Clone, Copy, Debug, PartialEq, Eq, Structural)]
pub enum Stage {
    /// Nothing is in flight.
    Idle,
    /// Opening: the power status is being read.
    LinkCheck,
    /// Opening: the mode is being read.
    ModeCheck,
    /// Opening: the unlock command runs, for the first time or, after a
    /// reset, for the second.
    Unlocking { retry: bool },
    /// Opening: the reset command runs.
    Resetting,
    /// Opening: the command that enters debug mode runs.
    EnteringDebug,
    /// Opening: the mode is being read to see that it is debug mode.
    Verifying,
    /// A command runs by itself.
    Single,
    /// Dispatch: the mode is being read to see that it still is debug mode.
    Guard { follow: Follow },
    /// Dispatch: the message command runs.
    Sending { follow: Follow },
    /// Pausing after the reboot message.
    RebootSettle,
    /// Reconnect: the power status is being read.
    LinkPoll,
    /// Reconnect: pausing between two reads.
    LinkPause,
    /// Reconnect: the link is back; pausing before the serial sequence.
    LinkSettle,
    /// Closing: the command that leaves debug mode runs.
    ExitingDebug,
    /// Closing: the lock command runs.
    Relocking,
}

/// A session with the controller.
///
/// The device owns the unlock key and the state of whatever operation is in
/// flight. `session` holds once debug mode has been seen in the mode
/// register, and no longer once closing has begun.
#[derive(Debug)]
pub struct Device {
    /// The unlock key.
    pub key: Vec<u8>,
    /// Whether the session is open.
    pub session: bool,
    /// What is in flight.
    pub stage: Stage,
    /// The command that runs, or that waits for the mode to be confirmed.
    pub run: CommandExec,
    /// When waiting for the link began, in milliseconds.
    pub wait_start: u64,
    /// What closing is to report when it is over.
    pub outcome: Result<(), Error>,
    /// What came of leaving debug mode, the last time the session was
    /// closed.
    pub left_debug: Result<(), Error>,
    /// What came of locking the controller, the last time the session was
    /// closed.
    pub relocked: Result<(), Error>,
}

/// Mathematical form of a [`Device`].
pub struct DeviceView {
    pub key: Seq<u8>,
    pub session: bool,
    pub stage: Stage,
    pub run: ExecView,
    pub wait_start: u64,
    pub outcome: Result<(), Error>,
    pub left_debug: Result<(), Error>,
    pub relocked: Result<(), Error>,
}

impl View for Device {
    type V = DeviceView;

    open spec fn view(&self) -> DeviceView {
        DeviceView {
            key: self.key@,
            session: self.session,
            stage: self.stage,
            run: self.run@,
            wait_start: self.wait_start,
            outcome: self.outcome,
            left_debug: self.left_debug,
            relocked: self.relocked,
        }
    }
}

/// The read that asks for the mode register.
pub open spec fn read_mode_register() -> ActionView {
    read_request(REG_MODE, MODE_LEN)
}

/// The read that asks for the power status register.
pub open spec fn read_power_status_register() -> ActionView {
    read_request(REG_POWER_STATUS, POWER_STATUS_LEN)
}

/// What an event says of a register of `len` bytes, given that a read of it
/// was asked for: its payload, `Protocol` for a frame that is no block of
/// that length, `Transport` for a failed read or any other event.
pub open spec fn payload_of_event(ev: EventView, len: u8) -> Result<Seq<u8>, Error> {
    match ev {
        EventView::ReadDone { data } => if frame_is_block(data, len) {
            Ok(frame_payload(data))
        } else {
            Err(Error::Protocol)
        },
        _ => Err(Error::Transport),
    }
}

/// Whether an event reports debug mode, given that the mode register was
/// asked for; the errors are those of [`payload_of_event`].
pub open spec fn debug_of_event(ev: EventView) -> Result<bool, Error> {
    match payload_of_event(ev, MODE_LEN) {
        Ok(tag) => Ok(mode_of_tag(tag) == Some(Mode::Debug)),
        Err(e) => Err(e),
    }
}

/// Whether an event reports a connected link, given that the power status
/// register was asked for; the errors are those of [`payload_of_event`].
pub open spec fn link_of_event(ev: EventView) -> Result<bool, Error> {
    match payload_of_event(ev, POWER_STATUS_LEN) {
        Ok(bytes) => Ok(power_status_of(bytes).unwrap().link_up()),
        Err(e) => Err(e),
    }
}

/// The device comes to rest and reports `result`.
pub open spec fn rest(d: DeviceView, result: Result<(), Error>) -> (DeviceView, ActionView) {
    (DeviceView { stage: Stage::Idle, ..d }, ActionView::Finish { result })
}

/// The device starts `command` and goes to `stage`.
pub open spec fn launch(d: DeviceView, command: CommandView, stage: Stage) -> (
    DeviceView,
    ActionView,
) {
    (DeviceView { stage, run: exec_begin(command).0, ..d }, exec_begin(command).1)
}

/// The device goes to `stage` and asks for `action`.
pub open spec fn proceed(d: DeviceView, stage: Stage, action: ActionView) -> (
    DeviceView,
    ActionView,
) {
    (DeviceView { stage, ..d }, action)
}

/// The execution that holds `command` back until the mode has been confirmed.
pub open spec fn held(command: CommandView) -> ExecView {
    ExecView { command, phase: Phase::Idle, poll_start: 0 }
}

/// The session is open from now on, and the device comes to rest.
pub open spec fn opened(d: DeviceView) -> (DeviceView, ActionView) {
    rest(DeviceView { session: true, ..d }, Ok(()))
}

/// What the device does when the command in flight is over with `result`.
///
/// - First unlock: on success debug mode is entered; on any failure the
///   controller is reset.
/// - Reset: on success the unlock is tried once more; a failure ends opening.
/// - Second unlock: on success debug mode is entered; a failure ends opening.
/// - Entering debug mode: on success the mode is read back; a failure ends
///   opening.
/// - A message: a failure ends the operation; on success, what `follow` says.
/// - Closing: whatever came of leaving debug mode, it is noted and the
///   controller is locked; whatever came of that, it is noted, the device
///   rests and reports the result that closing was given.
pub open spec fn command_done(d: DeviceView, result: Result<(), Error>) -> (
    DeviceView,
    ActionView,
) {
    match d.stage {
        Stage::Unlocking { retry } => match result {
            Ok(_) => launch(d, dbma_command(true), Stage::EnteringDebug),
            Err(e) => if retry {
                rest(d, Err(e))
            } else {
                launch(d, reset_command(), Stage::Resetting)
            },
        },
        Stage::Resetting => match result {
            Ok(_) => launch(d, lock_command(d.key), Stage::Unlocking { retry: true }),
            Err(e) => rest(d, Err(e)),
        },
        Stage::EnteringDebug => match result {
            Ok(_) => proceed(d, Stage::Verifying, read_mode_register()),
            Err(e) => rest(d, Err(e)),
        },
        Stage::Sending { follow } => match result {
            Err(e) => rest(d, Err(e)),
            Ok(_) => match follow {
                Follow::Nothing => rest(d, Ok(())),
                Follow::LocalSerial => launch(d, dven_command(local_serial_vdos()), Stage::Single),
                Follow::Reconnect => proceed(
                    d,
                    Stage::RebootSettle,
                    ActionView::Sleep { millis: RECONNECT_WAIT_MS },
                ),
            },
        },
        Stage::ExitingDebug => launch(
            DeviceView { left_debug: result, ..d },
            relock_command(),
            Stage::Relocking,
        ),
        Stage::Relocking => rest(DeviceView { relocked: result, ..d }, d.outcome),
        _ => rest(d, result),
    }
}

/// Whether a command runs at this stage.
pub open spec fn command_in_flight(stage: Stage) -> bool {
    match stage {
        Stage::Unlocking { .. } | Stage::Resetting | Stage::EnteringDebug | Stage::Single
        | Stage::Sending { .. } | Stage::ExitingDebug | Stage::Relocking => true,
        _ => false,
    }
}

/// The transition function of a device: where `d` goes on `ev` at time
/// `now`, and what it asks for next.
///
/// While a command runs, the event goes to the command's own transition
/// function; what the command asks for is passed on, and once it is over
/// [`command_done`] decides. Otherwise:
///
/// - Opening, power status: without a connected link opening ends with
///   `PreconditionFailed`; with one the mode is read.
/// - Opening, mode: in debug mode the session is open at once; otherwise the
///   unlock command starts with the device's key.
/// - Opening, mode read back: in debug mode the session is open; otherwise
///   opening ends with `Protocol`.
/// - Dispatch, mode: in debug mode the command that was held back starts;
///   otherwise the operation ends with `Protocol`.
/// - After the reboot pause the wait for the link begins: the power status
///   is read; when the link is up, a pause and then the serial sequence
///   follow; when it is not, a pause follows, after which the wait ends with
///   `Timeout` if more than the reconnect timeout has passed since it began,
///   and the power status is read again if not.
/// - A failed read ends the operation with `Transport`, a malformed block
///   with `Protocol`, an event other than the end of a pause during a pause
///   with `Transport`.
/// - At rest every event is answered with `PreconditionFailed`.
pub open spec fn device_step(d: DeviceView, ev: EventView, now: u64) -> (DeviceView, ActionView) {
    if command_in_flight(d.stage) {
        let (run, action) = exec_step(d.run, ev, now);
        let moved = DeviceView { run, ..d };
        match action {
            ActionView::Finish { result } => command_done(moved, result),
            _ => (moved, action),
        }
    } else {
        match d.stage {
            Stage::LinkCheck => match link_of_event(ev) {
                Err(e) => rest(d, Err(e)),
                Ok(false) => rest(d, Err(Error::PreconditionFailed)),
                Ok(true) => proceed(d, Stage::ModeCheck, read_mode_register()),
            },
            Stage::ModeCheck => match debug_of_event(ev) {
                Err(e) => rest(d, Err(e)),
                Ok(true) => opened(d),
                Ok(false) => launch(d, lock_command(d.key), Stage::Unlocking { retry: false }),
            },
            Stage::Verifying => match debug_of_event(ev) {
                Err(e) => rest(d, Err(e)),
                Ok(true) => opened(d),
                Ok(false) => rest(d, Err(Error::Protocol)),
            },
            Stage::Guard { follow } => match debug_of_event(ev) {
                Err(e) => rest(d, Err(e)),
                Ok(true) => launch(d, d.run.command, Stage::Sending { follow }),
                Ok(false) => rest(d, Err(Error::Protocol)),
            },
            Stage::RebootSettle => match ev {
                EventView::Woke => proceed(
                    DeviceView { wait_start: now, ..d },
                    Stage::LinkPoll,
                    read_power_status_register(),
                ),
                _ => rest(d, Err(Error::Transport)),
            },
            Stage::LinkPoll => match link_of_event(ev) {
                Err(e) => rest(d, Err(e)),
                Ok(true) => proceed(
                    d,
                    Stage::LinkSettle,
                    ActionView::Sleep { millis: RECONNECT_WAIT_MS },
                ),
                Ok(false) => proceed(
                    d,
                    Stage::LinkPause,
                    ActionView::Sleep { millis: LINK_POLL_MS },
                ),
            },
            Stage::LinkPause => match ev {
                EventView::Woke => if elapsed_ms(d.wait_start, now) > RECONNECT_TIMEOUT_MS {
                    rest(d, Err(Error::Timeout))
                } else {
                    proceed(d, Stage::LinkPoll, read_power_status_register())
                },
                _ => rest(d, Err(Error::Transport)),
            },
            Stage::LinkSettle => match ev {
                EventView::Woke => proceed(
                    DeviceView {
                        run: held(vdms_command(VdmSopType::SopStar, serial_vdos())),
                        ..d
                    },
                    Stage::Guard { follow: Follow::LocalSerial },
                    read_mode_register(),
                ),
                _ => rest(d, Err(Error::Transport)),
            },
            _ => (d, ActionView::Finish { result: Err(Error::PreconditionFailed) }),
        }
    }
}

/// Whether the command of `run` is on its way: asked for and not over.
pub open spec fn running(run: ExecView) -> bool {
    run.phase != Phase::Idle && !run.phase.is_over()
}

/// Whether the stage of `d` and its command belong together: at every stage
/// at which a command runs, it is the command that the stage stands for, and
/// it is on its way; while the mode is confirmed before a dispatch, the
/// command held back is a message, not yet begun.
///
/// - Unlocking: the unlock command with the device's key.
/// - Resetting: the reset command.
/// - Entering debug mode: the command that enters it.
/// - Dispatch: a message command; the reboot message, if the wait for the
///   link is to follow.
/// - Closing: the command that leaves debug mode, then the lock command
///   with the key of zeros.
pub open spec fn coherent(d: DeviceView) -> bool {
    match d.stage {
        Stage::Unlocking { .. } => running(d.run) && d.run.command == lock_command(d.key),
        Stage::Resetting => running(d.run) && d.run.command == reset_command(),
        Stage::EnteringDebug => running(d.run) && d.run.command == dbma_command(true),
        Stage::Single => running(d.run),
        Stage::Guard { follow } => {
            &&& d.run.phase == Phase::Idle
            &&& d.run.command.tag == CommandTag::Vdms
            &&& follow == Follow::Reconnect ==> d.run.command == vdms_command(
                VdmSopType::SopStar,
                reboot_vdos(),
            )
        },
        Stage::Sending { follow } => {
            &&& running(d.run)
            &&& d.run.command.tag == CommandTag::Vdms
            &&& follow == Follow::Reconnect ==> d.run.command == vdms_command(
                VdmSopType::SopStar,
                reboot_vdos(),
            )
        },
        Stage::ExitingDebug => running(d.run) && d.run.command == dbma_command(false),
        Stage::Relocking => running(d.run) && d.run.command == relock_command(),
        _ => true,
    }
}

/// A new device with the key that belongs to `code` (its bytes in reverse
/// order), and the first step of opening the session: the power status is
/// read. No command has run yet; the place of the command is taken by a
/// reset command of which nothing was asked.
pub open spec fn device_open(code: Seq<u8>) -> (DeviceView, ActionView) {
    (
        DeviceView {
            key: code.reverse(),
            session: false,
            stage: Stage::LinkCheck,
            run: held(reset_command()),
            wait_start: 0,
            outcome: Ok(()),
            left_debug: Ok(()),
            relocked: Ok(()),
        },
        read_power_status_register(),
    )
}

/// A device at rest starts `command` by itself; one that is not at rest
/// refuses with `PreconditionFailed` and stays as it is.
pub open spec fn start_single(d: DeviceView, command: CommandView) -> (DeviceView, ActionView) {
    if d.stage == Stage::Idle {
        launch(d, command, Stage::Single)
    } else {
        (d, ActionView::Finish { result: Err(Error::PreconditionFailed) })
    }
}

/// A device at rest with an open session holds `command` back and reads the
/// mode; any other device refuses with `PreconditionFailed` and stays as it
/// is.
pub open spec fn start_dispatch(d: DeviceView, command: CommandView, follow: Follow) -> (
    DeviceView,
    ActionView,
) {
    if d.stage == Stage::Idle && d.session {
        proceed(
            DeviceView { run: held(command), ..d },
            Stage::Guard { follow },
            read_mode_register(),
        )
    } else {
        (d, ActionView::Finish { result: Err(Error::PreconditionFailed) })
    }
}

/// Dispatch of a message of `vdos` to `sop`: a wrong number of objects is
/// refused with `InvalidArgument` before anything else is looked at, and the
/// device stays as it is.
pub open spec fn start_vdms(d: DeviceView, sop: VdmSopType, vdos: Seq<u32>, follow: Follow) -> (
    DeviceView,
    ActionView,
) {
    if vdo_count_ok(vdos.len()) {
        start_dispatch(d, vdms_command(sop, vdos), follow)
    } else {
        (d, ActionView::Finish { result: Err(Error::InvalidArgument) })
    }
}

/// Closing starts whatever the device was doing: the session is no longer
/// open, `outcome` is kept for the end, what an earlier closing noted is
/// forgotten, and the command that leaves debug mode starts.
pub open spec fn start_close(d: DeviceView, outcome: Result<(), Error>) -> (
    DeviceView,
    ActionView,
) {
    launch(
        DeviceView { session: false, outcome, left_debug: Ok(()), relocked: Ok(()), ..d },
        dbma_command(false),
        Stage::ExitingDebug,
    )
}

/// Reads an event as the answer to a read of the mode register.
pub fn read_debug(event: &Event) -> (r: Result<bool, Error>)
    ensures
        r == debug_of_event(event@),
{
    match event {
        Event::ReadDone { data } => match decode_block(data.as_slice(), MODE_LEN) {
            Ok(tag) => match decode_mode(tag.as_slice()) {
                Some(Mode::Debug) => Ok(true),
                _ => Ok(false),
            },
            Err(_) => Err(Error::Protocol),
        },
        _ => Err(Error::Transport),
    }
}

/// Reads an event as the answer to a read of the power status register.
pub fn read_link(event: &Event) -> (r: Result<bool, Error>)
    ensures
        r == link_of_event(event@),
{
    match event {
        Event::ReadDone { data } => match decode_block(data.as_slice(), POWER_STATUS_LEN) {
            Ok(bytes) => match decode_power_status(bytes.as_slice()) {
                Some(status) => Ok(status.is_connected()),
                None => Err(Error::Protocol),
            },
            Err(_) => Err(Error::Protocol),
        },
        _ => Err(Error::Transport),
    }
}

/// The bytes of `code` in reverse order.
pub fn reversed(code: &[u8]) -> (key: Vec<u8>)
    ensures
        key@ == code@.reverse(),
{
    let n: usize = code.len();
    let mut key: Vec<u8> = Vec::with_capacity(n);
    let mut i: usize = 0;
    while i < n
        invariant
            n == code@.len(),
            i <= n,
            key@.len() == i,
            forall|j: int| 0 <= j < i ==> key@[j] == code@[n - 1 - j],
        decreases n - i,
    {
        key.push(code[n - 1 - i]);
        i = i + 1;
    }
    assert(key@ =~= code@.reverse());
    key
}

impl Device {
    /// Makes a device for the host whose unlock code is `code` and begins to
    /// open the session: [`device_open`].
    pub fn new(code: &[u8]) -> (r: (Device, Action))
        ensures
            (r.0@, r.1@) == device_open(code@),
    {
        let device = Device {
            key: reversed(code),
            session: false,
            stage: Stage::LinkCheck,
            run: CommandExec::new(Command::reset()),
            wait_start: 0,
            outcome: Ok(()),
            left_debug: Ok(()),
            relocked: Ok(()),
        };
        (device, read_block(REG_POWER_STATUS, POWER_STATUS_LEN))
    }

    /// Comes to rest and reports `result`.
    fn rest(&mut self, result: Result<(), Error>) -> (action: Action)
        ensures
            (final(self)@, action@) == rest(old(self)@, result),
    {
        self.stage = Stage::Idle;
        Action::Finish { result }
    }

    /// Starts `command` and goes to `stage`.
    fn launch(&mut self, command: Command, stage: Stage) -> (action: Action)
        ensures
            (final(self)@, action@) == launch(old(self)@, command@, stage),
    {
        self.run = CommandExec::new(command);
        self.stage = stage;
        self.run.start()
    }

    /// Goes to `stage` and asks for the mode register.
    fn ask_mode(&mut self, stage: Stage) -> (action: Action)
        ensures
            (final(self)@, action@) == proceed(old(self)@, stage, read_mode_register()),
    {
        self.stage = stage;
        read_block(REG_MODE, MODE_LEN)
    }

    /// Goes to `stage` and asks for the power status register.
    fn ask_link(&mut self, stage: Stage) -> (action: Action)
        ensures
            (final(self)@, action@) == proceed(old(self)@, stage, read_power_status_register()),
    {
        self.stage = stage;
        read_block(REG_POWER_STATUS, POWER_STATUS_LEN)
    }

    /// Goes to `stage` and asks for a pause.
    fn pause(&mut self, stage: Stage, millis: u64) -> (action: Action)
        ensures
            (final(self)@, action@) == proceed(old(self)@, stage, ActionView::Sleep { millis }),
    {
        self.stage = stage;
        Action::Sleep { millis }
    }

    /// Decides what follows the command that just ended: [`command_done`].
    fn finish_command(&mut self, result: Result<(), Error>) -> (action: Action)
        ensures
            (final(self)@, action@) == command_done(old(self)@, result),
    {
        match self.stage {
            Stage::Unlocking { retry } => match result {
                Ok(_) => self.launch(Command::dbma(true), Stage::EnteringDebug),
                Err(e) => {
                    if retry {
                        self.rest(Err(e))
                    } else {
                        self.launch(Command::reset(), Stage::Resetting)
                    }
                },
            },
            Stage::Resetting => match result {
                Ok(_) => {
                    let unlock: Command = Command::lock(self.key.as_slice());
                    self.launch(unlock, Stage::Unlocking { retry: true })
                },
                Err(e) => self.rest(Err(e)),
            },
            Stage::EnteringDebug => match result {
                Ok(_) => self.ask_mode(Stage::Verifying),
                Err(e) => self.rest(Err(e)),
            },
            Stage::Sending { follow } => match result {
                Err(e) => self.rest(Err(e)),
                Ok(_) => match follow {
                    Follow::Nothing => self.rest(Ok(())),
                    Follow::LocalSerial => {
                        let vdos: Vec<u32> = local_serial_objects();
                        self.launch(Command::dven(vdos.as_slice()), Stage::Single)
                    },
                    Follow::Reconnect => self.pause(Stage::RebootSettle, RECONNECT_WAIT_MS),
                },
            },
            Stage::ExitingDebug => {
                self.left_debug = result;
                self.launch(Command::relock(), Stage::Relocking)
            },
            Stage::Relocking => {
                self.relocked = result;
                let outcome: Result<(), Error> = self.outcome;
                self.rest(outcome)
            },
            _ => self.rest(result),
        }
    }

    /// Advances the device by one event: [`device_step`].
    pub fn handle(&mut self, event: Event, now_ms: u64) -> (action: Action)
        ensures
            (final(self)@, action@) == device_step(old(self)@, event@, now_ms),
    {
        match self.stage {
            Stage::Unlocking { .. } | Stage::Resetting | Stage::EnteringDebug | Stage::Single
            | Stage::Sending { .. } | Stage::ExitingDebug | Stage::Relocking => {
                let action: Action = self.run.handle(event, now_ms);
                match action {
                    Action::Finish { result } => self.finish_command(result),
                    other => other,
                }
            },
            Stage::LinkCheck => match read_link(&event) {
                Err(e) => self.rest(Err(e)),
                Ok(false) => self.rest(Err(Error::PreconditionFailed)),
                Ok(true) => self.ask_mode(Stage::ModeCheck),
            },
            Stage::ModeCheck => match read_debug(&event) {
                Err(e) => self.rest(Err(e)),
                Ok(true) => {
                    self.session = true;
                    self.rest(Ok(()))
                },
                Ok(false) => {
                    let unlock: Command = Command::lock(self.key.as_slice());
                    self.launch(unlock, Stage::Unlocking { retry: false })
                },
            },
            Stage::Verifying => match read_debug(&event) {
                Err(e) => self.rest(Err(e)),
                Ok(true) => {
                    self.session = true;
                    self.rest(Ok(()))
                },
                Ok(false) => self.rest(Err(Error::Protocol)),
            },
            Stage::Guard { follow } => match read_debug(&event) {
                Err(e) => self.rest(Err(e)),
                Ok(true) => {
                    self.stage = Stage::Sending { follow };
                    self.run.start()
                },
                Ok(false) => self.rest(Err(Error::Protocol)),
            },
            Stage::RebootSettle => match event {
                Event::Woke => {
                    self.wait_start = now_ms;
                    self.ask_link(Stage::LinkPoll)
                },
                _ => self.rest(Err(Error::Transport)),
            },
            Stage::LinkPoll => match read_link(&event) {
                Err(e) => self.rest(Err(e)),
                Ok(true) => self.pause(Stage::LinkSettle, RECONNECT_WAIT_MS),
                Ok(false) => self.pause(Stage::LinkPause, LINK_POLL_MS),
            },
            Stage::LinkPause => match event {
                Event::Woke => {
                    if elapsed(self.wait_start, now_ms) > RECONNECT_TIMEOUT_MS {
                        self.rest(Err(Error::Timeout))
                    } else {
                        self.ask_link(Stage::LinkPoll)
                    }
                },
                _ => self.rest(Err(Error::Transport)),
            },
            Stage::LinkSettle => match event {
                Event::Woke => {
                    let vdos: Vec<u32> = serial_objects();
                    match Command::vdms(VdmSopType::SopStar, vdos.as_slice()) {
                        Ok(command) => {
                            self.run = CommandExec::new(command);
                            self.ask_mode(Stage::Guard { follow: Follow::LocalSerial })
                        },
                        Err(e) => {
                            assert(false);
                            self.rest(Err(e))
                        },
                    }
                },
                _ => self.rest(Err(Error::Transport)),
            },
            Stage::Idle => Action::Finish { result: Err(Error::PreconditionFailed) },
        }
    }

    /// Starts `command` by itself: [`start_single`].
    fn single(&mut self, command: Command) -> (action: Action)
        ensures
            (final(self)@, action@) == start_single(old(self)@, command@),
    {
        match self.stage {
            Stage::Idle => self.launch(command, Stage::Single),
            _ => Action::Finish { result: Err(Error::PreconditionFailed) },
        }
    }

    /// Starts the dispatch of a message: [`start_vdms`].
    fn dispatch(&mut self, sop: VdmSopType, vdos: &[u32], follow: Follow) -> (action: Action)
        ensures
            (final(self)@, action@) == start_vdms(old(self)@, sop, vdos@, follow),
    {
        match Command::vdms(sop, vdos) {
            Err(_) => Action::Finish { result: Err(Error::InvalidArgument) },
            Ok(command) => {
                let at_rest: bool = match self.stage {
                    Stage::Idle => true,
                    _ => false,
                };
                if at_rest && self.session {
                    self.run = CommandExec::new(command);
                    self.ask_mode(Stage::Guard { follow })
                } else {
                    Action::Finish { result: Err(Error::PreconditionFailed) }
                }
            },
        }
    }

    /// Starts the unlock command with `key`, by itself.
    pub fn lock(&mut self, key: &[u8]) -> (action: Action)
        ensures
            (final(self)@, action@) == start_single(old(self)@, lock_command(key@)),
    {
        self.single(Command::lock(key))
    }

    /// Starts the command that enters (`debug`) or leaves debug mode, by
    /// itself.
    pub fn dbma(&mut self, debug: bool) -> (action: Action)
        ensures
            (final(self)@, action@) == start_single(old(self)@, dbma_command(debug)),
    {
        self.single(Command::dbma(debug))
    }

    /// Starts the command that hands `vdos` to the local end, by itself.
    pub fn dven(&mut self, vdos: &[u32]) -> (action: Action)
        ensures
            (final(self)@, action@) == start_single(old(self)@, dven_command(vdos@)),
    {
        self.single(Command::dven(vdos))
    }

    /// Starts the dispatch of a message of `vdos` to `sop`.
    ///
    /// A message of no or of more than seven objects is refused with
    /// `InvalidArgument`, and a dispatch without an open session with
    /// `PreconditionFailed`; in both cases the device stays as it was and
    /// nothing is asked of the driver.
    pub fn vdms(&mut self, sop: VdmSopType, vdos: &[u32]) -> (action: Action)
        ensures
            (final(self)@, action@) == start_vdms(old(self)@, sop, vdos@, Follow::Nothing),
    {
        self.dispatch(sop, vdos, Follow::Nothing)
    }

    /// Starts the operation that sends the target into firmware-update mode.
    pub fn dfu(&mut self) -> (action: Action)
        ensures
            (final(self)@, action@) == start_vdms(
                old(self)@,
                VdmSopType::SopStar,
                dfu_vdos(),
                Follow::Nothing,
            ),
    {
        let vdos: Vec<u32> = dfu_objects();
        self.dispatch(VdmSopType::SopStar, vdos.as_slice(), Follow::Nothing)
    }

    /// Starts the operation that reboots the target into its normal
    /// firmware.
    pub fn reboot(&mut self) -> (action: Action)
        ensures
            (final(self)@, action@) == start_vdms(
                old(self)@,
                VdmSopType::SopStar,
                reboot_vdos(),
                Follow::Nothing,
            ),
    {
        let vdos: Vec<u32> = reboot_objects();
        self.dispatch(VdmSopType::SopStar, vdos.as_slice(), Follow::Nothing)
    }

    /// Starts the operation that reboots the target, waits for the link to
    /// come back and then puts both ends into serial mode.
    pub fn reboot_serial(&mut self) -> (action: Action)
        ensures
            (final(self)@, action@) == start_vdms(
                old(self)@,
                VdmSopType::SopStar,
                reboot_vdos(),
                Follow::Reconnect,
            ),
    {
        let vdos: Vec<u32> = reboot_objects();
        self.dispatch(VdmSopType::SopStar, vdos.as_slice(), Follow::Reconnect)
    }

    /// Starts the operation that puts both ends into serial mode.
    pub fn serial(&mut self) -> (action: Action)
        ensures
            (final(self)@, action@) == start_vdms(
                old(self)@,
                VdmSopType::SopStar,
                serial_vdos(),
                Follow::LocalSerial,
            ),
    {
        let vdos: Vec<u32> = serial_objects();
        self.dispatch(VdmSopType::SopStar, vdos.as_slice(), Follow::LocalSerial)
    }

    /// Starts closing the session: [`start_close`]. `outcome` is the result
    /// of what was done with the session; it is reported again when closing
    /// is over, whatever came of closing itself.
    pub fn close(&mut self, outcome: Result<(), Error>) -> (action: Action)
        ensures
            (final(self)@, action@) == start_close(old(self)@, outcome),
    {
        self.session = false;
        self.outcome = outcome;
        self.left_debug = Ok(());
        self.relocked = Ok(());
        self.launch(Command::dbma(false), Stage::ExitingDebug)
    }
}

} // verus!
