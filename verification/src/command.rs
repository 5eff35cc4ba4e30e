use vstd::prelude::*;
use crate::codec::{
    decode_block, frame_is_block, frame_payload, read_block, read_request, write_block,
    write_request, MAX_BLOCK_LEN,
};
use crate::error::Error;
use crate::io::{elapsed, elapsed_ms, Action, ActionView, Event, EventView};
use crate::registers::{COMMAND_LEN, REG_COMMAND, REG_DATA};
use crate::vdm::{build_vdm, push_vdos, vdm_payload, vdo_bytes, vdo_count_ok, VdmSopType};

verus! {

/// Pause between two reads of the command register while a command runs.
pub const POLL_INTERVAL_MS: u64 = 10;

/// How long lock, reset and mode commands may run.
pub const COMMAND_TIMEOUT_MS: u64 = 1000;

/// How long the dispatch of a vendor-defined message may run.
pub const VDM_TIMEOUT_MS: u64 = 200;

/// Pause after a vendor-defined message was dispatched, before the next
/// register access.
pub const VDM_SETTLE_MS: u64 = 200;

/// The operations of the controller that the engine uses. Each is named on
/// the wire by four ASCII characters.
#[derive(Clone, Copy, Debug, PartialEq, Eq, Structural)]
pub enum CommandTag {
    /// `"LOCK"`: unlock with a key, or lock again with a wrong one.
    Lock,
    /// `"Gaid"`: reset the controller.
    Gaid,
    /// `"DBMa"`: enter or leave debug mode.
    Dbma,
    /// `"VDMs"`: send a vendor-defined message.
    Vdms,
    /// `"DVEn"`: switch the local end.
    Dven,
}

impl CommandTag {
    /// The four characters of the tag.
    pub open spec fn wire(self) -> Seq<u8> {
        match self {
            CommandTag::Lock => seq![0x4cu8, 0x4fu8, 0x43u8, 0x4bu8],
            CommandTag::Gaid => seq![0x47u8, 0x61u8, 0x69u8, 0x64u8],
            CommandTag::Dbma => seq![0x44u8, 0x42u8, 0x4du8, 0x61u8],
            CommandTag::Vdms => seq![0x56u8, 0x44u8, 0x4du8, 0x73u8],
            CommandTag::Dven => seq![0x44u8, 0x56u8, 0x45u8, 0x6eu8],
        }
    }

    /// Computes [`Self::wire`].
    pub fn bytes(self) -> (r: Vec<u8>)
        ensures
            r@ == self.wire(),
            r@.len() == 4,
    {
        let r: Vec<u8> = match self {
            CommandTag::Lock => vec![0x4cu8, 0x4fu8, 0x43u8, 0x4bu8],
            CommandTag::Gaid => vec![0x47u8, 0x61u8, 0x69u8, 0x64u8],
            CommandTag::Dbma => vec![0x44u8, 0x42u8, 0x4du8, 0x61u8],
            CommandTag::Vdms => vec![0x56u8, 0x44u8, 0x4du8, 0x73u8],
            CommandTag::Dven => vec![0x44u8, 0x56u8, 0x45u8, 0x6eu8],
        };
        assert(r@ =~= self.wire());
        r
    }
}

/// A tag is four bytes, whichever it is.
pub proof fn lemma_tag_is_four_bytes(tag: CommandTag)
    ensures
        tag.wire().len() == 4,
{
}

/// How long a command may run and how long to pause after it.
#[derive(Clone, Copy, Debug, PartialEq, Eq, Structural)]
pub struct Timing {
    /// The command fails once the register has stayed busy for longer.
    pub timeout_ms: u64,
    /// Pause after completion; zero for none.
    pub settle_ms: u64,
}

impl Timing {
    /// One second to complete, no pause afterwards.
    pub open spec fn standard_spec() -> Timing {
        Timing { timeout_ms: COMMAND_TIMEOUT_MS, settle_ms: 0 }
    }

    /// The profile of message dispatch.
    pub open spec fn vdm_spec() -> Timing {
        Timing { timeout_ms: VDM_TIMEOUT_MS, settle_ms: VDM_SETTLE_MS }
    }

    /// The profile of lock, reset and mode commands.
    pub fn standard() -> (t: Timing)
        ensures
            t == Timing::standard_spec(),
    {
        Timing { timeout_ms: COMMAND_TIMEOUT_MS, settle_ms: 0 }
    }

    /// The profile of message dispatch.
    pub fn vdm() -> (t: Timing)
        ensures
            t == Timing::vdm_spec(),
    {
        Timing { timeout_ms: VDM_TIMEOUT_MS, settle_ms: VDM_SETTLE_MS }
    }
}

/// One request to the controller: a tag, its input and its timing.
#[derive(Debug)]
pub struct Command {
    pub tag: CommandTag,
    pub data: Vec<u8>,
    pub timing: Timing,
}

/// Mathematical form of a [`Command`].
pub struct CommandView {
    pub tag: CommandTag,
    pub data: Seq<u8>,
    pub timing: Timing,
}

impl View for Command {
    type V = CommandView;

    open spec fn view(&self) -> CommandView {
        CommandView { tag: self.tag, data: self.data@, timing: self.timing }
    }
}

/// The unlock command with `key`.
pub open spec fn lock_command(key: Seq<u8>) -> CommandView {
    CommandView { tag: CommandTag::Lock, data: key, timing: Timing::standard_spec() }
}

/// The command that locks the controller again: an unlock with a key of four
/// zero bytes.
pub open spec fn relock_command() -> CommandView {
    lock_command(seq![0u8, 0u8, 0u8, 0u8])
}

/// The reset command.
pub open spec fn reset_command() -> CommandView {
    CommandView { tag: CommandTag::Gaid, data: Seq::empty(), timing: Timing::standard_spec() }
}

/// The command that enters (`debug`) or leaves debug mode.
pub open spec fn dbma_command(debug: bool) -> CommandView {
    CommandView {
        tag: CommandTag::Dbma,
        data: seq![if debug { 1u8 } else { 0u8 }],
        timing: Timing::standard_spec(),
    }
}

/// The command that sends a vendor-defined message.
pub open spec fn vdms_command(sop: VdmSopType, vdos: Seq<u32>) -> CommandView {
    CommandView { tag: CommandTag::Vdms, data: vdm_payload(sop, vdos), timing: Timing::vdm_spec() }
}

/// The command that hands objects to the local end.
pub open spec fn dven_command(vdos: Seq<u32>) -> CommandView {
    CommandView { tag: CommandTag::Dven, data: vdo_bytes(vdos), timing: Timing::standard_spec() }
}

impl Command {
    /// Builds [`lock_command`].
    pub fn lock(key: &[u8]) -> (c: Command)
        ensures
            c@ == lock_command(key@),
    {
        let mut data: Vec<u8> = Vec::new();
        data.extend_from_slice(key);
        assert(data@ =~= key@);
        Command { tag: CommandTag::Lock, data, timing: Timing::standard() }
    }

    /// Builds [`relock_command`].
    pub fn relock() -> (c: Command)
        ensures
            c@ == relock_command(),
    {
        let data: Vec<u8> = vec![0u8, 0u8, 0u8, 0u8];
        assert(data@ =~= seq![0u8, 0u8, 0u8, 0u8]);
        Command { tag: CommandTag::Lock, data, timing: Timing::standard() }
    }

    /// Builds [`reset_command`].
    pub fn reset() -> (c: Command)
        ensures
            c@ == reset_command(),
    {
        let data: Vec<u8> = Vec::new();
        assert(data@ =~= Seq::<u8>::empty());
        Command { tag: CommandTag::Gaid, data, timing: Timing::standard() }
    }

    /// Builds [`dbma_command`].
    pub fn dbma(debug: bool) -> (c: Command)
        ensures
            c@ == dbma_command(debug),
    {
        let flag: u8 = if debug { 1 } else { 0 };
        let data: Vec<u8> = vec![flag];
        assert(data@ =~= seq![flag]);
        Command { tag: CommandTag::Dbma, data, timing: Timing::standard() }
    }

    /// Builds [`vdms_command`], or fails with `InvalidArgument` exactly when
    /// the number of objects is not between one and seven.
    pub fn vdms(sop: VdmSopType, vdos: &[u32]) -> (r: Result<Command, Error>)
        ensures
            vdo_count_ok(vdos@.len()) ==> r.is_ok() && r.unwrap()@ == vdms_command(sop, vdos@),
            !vdo_count_ok(vdos@.len()) ==> r == Err::<Command, Error>(Error::InvalidArgument),
    {
        match build_vdm(sop, vdos) {
            Ok(data) => Ok(Command { tag: CommandTag::Vdms, data, timing: Timing::vdm() }),
            Err(_) => Err(Error::InvalidArgument),
        }
    }

    /// Builds [`dven_command`].
    pub fn dven(vdos: &[u32]) -> (c: Command)
        ensures
            c@ == dven_command(vdos@),
    {
        let mut data: Vec<u8> = Vec::new();
        push_vdos(&mut data, vdos);
        assert(data@ =~= vdo_bytes(vdos@));
        Command { tag: CommandTag::Dven, data, timing: Timing::standard() }
    }
}

/// What a read of the command register says.
#[derive(Clone, Copy, Debug, PartialEq, Eq, Structural)]
pub enum CommandStatus {
    /// All zero: no command is running.
    Clear,
    /// [`INVALID_COMMAND`]: the controller did not know the last tag.
    Rejected,
    /// Anything else: a command is running.
    Busy,
}

/// What the command register holds after a tag that the controller did not
/// accept: the characters `!CMD`, read as a little-endian number.
///
/// The busy check takes a register in this state for free. That works
/// around a quirk of the hardware which is documented nowhere; it is no
/// feature of the protocol.
pub const INVALID_COMMAND: u32 = 0x444d_4321;

/// The little-endian number that the four bytes of a register spell;
/// nothing, unless there are exactly four.
pub open spec fn word_of(payload: Seq<u8>) -> Option<u32> {
    if payload.len() == 4 {
        Some(
            (payload[0] as u32) | ((payload[1] as u32) << 8) | ((payload[2] as u32) << 16) | ((
            payload[3] as u32) << 24),
        )
    } else {
        None
    }
}

/// Computes [`word_of`].
pub fn register_word(payload: &[u8]) -> (w: Option<u32>)
    ensures
        w == word_of(payload@),
{
    if payload.len() != 4 {
        return None;
    }
    let b0: u32 = payload[0] as u32;
    let b1: u32 = payload[1] as u32;
    let b2: u32 = payload[2] as u32;
    let b3: u32 = payload[3] as u32;
    Some(b0 | (b1 << 8) | (b2 << 16) | (b3 << 24))
}

/// How the payload of the command register is to be read: zero is clear,
/// [`INVALID_COMMAND`] a rejection, anything else a command that runs.
pub open spec fn command_status(payload: Seq<u8>) -> CommandStatus {
    if word_of(payload) == Some(0u32) {
        CommandStatus::Clear
    } else if word_of(payload) == Some(INVALID_COMMAND) {
        CommandStatus::Rejected
    } else {
        CommandStatus::Busy
    }
}

/// Computes [`command_status`].
pub fn classify_status(payload: &[u8]) -> (s: CommandStatus)
    ensures
        s == command_status(payload@),
{
    match register_word(payload) {
        Some(0) => CommandStatus::Clear,
        Some(word) => {
            if word == INVALID_COMMAND {
                CommandStatus::Rejected
            } else {
                CommandStatus::Busy
            }
        },
        None => CommandStatus::Busy,
    }
}

/// The rejection mark spells `!CMD`, and only a register of four zero bytes
/// is clear.
pub proof fn lemma_status_bytes(payload: Seq<u8>)
    ensures
        command_status(seq![0x21u8, 0x43u8, 0x4du8, 0x44u8]) == CommandStatus::Rejected,
        command_status(payload) == CommandStatus::Clear <==> payload == seq![0u8, 0u8, 0u8, 0u8],
{
    let mark: Seq<u8> = seq![0x21u8, 0x43u8, 0x4du8, 0x44u8];
    assert(mark[0] == 0x21 && mark[1] == 0x43 && mark[2] == 0x4d && mark[3] == 0x44);
    assert((0x21u32 | (0x43u32 << 8) | (0x4du32 << 16) | (0x44u32 << 24)) == 0x444d_4321u32)
        by (bit_vector);
    let zero: Seq<u8> = seq![0u8, 0u8, 0u8, 0u8];
    assert(zero[0] == 0 && zero[1] == 0 && zero[2] == 0 && zero[3] == 0);
    assert((0u32 | (0u32 << 8) | (0u32 << 16) | (0u32 << 24)) == 0u32) by (bit_vector);
    if payload.len() == 4 {
        let b0: u32 = payload[0] as u32;
        let b1: u32 = payload[1] as u32;
        let b2: u32 = payload[2] as u32;
        let b3: u32 = payload[3] as u32;
        assert((b0 | (b1 << 8) | (b2 << 16) | (b3 << 24)) == 0u32 ==> b0 == 0 && b1 == 0 && b2 == 0
            && b3 == 0) by (bit_vector)
            requires
                b0 < 256,
                b1 < 256,
                b2 < 256,
                b3 < 256,
        ;
        if command_status(payload) == CommandStatus::Clear {
            assert(payload =~= zero);
        }
    }
}

/// What an event says of the command register, given that a read of it was
/// asked for: the register's status, `Protocol` for a frame that is no block
/// of four bytes, `Transport` for a failed read or any other event.
pub open spec fn status_of_event(ev: EventView) -> Result<CommandStatus, Error> {
    match ev {
        EventView::ReadDone { data } => if frame_is_block(data, COMMAND_LEN) {
            Ok(command_status(frame_payload(data)))
        } else {
            Err(Error::Protocol)
        },
        _ => Err(Error::Transport),
    }
}

/// Computes [`status_of_event`].
pub fn read_status(event: &Event) -> (r: Result<CommandStatus, Error>)
    ensures
        r == status_of_event(event@),
{
    match event {
        Event::ReadDone { data } => match decode_block(data.as_slice(), COMMAND_LEN) {
            Ok(payload) => Ok(classify_status(payload.as_slice())),
            Err(_) => Err(Error::Protocol),
        },
        _ => Err(Error::Transport),
    }
}

/// Where one command stands. A phase is named after the last thing that was
/// asked of the driver.
#[derive(Clone, Copy, Debug, PartialEq, Eq, Structural)]
pub enum Phase {
    /// Nothing was asked yet.
    Idle,
    /// The command register is being read to see whether it is free.
    BusyCheck,
    /// The input is being written to the data register.
    PayloadWritten,
    /// The tag is being written to the command register.
    TagWritten,
    /// The command register is being read to see whether the command is done.
    Polling,
    /// Pausing between two polls.
    Pausing,
    /// The command is done; pausing before the next register access.
    Settling,
    /// Over: the command completed.
    Complete,
    /// Over: the controller was busy with something else.
    Busy,
    /// Over: the controller rejected the tag.
    InvalidCommand,
    /// Over: the command did not complete in time.
    TimedOut,
    /// Over: the exchange broke down with this error.
    Faulted(Error),
}

impl Phase {
    /// Whether the command is over.
    pub open spec fn is_over(self) -> bool {
        match self {
            Phase::Complete | Phase::Busy | Phase::InvalidCommand | Phase::TimedOut => true,
            Phase::Faulted(_) => true,
            _ => false,
        }
    }

    /// The result that a phase stands for. A command that is not over has
    /// none to show, which counts as `PreconditionFailed`.
    pub open spec fn outcome(self) -> Result<(), Error> {
        match self {
            Phase::Complete => Ok(()),
            Phase::Busy => Err(Error::Protocol),
            Phase::InvalidCommand => Err(Error::Protocol),
            Phase::TimedOut => Err(Error::Timeout),
            Phase::Faulted(e) => Err(e),
            _ => Err(Error::PreconditionFailed),
        }
    }

    /// Computes [`Self::outcome`].
    pub fn result(self) -> (r: Result<(), Error>)
        ensures
            r == self.outcome(),
    {
        match self {
            Phase::Complete => Ok(()),
            Phase::Busy => Err(Error::Protocol),
            Phase::InvalidCommand => Err(Error::Protocol),
            Phase::TimedOut => Err(Error::Timeout),
            Phase::Faulted(e) => Err(e),
            _ => Err(Error::PreconditionFailed),
        }
    }
}

/// The execution of one command.
#[derive(Debug)]
pub struct CommandExec {
    /// The command being executed.
    pub command: Command,
    /// How far it has come.
    pub phase: Phase,
    /// When polling began, in milliseconds.
    pub poll_start: u64,
}

/// Mathematical form of a [`CommandExec`].
pub struct ExecView {
    pub command: CommandView,
    pub phase: Phase,
    pub poll_start: u64,
}

impl View for CommandExec {
    type V = ExecView;

    open spec fn view(&self) -> ExecView {
        ExecView { command: self.command@, phase: self.phase, poll_start: self.poll_start }
    }
}

/// The read that asks for the command register.
pub open spec fn read_command_register() -> ActionView {
    read_request(REG_COMMAND, COMMAND_LEN)
}

/// The execution `c` moved to `phase`.
pub open spec fn at_phase(c: ExecView, phase: Phase) -> ExecView {
    ExecView { phase, ..c }
}

/// The execution ends in `phase`, and its result is reported.
pub open spec fn finish_at(c: ExecView, phase: Phase) -> (ExecView, ActionView) {
    (at_phase(c, phase), ActionView::Finish { result: phase.outcome() })
}

/// A fresh execution of `command`, and the busy check that opens it.
pub open spec fn exec_begin(command: CommandView) -> (ExecView, ActionView) {
    (ExecView { command, phase: Phase::BusyCheck, poll_start: 0 }, read_command_register())
}

/// The tag of `c` is written to the command register.
pub open spec fn write_tag(c: ExecView) -> (ExecView, ActionView) {
    (
        at_phase(c, Phase::TagWritten),
        write_request(REG_COMMAND, c.command.tag.wire()),
    )
}

/// The transition function of a command execution: where `c` goes on `ev`
/// at time `now`, and what it asks for next.
///
/// - Busy check: a register that is neither clear nor holds the rejection
///   mark ends the command as busy. Otherwise the input is written, if there
///   is any, and then the tag.
/// - Polling starts when the tag is written. A clear register completes the
///   command (after the settle pause, if one is set); the rejection mark ends
///   it at once; a busy register ends it as timed out once more than the
///   timeout has passed since polling began, and else leads to a pause and
///   another poll.
/// - A failed access, or an event that does not answer the action asked for,
///   ends the command with `Transport`; a malformed block with `Protocol`;
///   an input too long for one block with `InvalidArgument`.
/// - A command that is over, or idle, stays as it is and reports its result.
pub open spec fn exec_step(c: ExecView, ev: EventView, now: u64) -> (ExecView, ActionView) {
    match c.phase {
        Phase::BusyCheck => match status_of_event(ev) {
            Err(e) => finish_at(c, Phase::Faulted(e)),
            Ok(CommandStatus::Busy) => finish_at(c, Phase::Busy),
            Ok(_) => if c.command.data.len() == 0 {
                write_tag(c)
            } else if c.command.data.len() > MAX_BLOCK_LEN {
                finish_at(c, Phase::Faulted(Error::InvalidArgument))
            } else {
                (at_phase(c, Phase::PayloadWritten), write_request(REG_DATA, c.command.data))
            },
        },
        Phase::PayloadWritten => match ev {
            EventView::WriteDone => write_tag(c),
            _ => finish_at(c, Phase::Faulted(Error::Transport)),
        },
        Phase::TagWritten => match ev {
            EventView::WriteDone => (
                ExecView { phase: Phase::Polling, poll_start: now, ..c },
                read_command_register(),
            ),
            _ => finish_at(c, Phase::Faulted(Error::Transport)),
        },
        Phase::Polling => match status_of_event(ev) {
            Err(e) => finish_at(c, Phase::Faulted(e)),
            Ok(CommandStatus::Clear) => if c.command.timing.settle_ms == 0 {
                finish_at(c, Phase::Complete)
            } else {
                (
                    at_phase(c, Phase::Settling),
                    ActionView::Sleep { millis: c.command.timing.settle_ms },
                )
            },
            Ok(CommandStatus::Rejected) => finish_at(c, Phase::InvalidCommand),
            Ok(CommandStatus::Busy) => if elapsed_ms(c.poll_start, now)
                > c.command.timing.timeout_ms {
                finish_at(c, Phase::TimedOut)
            } else {
                (at_phase(c, Phase::Pausing), ActionView::Sleep { millis: POLL_INTERVAL_MS })
            },
        },
        Phase::Pausing => match ev {
            EventView::Woke => (at_phase(c, Phase::Polling), read_command_register()),
            _ => finish_at(c, Phase::Faulted(Error::Transport)),
        },
        Phase::Settling => match ev {
            EventView::Woke => finish_at(c, Phase::Complete),
            _ => finish_at(c, Phase::Faulted(Error::Transport)),
        },
        _ => (c, ActionView::Finish { result: c.phase.outcome() }),
    }
}

impl CommandExec {
    /// An execution of `command` of which nothing was asked yet.
    pub fn new(command: Command) -> (c: CommandExec)
        ensures
            c@ == (ExecView { command: command@, phase: Phase::Idle, poll_start: 0 }),
    {
        CommandExec { command, phase: Phase::Idle, poll_start: 0 }
    }

    /// Starts the execution over: asks for the busy check.
    pub fn start(&mut self) -> (action: Action)
        ensures
            (final(self)@, action@) == exec_begin(old(self)@.command),
    {
        self.phase = Phase::BusyCheck;
        self.poll_start = 0;
        read_block(REG_COMMAND, COMMAND_LEN)
    }

    /// Ends the execution in `phase` and reports the result.
    fn finish(&mut self, phase: Phase) -> (action: Action)
        ensures
            (final(self)@, action@) == finish_at(old(self)@, phase),
    {
        self.phase = phase;
        Action::Finish { result: phase.result() }
    }

    /// Moves on to writing the tag.
    fn send_tag(&mut self) -> (action: Action)
        ensures
            (final(self)@, action@) == write_tag(old(self)@),
    {
        let tag: Vec<u8> = self.command.tag.bytes();
        match write_block(REG_COMMAND, tag.as_slice()) {
            Ok(action) => {
                self.phase = Phase::TagWritten;
                action
            },
            Err(_) => {
                assert(false);
                self.finish(Phase::Faulted(Error::InvalidArgument))
            },
        }
    }

    /// Advances the execution by one event: [`exec_step`].
    pub fn handle(&mut self, event: Event, now_ms: u64) -> (action: Action)
        ensures
            (final(self)@, action@) == exec_step(old(self)@, event@, now_ms),
    {
        match self.phase {
            Phase::BusyCheck => match read_status(&event) {
                Err(e) => self.finish(Phase::Faulted(e)),
                Ok(CommandStatus::Busy) => self.finish(Phase::Busy),
                Ok(_) => {
                    if self.command.data.len() == 0 {
                        self.send_tag()
                    } else {
                        match write_block(REG_DATA, self.command.data.as_slice()) {
                            Ok(action) => {
                                self.phase = Phase::PayloadWritten;
                                action
                            },
                            Err(_) => self.finish(Phase::Faulted(Error::InvalidArgument)),
                        }
                    }
                },
            },
            Phase::PayloadWritten => match event {
                Event::WriteDone => self.send_tag(),
                _ => self.finish(Phase::Faulted(Error::Transport)),
            },
            Phase::TagWritten => match event {
                Event::WriteDone => {
                    self.phase = Phase::Polling;
                    self.poll_start = now_ms;
                    read_block(REG_COMMAND, COMMAND_LEN)
                },
                _ => self.finish(Phase::Faulted(Error::Transport)),
            },
            Phase::Polling => match read_status(&event) {
                Err(e) => self.finish(Phase::Faulted(e)),
                Ok(CommandStatus::Clear) => {
                    if self.command.timing.settle_ms == 0 {
                        self.finish(Phase::Complete)
                    } else {
                        self.phase = Phase::Settling;
                        Action::Sleep { millis: self.command.timing.settle_ms }
                    }
                },
                Ok(CommandStatus::Rejected) => self.finish(Phase::InvalidCommand),
                Ok(CommandStatus::Busy) => {
                    if elapsed(self.poll_start, now_ms) > self.command.timing.timeout_ms {
                        self.finish(Phase::TimedOut)
                    } else {
                        self.phase = Phase::Pausing;
                        Action::Sleep { millis: POLL_INTERVAL_MS }
                    }
                },
            },
            Phase::Pausing => match event {
                Event::Woke => {
                    self.phase = Phase::Polling;
                    read_block(REG_COMMAND, COMMAND_LEN)
                },
                _ => self.finish(Phase::Faulted(Error::Transport)),
            },
            Phase::Settling => match event {
                Event::Woke => self.finish(Phase::Complete),
                _ => self.finish(Phase::Faulted(Error::Transport)),
            },
            _ => Action::Finish { result: self.phase.result() },
        }
    }
}

} // verus!
