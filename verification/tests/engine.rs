use vdmtool::backend::{perform, ControllerBackend};
use vdmtool::device::{Device, Stage};
use vdmtool::error::Error;
use vdmtool::io::{Action, Event};
use vdmtool::registers::{REG_COMMAND, REG_DATA, REG_MODE, REG_POWER_STATUS};
use vdmtool::session::{Pause, Session};
use vdmtool::vdm::VdmSopType;

const LOCK: [u8; 4] = *b"LOCK";
const GAID: [u8; 4] = *b"Gaid";
const DBMA: [u8; 4] = *b"DBMa";
const VDMS: [u8; 4] = *b"VDMs";
const DVEN: [u8; 4] = *b"DVEn";

/// How the simulated controller answers one command.
#[derive(Clone, Copy, Debug, PartialEq)]
enum Reply {
    /// The register reads zero at once.
    Complete,
    /// The register stays busy for this many reads, then reads zero.
    After(u32),
    /// The register shows the rejection mark.
    Reject,
    /// The register stays busy for ever.
    Hang,
    /// The write of the tag fails.
    Fail,
}

#[derive(Clone, Debug, PartialEq)]
enum Op {
    Read(u8, usize),
    Write(u8, Vec<u8>),
}

/// A controller in memory.
struct Chip {
    mode: [u8; 4],
    power: u16,
    links: Vec<u16>,
    command: [u8; 4],
    countdown: u32,
    data: Vec<u8>,
    replies: Vec<([u8; 4], Reply)>,
    debug_sticks: bool,
    failing_reads: Vec<u8>,
    log: Vec<Op>,
    started: Vec<([u8; 4], Vec<u8>)>,
}

impl Chip {
    fn new() -> Chip {
        Chip {
            mode: *b"APP ",
            power: 1,
            links: Vec::new(),
            command: [0; 4],
            countdown: 0,
            data: Vec::new(),
            replies: Vec::new(),
            debug_sticks: true,
            failing_reads: Vec::new(),
            log: Vec::new(),
            started: Vec::new(),
        }
    }

    fn in_debug() -> Chip {
        let mut chip = Chip::new();
        chip.mode = DBMA;
        chip
    }

    fn reply(mut self, tag: [u8; 4], reply: Reply) -> Chip {
        self.replies.push((tag, reply));
        self
    }

    fn next_reply(&mut self, tag: [u8; 4]) -> Reply {
        match self.replies.iter().position(|(t, _)| *t == tag) {
            Some(at) => self.replies.remove(at).1,
            None => Reply::Complete,
        }
    }

    fn take_effect(&mut self, tag: [u8; 4]) {
        if tag == DBMA {
            if self.data == vec![1u8] {
                if self.debug_sticks {
                    self.mode = DBMA;
                }
            } else {
                self.mode = *b"APP ";
            }
        }
    }

    fn tags(&self) -> Vec<[u8; 4]> {
        self.started.iter().map(|(tag, _)| *tag).collect()
    }

    fn writes_of(&self, tag: [u8; 4]) -> usize {
        let mut frame = vec![4u8];
        frame.extend_from_slice(&tag);
        self.log.iter().filter(|op| **op == Op::Write(REG_COMMAND, frame.clone())).count()
    }

    fn reads_of(&self, register: u8) -> usize {
        self.log.iter().filter(|op| matches!(op, Op::Read(r, _) if *r == register)).count()
    }
}

impl ControllerBackend for Chip {
    fn verify_host(&self) -> Result<(), Error> {
        Ok(())
    }

    fn get_unlock_key(&mut self) -> Result<Vec<u8>, Error> {
        Ok(b"J314".to_vec())
    }

    fn init(&mut self) -> Result<(), Error> {
        Ok(())
    }

    fn deinit_device(&mut self) {}

    fn read(&mut self, data_addr: u8, buffer: &mut [u8]) -> Result<(), Error> {
        self.log.push(Op::Read(data_addr, buffer.len()));
        if self.failing_reads.contains(&data_addr) {
            return Err(Error::Transport);
        }
        let mut block: Vec<u8> = Vec::new();
        if data_addr == REG_MODE {
            block.push(4);
            block.extend_from_slice(&self.mode);
        } else if data_addr == REG_COMMAND {
            if self.countdown > 0 {
                self.countdown -= 1;
                if self.countdown == 0 {
                    let tag = self.command;
                    self.command = [0; 4];
                    self.take_effect(tag);
                }
            }
            block.push(4);
            block.extend_from_slice(&self.command);
        } else if data_addr == REG_POWER_STATUS {
            let bits = if self.links.is_empty() { self.power } else { self.links.remove(0) };
            block.push(2);
            block.extend_from_slice(&bits.to_le_bytes());
        } else {
            block.push(self.data.len() as u8);
            block.extend_from_slice(&self.data);
        }
        for (i, slot) in buffer.iter_mut().enumerate() {
            *slot = if i < block.len() { block[i] } else { 0 };
        }
        Ok(())
    }

    fn write(&mut self, data_addr: u8, buffer: &[u8]) -> Result<(), Error> {
        self.log.push(Op::Write(data_addr, buffer.to_vec()));
        if data_addr == REG_DATA {
            self.data = buffer[1..].to_vec();
        } else if data_addr == REG_COMMAND {
            let tag: [u8; 4] = [buffer[1], buffer[2], buffer[3], buffer[4]];
            let reply = self.next_reply(tag);
            if reply == Reply::Fail {
                return Err(Error::Transport);
            }
            self.started.push((tag, self.data.clone()));
            match reply {
                Reply::Complete => {
                    self.command = [0; 4];
                    self.take_effect(tag);
                }
                Reply::After(reads) => {
                    self.command = tag;
                    self.countdown = reads + 1;
                }
                Reply::Reject => self.command = *b"!CMD",
                _ => self.command = tag,
            }
            self.data.clear();
        }
        Ok(())
    }
}

/// Runs an operation to its end against `chip`, on a clock that moves by one
/// millisecond for each register access and by the time asked for each
/// pause.
fn drive(
    device: &mut Device,
    chip: &mut Chip,
    clock: &mut u64,
    first: Action,
) -> Result<(), Error> {
    let mut action = first;
    loop {
        let event = match &action {
            Action::Finish { result } => return *result,
            Action::Sleep { millis } => {
                *clock += *millis;
                Event::Woke
            }
            access => {
                *clock += 1;
                perform(chip, access).unwrap()
            }
        };
        action = device.handle(event, *clock);
    }
}

fn open(chip: &mut Chip, clock: &mut u64) -> (Device, Result<(), Error>) {
    let (mut device, first) = Device::new(b"J314");
    let result = drive(&mut device, chip, clock, first);
    (device, result)
}

#[test]
fn new_reverses_the_code() {
    let (device, first) = Device::new(b"J314");
    assert_eq!(device.key, b"413J".to_vec());
    assert!(!device.session);
    assert_eq!(device.stage, Stage::LinkCheck);
    assert!(matches!(first, Action::Read { register: REG_POWER_STATUS, len: 3 }));
}

#[test]
fn open_skips_handshake_in_debug_mode() {
    let mut chip = Chip::in_debug();
    let mut clock = 0u64;
    let (device, result) = open(&mut chip, &mut clock);
    assert_eq!(result, Ok(()));
    assert!(device.session);
    assert_eq!(device.stage, Stage::Idle);
    assert!(chip.started.is_empty());
    assert_eq!(chip.log, vec![Op::Read(REG_POWER_STATUS, 3), Op::Read(REG_MODE, 5)]);
}

#[test]
fn open_unlocks_and_enters_debug() {
    let mut chip = Chip::new();
    let mut clock = 0u64;
    let (device, result) = open(&mut chip, &mut clock);
    assert_eq!(result, Ok(()));
    assert!(device.session);
    assert_eq!(
        chip.started,
        vec![(LOCK, b"413J".to_vec()), (DBMA, vec![1u8])]
    );
    assert_eq!(
        chip.log,
        vec![
            Op::Read(REG_POWER_STATUS, 3),
            Op::Read(REG_MODE, 5),
            Op::Read(REG_COMMAND, 5),
            Op::Write(REG_DATA, vec![4, b'4', b'1', b'3', b'J']),
            Op::Write(REG_COMMAND, vec![4, b'L', b'O', b'C', b'K']),
            Op::Read(REG_COMMAND, 5),
            Op::Read(REG_COMMAND, 5),
            Op::Write(REG_DATA, vec![1, 1]),
            Op::Write(REG_COMMAND, vec![4, b'D', b'B', b'M', b'a']),
            Op::Read(REG_COMMAND, 5),
            Op::Read(REG_MODE, 5),
        ]
    );
}

#[test]
fn open_fails_without_cable() {
    let mut chip = Chip::new();
    chip.power = 0x0002;
    let mut clock = 0u64;
    let (device, result) = open(&mut chip, &mut clock);
    assert_eq!(result, Err(Error::PreconditionFailed));
    assert!(!device.session);
    assert_eq!(chip.log, vec![Op::Read(REG_POWER_STATUS, 3)]);
}

#[test]
fn open_fails_when_status_cannot_be_read() {
    let mut chip = Chip::new();
    chip.failing_reads.push(REG_POWER_STATUS);
    let mut clock = 0u64;
    let (_, result) = open(&mut chip, &mut clock);
    assert_eq!(result, Err(Error::Transport));
    assert_eq!(chip.log.len(), 1);
}

#[test]
fn unlock_retry_succeeds_after_reset() {
    let mut chip = Chip::new().reply(LOCK, Reply::Reject);
    let mut clock = 0u64;
    let (device, result) = open(&mut chip, &mut clock);
    assert_eq!(result, Ok(()));
    assert!(device.session);
    assert_eq!(chip.tags(), vec![LOCK, GAID, LOCK, DBMA]);
    assert_eq!(chip.started[1].1, Vec::<u8>::new());
    assert_eq!(chip.started[2].1, b"413J".to_vec());
}

#[test]
fn unlock_retry_follows_a_failed_write() {
    let mut chip = Chip::new().reply(LOCK, Reply::Fail);
    let mut clock = 0u64;
    let (_, result) = open(&mut chip, &mut clock);
    assert_eq!(result, Ok(()));
    assert_eq!(chip.writes_of(LOCK), 2);
    assert_eq!(chip.tags(), vec![GAID, LOCK, DBMA]);
}

#[test]
fn unlock_fails_twice() {
    let mut chip = Chip::new().reply(LOCK, Reply::Reject).reply(LOCK, Reply::Reject);
    let mut clock = 0u64;
    let (mut device, result) = open(&mut chip, &mut clock);
    assert_eq!(result, Err(Error::Protocol));
    assert!(!device.session);
    assert_eq!(device.stage, Stage::Idle);
    assert_eq!(chip.writes_of(LOCK), 2);
    assert_eq!(chip.tags(), vec![LOCK, GAID, LOCK]);
    let seen = chip.log.len();
    let after = device.handle(Event::Woke, clock);
    assert!(matches!(after, Action::Finish { result: Err(Error::PreconditionFailed) }));
    assert_eq!(chip.log.len(), seen);
}

#[test]
fn hung_unlock_blocks_the_reset() {
    let mut chip = Chip::new().reply(LOCK, Reply::Hang);
    let mut clock = 0u64;
    let (_, result) = open(&mut chip, &mut clock);
    // The register never clears, so the reset finds the controller busy.
    assert_eq!(result, Err(Error::Protocol));
    assert_eq!(chip.writes_of(LOCK), 1);
    assert_eq!(chip.writes_of(GAID), 0);
}

#[test]
fn reset_failure_ends_open() {
    let mut chip = Chip::new().reply(LOCK, Reply::Reject).reply(GAID, Reply::Reject);
    let mut clock = 0u64;
    let (_, result) = open(&mut chip, &mut clock);
    assert_eq!(result, Err(Error::Protocol));
    assert_eq!(chip.tags(), vec![LOCK, GAID]);
}

#[test]
fn debug_mode_is_verified() {
    let mut chip = Chip::new();
    chip.debug_sticks = false;
    let mut clock = 0u64;
    let (device, result) = open(&mut chip, &mut clock);
    assert_eq!(result, Err(Error::Protocol));
    assert!(!device.session);
    assert_eq!(chip.tags(), vec![LOCK, DBMA]);
    assert_eq!(chip.log.last(), Some(&Op::Read(REG_MODE, 5)));
}

#[test]
fn dfu_sends_one_vdm() {
    let mut chip = Chip::in_debug();
    let mut clock = 0u64;
    let (mut device, result) = open(&mut chip, &mut clock);
    assert_eq!(result, Ok(()));
    let first = device.dfu();
    assert_eq!(drive(&mut device, &mut chip, &mut clock, first), Ok(()));
    assert_eq!(
        chip.started,
        vec![(
            VDMS,
            vec![0x33, 0x12, 0x80, 0xac, 0x05, 0x06, 0x01, 0x00, 0x00, 0x00, 0x00, 0x01, 0x80]
        )]
    );
    assert_eq!(chip.writes_of(VDMS), 1);
    assert_eq!(device.stage, Stage::Idle);
    assert!(device.session);
}

#[test]
fn dfu_pauses_after_dispatch() {
    let mut chip = Chip::in_debug();
    let mut clock = 0u64;
    let (mut device, _) = open(&mut chip, &mut clock);
    let before = clock;
    let first = device.dfu();
    assert_eq!(drive(&mut device, &mut chip, &mut clock, first), Ok(()));
    // Five register accesses and the settle pause.
    assert_eq!(clock - before, 5 + 200);
}

#[test]
fn reboot_sends_the_reboot_objects() {
    let mut chip = Chip::in_debug();
    let mut clock = 0u64;
    let (mut device, _) = open(&mut chip, &mut clock);
    let first = device.reboot();
    assert_eq!(drive(&mut device, &mut chip, &mut clock, first), Ok(()));
    assert_eq!(
        chip.started,
        vec![(
            VDMS,
            vec![0x33, 0x12, 0x80, 0xac, 0x05, 0x05, 0x01, 0x00, 0x00, 0x00, 0x00, 0x00, 0x80]
        )]
    );
}

#[test]
fn serial_switches_both_ends() {
    let mut chip = Chip::in_debug();
    let mut clock = 0u64;
    let (mut device, _) = open(&mut chip, &mut clock);
    let first = device.serial();
    assert_eq!(drive(&mut device, &mut chip, &mut clock, first), Ok(()));
    assert_eq!(
        chip.started,
        vec![
            (VDMS, vec![0x32, 0x12, 0x80, 0xac, 0x05, 0x06, 0x03, 0x84, 0x01]),
            (DVEN, vec![0x06, 0x03, 0x84, 0x01]),
        ]
    );
}

#[test]
fn serial_stops_when_the_message_fails() {
    let mut chip = Chip::in_debug().reply(VDMS, Reply::Reject);
    let mut clock = 0u64;
    let (mut device, _) = open(&mut chip, &mut clock);
    let first = device.serial();
    assert_eq!(drive(&mut device, &mut chip, &mut clock, first), Err(Error::Protocol));
    assert_eq!(chip.tags(), vec![VDMS]);
}

#[test]
fn vdms_rejects_bad_counts_without_io() {
    let mut chip = Chip::in_debug();
    let mut clock = 0u64;
    let (mut device, _) = open(&mut chip, &mut clock);
    let seen = chip.log.len();
    let none = device.vdms(VdmSopType::SopStar, &[]);
    assert!(matches!(none, Action::Finish { result: Err(Error::InvalidArgument) }));
    let many = device.vdms(VdmSopType::SopStar, &[1, 2, 3, 4, 5, 6, 7, 8]);
    assert!(matches!(many, Action::Finish { result: Err(Error::InvalidArgument) }));
    assert_eq!(device.stage, Stage::Idle);
    assert_eq!(chip.log.len(), seen);
    assert!(chip.started.is_empty());
}

#[test]
fn vdms_takes_one_to_seven_objects() {
    let mut chip = Chip::in_debug();
    let mut clock = 0u64;
    let (mut device, _) = open(&mut chip, &mut clock);
    let first = device.vdms(VdmSopType::SopPrime, &[0xdeadbeef]);
    assert_eq!(drive(&mut device, &mut chip, &mut clock, first), Ok(()));
    let first = device.vdms(VdmSopType::Sop, &[1, 2, 3, 4, 5, 6, 7]);
    assert_eq!(drive(&mut device, &mut chip, &mut clock, first), Ok(()));
    assert_eq!(chip.started[0], (VDMS, vec![0x11, 0xef, 0xbe, 0xad, 0xde]));
    assert_eq!(chip.started[1].1.len(), 29);
    assert_eq!(chip.started[1].1[0], 0x07);
}

#[test]
fn dispatch_needs_an_open_session() {
    let mut chip = Chip::new();
    chip.power = 0;
    let mut clock = 0u64;
    let (mut device, result) = open(&mut chip, &mut clock);
    assert_eq!(result, Err(Error::PreconditionFailed));
    let seen = chip.log.len();
    let refused = device.dfu();
    assert!(matches!(refused, Action::Finish { result: Err(Error::PreconditionFailed) }));
    assert_eq!(chip.log.len(), seen);
}

#[test]
fn dispatch_checks_the_mode_again() {
    let mut chip = Chip::in_debug();
    let mut clock = 0u64;
    let (mut device, _) = open(&mut chip, &mut clock);
    chip.mode = *b"APP ";
    let first = device.dfu();
    assert_eq!(drive(&mut device, &mut chip, &mut clock, first), Err(Error::Protocol));
    assert!(chip.started.is_empty());
    assert_eq!(chip.writes_of(VDMS), 0);
}

#[test]
fn command_times_out() {
    let mut chip = Chip::in_debug().reply(VDMS, Reply::Hang);
    let mut clock = 0u64;
    let (mut device, _) = open(&mut chip, &mut clock);
    let first = device.dfu();
    let before = clock;
    assert_eq!(drive(&mut device, &mut chip, &mut clock, first), Err(Error::Timeout));
    let took = clock - before;
    assert!(took > 200, "gave up after {} ms", took);
    assert!(took <= 200 + 20, "gave up after {} ms", took);
}

#[test]
fn lock_times_out_after_a_second() {
    let mut chip = Chip::new().reply(LOCK, Reply::Hang);
    let mut clock = 0u64;
    let mut device = Device::new(b"J314").0;
    device.stage = Stage::Idle;
    let first = device.lock(b"413J");
    assert_eq!(drive(&mut device, &mut chip, &mut clock, first), Err(Error::Timeout));
    assert!(clock > 1000 && clock <= 1000 + 20, "gave up after {} ms", clock);
}

#[test]
fn slow_command_completes() {
    let mut chip = Chip::in_debug().reply(VDMS, Reply::After(5));
    let mut clock = 0u64;
    let (mut device, _) = open(&mut chip, &mut clock);
    let first = device.dfu();
    assert_eq!(drive(&mut device, &mut chip, &mut clock, first), Ok(()));
    assert_eq!(chip.reads_of(REG_COMMAND), 1 + 6);
}

#[test]
fn rejected_command_is_protocol_error() {
    let mut chip = Chip::in_debug().reply(VDMS, Reply::Reject);
    let mut clock = 0u64;
    let (mut device, _) = open(&mut chip, &mut clock);
    let first = device.dfu();
    let before = clock;
    assert_eq!(drive(&mut device, &mut chip, &mut clock, first), Err(Error::Protocol));
    assert_eq!(clock - before, 5);
}

#[test]
fn busy_controller_is_protocol_error() {
    let mut chip = Chip::in_debug();
    chip.command = *b"PTCH";
    let mut clock = 0u64;
    let (mut device, _) = open(&mut chip, &mut clock);
    let first = device.dfu();
    assert_eq!(drive(&mut device, &mut chip, &mut clock, first), Err(Error::Protocol));
    assert_eq!(chip.log.last(), Some(&Op::Read(REG_COMMAND, 5)));
    assert_eq!(chip.writes_of(VDMS), 0);
}

#[test]
fn stale_rejection_is_not_busy() {
    let mut chip = Chip::in_debug();
    chip.command = *b"!CMD";
    let mut clock = 0u64;
    let (mut device, _) = open(&mut chip, &mut clock);
    let first = device.dfu();
    assert_eq!(drive(&mut device, &mut chip, &mut clock, first), Ok(()));
    assert_eq!(chip.tags(), vec![VDMS]);
}

#[test]
fn close_runs_both_steps() {
    let mut chip = Chip::in_debug();
    let mut clock = 0u64;
    let (mut device, _) = open(&mut chip, &mut clock);
    let first = device.close(Ok(()));
    assert!(!device.session);
    assert_eq!(drive(&mut device, &mut chip, &mut clock, first), Ok(()));
    assert_eq!(chip.started, vec![(DBMA, vec![0u8]), (LOCK, vec![0u8, 0, 0, 0])]);
    assert_eq!(chip.mode, *b"APP ");
    assert_eq!(device.stage, Stage::Idle);
    assert_eq!((device.left_debug, device.relocked), (Ok(()), Ok(())));
}

#[test]
fn close_keeps_the_result_when_both_steps_fail() {
    let mut chip = Chip::in_debug().reply(DBMA, Reply::Reject).reply(LOCK, Reply::Fail);
    let mut clock = 0u64;
    let (mut device, _) = open(&mut chip, &mut clock);
    let first = device.close(Ok(()));
    assert_eq!(drive(&mut device, &mut chip, &mut clock, first), Ok(()));
    assert_eq!(chip.writes_of(DBMA), 1);
    assert_eq!(chip.writes_of(LOCK), 1);
    assert_eq!(device.left_debug, Err(Error::Protocol));
    assert_eq!(device.relocked, Err(Error::Transport));
    // A second closing starts from a clean slate.
    let first = device.close(Err(Error::Timeout));
    assert_eq!((device.left_debug, device.relocked), (Ok(()), Ok(())));
    assert_eq!(drive(&mut device, &mut chip, &mut clock, first), Err(Error::Timeout));
    assert_eq!((device.left_debug, device.relocked), (Ok(()), Ok(())));
}

#[test]
fn close_keeps_an_error() {
    let mut chip = Chip::in_debug().reply(VDMS, Reply::Hang);
    let mut clock = 0u64;
    let (mut device, _) = open(&mut chip, &mut clock);
    let first = device.dfu();
    let outcome = drive(&mut device, &mut chip, &mut clock, first);
    assert_eq!(outcome, Err(Error::Timeout));
    let first = device.close(outcome);
    // The message still occupies the controller, so both steps find it busy.
    assert_eq!(drive(&mut device, &mut chip, &mut clock, first), Err(Error::Timeout));
    // One busy check and twenty polls for the message, one busy check each
    // for the two steps of closing.
    assert_eq!(chip.reads_of(REG_COMMAND), 1 + 20 + 2);
}

#[test]
fn close_after_failed_transport() {
    let mut chip = Chip::in_debug();
    let mut clock = 0u64;
    let (mut device, _) = open(&mut chip, &mut clock);
    chip.failing_reads.push(REG_COMMAND);
    let first = device.close(Err(Error::InvalidArgument));
    assert_eq!(drive(&mut device, &mut chip, &mut clock, first), Err(Error::InvalidArgument));
    assert_eq!(chip.reads_of(REG_COMMAND), 2);
    assert!(chip.started.is_empty());
}

#[test]
fn reconnect_after_three_reads() {
    let mut chip = Chip::in_debug();
    let mut clock = 0u64;
    let (mut device, _) = open(&mut chip, &mut clock);
    chip.links = vec![0, 0, 1];
    let polls_before = chip.reads_of(REG_POWER_STATUS);
    let first = device.reboot_serial();
    assert_eq!(drive(&mut device, &mut chip, &mut clock, first), Ok(()));
    assert_eq!(chip.reads_of(REG_POWER_STATUS) - polls_before, 3);
    assert_eq!(chip.tags(), vec![VDMS, VDMS, DVEN]);
    assert_eq!(chip.started[0].1[5], 0x05);
    assert_eq!(chip.started[1].1, vec![0x32, 0x12, 0x80, 0xac, 0x05, 0x06, 0x03, 0x84, 0x01]);
}

#[test]
fn reconnect_timing() {
    let mut chip = Chip::in_debug();
    let mut clock = 0u64;
    let (mut device, _) = open(&mut chip, &mut clock);
    chip.links = vec![0, 0, 1];
    let before = clock;
    let first = device.reboot_serial();
    assert_eq!(drive(&mut device, &mut chip, &mut clock, first), Ok(()));
    // reboot message: 5 accesses and 200 ms; wait: 1000 ms, three reads, two
    // pauses of 100 ms, 1000 ms; serial message: 5 accesses and 200 ms; local
    // end: 4 accesses.
    assert_eq!(clock - before, 205 + 1000 + 3 + 200 + 1000 + 205 + 4);
}

#[test]
fn reconnect_times_out() {
    let mut chip = Chip::in_debug();
    let mut clock = 0u64;
    let (mut device, _) = open(&mut chip, &mut clock);
    let first = device.reboot_serial();
    chip.power = 0;
    let before = clock;
    assert_eq!(drive(&mut device, &mut chip, &mut clock, first), Err(Error::Timeout));
    let waited = clock - before - 205 - 1000;
    assert!(waited > 3000 && waited <= 3000 + 101, "waited {} ms", waited);
    assert_eq!(chip.tags(), vec![VDMS]);
    assert_eq!(device.stage, Stage::Idle);
}

#[test]
fn reconnect_read_failure_is_fatal() {
    let mut chip = Chip::in_debug();
    let mut clock = 0u64;
    let (mut device, _) = open(&mut chip, &mut clock);
    let first = device.reboot_serial();
    chip.failing_reads.push(REG_POWER_STATUS);
    assert_eq!(drive(&mut device, &mut chip, &mut clock, first), Err(Error::Transport));
    assert_eq!(chip.tags(), vec![VDMS]);
}

#[test]
fn single_commands_run_at_rest_only() {
    let mut chip = Chip::new();
    let mut clock = 0u64;
    let (mut device, first) = Device::new(b"J314");
    let refused = device.dbma(true);
    assert!(matches!(refused, Action::Finish { result: Err(Error::PreconditionFailed) }));
    assert_eq!(device.stage, Stage::LinkCheck);
    assert_eq!(drive(&mut device, &mut chip, &mut clock, first), Ok(()));
    chip.started.clear();
    let first = device.dven(&[0x1840306]);
    assert_eq!(drive(&mut device, &mut chip, &mut clock, first), Ok(()));
    let first = device.dbma(false);
    assert_eq!(drive(&mut device, &mut chip, &mut clock, first), Ok(()));
    let first = device.lock(&[9, 8, 7]);
    assert_eq!(drive(&mut device, &mut chip, &mut clock, first), Ok(()));
    assert_eq!(
        chip.started,
        vec![(DVEN, vec![0x06, 0x03, 0x84, 0x01]), (DBMA, vec![0u8]), (LOCK, vec![9u8, 8, 7])]
    );
}

#[test]
fn oversized_key_is_refused() {
    let mut chip = Chip::new();
    let mut clock = 0u64;
    let mut device = Device::new(b"J314").0;
    device.stage = Stage::Idle;
    let key = vec![7u8; 256];
    let first = device.lock(&key);
    assert_eq!(drive(&mut device, &mut chip, &mut clock, first), Err(Error::InvalidArgument));
    assert_eq!(chip.log, vec![Op::Read(REG_COMMAND, 5)]);
}

#[test]
fn malformed_block_is_protocol_error() {
    let (mut device, _) = Device::new(b"J314");
    let action = device.handle(Event::ReadDone { data: vec![3, 1, 0] }, 0);
    assert!(matches!(action, Action::Finish { result: Err(Error::Protocol) }));
    let (mut device, _) = Device::new(b"J314");
    let action = device.handle(Event::ReadDone { data: vec![2, 1] }, 0);
    assert!(matches!(action, Action::Finish { result: Err(Error::Protocol) }));
}

#[test]
fn unexpected_event_is_transport_error() {
    let (mut device, _) = Device::new(b"J314");
    let action = device.handle(Event::WriteDone, 0);
    assert!(matches!(action, Action::Finish { result: Err(Error::Transport) }));
    assert_eq!(device.stage, Stage::Idle);
}

/// Runs what the session has begun to its end, on a clock that moves by the
/// time asked for each pause, and returns the result and the pauses taken.
fn run(session: &mut Session<Chip>, clock: &mut u64) -> (Result<(), Error>, Vec<u64>) {
    let mut pauses = Vec::new();
    loop {
        match session.advance(*clock) {
            Pause::Done { result } => return (result, pauses),
            Pause::Sleep { millis } => {
                pauses.push(millis);
                *clock += millis;
            }
        }
    }
}

#[test]
fn session_opens_without_a_pause() {
    let mut session = Session::open(Chip::new()).ok().unwrap();
    assert_eq!(session.advance(0), Pause::Done { result: Ok(()) });
    assert!(session.device.session);
    assert_eq!(session.backend.tags(), vec![LOCK, DBMA]);
    assert_eq!(session.backend.log.len(), 11);
}

#[test]
fn session_with_retry_opens_in_one_burst() {
    let chip = Chip::new().reply(LOCK, Reply::Reject);
    let mut session = Session::open(chip).ok().unwrap();
    assert_eq!(session.advance(0), Pause::Done { result: Ok(()) });
    assert_eq!(session.backend.tags(), vec![LOCK, GAID, LOCK, DBMA]);
    // No burst is longer than this, and this one is the longest.
    assert_eq!(session.backend.log.len(), 18);
}

#[test]
fn session_dfu_pauses_once() {
    let mut session = Session::open(Chip::in_debug()).ok().unwrap();
    let mut clock = 0u64;
    assert_eq!(run(&mut session, &mut clock), (Ok(()), vec![]));
    session.dfu();
    assert_eq!(session.advance(clock), Pause::Sleep { millis: 200 });
    assert_eq!(session.backend.tags(), vec![VDMS]);
    assert_eq!(session.advance(clock + 200), Pause::Done { result: Ok(()) });
    assert_eq!(session.advance(clock + 300), Pause::Done { result: Ok(()) });
    assert_eq!(session.backend.writes_of(VDMS), 1);
}

#[test]
fn session_polls_between_pauses() {
    let chip = Chip::in_debug().reply(VDMS, Reply::After(3));
    let mut session = Session::open(chip).ok().unwrap();
    let mut clock = 0u64;
    run(&mut session, &mut clock);
    session.dfu();
    assert_eq!(run(&mut session, &mut clock), (Ok(()), vec![10, 10, 10, 200]));
}

#[test]
fn session_gives_up_after_the_timeout() {
    let chip = Chip::in_debug().reply(VDMS, Reply::Hang);
    let mut session = Session::open(chip).ok().unwrap();
    let mut clock = 0u64;
    run(&mut session, &mut clock);
    session.dfu();
    let (result, pauses) = run(&mut session, &mut clock);
    assert_eq!(result, Err(Error::Timeout));
    assert_eq!(pauses, vec![10u64; 21]);
    assert_eq!(clock, 210);
}

#[test]
fn session_reboot_serial() {
    let mut session = Session::open(Chip::in_debug()).ok().unwrap();
    let mut clock = 0u64;
    run(&mut session, &mut clock);
    session.backend.links = vec![0, 0, 0, 1];
    session.reboot_serial();
    let (result, pauses) = run(&mut session, &mut clock);
    assert_eq!(result, Ok(()));
    assert_eq!(pauses, vec![200, 1000, 100, 100, 100, 1000, 200]);
    assert_eq!(session.backend.tags(), vec![VDMS, VDMS, DVEN]);
}

#[test]
fn session_reconnect_gives_up() {
    let mut session = Session::open(Chip::in_debug()).ok().unwrap();
    let mut clock = 0u64;
    run(&mut session, &mut clock);
    session.backend.power = 0;
    session.reboot_serial();
    let (result, pauses) = run(&mut session, &mut clock);
    assert_eq!(result, Err(Error::Timeout));
    // The wait ends with the first pause that is over after more than 3 s.
    let mut expected = vec![200u64, 1000];
    expected.extend(vec![100u64; 31]);
    assert_eq!(pauses, expected);
    assert_eq!(session.backend.tags(), vec![VDMS]);
}

#[test]
fn session_serial_and_reboot() {
    let mut session = Session::open(Chip::in_debug()).ok().unwrap();
    let mut clock = 0u64;
    run(&mut session, &mut clock);
    session.serial();
    assert_eq!(run(&mut session, &mut clock), (Ok(()), vec![200]));
    session.reboot();
    assert_eq!(run(&mut session, &mut clock), (Ok(()), vec![200]));
    assert_eq!(session.backend.tags(), vec![VDMS, DVEN, VDMS]);
    assert_eq!(session.backend.started[2].1[5], 0x05);
}

#[test]
fn session_close_reports_what_it_was_given() {
    let chip = Chip::in_debug().reply(DBMA, Reply::Hang);
    let mut session = Session::open(chip).ok().unwrap();
    let mut clock = 0u64;
    run(&mut session, &mut clock);
    session.close(Err(Error::InvalidArgument));
    let (result, pauses) = run(&mut session, &mut clock);
    assert_eq!(result, Err(Error::InvalidArgument));
    assert_eq!(pauses.len(), 101);
    assert_eq!(session.backend.writes_of(DBMA), 1);
    // Leaving debug mode still occupies the controller, so locking finds it
    // busy and writes nothing.
    assert_eq!(session.backend.writes_of(LOCK), 0);
    assert_eq!(session.backend.reads_of(REG_COMMAND), 1 + 102 + 1);
    assert!(!session.device.session);
}

#[test]
fn session_refuses_bad_counts_without_io() {
    let mut session = Session::open(Chip::in_debug()).ok().unwrap();
    let mut clock = 0u64;
    run(&mut session, &mut clock);
    let seen = session.backend.log.len();
    session.vdms(VdmSopType::SopStar, &[]);
    assert_eq!(session.advance(clock), Pause::Done { result: Err(Error::InvalidArgument) });
    session.vdms(VdmSopType::SopStar, &[0; 8]);
    assert_eq!(session.advance(clock), Pause::Done { result: Err(Error::InvalidArgument) });
    assert_eq!(session.backend.log.len(), seen);
    session.vdms(VdmSopType::SopStar, &[0x5ac8012, 0x106, 0x80010000]);
    assert_eq!(run(&mut session, &mut clock), (Ok(()), vec![200]));
    assert_eq!(session.backend.tags(), vec![VDMS]);
}
