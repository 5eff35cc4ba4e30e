use vdmtool::command::{
    classify_status, Command, CommandExec, CommandStatus, CommandTag, Phase, Timing,
    COMMAND_TIMEOUT_MS, POLL_INTERVAL_MS, VDM_SETTLE_MS, VDM_TIMEOUT_MS,
};
use vdmtool::error::Error;
use vdmtool::io::{elapsed, Action, Event};
use vdmtool::registers::{
    decode_mode, decode_power_status, is_tag, Mode, PowerStatus, REG_COMMAND, REG_DATA,
};
use vdmtool::vdm::{
    build_vdm, dfu_objects, local_serial_objects, push_vdos, reboot_objects, serial_objects,
    VdmSopType,
};

#[test]
fn sop_codes() {
    assert_eq!(VdmSopType::Sop.code(), 0);
    assert_eq!(VdmSopType::SopPrime.code(), 1);
    assert_eq!(VdmSopType::SopPrimePrime.code(), 2);
    assert_eq!(VdmSopType::SopStar.code(), 3);
}

#[test]
fn vdm_header_and_objects() {
    let payload = build_vdm(VdmSopType::SopStar, &[0x5ac8012, 0x106, 0x80010000]).unwrap();
    assert_eq!(
        payload,
        vec![0x33, 0x12, 0x80, 0xac, 0x05, 0x06, 0x01, 0x00, 0x00, 0x00, 0x00, 0x01, 0x80]
    );
    let payload = build_vdm(VdmSopType::SopPrimePrime, &[0x01020304]).unwrap();
    assert_eq!(payload, vec![0x21, 0x04, 0x03, 0x02, 0x01]);
    let payload = build_vdm(VdmSopType::Sop, &[0xffffffff, 0]).unwrap();
    assert_eq!(payload, vec![0x02, 0xff, 0xff, 0xff, 0xff, 0, 0, 0, 0]);
}

#[test]
fn vdm_object_count_bounds() {
    assert_eq!(build_vdm(VdmSopType::SopStar, &[]), Err(Error::InvalidArgument));
    assert!(build_vdm(VdmSopType::SopStar, &[0]).is_ok());
    let seven = [9u32; 7];
    let payload = build_vdm(VdmSopType::SopStar, &seven).unwrap();
    assert_eq!(payload.len(), 1 + 4 * 7);
    assert_eq!(payload[0], 0x37);
    let eight = [9u32; 8];
    assert_eq!(build_vdm(VdmSopType::SopStar, &eight), Err(Error::InvalidArgument));
    let many = vec![1u32; 100];
    assert_eq!(build_vdm(VdmSopType::Sop, &many), Err(Error::InvalidArgument));
}

#[test]
fn vdm_rejects_every_bad_count() {
    for count in 0..40usize {
        let vdos = vec![0x11223344u32; count];
        let built = build_vdm(VdmSopType::SopPrime, &vdos);
        if (1..=7).contains(&count) {
            let payload = built.unwrap();
            assert_eq!(payload[0], 0x10 | count as u8);
            assert_eq!(payload.len(), 1 + 4 * count);
        } else {
            assert_eq!(built, Err(Error::InvalidArgument));
        }
    }
}

#[test]
fn push_vdos_appends() {
    let mut out = vec![0xaau8];
    push_vdos(&mut out, &[0x04030201, 0x80000000]);
    assert_eq!(out, vec![0xaa, 1, 2, 3, 4, 0, 0, 0, 0x80]);
    push_vdos(&mut out, &[]);
    assert_eq!(out.len(), 9);
}

#[test]
fn canonical_objects() {
    assert_eq!(dfu_objects(), vec![0x5ac8012, 0x106, 0x80010000]);
    assert_eq!(reboot_objects(), vec![0x5ac8012, 0x105, 0x80000000]);
    assert_eq!(serial_objects(), vec![0x5ac8012, 0x1840306]);
    assert_eq!(local_serial_objects(), vec![0x1840306]);
}

#[test]
fn tags_on_the_wire() {
    assert_eq!(CommandTag::Lock.bytes(), b"LOCK".to_vec());
    assert_eq!(CommandTag::Gaid.bytes(), b"Gaid".to_vec());
    assert_eq!(CommandTag::Dbma.bytes(), b"DBMa".to_vec());
    assert_eq!(CommandTag::Vdms.bytes(), b"VDMs".to_vec());
    assert_eq!(CommandTag::Dven.bytes(), b"DVEn".to_vec());
}

#[test]
fn timing_profiles() {
    assert_eq!(Timing::standard(), Timing { timeout_ms: 1000, settle_ms: 0 });
    assert_eq!(Timing::vdm(), Timing { timeout_ms: 200, settle_ms: 200 });
    assert_eq!(COMMAND_TIMEOUT_MS, 1000);
    assert_eq!(VDM_TIMEOUT_MS, 200);
    assert_eq!(VDM_SETTLE_MS, 200);
}

#[test]
fn command_builders() {
    let lock = Command::lock(b"413J");
    assert_eq!(lock.tag, CommandTag::Lock);
    assert_eq!(lock.data, b"413J".to_vec());
    assert_eq!(lock.timing, Timing::standard());
    let relock = Command::relock();
    assert_eq!((relock.tag, relock.data), (CommandTag::Lock, vec![0u8; 4]));
    let reset = Command::reset();
    assert_eq!((reset.tag, reset.data), (CommandTag::Gaid, Vec::new()));
    assert_eq!(Command::dbma(true).data, vec![1u8]);
    assert_eq!(Command::dbma(false).data, vec![0u8]);
    assert_eq!(Command::dbma(true).tag, CommandTag::Dbma);
    let dven = Command::dven(&[0x1840306]);
    assert_eq!(dven.tag, CommandTag::Dven);
    assert_eq!(dven.data, vec![0x06, 0x03, 0x84, 0x01]);
    assert_eq!(dven.timing, Timing::standard());
    let vdms = Command::vdms(VdmSopType::SopStar, &[0x5ac8012, 0x1840306]).unwrap();
    assert_eq!(vdms.tag, CommandTag::Vdms);
    assert_eq!(vdms.timing, Timing::vdm());
    assert_eq!(vdms.data, vec![0x32, 0x12, 0x80, 0xac, 0x05, 0x06, 0x03, 0x84, 0x01]);
    assert_eq!(Command::vdms(VdmSopType::SopStar, &[]).err(), Some(Error::InvalidArgument));
    assert_eq!(Command::vdms(VdmSopType::SopStar, &[0; 8]).err(), Some(Error::InvalidArgument));
}

#[test]
fn command_register_status() {
    assert_eq!(classify_status(&[0, 0, 0, 0]), CommandStatus::Clear);
    assert_eq!(classify_status(b"!CMD"), CommandStatus::Rejected);
    assert_eq!(classify_status(b"LOCK"), CommandStatus::Busy);
    assert_eq!(classify_status(&[0, 0, 0, 1]), CommandStatus::Busy);
    assert_eq!(classify_status(b"DMC!"), CommandStatus::Busy);
}

#[test]
fn mode_tags() {
    assert_eq!(decode_mode(b"APP "), Some(Mode::Application));
    assert_eq!(decode_mode(b"BOOT"), Some(Mode::Bootloader));
    assert_eq!(decode_mode(b"BIST"), Some(Mode::Bist));
    assert_eq!(decode_mode(b"DISC"), Some(Mode::Discovery));
    assert_eq!(decode_mode(b"PTCH"), Some(Mode::Patch));
    assert_eq!(decode_mode(b"DBMa"), Some(Mode::Debug));
    assert_eq!(decode_mode(b"dbma"), None);
    assert_eq!(decode_mode(b"APP"), None);
    assert_eq!(decode_mode(b"APP  "), None);
    assert_eq!(decode_mode(&[]), None);
}

#[test]
fn tag_comparison() {
    assert!(is_tag(b"LOCK", b'L', b'O', b'C', b'K'));
    assert!(!is_tag(b"LOCK", b'L', b'O', b'C', b'k'));
    assert!(!is_tag(b"LOC", b'L', b'O', b'C', b'K'));
    assert!(!is_tag(b"LOCKS", b'L', b'O', b'C', b'K'));
}

#[test]
fn power_status_bits() {
    assert_eq!(decode_power_status(&[0x01, 0x00]), Some(PowerStatus { bits: 1 }));
    assert_eq!(decode_power_status(&[0x34, 0x12]), Some(PowerStatus { bits: 0x1234 }));
    assert_eq!(decode_power_status(&[0x01]), None);
    assert_eq!(decode_power_status(&[1, 2, 3]), None);
    assert!(PowerStatus { bits: 0x0001 }.is_connected());
    assert!(!PowerStatus { bits: 0x0001 }.role());
    assert!(!PowerStatus { bits: 0xfffe }.is_connected());
    assert!(PowerStatus { bits: 0x0002 }.role());
    assert!(PowerStatus { bits: 0x0003 }.is_connected());
}

#[test]
fn elapsed_never_runs_backwards() {
    assert_eq!(elapsed(10, 25), 15);
    assert_eq!(elapsed(25, 25), 0);
    assert_eq!(elapsed(25, 10), 0);
    assert_eq!(elapsed(0, u64::MAX), u64::MAX);
}

fn clear() -> Event {
    Event::ReadDone { data: vec![4, 0, 0, 0, 0] }
}

fn busy() -> Event {
    Event::ReadDone { data: vec![4, b'V', b'D', b'M', b's'] }
}

fn rejected() -> Event {
    Event::ReadDone { data: vec![4, b'!', b'C', b'M', b'D'] }
}

fn write_of(action: &Action) -> (u8, Vec<u8>) {
    match action {
        Action::Write { register, data } => (*register, data.clone()),
        other => panic!("expected a write, got {:?}", other),
    }
}

fn result_of(action: &Action) -> Result<(), Error> {
    match action {
        Action::Finish { result } => *result,
        other => panic!("expected the end, got {:?}", other),
    }
}

/// Brings a fresh execution of `command` to the first poll, at time `now`.
fn polling(command: Command, now: u64) -> CommandExec {
    let with_input = !command.data.is_empty();
    let mut run = CommandExec::new(command);
    run.start();
    if with_input {
        run.handle(clear(), 0);
    }
    run.handle(if with_input { Event::WriteDone } else { clear() }, 0);
    let action = run.handle(Event::WriteDone, now);
    assert!(matches!(action, Action::Read { register: REG_COMMAND, len: 5 }));
    assert_eq!(run.phase, Phase::Polling);
    assert_eq!(run.poll_start, now);
    run
}

#[test]
fn command_walks_through_its_phases() {
    let mut run = CommandExec::new(Command::vdms(VdmSopType::SopStar, &[7]).unwrap());
    assert_eq!(run.phase, Phase::Idle);
    let action = run.start();
    assert!(matches!(action, Action::Read { register: REG_COMMAND, len: 5 }));
    assert_eq!(run.phase, Phase::BusyCheck);
    let action = run.handle(clear(), 1);
    assert_eq!(write_of(&action), (REG_DATA, vec![5, 0x31, 7, 0, 0, 0]));
    assert_eq!(run.phase, Phase::PayloadWritten);
    let action = run.handle(Event::WriteDone, 2);
    assert_eq!(write_of(&action), (REG_COMMAND, vec![4, b'V', b'D', b'M', b's']));
    assert_eq!(run.phase, Phase::TagWritten);
    let action = run.handle(Event::WriteDone, 3);
    assert!(matches!(action, Action::Read { register: REG_COMMAND, len: 5 }));
    assert_eq!((run.phase, run.poll_start), (Phase::Polling, 3));
    let action = run.handle(busy(), 4);
    assert!(matches!(action, Action::Sleep { millis: POLL_INTERVAL_MS }));
    assert_eq!(run.phase, Phase::Pausing);
    let action = run.handle(Event::Woke, 14);
    assert!(matches!(action, Action::Read { register: REG_COMMAND, len: 5 }));
    assert_eq!((run.phase, run.poll_start), (Phase::Polling, 3));
    let action = run.handle(clear(), 15);
    assert!(matches!(action, Action::Sleep { millis: 200 }));
    assert_eq!(run.phase, Phase::Settling);
    let action = run.handle(Event::Woke, 215);
    assert_eq!(result_of(&action), Ok(()));
    assert_eq!(run.phase, Phase::Complete);
    let action = run.handle(busy(), 216);
    assert_eq!(result_of(&action), Ok(()));
    assert_eq!(run.phase, Phase::Complete);
}

#[test]
fn command_without_input_skips_the_data_register() {
    let mut run = CommandExec::new(Command::reset());
    run.start();
    let action = run.handle(clear(), 0);
    assert_eq!(write_of(&action), (REG_COMMAND, vec![4, b'G', b'a', b'i', b'd']));
    assert_eq!(run.phase, Phase::TagWritten);
    run.handle(Event::WriteDone, 0);
    let action = run.handle(clear(), 1);
    assert_eq!(result_of(&action), Ok(()));
    assert_eq!(run.phase, Phase::Complete);
}

#[test]
fn busy_check_outcomes() {
    let mut run = CommandExec::new(Command::reset());
    run.start();
    assert_eq!(result_of(&run.handle(busy(), 0)), Err(Error::Protocol));
    assert_eq!(run.phase, Phase::Busy);

    let mut run = CommandExec::new(Command::reset());
    run.start();
    assert!(matches!(run.handle(rejected(), 0), Action::Write { .. }));

    let mut run = CommandExec::new(Command::reset());
    run.start();
    assert_eq!(result_of(&run.handle(Event::Failed, 0)), Err(Error::Transport));
    assert_eq!(run.phase, Phase::Faulted(Error::Transport));

    let mut run = CommandExec::new(Command::reset());
    run.start();
    let short = Event::ReadDone { data: vec![4, 0, 0, 0] };
    assert_eq!(result_of(&run.handle(short, 0)), Err(Error::Protocol));
    assert_eq!(run.phase, Phase::Faulted(Error::Protocol));
}

#[test]
fn polling_times_out_after_the_timeout_only() {
    let mut run = polling(Command::reset(), 100);
    assert!(matches!(run.handle(busy(), 100 + 1000), Action::Sleep { millis: 10 }));
    run.handle(Event::Woke, 100 + 1000);
    assert_eq!(result_of(&run.handle(busy(), 100 + 1001)), Err(Error::Timeout));
    assert_eq!(run.phase, Phase::TimedOut);
    assert_eq!(result_of(&run.handle(clear(), 2000)), Err(Error::Timeout));
}

#[test]
fn polling_with_a_busy_register_ends() {
    let mut run = polling(Command::dbma(true), 0);
    let mut now = 0u64;
    let mut reads = 0u32;
    let result = loop {
        reads += 1;
        match run.handle(busy(), now) {
            Action::Finish { result } => break result,
            Action::Sleep { millis } => now += millis,
            other => panic!("unexpected {:?}", other),
        }
        assert!(matches!(run.handle(Event::Woke, now), Action::Read { .. }));
        assert!(reads < 1000);
    };
    assert_eq!(result, Err(Error::Timeout));
    assert_eq!(reads, 102);
    assert_eq!(now, 1010);
}

#[test]
fn clear_register_wins_over_the_timeout() {
    let mut run = polling(Command::reset(), 0);
    assert_eq!(result_of(&run.handle(clear(), 5000)), Ok(()));
}

#[test]
fn rejection_ends_polling_at_any_time() {
    for now in [0u64, 1, 999, 1000, 1001, 50_000] {
        let mut run = polling(Command::reset(), 0);
        assert_eq!(result_of(&run.handle(rejected(), now)), Err(Error::Protocol));
        assert_eq!(run.phase, Phase::InvalidCommand);
    }
    let mut run = polling(Command::reset(), 0);
    run.handle(busy(), 10);
    run.handle(Event::Woke, 20);
    assert_eq!(result_of(&run.handle(rejected(), 30)), Err(Error::Protocol));
}

#[test]
fn clock_running_backwards_counts_as_no_time() {
    let mut run = polling(Command::reset(), 5000);
    assert!(matches!(run.handle(busy(), 10), Action::Sleep { .. }));
}

#[test]
fn events_out_of_turn_end_the_command() {
    let mut run = polling(Command::reset(), 0);
    assert_eq!(result_of(&run.handle(Event::Woke, 0)), Err(Error::Transport));
    let mut run = polling(Command::reset(), 0);
    run.handle(busy(), 0);
    assert_eq!(result_of(&run.handle(clear(), 0)), Err(Error::Transport));
    let mut run = CommandExec::new(Command::dbma(true));
    run.start();
    run.handle(clear(), 0);
    assert_eq!(result_of(&run.handle(Event::Failed, 0)), Err(Error::Transport));
    let mut run = CommandExec::new(Command::reset());
    assert_eq!(result_of(&run.handle(clear(), 0)), Err(Error::PreconditionFailed));
    assert_eq!(run.phase, Phase::Idle);
}

#[test]
fn phase_results() {
    assert_eq!(Phase::Complete.result(), Ok(()));
    assert_eq!(Phase::Busy.result(), Err(Error::Protocol));
    assert_eq!(Phase::InvalidCommand.result(), Err(Error::Protocol));
    assert_eq!(Phase::TimedOut.result(), Err(Error::Timeout));
    assert_eq!(Phase::Faulted(Error::Transport).result(), Err(Error::Transport));
    assert_eq!(Phase::Polling.result(), Err(Error::PreconditionFailed));
}
