use vstd::prelude::*;
use crate::command::{dbma_command, exec_begin, lock_command, relock_command, CommandView};
use crate::device::{
    coherent, command_done, debug_of_event, device_open, device_step, link_of_event, rest,
    start_close, start_single, start_vdms, DeviceView, Follow, Stage, RECONNECT_TIMEOUT_MS,
    RECONNECT_WAIT_MS,
};
use crate::error::Error;
use crate::io::{elapsed_ms, ActionView, EventView};
use crate::vdm::{reboot_vdos, vdo_count_ok, VdmSopType};

verus! {

/// An event together with the time at which it arrives.
pub struct Stamped {
    pub event: EventView,
    pub now: u64,
}

/// Where the device is after the events `evs`, one after another.
pub open spec fn device_run(d: DeviceView, evs: Seq<Stamped>) -> DeviceView
    decreases evs.len(),
{
    if evs.len() == 0 {
        d
    } else {
        device_run(device_step(d, evs[0].event, evs[0].now).0, evs.drop_first())
    }
}

/// The result that the device reports first in the course of `evs`, if it
/// reports one.
pub open spec fn first_report(d: DeviceView, evs: Seq<Stamped>) -> Option<Result<(), Error>>
    decreases evs.len(),
{
    if evs.len() == 0 {
        None
    } else {
        let (next, action) = device_step(d, evs[0].event, evs[0].now);
        match action {
            ActionView::Finish { result } => Some(result),
            _ => first_report(next, evs.drop_first()),
        }
    }
}

/// The commands whose beginnings are counted.
pub enum Attempt {
    /// The unlock command of opening.
    Unlock,
    /// The command that leaves debug mode.
    ExitDebug,
    /// The command that locks the controller again.
    Relock,
}

impl Attempt {
    /// Whether this command runs at `stage`.
    pub open spec fn runs_at(self, stage: Stage) -> bool {
        match self {
            Attempt::Unlock => stage is Unlocking,
            Attempt::ExitDebug => stage == Stage::ExitingDebug,
            Attempt::Relock => stage == Stage::Relocking,
        }
    }
}

/// How often in the course of `evs` the device begins `attempt`: how often
/// it enters a stage at which that command runs, coming from another stage.
pub open spec fn entries(d: DeviceView, evs: Seq<Stamped>, attempt: Attempt) -> nat
    decreases evs.len(),
{
    if evs.len() == 0 {
        0
    } else {
        let next = device_step(d, evs[0].event, evs[0].now).0;
        let here: nat = if attempt.runs_at(next.stage) && next.stage != d.stage {
            1
        } else {
            0
        };
        here + entries(next, evs.drop_first(), attempt)
    }
}

/// How often opening a session tries to unlock the controller before it
/// gives up. The number is part of the protocol as it stands and not meant
/// to be tuned.
pub const UNLOCK_ATTEMPTS: usize = 2;

/// How many unlock attempts a device at `stage` may still begin.
pub open spec fn unlock_budget(stage: Stage) -> nat {
    match stage {
        Stage::LinkCheck | Stage::ModeCheck => 2,
        Stage::Unlocking { retry: false } | Stage::Resetting => 1,
        _ => 0,
    }
}

/// Stage and command stay together: every event leaves a coherent device
/// coherent.
pub proof fn lemma_coherence_is_kept(d: DeviceView, ev: EventView, now: u64)
    requires
        coherent(d),
    ensures
        coherent(device_step(d, ev, now).0),
{
}

/// A new device is coherent, and whatever is started on a coherent device
/// leaves it coherent, closing included.
pub proof fn lemma_coherence_from_the_start(
    d: DeviceView,
    code: Seq<u8>,
    command: CommandView,
    sop: VdmSopType,
    vdos: Seq<u32>,
    outcome: Result<(), Error>,
)
    requires
        coherent(d),
    ensures
        coherent(device_open(code).0),
        coherent(start_single(d, command).0),
        coherent(start_vdms(d, sop, vdos, Follow::Nothing).0),
        coherent(start_vdms(d, sop, vdos, Follow::LocalSerial).0),
        coherent(start_vdms(d, VdmSopType::SopStar, reboot_vdos(), Follow::Reconnect).0),
        coherent(start_close(d, outcome).0),
{
}

/// A message with a wrong number of objects is refused before anything is
/// asked of the driver: the answer is `InvalidArgument`, and the device is
/// what it was.
pub proof fn lemma_bad_count_is_refused(
    d: DeviceView,
    sop: VdmSopType,
    vdos: Seq<u32>,
    follow: Follow,
)
    requires
        !vdo_count_ok(vdos.len()),
    ensures
        start_vdms(d, sop, vdos, follow) == (
            d,
            ActionView::Finish { result: Err(Error::InvalidArgument) },
        ),
{
}

/// What is counted as the beginning of a command is one: an event that
/// takes the device to the stage of an unlock attempt begins the unlock
/// command with the device's key, one that takes it to the lock command of
/// closing begins the lock command with the key of zeros, and in both cases
/// the busy check of that command is asked for. No event begins the command
/// that leaves debug mode; only closing does.
pub proof fn lemma_attempts_begin_commands(d: DeviceView, ev: EventView, now: u64)
    ensures
        ({
            let (next, action) = device_step(d, ev, now);
            &&& Attempt::Unlock.runs_at(next.stage) && next.stage != d.stage ==> (next.run, action)
                == exec_begin(lock_command(d.key))
            &&& Attempt::Relock.runs_at(next.stage) && next.stage != d.stage ==> (next.run, action)
                == exec_begin(relock_command())
            &&& !(Attempt::ExitDebug.runs_at(next.stage) && next.stage != d.stage)
        }),
{
}

/// One event uses up what it begins: the unlock attempts that may still
/// begin after it, and the one that it began, are no more than those that
/// might begin before it.
pub proof fn lemma_unlock_budget_step(d: DeviceView, ev: EventView, now: u64)
    ensures
        ({
            let next = device_step(d, ev, now).0;
            let begun: nat = if Attempt::Unlock.runs_at(next.stage) && next.stage != d.stage {
                1
            } else {
                0
            };
            begun + unlock_budget(next.stage) <= unlock_budget(d.stage)
        }),
{
}

/// However the backend behaves, a device begins no more unlock attempts than
/// its stage allows.
pub proof fn lemma_unlock_attempts_bounded(d: DeviceView, evs: Seq<Stamped>)
    ensures
        entries(d, evs, Attempt::Unlock) <= unlock_budget(d.stage),
    decreases evs.len(),
{
    if evs.len() != 0 {
        let next = device_step(d, evs[0].event, evs[0].now).0;
        lemma_unlock_budget_step(d, evs[0].event, evs[0].now);
        lemma_unlock_attempts_bounded(next, evs.drop_first());
    }
}

/// Opening a session takes two unlock attempts at most, whatever the
/// backend answers and however long it is asked.
pub proof fn lemma_at_most_two_unlocks(code: Seq<u8>, evs: Seq<Stamped>)
    ensures
        entries(device_open(code).0, evs, Attempt::Unlock) <= UNLOCK_ATTEMPTS,
{
    lemma_unlock_attempts_bounded(device_open(code).0, evs);
}

/// When the second unlock attempt fails, opening is over with that failure,
/// and a device at rest begins nothing on its own.
pub proof fn lemma_second_failure_is_final(d: DeviceView, e: Error, evs: Seq<Stamped>)
    requires
        d.stage == (Stage::Unlocking { retry: true }),
    ensures
        command_done(d, Err(e)) == rest(d, Err(e)),
        device_run(rest(d, Err(e)).0, evs) == rest(d, Err(e)).0,
{
    lemma_rest_is_final(rest(d, Err(e)).0, evs);
}

/// A device at rest stays as it is, whatever events arrive.
pub proof fn lemma_rest_is_final(d: DeviceView, evs: Seq<Stamped>)
    requires
        d.stage == Stage::Idle,
    ensures
        device_run(d, evs) == d,
    decreases evs.len(),
{
    if evs.len() != 0 {
        lemma_rest_is_final(d, evs.drop_first());
    }
}

/// Debug mode is trusted only when it has been seen. An event opens the
/// session only if it is a read of the mode register that reports debug
/// mode, and no event closes it. A message command begins only on a read of
/// the mode register that reports debug mode. When entering debug mode
/// succeeded as a command and the mode read back is another, opening fails
/// with `Protocol`; and so does a dispatch when the mode read just before it
/// is another.
pub proof fn lemma_debug_mode_is_verified(d: DeviceView, ev: EventView, now: u64)
    ensures
        ({
            let (next, action) = device_step(d, ev, now);
            &&& d.session ==> next.session
            &&& next.session && !d.session ==> {
                &&& d.stage == Stage::ModeCheck || d.stage == Stage::Verifying
                &&& debug_of_event(ev) == Ok::<bool, Error>(true)
            }
            &&& next.stage is Sending && !(d.stage is Sending) ==> {
                &&& d.stage is Guard
                &&& debug_of_event(ev) == Ok::<bool, Error>(true)
            }
            &&& (d.stage == Stage::Verifying || d.stage is Guard) && debug_of_event(ev) == Ok::<
                bool,
                Error,
            >(false) ==> (next, action) == rest(d, Err(Error::Protocol))
        }),
{
}

/// Whether `frame`, read from the power status register, shows that the
/// link is down.
pub open spec fn is_link_down_frame(frame: Seq<u8>) -> bool {
    link_of_event(EventView::ReadDone { data: frame }) == Ok::<bool, Error>(false)
}

/// One round of waiting for the link: the power status is read and returns
/// `frame`; if the device then asks for a pause, the pause ends at time
/// `now`.
pub open spec fn link_round(d: DeviceView, frame: Seq<u8>, now: u64) -> DeviceView {
    let polled = device_step(d, EventView::ReadDone { data: frame }, now).0;
    if polled.stage == Stage::LinkPause {
        device_step(polled, EventView::Woke, now).0
    } else {
        polled
    }
}

/// Round after round of waiting: read `i` returns `frames[i]`, and the pause
/// after it ends at `times[i]`.
pub open spec fn link_rounds(d: DeviceView, frames: Seq<Seq<u8>>, times: Seq<u64>) -> DeviceView
    decreases frames.len(),
{
    if frames.len() == 0 || times.len() == 0 {
        d
    } else {
        link_rounds(link_round(d, frames[0], times[0]), frames.drop_first(), times.drop_first())
    }
}

/// A link that is reported up ends the wait at once: the device pauses once
/// more and then goes on to the serial sequence.
pub proof fn lemma_link_up_ends_wait(d: DeviceView, ev: EventView, now: u64)
    requires
        d.stage == Stage::LinkPoll,
        link_of_event(ev) == Ok::<bool, Error>(true),
    ensures
        device_step(d, ev, now) == (
            DeviceView { stage: Stage::LinkSettle, ..d },
            ActionView::Sleep { millis: RECONNECT_WAIT_MS },
        ),
{
}

/// A link that stays down makes the wait time out, and at the right moment:
/// as long as every pause ends within the reconnect timeout, counted from
/// the start of the wait, the device goes on reading unchanged; with the
/// first pause that ends later it comes to rest.
pub proof fn lemma_link_down_times_out(d: DeviceView, frames: Seq<Seq<u8>>, times: Seq<u64>)
    requires
        d.stage == Stage::LinkPoll,
        frames.len() == times.len(),
        forall|i: int| 0 <= i < frames.len() ==> is_link_down_frame(#[trigger] frames[i]),
    ensures
        (forall|i: int|
            0 <= i < times.len() ==> elapsed_ms(d.wait_start, #[trigger] times[i])
                <= RECONNECT_TIMEOUT_MS) ==> link_rounds(d, frames, times) == d,
        (exists|i: int|
            0 <= i < times.len() && elapsed_ms(d.wait_start, #[trigger] times[i])
                > RECONNECT_TIMEOUT_MS) ==> link_rounds(d, frames, times) == rest(
            d,
            Err(Error::Timeout),
        ).0,
    decreases frames.len(),
{
    if frames.len() != 0 {
        let rest_frames = frames.drop_first();
        let rest_times = times.drop_first();
        assert(is_link_down_frame(frames[0]));
        assert forall|i: int| 0 <= i < rest_frames.len() implies is_link_down_frame(
            #[trigger] rest_frames[i],
        ) by {
            assert(rest_frames[i] == frames[i + 1]);
        }
        if elapsed_ms(d.wait_start, times[0]) > RECONNECT_TIMEOUT_MS {
            let over = rest(d, Err(Error::Timeout)).0;
            assert(link_round(d, frames[0], times[0]) == over);
            lemma_rest_is_unmoved(over, rest_frames, rest_times);
        } else {
            assert(link_round(d, frames[0], times[0]) == d);
            lemma_link_down_times_out(d, rest_frames, rest_times);
            if exists|i: int|
                0 <= i < times.len() && elapsed_ms(d.wait_start, #[trigger] times[i])
                    > RECONNECT_TIMEOUT_MS {
                let i = choose|i: int|
                    0 <= i < times.len() && elapsed_ms(d.wait_start, #[trigger] times[i])
                        > RECONNECT_TIMEOUT_MS;
                assert(rest_times[i - 1] == times[i]);
            }
            if forall|i: int|
                0 <= i < times.len() ==> elapsed_ms(d.wait_start, #[trigger] times[i])
                    <= RECONNECT_TIMEOUT_MS {
                assert forall|i: int| 0 <= i < rest_times.len() implies elapsed_ms(
                    d.wait_start,
                    #[trigger] rest_times[i],
                ) <= RECONNECT_TIMEOUT_MS by {
                    assert(rest_times[i] == times[i + 1]);
                }
            }
        }
    }
}

/// The pause that ends too late is answered with `Timeout`.
pub proof fn lemma_late_link_is_timeout(d: DeviceView, now: u64)
    requires
        d.stage == Stage::LinkPause,
        elapsed_ms(d.wait_start, now) > RECONNECT_TIMEOUT_MS,
    ensures
        device_step(d, EventView::Woke, now) == rest(d, Err(Error::Timeout)),
{
}

/// A device at rest is not moved by rounds of waiting.
pub proof fn lemma_rest_is_unmoved(d: DeviceView, frames: Seq<Seq<u8>>, times: Seq<u64>)
    requires
        d.stage == Stage::Idle,
    ensures
        link_rounds(d, frames, times) == d,
    decreases frames.len(),
{
    if frames.len() != 0 && times.len() != 0 {
        assert(link_round(d, frames[0], times[0]) == d);
        lemma_rest_is_unmoved(d, frames.drop_first(), times.drop_first());
    }
}

/// What holds all through closing, for a device on its way: the result to
/// report is kept; nothing is reported before the lock command is over, and
/// then it is that result; leaving debug mode is not begun again, and the
/// lock command is begun once after it, never twice.
pub proof fn lemma_closing_run(d: DeviceView, evs: Seq<Stamped>)
    requires
        d.stage == Stage::ExitingDebug || d.stage == Stage::Relocking,
    ensures
        first_report(d, evs) is None || first_report(d, evs) == Some(d.outcome),
        entries(d, evs, Attempt::ExitDebug) == 0,
        d.stage == Stage::ExitingDebug ==> entries(d, evs, Attempt::Relock) <= 1,
        d.stage == Stage::ExitingDebug && first_report(d, evs) is Some ==> entries(
            d,
            evs,
            Attempt::Relock,
        ) == 1,
        d.stage == Stage::Relocking ==> entries(d, evs, Attempt::Relock) == 0,
    decreases evs.len(),
{
    if evs.len() != 0 {
        let (next, action) = device_step(d, evs[0].event, evs[0].now);
        assert(next.outcome == d.outcome);
        if next.stage == Stage::Idle {
            lemma_rest_is_quiet(next, evs.drop_first(), Attempt::ExitDebug);
            lemma_rest_is_quiet(next, evs.drop_first(), Attempt::Relock);
        } else {
            lemma_closing_run(next, evs.drop_first());
        }
    }
}

/// A device at rest begins nothing.
pub proof fn lemma_rest_is_quiet(d: DeviceView, evs: Seq<Stamped>, attempt: Attempt)
    requires
        d.stage == Stage::Idle,
    ensures
        entries(d, evs, attempt) == 0,
    decreases evs.len(),
{
    if evs.len() != 0 {
        assert(device_step(d, evs[0].event, evs[0].now).0 == d);
        lemma_rest_is_quiet(d, evs.drop_first(), attempt);
    }
}

/// Closing leaves debug mode and locks the controller, each once, and
/// reports what it was given, whatever comes of the two commands.
///
/// The command that leaves debug mode starts when closing starts and never
/// again. Whatever the backend answers from then on: the lock command is
/// begun at most once; the first result that the device reports is
/// `outcome`; and by the time it reports, the lock command has been begun
/// exactly once.
pub proof fn lemma_close_keeps_outcome(d: DeviceView, outcome: Result<(), Error>, evs: Seq<Stamped>)
    ensures
        ({
            let (closing, action) = start_close(d, outcome);
            &&& closing.stage == Stage::ExitingDebug
            &&& (closing.run, action) == exec_begin(dbma_command(false))
            &&& entries(closing, evs, Attempt::ExitDebug) == 0
            &&& entries(closing, evs, Attempt::Relock) <= 1
            &&& first_report(closing, evs) is None || first_report(closing, evs) == Some(outcome)
            &&& first_report(closing, evs) is Some ==> entries(
                closing,
                evs,
                Attempt::Relock,
            ) == 1
        }),
{
    lemma_closing_run(start_close(d, outcome).0, evs);
}

/// Leaving debug mode may fail: the failure is noted, and the lock command
/// is begun all the same. The lock command may fail: the failure is noted,
/// and the result reported is still the one that closing was given.
pub proof fn lemma_closing_ignores_failures(d: DeviceView, e: Error)
    ensures
        d.stage == Stage::ExitingDebug ==> command_done(d, Err(e)) == (
            DeviceView {
                stage: Stage::Relocking,
                run: exec_begin(relock_command()).0,
                left_debug: Err(e),
                ..d
            },
            exec_begin(relock_command()).1,
        ),
        d.stage == Stage::Relocking ==> command_done(d, Err(e)) == (
            DeviceView { stage: Stage::Idle, relocked: Err(e), ..d },
            ActionView::Finish { result: d.outcome },
        ),
{
}

} // verus!
