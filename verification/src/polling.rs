use vstd::prelude::*;
use crate::command::{
    at_phase, exec_step, status_of_event, CommandStatus, ExecView, Phase, POLL_INTERVAL_MS,
};
use crate::error::Error;
use crate::io::{elapsed_ms, ActionView, EventView};

verus! {

/// Whether `frame`, read from the command register, shows a command that is
/// still running.
pub open spec fn is_busy_frame(frame: Seq<u8>) -> bool {
    status_of_event(EventView::ReadDone { data: frame }) == Ok::<CommandStatus, Error>(
        CommandStatus::Busy,
    )
}

/// Whether `frame`, read from the command register, shows that the
/// controller rejected the tag.
pub open spec fn is_rejection_frame(frame: Seq<u8>) -> bool {
    status_of_event(EventView::ReadDone { data: frame }) == Ok::<CommandStatus, Error>(
        CommandStatus::Rejected,
    )
}

/// One round of polling: the register is read at time `now` and returns
/// `frame`; if the execution then asks for a pause, the pause is granted.
pub open spec fn poll_once(c: ExecView, frame: Seq<u8>, now: u64) -> ExecView {
    let polled = exec_step(c, EventView::ReadDone { data: frame }, now).0;
    if polled.phase == Phase::Pausing {
        exec_step(polled, EventView::Woke, now).0
    } else {
        polled
    }
}

/// Round after round of polling: read `i` happens at `times[i]` and returns
/// `frames[i]`.
pub open spec fn poll_all(c: ExecView, frames: Seq<Seq<u8>>, times: Seq<u64>) -> ExecView
    decreases frames.len(),
{
    if frames.len() == 0 || times.len() == 0 {
        c
    } else {
        poll_all(poll_once(c, frames[0], times[0]), frames.drop_first(), times.drop_first())
    }
}

/// The rejection mark ends polling at once, however little or much time has
/// passed: the command is over as an invalid command, with a `Protocol`
/// error and never a timeout.
pub proof fn lemma_rejection_ends_polling(c: ExecView, frame: Seq<u8>, now: u64)
    requires
        c.phase == Phase::Polling,
        is_rejection_frame(frame),
    ensures
        exec_step(c, EventView::ReadDone { data: frame }, now) == (
            at_phase(c, Phase::InvalidCommand),
            ActionView::Finish { result: Err(Error::Protocol) },
        ),
{
}

/// A command that is over stays as it is, whatever is read.
pub proof fn lemma_over_is_final(c: ExecView, frames: Seq<Seq<u8>>, times: Seq<u64>)
    requires
        c.phase.is_over(),
    ensures
        poll_all(c, frames, times) == c,
    decreases frames.len(),
{
    if frames.len() != 0 && times.len() != 0 {
        assert(poll_once(c, frames[0], times[0]) == c);
        lemma_over_is_final(c, frames.drop_first(), times.drop_first());
    }
}

/// A register that stays busy makes the command time out, and at the right
/// moment: as long as every read happens within the timeout, counted from
/// the start of polling, the execution goes on polling unchanged; with the
/// first read that happens later it is over as timed out.
pub proof fn lemma_busy_register_times_out(c: ExecView, frames: Seq<Seq<u8>>, times: Seq<u64>)
    requires
        c.phase == Phase::Polling,
        frames.len() == times.len(),
        forall|i: int| 0 <= i < frames.len() ==> is_busy_frame(#[trigger] frames[i]),
    ensures
        (forall|i: int|
            0 <= i < times.len() ==> elapsed_ms(c.poll_start, #[trigger] times[i])
                <= c.command.timing.timeout_ms) ==> poll_all(c, frames, times) == c,
        (exists|i: int|
            0 <= i < times.len() && elapsed_ms(c.poll_start, #[trigger] times[i])
                > c.command.timing.timeout_ms) ==> poll_all(c, frames, times) == at_phase(
            c,
            Phase::TimedOut,
        ),
    decreases frames.len(),
{
    if frames.len() != 0 {
        let rest_frames = frames.drop_first();
        let rest_times = times.drop_first();
        assert(is_busy_frame(frames[0]));
        assert forall|i: int| 0 <= i < rest_frames.len() implies is_busy_frame(
            #[trigger] rest_frames[i],
        ) by {
            assert(rest_frames[i] == frames[i + 1]);
        }
        if elapsed_ms(c.poll_start, times[0]) > c.command.timing.timeout_ms {
            assert(poll_once(c, frames[0], times[0]) == at_phase(c, Phase::TimedOut));
            lemma_over_is_final(at_phase(c, Phase::TimedOut), rest_frames, rest_times);
        } else {
            assert(poll_once(c, frames[0], times[0]) == c);
            lemma_busy_register_times_out(c, rest_frames, rest_times);
            if exists|i: int|
                0 <= i < times.len() && elapsed_ms(c.poll_start, #[trigger] times[i])
                    > c.command.timing.timeout_ms {
                let i = choose|i: int|
                    0 <= i < times.len() && elapsed_ms(c.poll_start, #[trigger] times[i])
                        > c.command.timing.timeout_ms;
                assert(rest_times[i - 1] == times[i]);
            }
            if forall|i: int|
                0 <= i < times.len() ==> elapsed_ms(c.poll_start, #[trigger] times[i])
                    <= c.command.timing.timeout_ms {
                assert forall|i: int| 0 <= i < rest_times.len() implies elapsed_ms(
                    c.poll_start,
                    #[trigger] rest_times[i],
                ) <= c.command.timing.timeout_ms by {
                    assert(rest_times[i] == times[i + 1]);
                }
            }
        }
    }
}

/// Polling cannot go on for ever. If the clock moves on by at least the poll
/// interval from one read to the next, a register that stays busy ends the
/// command as timed out after no more reads than the timeout holds poll
/// intervals, and two.
pub proof fn lemma_polling_is_bounded(c: ExecView, frames: Seq<Seq<u8>>, times: Seq<u64>)
    requires
        c.phase == Phase::Polling,
        frames.len() == times.len(),
        forall|i: int| 0 <= i < frames.len() ==> is_busy_frame(#[trigger] frames[i]),
        forall|i: int|
            0 <= i < times.len() ==> #[trigger] times[i] >= c.poll_start + i * POLL_INTERVAL_MS,
        frames.len() >= c.command.timing.timeout_ms / POLL_INTERVAL_MS + 2,
    ensures
        poll_all(c, frames, times) == at_phase(c, Phase::TimedOut),
{
    let last = times.len() - 1;
    assert(times[last] >= c.poll_start + last * POLL_INTERVAL_MS);
    assert(elapsed_ms(c.poll_start, times[last]) > c.command.timing.timeout_ms);
    lemma_busy_register_times_out(c, frames, times);
}

} // verus!
