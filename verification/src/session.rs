use vstd::prelude::*;
use crate::backend::{perform, ControllerBackend};
use crate::command::Phase;
use crate::device::{
    command_in_flight, device_open, device_step, start_close, start_vdms, Device, DeviceView,
    Follow, Stage,
};
use crate::error::Error;
use crate::io::{comes_of, is_access, Action, ActionView, Event, EventView};
use crate::vdm::{dfu_vdos, reboot_vdos, serial_vdos, VdmSopType};

verus! {

/// How many register accesses a command in `phase` may still ask for in a
/// row.
pub open spec fn phase_burst(phase: Phase) -> nat {
    match phase {
        Phase::BusyCheck => 3,
        Phase::PayloadWritten => 2,
        Phase::TagWritten => 1,
        Phase::Pausing => 1,
        _ => 0,
    }
}

/// How many register accesses may follow in a row once what is in flight at
/// `stage` is over.
pub open spec fn stage_burst(stage: Stage) -> nat {
    match stage {
        Stage::LinkCheck => 18,
        Stage::ModeCheck => 17,
        Stage::Unlocking { retry: false } => 13,
        Stage::Resetting => 9,
        Stage::Unlocking { retry: true } => 5,
        Stage::EnteringDebug => 1,
        Stage::Guard { .. } => 8,
        Stage::Sending { follow: Follow::LocalSerial } => 4,
        Stage::RebootSettle => 1,
        Stage::LinkPause => 1,
        Stage::LinkSettle => 9,
        Stage::ExitingDebug => 4,
        _ => 0,
    }
}

/// How many register accesses the device may ask for in a row, from `d` on,
/// before it asks for a pause or reports a result.
pub open spec fn burst_bound(d: DeviceView) -> nat {
    if command_in_flight(d.stage) {
        phase_burst(d.run.phase) + stage_burst(d.stage)
    } else {
        stage_burst(d.stage)
    }
}

/// The device does not keep its driver busy without end: with every
/// register access that it asks for, the number of those that may follow in
/// a row goes down. From a new device on, that is eighteen.
pub proof fn lemma_bursts_are_bounded(d: DeviceView, ev: EventView, now: u64)
    ensures
        is_access(device_step(d, ev, now).1) ==> burst_bound(device_step(d, ev, now).0)
            < burst_bound(d),
{
}

/// What a driver is to do before it advances the session again.
#[derive(Clone, Copy, Debug, PartialEq, Eq)]
pub enum Pause {
    /// Wait for this many milliseconds.
    Sleep { millis: u64 },
    /// Nothing: the operation is over, with this result.
    Done { result: Result<(), Error> },
}

/// What the driver is told when the session asks for `action`. A register
/// access is the session's own business, so the driver is told nothing.
pub open spec fn pause_of(action: ActionView) -> Option<Pause> {
    match action {
        ActionView::Sleep { millis } => Some(Pause::Sleep { millis }),
        ActionView::Finish { result } => Some(Pause::Done { result }),
        _ => None,
    }
}

/// Whether the events `evs` can come, one after another, of what a device
/// `d` asks for, when it first asks for `pending` and all events arrive at
/// time `now`.
pub open spec fn follows(d: DeviceView, pending: ActionView, evs: Seq<EventView>, now: u64) -> bool
    decreases evs.len(),
{
    evs.len() == 0 || {
        &&& comes_of(pending, evs[0])
        &&& follows(
            device_step(d, evs[0], now).0,
            device_step(d, evs[0], now).1,
            evs.drop_first(),
            now,
        )
    }
}

/// Where the device is after the events `evs`, and what it asks for then.
pub open spec fn session_run(d: DeviceView, pending: ActionView, evs: Seq<EventView>, now: u64) -> (
    DeviceView,
    ActionView,
)
    decreases evs.len(),
{
    if evs.len() == 0 {
        (d, pending)
    } else {
        session_run(
            device_step(d, evs[0], now).0,
            device_step(d, evs[0], now).1,
            evs.drop_first(),
            now,
        )
    }
}

/// One more event at the end of a run is one more step of the device.
pub proof fn lemma_run_one_more(
    d: DeviceView,
    pending: ActionView,
    evs: Seq<EventView>,
    now: u64,
    ev: EventView,
)
    requires
        follows(d, pending, evs, now),
        comes_of(session_run(d, pending, evs, now).1, ev),
    ensures
        follows(d, pending, evs.push(ev), now),
        session_run(d, pending, evs.push(ev), now) == device_step(
            session_run(d, pending, evs, now).0,
            ev,
            now,
        ),
    decreases evs.len(),
{
    let longer = evs.push(ev);
    let next = device_step(d, longer[0], now);
    if evs.len() == 0 {
        assert(longer.drop_first() =~= evs);
        assert(longer[0] == ev);
        assert(follows(next.0, next.1, longer.drop_first(), now));
        assert(session_run(next.0, next.1, longer.drop_first(), now) == next);
    } else {
        assert(longer.drop_first() =~= evs.drop_first().push(ev));
        assert(longer[0] == evs[0]);
        lemma_run_one_more(next.0, next.1, evs.drop_first(), now, ev);
        assert(follows(next.0, next.1, longer.drop_first(), now));
    }
}

/// A device together with the backend that it talks to.
///
/// The session carries out the register accesses that the device asks for
/// and leaves only the waiting to its driver: the driver calls
/// [`Session::advance`], waits as long as it is told, and calls again, until
/// it is told that the operation is over.
pub struct Session<B: ControllerBackend> {
    /// The transport.
    pub backend: B,
    /// The protocol state.
    pub device: Device,
    /// What the device asked for last.
    pub pending: Action,
}

impl<B: ControllerBackend> Session<B> {
    /// Readies `backend` and begins to open a session on it: the host is
    /// verified, the backend is initialised and asked for the unlock code,
    /// and a device is made from the code. The first failure of the backend
    /// is returned as it is, and nothing more is asked of the backend then.
    ///
    /// What the backend answers is its own affair, so the result is stated
    /// over what its three methods can return:
    ///
    /// - The session is made exactly from three answers of success, asked
    ///   for in this order, each of the backend as the answer before left
    ///   it. It holds the backend as the last answer left it, and the device
    ///   and first request that belong to the code that was answered.
    /// - An error is the one that the first answer without success carried;
    ///   the answers before it were of success.
    pub fn open(backend: B) -> (r: Result<Session<B>, Error>)
        ensures
            match r {
                Ok(session) => exists|readied: &mut B, asked: &mut B, code: Vec<u8>|
                    {
                        &&& call_ensures(B::verify_host, (&backend,), Ok::<(), Error>(()))
                        &&& *readied == backend
                        &&& #[trigger] call_ensures(B::init, (readied,), Ok::<(), Error>(()))
                        &&& *asked == *final(readied)
                        &&& #[trigger] call_ensures(
                            B::get_unlock_key,
                            (asked,),
                            Ok::<Vec<u8>, Error>(code),
                        )
                        &&& session.backend == *final(asked)
                        &&& (session.device@, session.pending@) == device_open(code@)
                    },
                Err(e) => {
                    ||| call_ensures(B::verify_host, (&backend,), Err::<(), Error>(e))
                    ||| {
                        &&& call_ensures(B::verify_host, (&backend,), Ok::<(), Error>(()))
                        &&& exists|readied: &mut B|
                            {
                                &&& *readied == backend
                                &&& #[trigger] call_ensures(
                                    B::init,
                                    (readied,),
                                    Err::<(), Error>(e),
                                )
                            }
                    }
                    ||| {
                        &&& call_ensures(B::verify_host, (&backend,), Ok::<(), Error>(()))
                        &&& exists|readied: &mut B, asked: &mut B|
                            {
                                &&& *readied == backend
                                &&& #[trigger] call_ensures(
                                    B::init,
                                    (readied,),
                                    Ok::<(), Error>(()),
                                )
                                &&& *asked == *final(readied)
                                &&& #[trigger] call_ensures(
                                    B::get_unlock_key,
                                    (asked,),
                                    Err::<Vec<u8>, Error>(e),
                                )
                            }
                    }
                },
            },
    {
        let host: Result<(), Error> = backend.verify_host();
        let mut owned: B = backend;
        match host {
            Err(e) => Err(e),
            Ok(verified) => {
                assert(verified == ());
                let init: Result<(), Error> = owned.init();
                let ghost ready: B = owned;
                assert(exists|readied: &mut B|
                    *readied == backend && *final(readied) == ready && #[trigger] call_ensures(
                        B::init,
                        (readied,),
                        init,
                    ));
                match init {
                    Err(e) => Err(e),
                    Ok(initialised) => {
                        assert(initialised == ());
                        let key: Result<Vec<u8>, Error> = owned.get_unlock_key();
                        let ghost left: B = owned;
                        assert(exists|asked: &mut B|
                            *asked == ready && *final(asked) == left && #[trigger] call_ensures(
                                B::get_unlock_key,
                                (asked,),
                                key,
                            ));
                        match key {
                            Err(e) => Err(e),
                            Ok(code) => {
                                let (device, pending) = Device::new(code.as_slice());
                                Ok(Session { backend: owned, device, pending })
                            },
                        }
                    },
                }
            },
        }
    }

    /// Takes the session as far as it goes without waiting.
    ///
    /// If the session was pausing, the pause is taken to be over. Then the
    /// register accesses that the device asks for are carried out on the
    /// backend, one after another, until the device asks for a pause or
    /// reports a result; that is what is returned. All of it happens at time
    /// `now_ms`. An operation that is over stays over.
    ///
    /// What the backend answers is not known beforehand, so the outcome is
    /// stated for whatever it answered: there are events, each of which can
    /// come of what the device asked for at its turn, that lead the device
    /// from where it was to where it is. They are no more than the device
    /// may ask for register accesses in a row, and two; and there are none,
    /// and the backend is left alone, exactly if the operation was over.
    pub fn advance(&mut self, now_ms: u64) -> (pause: Pause)
        ensures
            pause_of(final(self).pending@) == Some(pause),
            old(self).pending@ is Finish ==> final(self).backend == old(self).backend,
            exists|evs: Seq<EventView>|
                {
                    &&& #[trigger] follows(old(self).device@, old(self).pending@, evs, now_ms)
                    &&& session_run(old(self).device@, old(self).pending@, evs, now_ms) == (
                        final(self).device@,
                        final(self).pending@,
                    )
                    &&& evs.len() == 0 <==> old(self).pending@ is Finish
                    &&& evs.len() <= burst_bound(old(self).device@) + 2
                },
    {
        let ghost start: DeviceView = self.device@;
        let ghost asked: ActionView = self.pending@;
        let ghost mut evs: Seq<EventView> = Seq::empty();
        match self.pending {
            Action::Sleep { .. } => {
                proof {
                    lemma_run_one_more(start, asked, evs, now_ms, EventView::Woke);
                    evs = evs.push(EventView::Woke);
                }
                self.pending = self.device.handle(Event::Woke, now_ms);
            },
            _ => {},
        }
        let ghost woken: DeviceView = self.device@;
        assert(burst_bound(woken) <= burst_bound(start) + 1) by {
            lemma_waking_adds_nothing(start, now_ms);
        }
        loop
            invariant
                follows(start, asked, evs, now_ms),
                session_run(start, asked, evs, now_ms) == (self.device@, self.pending@),
                asked is Sleep ==> evs.len() >= 1,
                evs.len() == 0 ==> self.pending@ == asked && self.backend == old(self).backend,
                is_access(self.pending@) ==> evs.len() + burst_bound(self.device@) + 1
                    <= burst_bound(start) + 2,
                !is_access(self.pending@) ==> evs.len() <= burst_bound(start) + 2,
            ensures
                !is_access(self.pending@),
            decreases
                    if is_access(self.pending@) {
                        burst_bound(self.device@) + 1
                    } else {
                        0
                    },
        {
            match perform(&mut self.backend, &self.pending) {
                None => {
                    break ;
                },
                Some(event) => {
                    proof {
                        lemma_run_one_more(start, asked, evs, now_ms, event@);
                        lemma_bursts_are_bounded(self.device@, event@, now_ms);
                        evs = evs.push(event@);
                    }
                    self.pending = self.device.handle(event, now_ms);
                },
            }
        }
        match self.pending {
            Action::Sleep { millis } => Pause::Sleep { millis },
            Action::Finish { result } => Pause::Done { result },
            _ => {
                assert(false);
                Pause::Done { result: Err(Error::Transport) }
            },
        }
    }

    /// Starts the dispatch of a message of `vdos` to `sop`.
    ///
    /// Like every start of an operation, this asks nothing of the backend.
    /// A message of no or of more than seven objects is refused with
    /// `InvalidArgument`: that is what the next call of
    /// [`Session::advance`] returns, without touching the backend either.
    pub fn vdms(&mut self, sop: VdmSopType, vdos: &[u32])
        ensures
            final(self).backend == old(self).backend,
            (final(self).device@, final(self).pending@) == start_vdms(
                old(self).device@,
                sop,
                vdos@,
                Follow::Nothing,
            ),
    {
        self.pending = self.device.vdms(sop, vdos);
    }

    /// Starts the operation that sends the target into firmware-update mode.
    pub fn dfu(&mut self)
        ensures
            final(self).backend == old(self).backend,
            (final(self).device@, final(self).pending@) == start_vdms(
                old(self).device@,
                VdmSopType::SopStar,
                dfu_vdos(),
                Follow::Nothing,
            ),
    {
        self.pending = self.device.dfu();
    }

    /// Starts the operation that reboots the target into its normal
    /// firmware.
    pub fn reboot(&mut self)
        ensures
            final(self).backend == old(self).backend,
            (final(self).device@, final(self).pending@) == start_vdms(
                old(self).device@,
                VdmSopType::SopStar,
                reboot_vdos(),
                Follow::Nothing,
            ),
    {
        self.pending = self.device.reboot();
    }

    /// Starts the operation that reboots the target, waits for the link to
    /// come back and then puts both ends into serial mode.
    pub fn reboot_serial(&mut self)
        ensures
            final(self).backend == old(self).backend,
            (final(self).device@, final(self).pending@) == start_vdms(
                old(self).device@,
                VdmSopType::SopStar,
                reboot_vdos(),
                Follow::Reconnect,
            ),
    {
        self.pending = self.device.reboot_serial();
    }

    /// Starts the operation that puts both ends into serial mode.
    pub fn serial(&mut self)
        ensures
            final(self).backend == old(self).backend,
            (final(self).device@, final(self).pending@) == start_vdms(
                old(self).device@,
                VdmSopType::SopStar,
                serial_vdos(),
                Follow::LocalSerial,
            ),
    {
        self.pending = self.device.serial();
    }

    /// Starts closing the session; `outcome` is reported again when closing
    /// is over.
    pub fn close(&mut self, outcome: Result<(), Error>)
        ensures
            final(self).backend == old(self).backend,
            (final(self).device@, final(self).pending@) == start_close(old(self).device@, outcome),
    {
        self.pending = self.device.close(outcome);
    }

    /// Ends the session: the backend is told that no register access will
    /// follow, and handed back as that call left it.
    pub fn end(self) -> (backend: B)
        ensures
            exists|told: &mut B|
                {
                    &&& *told == self.backend
                    &&& #[trigger] call_ensures(B::deinit_device, (told,), ())
                    &&& *final(told) == backend
                },
    {
        let mut backend = self.backend;
        let ghost before: B = backend;
        backend.deinit_device();
        let ghost after: B = backend;
        assert(exists|told: &mut B|
            *told == before && *final(told) == after && #[trigger] call_ensures(
                B::deinit_device,
                (told,),
                (),
            ));
        backend
    }
}

/// The end of a pause opens no longer run of register accesses than the
/// device could ask for before, but for the one access that it may bring.
pub proof fn lemma_waking_adds_nothing(d: DeviceView, now: u64)
    ensures
        burst_bound(device_step(d, EventView::Woke, now).0) <= burst_bound(d) + 1,
{
}

} // verus!
