use vstd::prelude::*;
use crate::error::Error;
use crate::io::{comes_of, is_access, Action, ActionView, Event, EventView};

verus! {

/// What a transport has to offer: raw register access, and what it knows of
/// the host.
///
/// The methods promise nothing of what comes back. An implementation stands
/// for a bus, a kernel interface or a platform service, and what comes back
/// from there is for the engine to judge.
pub trait ControllerBackend {
    /// Whether this host may talk to the controller at all.
    fn verify_host(&self) -> Result<(), Error>;

    /// The unlock code of this host.
    fn get_unlock_key(&mut self) -> Result<Vec<u8>, Error>;

    /// Called once before the first register access.
    fn init(&mut self) -> Result<(), Error>;

    /// Called once after the last register access.
    fn deinit_device(&mut self);

    /// Fills `buffer` from the register at `data_addr`. How many bytes are
    /// read is the caller's choice: as many as the buffer holds. The one
    /// thing stated of it is what the type already says: a slice keeps its
    /// length.
    fn read(&mut self, data_addr: u8, buffer: &mut [u8]) -> (r: Result<(), Error>)
        ensures
            final(buffer)@.len() == old(buffer)@.len(),
    ;

    /// Writes `buffer` to the register at `data_addr`.
    fn write(&mut self, data_addr: u8, buffer: &[u8]) -> Result<(), Error>;
}

/// Carries out a register access on `backend` and reports what came of it.
/// For an action that is no register access the backend is left alone and
/// `None` is returned.
///
/// - A write hands the register and the data, as they are, to the backend's
///   `write`, once; the event is `WriteDone` if that succeeded and `Failed`
///   if not.
/// - A read hands the register and a buffer of as many zero bytes as were
///   asked for to the backend's `read`, once; the event is `ReadDone` with
///   the buffer as the call left it if that succeeded, and `Failed` if not.
///
/// What the backend does with them is its own affair, so this is stated
/// over what its methods can return.
pub fn perform<B: ControllerBackend>(backend: &mut B, action: &Action) -> (event: Option<Event>)
    ensures
        match event {
            Some(e) => is_access(action@) && comes_of(action@, e@),
            None => !is_access(action@) && *final(backend) == *old(backend),
        },
        action@ matches ActionView::Write { register, data } ==> exists|
            told: &mut B,
            buf: &[u8],
            r: Result<(), Error>,
        |
            {
                &&& *told == *old(backend)
                &&& buf@ == data
                &&& #[trigger] call_ensures(B::write, (told, register, buf), r)
                &&& *final(told) == *final(backend)
                &&& event matches Some(e) && (if r is Ok {
                    e@ is WriteDone
                } else {
                    e@ is Failed
                })
            },
        action@ matches ActionView::Read { register, len } ==> exists|
            told: &mut B,
            buf: &mut [u8],
            r: Result<(), Error>,
        |
            {
                &&& *told == *old(backend)
                &&& buf@ == Seq::new(len as nat, |i: int| 0u8)
                &&& #[trigger] call_ensures(B::read, (told, register, buf), r)
                &&& *final(told) == *final(backend)
                &&& event matches Some(e) && (if r is Ok {
                    e@ == (EventView::ReadDone { data: final(buf)@ })
                } else {
                    e@ is Failed
                })
            },
{
    let ghost before: B = *backend;
    let ghost mut after: B = *backend;
    let ghost mut blank: Seq<u8> = Seq::empty();
    let ghost mut filled: Seq<u8> = Seq::empty();
    let mut answer: Result<(), Error> = Ok(());
    let event: Option<Event> = match action {
        Action::Read { register, len } => {
            let mut buffer: Vec<u8> = vec![0u8; *len];
            proof {
                blank = buffer@;
                assert(blank =~= Seq::new(*len as nat, |i: int| 0u8));
            }
            answer = backend.read(*register, buffer.as_mut_slice());
            proof {
                after = *backend;
                filled = buffer@;
                assert(exists|told: &mut B, buf: &mut [u8]|
                    {
                        &&& *told == before
                        &&& buf@ == blank
                        &&& #[trigger] call_ensures(B::read, (told, *register, buf), answer)
                        &&& *final(told) == after
                        &&& final(buf)@ == filled
                    });
            }
            match answer {
                Ok(_) => Some(Event::ReadDone { data: buffer }),
                Err(_) => Some(Event::Failed),
            }
        },
        Action::Write { register, data } => {
            answer = backend.write(*register, data.as_slice());
            proof {
                after = *backend;
                assert(exists|told: &mut B, buf: &[u8]|
                    {
                        &&& *told == before
                        &&& buf@ == data@
                        &&& #[trigger] call_ensures(B::write, (told, *register, buf), answer)
                        &&& *final(told) == after
                    });
            }
            match answer {
                Ok(_) => Some(Event::WriteDone),
                Err(_) => Some(Event::Failed),
            }
        },
        _ => None,
    };
    proof {
        match action@ {
            ActionView::Read { register, len } => {
                let (told, buf) = choose|told: &mut B, buf: &mut [u8]|
                    {
                        &&& *told == before
                        &&& buf@ == blank
                        &&& #[trigger] call_ensures(B::read, (told, register, buf), answer)
                        &&& *final(told) == after
                        &&& final(buf)@ == filled
                    };
                assert(call_ensures(B::read, (told, register, buf), answer));
                assert(*final(told) == *backend);
            },
            ActionView::Write { register, data } => {
                let (told, buf) = choose|told: &mut B, buf: &[u8]|
                    {
                        &&& *told == before
                        &&& buf@ == data
                        &&& #[trigger] call_ensures(B::write, (told, register, buf), answer)
                        &&& *final(told) == after
                    };
                assert(call_ensures(B::write, (told, register, buf), answer));
                assert(*final(told) == *backend);
            },
            _ => {},
        }
    }
    event
}

/// Opens the backend for the controller at `chip_addr` on `bus`.
///
/// `open` does the opening: it is handed the bus, the address and whether to
/// take the device even though something else holds it. It is first called
/// without force. Only if that fails it is called once more, with force; if
/// that fails too, the result is a `Transport` error.
pub fn create_backend<B: ControllerBackend, F: Fn(&str, u16, bool) -> Option<B>>(
    bus: &str,
    chip_addr: u16,
    open: F,
) -> (r: Result<B, Error>)
    requires
        forall|force: bool| open.requires((bus, chip_addr, force)),
    ensures
        match r {
            Ok(backend) => {
                ||| open.ensures((bus, chip_addr, false), Some(backend))
                ||| {
                    &&& open.ensures((bus, chip_addr, false), None)
                    &&& open.ensures((bus, chip_addr, true), Some(backend))
                }
            },
            Err(e) => {
                &&& e == Error::Transport
                &&& open.ensures((bus, chip_addr, false), None)
                &&& open.ensures((bus, chip_addr, true), None)
            },
        },
{
    match open(bus, chip_addr, false) {
        Some(backend) => Ok(backend),
        None => match open(bus, chip_addr, true) {
            Some(backend) => Ok(backend),
            None => Err(Error::Transport),
        },
    }
}

} // verus!
