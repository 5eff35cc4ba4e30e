use vstd::prelude::*;
use crate::error::Error;
use crate::io::{Action, ActionView};

verus! {

/// Largest payload that one register block can carry: its length has to fit
/// the single length byte in front of it.
pub const MAX_BLOCK_LEN: usize = 255;

/// The wire form of `payload`: one length byte, then the payload itself.
pub open spec fn block_frame(payload: Seq<u8>) -> Seq<u8> {
    seq![payload.len() as u8] + payload
}

/// Whether `frame` is a block that carries exactly `out_len` payload bytes:
/// it has one byte more than the payload, and its length byte says `out_len`.
pub open spec fn frame_is_block(frame: Seq<u8>, out_len: u8) -> bool {
    &&& frame.len() == out_len + 1
    &&& frame[0] == out_len
}

/// What follows the length byte of `frame`.
pub open spec fn frame_payload(frame: Seq<u8>) -> Seq<u8> {
    frame.subrange(1, frame.len() as int)
}

/// Frames `payload` for a register write.
///
/// Fails with `InvalidArgument` exactly when the payload is longer than
/// [`MAX_BLOCK_LEN`].
pub fn encode_block(payload: &[u8]) -> (r: Result<Vec<u8>, Error>)
    ensures
        payload@.len() <= MAX_BLOCK_LEN ==> r.is_ok() && r.unwrap()@ == block_frame(payload@),
        payload@.len() > MAX_BLOCK_LEN ==> r == Err::<Vec<u8>, Error>(Error::InvalidArgument),
{
    let n: usize = payload.len();
    if n > MAX_BLOCK_LEN {
        return Err(Error::InvalidArgument);
    }
    let mut frame: Vec<u8> = Vec::with_capacity(n + 1);
    frame.push(n as u8);
    let mut i: usize = 0;
    while i < n
        invariant
            n == payload@.len(),
            i <= n,
            frame@ == seq![n as u8] + payload@.subrange(0, i as int),
        decreases n - i,
    {
        frame.push(payload[i]);
        i = i + 1;
        assert(frame@ =~= seq![n as u8] + payload@.subrange(0, i as int));
    }
    assert(payload@.subrange(0, n as int) =~= payload@);
    Ok(frame)
}

/// Unframes what a register read of `out_len + 1` bytes returned.
///
/// Succeeds exactly when `frame` is a block of `out_len` payload bytes, and
/// then returns those bytes; any other frame is a `Protocol` error.
pub fn decode_block(frame: &[u8], out_len: u8) -> (r: Result<Vec<u8>, Error>)
    ensures
        frame_is_block(frame@, out_len) ==> r.is_ok() && r.unwrap()@ == frame_payload(frame@),
        !frame_is_block(frame@, out_len) ==> r == Err::<Vec<u8>, Error>(Error::Protocol),
{
    let n: usize = out_len as usize;
    if frame.len() != n + 1 {
        return Err(Error::Protocol);
    }
    if frame[0] != out_len {
        return Err(Error::Protocol);
    }
    let mut payload: Vec<u8> = Vec::with_capacity(n);
    let mut i: usize = 1;
    while i <= n
        invariant
            frame@.len() == n + 1,
            1 <= i <= n + 1,
            payload@ == frame@.subrange(1, i as int),
        decreases n + 1 - i,
    {
        payload.push(frame[i]);
        i = i + 1;
        assert(payload@ =~= frame@.subrange(1, i as int));
    }
    Ok(payload)
}

/// Framing loses nothing: the length byte of a framed payload is the
/// payload's length, the frame is a block of that length, and unframing it
/// gives the payload back.
pub proof fn lemma_block_round_trip(payload: Seq<u8>)
    requires
        payload.len() <= MAX_BLOCK_LEN,
    ensures
        block_frame(payload)[0] == payload.len(),
        frame_is_block(block_frame(payload), payload.len() as u8),
        frame_payload(block_frame(payload)) == payload,
{
    assert(frame_payload(block_frame(payload)) =~= payload);
}

/// The raw write that stores `payload` in `register`.
pub open spec fn write_request(register: u8, payload: Seq<u8>) -> ActionView {
    ActionView::Write { register, data: block_frame(payload) }
}

/// The raw read that fetches `out_len` payload bytes from `register`: one
/// byte more is asked for, which is the length byte.
pub open spec fn read_request(register: u8, out_len: u8) -> ActionView {
    ActionView::Read { register, len: (out_len + 1) as usize }
}

/// Asks for `payload` to be written to `register` as one block.
///
/// Fails with `InvalidArgument` exactly when the payload is longer than
/// [`MAX_BLOCK_LEN`].
pub fn write_block(register: u8, payload: &[u8]) -> (r: Result<Action, Error>)
    ensures
        payload@.len() <= MAX_BLOCK_LEN ==> r.is_ok() && r.unwrap()@ == write_request(
            register,
            payload@,
        ),
        payload@.len() > MAX_BLOCK_LEN ==> r == Err::<Action, Error>(Error::InvalidArgument),
{
    match encode_block(payload) {
        Ok(data) => Ok(Action::Write { register, data }),
        Err(_) => Err(Error::InvalidArgument),
    }
}

/// Asks for a block of `out_len` payload bytes to be read from `register`.
/// What the read returns is unframed by [`decode_block`].
pub fn read_block(register: u8, out_len: u8) -> (action: Action)
    ensures
        action@ == read_request(register, out_len),
{
    Action::Read { register, len: out_len as usize + 1 }
}

/// What goes over a bus for a raw write: the register's address, and the
/// data right behind it.
pub open spec fn bus_message(register: u8, data: Seq<u8>) -> Seq<u8> {
    seq![register] + data
}

/// Builds [`bus_message`]. This is for backends that sit on a bus directly;
/// the engine itself never addresses a register but through its backend.
pub fn address(register: u8, data: &[u8]) -> (message: Vec<u8>)
    ensures
        message@ == bus_message(register, data@),
{
    let mut message: Vec<u8> = Vec::new();
    message.push(register);
    message.extend_from_slice(data);
    message
}

} // verus!
