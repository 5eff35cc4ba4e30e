use vstd::prelude::*;
use crate::codec::{
    block_frame, decode_block, encode_block, frame_payload, lemma_block_round_trip,
    MAX_BLOCK_LEN,
};
use crate::command::{
    lemma_status_bytes, lemma_tag_is_four_bytes, status_of_event, Command, CommandStatus,
    CommandTag, CommandView,
};
use crate::device::{debug_of_event, payload_of_event};
use crate::error::Error;
use crate::io::EventView;
use crate::registers::{
    lemma_mode_tag_round_trip, power_status_of, Mode, PowerStatus, COMMAND_LEN,
    POWER_STATUS_LEN, REG_COMMAND, REG_DATA, REG_MODE, REG_POWER_STATUS,
};
use crate::text::{text_of, trim, trimmed};

verus! {

/// The name under which the kernel lists the controller: `cd321x`.
pub open spec fn controller_name() -> Seq<char> {
    seq!['c', 'd', '3', '2', '1', 'x']
}

/// Whether `name` names the controller: it is valid UTF-8 and reads
/// `cd321x`, with nothing but white space before and after.
pub open spec fn names_controller(name: Seq<u8>) -> bool {
    &&& vstd::utf8::valid_utf8(name)
    &&& trimmed(vstd::utf8::decode_utf8(name)) == controller_name()
}

/// Whether `text` is the controller's name, to the letter.
pub fn reads_controller(text: &str) -> (r: bool)
    ensures
        r == (text@ == controller_name()),
{
    let bytes: &[u8] = text.as_bytes();
    let reads: bool = bytes.len() == 6 && bytes[0] == 0x63 && bytes[1] == 0x64 && bytes[2] == 0x33
        && bytes[3] == 0x32 && bytes[4] == 0x31 && bytes[5] == 0x78;
    proof {
        let want: Seq<char> = controller_name();
        assert(want[0] == 'c' && want[1] == 'd' && want[2] == '3' && want[3] == '2' && want[4]
            == '1' && want[5] == 'x');
        assert(vstd::utf8::is_ascii_chars(want));
        vstd::utf8::is_ascii_chars_encode_utf8(want);
        let spelled: Seq<u8> = vstd::utf8::encode_utf8(want);
        assert(spelled[0] == want[0] as u8 && spelled[1] == want[1] as u8 && spelled[2]
            == want[2] as u8 && spelled[3] == want[3] as u8 && spelled[4] == want[4] as u8
            && spelled[5] == want[5] as u8);
        vstd::utf8::encode_utf8_decode_utf8(want);
        vstd::utf8::encode_utf8_decode_utf8(text@);
        if reads {
            assert(bytes@ =~= spelled);
        }
    }
    reads
}

/// Decides [`names_controller`] for what the kernel's name file holds.
pub fn is_controller_name(name: &[u8]) -> (r: bool)
    ensures
        r == names_controller(name@),
{
    match text_of(name) {
        None => false,
        Some(text) => {
            proof {
                vstd::utf8::encode_utf8_decode_utf8(text@);
            }
            reads_controller(trim(text))
        },
    }
}

/// The value of the hexadecimal digit `b`, if it is one.
pub open spec fn hex_value(b: u8) -> Option<u16> {
    if 0x30 <= b <= 0x39 {
        Some((b - 0x30) as u16)
    } else if 0x61 <= b <= 0x66 {
        Some((b - 0x61 + 10) as u16)
    } else if 0x41 <= b <= 0x46 {
        Some((b - 0x41 + 10) as u16)
    } else {
        None
    }
}

/// Computes [`hex_value`].
pub fn hex_digit(b: u8) -> (r: Option<u16>)
    ensures
        r == hex_value(b),
        r is Some ==> r.unwrap() < 16,
{
    if 0x30 <= b && b <= 0x39 {
        Some((b - 0x30) as u16)
    } else if 0x61 <= b && b <= 0x66 {
        Some((b - 0x61 + 10) as u16)
    } else if 0x41 <= b && b <= 0x46 {
        Some((b - 0x41 + 10) as u16)
    } else {
        None
    }
}

/// The number that four characters spell in base sixteen: four digits, or a
/// plus sign and three digits.
pub open spec fn hex_field(a: u8, b: u8, c: u8, d: u8) -> Option<u16> {
    let first: Option<u16> = if a == 0x2b {
        Some(0u16)
    } else {
        hex_value(a)
    };
    match (first, hex_value(b), hex_value(c), hex_value(d)) {
        (Some(w), Some(x), Some(y), Some(z)) => Some((w * 4096 + x * 256 + y * 16 + z) as u16),
        _ => None,
    }
}

/// The power status that the kernel's status file spells: the four
/// characters after the first two are read as a number in base sixteen.
/// A text that is not valid UTF-8, or of fewer than six bytes, or with other
/// characters there, spells none.
pub open spec fn power_status_text(text: Seq<u8>) -> Option<PowerStatus> {
    if !vstd::utf8::valid_utf8(text) || text.len() < 6 {
        None
    } else {
        match hex_field(text[2], text[3], text[4], text[5]) {
            Some(bits) => Some(PowerStatus { bits }),
            None => None,
        }
    }
}

/// Reads the power status from what the kernel's status file holds:
/// [`power_status_text`].
pub fn parse_power_status(text: &[u8]) -> (r: Option<PowerStatus>)
    ensures
        r == power_status_text(text@),
{
    if text_of(text).is_none() || text.len() < 6 {
        return None;
    }
    let first: Option<u16> = if text[2] == 0x2b {
        Some(0)
    } else {
        hex_digit(text[2])
    };
    match (first, hex_digit(text[3]), hex_digit(text[4]), hex_digit(text[5])) {
        (Some(w), Some(x), Some(y), Some(z)) => Some(
            PowerStatus { bits: w * 4096 + x * 256 + y * 16 + z },
        ),
        _ => None,
    }
}

/// The record that the kernel's command file takes for `command`: the tag,
/// and the input right behind it.
pub open spec fn command_record(command: CommandView) -> Seq<u8> {
    command.tag.wire() + command.data
}

/// Builds [`command_record`].
pub fn record(command: &Command) -> (r: Vec<u8>)
    ensures
        r@ == command_record(command@),
{
    let mut out: Vec<u8> = command.tag.bytes();
    out.extend_from_slice(command.data.as_slice());
    out
}

/// The engine's end of the kernel's interface.
///
/// The kernel runs the controller's commands itself. It takes a command as
/// one record in its command file and shows the power status in its status
/// file; it shows neither the command register nor the mode. A port stands
/// between the two: it turns the engine's register accesses into records
/// and file contents, and answers by itself what the kernel does not show.
#[derive(Debug)]
pub struct KernelPort {
    /// The input of the next command: what was last written to the data
    /// register.
    pub input: Vec<u8>,
    /// Whether the last mode command that the kernel took asked for debug
    /// mode.
    pub debug: bool,
}

/// Mathematical form of a [`KernelPort`].
pub struct PortView {
    pub input: Seq<u8>,
    pub debug: bool,
}

impl View for KernelPort {
    type V = PortView;

    open spec fn view(&self) -> PortView {
        PortView { input: self.input@, debug: self.debug }
    }
}

/// Whether `frame` is a block by its own length byte.
pub open spec fn is_own_block(frame: Seq<u8>) -> bool {
    frame.len() >= 1 && frame[0] == frame.len() - 1
}

/// What a raw write means to the port.
///
/// - To the data register: the payload is kept as the input of the next
///   command, and nothing goes to the kernel.
/// - To the command register, four bytes: the record of the tag and the
///   input kept goes to the kernel, and the input is used up, whether the
///   kernel takes the record or not.
/// - Anything else (a frame that is no block, another register, a tag of
///   another length) cannot be carried out: `Transport`.
pub open spec fn port_write(port: PortView, register: u8, frame: Seq<u8>) -> Result<
    (PortView, Option<Seq<u8>>),
    Error,
> {
    if !is_own_block(frame) {
        Err(Error::Transport)
    } else if register == REG_DATA {
        Ok((PortView { input: frame_payload(frame), ..port }, None))
    } else if register == REG_COMMAND && frame.len() == COMMAND_LEN + 1 {
        Ok((PortView { input: Seq::empty(), ..port }, Some(frame_payload(frame) + port.input)))
    } else {
        Err(Error::Transport)
    }
}

/// The port after the kernel has taken `record`: a mode command is noted,
/// as one for debug mode exactly if its input is the single byte one.
pub open spec fn port_taken(port: PortView, record: Seq<u8>) -> PortView {
    PortView {
        input: port.input,
        debug: if record.len() >= 4 && record.subrange(0, 4) == CommandTag::Dbma.wire() {
            record.len() == 5 && record[4] == 1
        } else {
            port.debug
        },
    }
}

/// The two bytes of the power status register that hold `bits`.
pub open spec fn status_bytes(bits: u16) -> Seq<u8> {
    seq![(bits & 0xff) as u8, (bits >> 8) as u8]
}

/// What a raw read returns from the port, given what the kernel's status
/// file holds.
///
/// - The command register is clear: the kernel has run a command to its end
///   by the time it has taken the record.
/// - The mode is the one that the last mode command asked for, and the
///   application's before any.
/// - The power status is the one that the status file spells; a text that
///   spells none cannot be read.
/// - No other register can be read.
pub open spec fn port_read(port: PortView, register: u8, status: Seq<u8>) -> Option<Seq<u8>> {
    if register == REG_COMMAND {
        Some(block_frame(seq![0u8, 0u8, 0u8, 0u8]))
    } else if register == REG_MODE {
        Some(
            block_frame(
                if port.debug {
                    Mode::Debug.tag()
                } else {
                    Mode::Application.tag()
                },
            ),
        )
    } else if register == REG_POWER_STATUS {
        match power_status_text(status) {
            Some(found) => Some(block_frame(status_bytes(found.bits))),
            None => None,
        }
    } else {
        None
    }
}

impl KernelPort {
    /// A port that holds no input and has seen no mode command.
    pub fn new() -> (port: KernelPort)
        ensures
            port@ == (PortView { input: Seq::empty(), debug: false }),
    {
        KernelPort { input: Vec::new(), debug: false }
    }

    /// Takes a raw write: [`port_write`]. The record returned, if any, is
    /// to be written to the kernel's command file.
    pub fn write(&mut self, register: u8, frame: &[u8]) -> (r: Result<Option<Vec<u8>>, Error>)
        ensures
            match port_write(old(self)@, register, frame@) {
                Ok((port, record)) => {
                    &&& final(self)@ == port
                    &&& match record {
                        Some(bytes) => r is Ok && r.unwrap() is Some && r.unwrap().unwrap()@
                            == bytes,
                        None => r is Ok && r.unwrap() is None,
                    }
                },
                Err(e) => r == Err::<Option<Vec<u8>>, Error>(e) && final(self)@ == old(self)@,
            },
    {
        let n: usize = frame.len();
        if n < 1 || n > MAX_BLOCK_LEN + 1 || frame[0] != (n - 1) as u8 {
            return Err(Error::Transport);
        }
        match decode_block(frame, (n - 1) as u8) {
            Err(_) => Err(Error::Transport),
            Ok(payload) => {
                if register == REG_DATA {
                    self.input = payload;
                    Ok(None)
                } else if register == REG_COMMAND && n == 5 {
                    let mut record: Vec<u8> = payload;
                    record.extend_from_slice(self.input.as_slice());
                    self.input = Vec::new();
                    Ok(Some(record))
                } else {
                    Err(Error::Transport)
                }
            },
        }
    }

    /// Notes that the kernel has taken `record`: [`port_taken`].
    pub fn taken(&mut self, record: &[u8])
        ensures
            final(self)@ == port_taken(old(self)@, record@),
    {
        let tag: Vec<u8> = CommandTag::Dbma.bytes();
        let n: usize = record.len();
        if n >= 4 && record[0] == tag[0] && record[1] == tag[1] && record[2] == tag[2]
            && record[3] == tag[3] {
            assert(record@.subrange(0, 4) =~= CommandTag::Dbma.wire());
            self.debug = n == 5 && record[4] == 1;
        } else {
            proof {
                if n >= 4 {
                    let head: Seq<u8> = record@.subrange(0, 4);
                    assert(head[0] == record@[0] && head[1] == record@[1] && head[2]
                        == record@[2] && head[3] == record@[3]);
                }
            }
        }
    }

    /// Answers a raw read: [`port_read`]. `status` is what the kernel's
    /// status file holds; it is looked at for the power status only.
    pub fn read(&self, register: u8, status: &[u8]) -> (r: Option<Vec<u8>>)
        ensures
            match port_read(self@, register, status@) {
                Some(block) => r is Some && r.unwrap()@ == block,
                None => r is None,
            },
    {
        let payload: Vec<u8> = if register == REG_COMMAND {
            vec![0u8, 0u8, 0u8, 0u8]
        } else if register == REG_MODE {
            if self.debug {
                vec![0x44u8, 0x42u8, 0x4du8, 0x61u8]
            } else {
                vec![0x41u8, 0x50u8, 0x50u8, 0x20u8]
            }
        } else if register == REG_POWER_STATUS {
            match parse_power_status(status) {
                Some(found) => vec![(found.bits & 0xff) as u8, (found.bits >> 8) as u8],
                None => {
                    return None;
                },
            }
        } else {
            return None;
        };
        proof {
            if register == REG_COMMAND {
                assert(payload@ =~= seq![0u8, 0u8, 0u8, 0u8]);
            } else if register == REG_MODE {
                assert(payload@ =~= if self.debug {
                    Mode::Debug.tag()
                } else {
                    Mode::Application.tag()
                });
            } else {
                assert(payload@ =~= status_bytes(power_status_text(status@).unwrap().bits));
            }
        }
        match encode_block(payload.as_slice()) {
            Ok(block) => Some(block),
            Err(_) => None,
        }
    }
}

/// The engine finds at the port what the port stands for: a command
/// register that is clear, the mode that was last asked for, and the power
/// status that the status file spells.
pub proof fn lemma_port_answers(port: PortView, status: Seq<u8>)
    ensures
        status_of_event(
            EventView::ReadDone { data: port_read(port, REG_COMMAND, status).unwrap() },
        ) == Ok::<CommandStatus, Error>(CommandStatus::Clear),
        debug_of_event(EventView::ReadDone { data: port_read(port, REG_MODE, status).unwrap() })
            == Ok::<bool, Error>(port.debug),
        power_status_text(status) matches Some(found) ==> payload_of_event(
            EventView::ReadDone { data: port_read(port, REG_POWER_STATUS, status).unwrap() },
            POWER_STATUS_LEN,
        ) == Ok::<Seq<u8>, Error>(status_bytes(found.bits)) && power_status_of(
            status_bytes(found.bits),
        ) == Some(found),
{
    let zero: Seq<u8> = seq![0u8, 0u8, 0u8, 0u8];
    lemma_block_round_trip(zero);
    lemma_status_bytes(zero);
    let tag: Seq<u8> = if port.debug {
        Mode::Debug.tag()
    } else {
        Mode::Application.tag()
    };
    lemma_block_round_trip(tag);
    lemma_mode_tag_round_trip(Mode::Debug);
    lemma_mode_tag_round_trip(Mode::Application);
    if power_status_text(status) is Some {
        let bits: u16 = power_status_text(status).unwrap().bits;
        let pair: Seq<u8> = status_bytes(bits);
        lemma_block_round_trip(pair);
        assert((((bits & 0xff) as u8) as u16) | ((((bits >> 8) as u8) as u16) << 8) == bits)
            by (bit_vector);
    }
}

/// What the engine writes for a command reaches the kernel as the command's
/// record: the input written to the data register and then the tag written
/// to the command register make the port send the tag with the input behind
/// it; and so does the tag alone, for a command without input, at a port
/// that keeps none.
pub proof fn lemma_port_sends_records(port: PortView, command: CommandView)
    requires
        command.data.len() <= MAX_BLOCK_LEN,
    ensures
        ({
            let kept = PortView { input: command.data, ..port };
            let used = PortView { input: Seq::empty(), ..port };
            &&& port_write(port, REG_DATA, block_frame(command.data)) == Ok::<
                (PortView, Option<Seq<u8>>),
                Error,
            >((kept, None))
            &&& port_write(kept, REG_COMMAND, block_frame(command.tag.wire())) == Ok::<
                (PortView, Option<Seq<u8>>),
                Error,
            >((used, Some(command_record(command))))
        }),
        command.data.len() == 0 && port.input.len() == 0 ==> port_write(
            port,
            REG_COMMAND,
            block_frame(command.tag.wire()),
        ) == Ok::<(PortView, Option<Seq<u8>>), Error>((port, Some(command_record(command)))),
{
    lemma_block_round_trip(command.data);
    lemma_block_round_trip(command.tag.wire());
    lemma_tag_is_four_bytes(command.tag);
    if command.data.len() == 0 && port.input.len() == 0 {
        assert(port.input =~= command.data);
        assert(port.input =~= Seq::<u8>::empty());
    }
}

} // verus!
