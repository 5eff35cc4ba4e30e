use vstd::prelude::*;

verus! {

/// Register that reports the controller's mode as a four-character tag.
pub const REG_MODE: u8 = 0x03;

/// Command register: a tag written here starts a command, and the register
/// reads zero once the command is done.
pub const REG_COMMAND: u8 = 0x08;

/// Data register: holds a command's input.
pub const REG_DATA: u8 = 0x09;

/// Power status register: a 16-bit little-endian bitfield.
pub const REG_POWER_STATUS: u8 = 0x3f;

/// Payload length of the mode register.
pub const MODE_LEN: u8 = 4;

/// Payload length of the command register.
pub const COMMAND_LEN: u8 = 4;

/// Payload length of the power status register.
pub const POWER_STATUS_LEN: u8 = 2;

/// The controller's firmware mode.
#[derive(Clone, Copy, Debug, PartialEq, Eq, Structural)]
pub enum Mode {
    Application,
    Bootloader,
    Bist,
    Discovery,
    Patch,
    Debug,
}

impl Mode {
    /// The four ASCII characters by which the mode register names this mode:
    /// `"APP "`, `"BOOT"`, `"BIST"`, `"DISC"`, `"PTCH"`, `"DBMa"`.
    pub open spec fn tag(self) -> Seq<u8> {
        match self {
            Mode::Application => seq![0x41u8, 0x50u8, 0x50u8, 0x20u8],
            Mode::Bootloader => seq![0x42u8, 0x4fu8, 0x4fu8, 0x54u8],
            Mode::Bist => seq![0x42u8, 0x49u8, 0x53u8, 0x54u8],
            Mode::Discovery => seq![0x44u8, 0x49u8, 0x53u8, 0x43u8],
            Mode::Patch => seq![0x50u8, 0x54u8, 0x43u8, 0x48u8],
            Mode::Debug => seq![0x44u8, 0x42u8, 0x4du8, 0x61u8],
        }
    }
}

/// The mode that `tag` names, if it names one.
pub open spec fn mode_of_tag(tag: Seq<u8>) -> Option<Mode> {
    if tag == Mode::Application.tag() {
        Some(Mode::Application)
    } else if tag == Mode::Bootloader.tag() {
        Some(Mode::Bootloader)
    } else if tag == Mode::Bist.tag() {
        Some(Mode::Bist)
    } else if tag == Mode::Discovery.tag() {
        Some(Mode::Discovery)
    } else if tag == Mode::Patch.tag() {
        Some(Mode::Patch)
    } else if tag == Mode::Debug.tag() {
        Some(Mode::Debug)
    } else {
        None
    }
}

/// Whether `bytes` are exactly the four bytes `b0 b1 b2 b3`.
pub fn is_tag(bytes: &[u8], b0: u8, b1: u8, b2: u8, b3: u8) -> (r: bool)
    ensures
        r == (bytes@ == seq![b0, b1, b2, b3]),
{
    if bytes.len() != 4 {
        return false;
    }
    let same: bool = bytes[0] == b0 && bytes[1] == b1 && bytes[2] == b2 && bytes[3] == b3;
    proof {
        if same {
            assert(bytes@ =~= seq![b0, b1, b2, b3]);
        } else {
            let want: Seq<u8> = seq![b0, b1, b2, b3];
            assert(want[0] == b0 && want[1] == b1 && want[2] == b2 && want[3] == b3);
        }
    }
    same
}

/// Decodes the payload of the mode register.
pub fn decode_mode(tag: &[u8]) -> (r: Option<Mode>)
    ensures
        r == mode_of_tag(tag@),
{
    if is_tag(tag, 0x41, 0x50, 0x50, 0x20) {
        Some(Mode::Application)
    } else if is_tag(tag, 0x42, 0x4f, 0x4f, 0x54) {
        Some(Mode::Bootloader)
    } else if is_tag(tag, 0x42, 0x49, 0x53, 0x54) {
        Some(Mode::Bist)
    } else if is_tag(tag, 0x44, 0x49, 0x53, 0x43) {
        Some(Mode::Discovery)
    } else if is_tag(tag, 0x50, 0x54, 0x43, 0x48) {
        Some(Mode::Patch)
    } else if is_tag(tag, 0x44, 0x42, 0x4d, 0x61) {
        Some(Mode::Debug)
    } else {
        None
    }
}

/// Every mode is recovered from its own tag.
pub proof fn lemma_mode_tag_round_trip(mode: Mode)
    ensures
        mode.tag().len() == MODE_LEN,
        mode_of_tag(mode.tag()) == Some(mode),
{
    let a: Seq<u8> = Mode::Application.tag();
    let b: Seq<u8> = Mode::Bootloader.tag();
    let c: Seq<u8> = Mode::Bist.tag();
    let d: Seq<u8> = Mode::Discovery.tag();
    let e: Seq<u8> = Mode::Patch.tag();
    let f: Seq<u8> = Mode::Debug.tag();
    assert(a[0] == 0x41 && b[1] == 0x4f && c[1] == 0x49 && d[1] == 0x49 && d[0] == 0x44 && e[0]
        == 0x50 && f[1] == 0x42 && b[0] == 0x42 && c[0] == 0x42 && f[0] == 0x44);
}

/// The power status bitfield.
#[derive(Clone, Copy, Debug, PartialEq, Eq, Structural)]
pub struct PowerStatus {
    pub bits: u16,
}

impl PowerStatus {
    /// Bit 0: a cable is plugged and the link is up.
    pub open spec fn link_up(self) -> bool {
        self.bits & 1 != 0
    }

    /// Bit 1: the source/sink role flag.
    pub open spec fn role_flag(self) -> bool {
        self.bits & 2 != 0
    }

    /// Reads bit 0.
    pub fn is_connected(&self) -> (r: bool)
        ensures
            r == self.link_up(),
    {
        self.bits & 1 != 0
    }

    /// Reads bit 1.
    pub fn role(&self) -> (r: bool)
        ensures
            r == self.role_flag(),
    {
        self.bits & 2 != 0
    }
}

/// The bitfield that the two little-endian bytes `payload` hold, if there are
/// exactly two.
pub open spec fn power_status_of(payload: Seq<u8>) -> Option<PowerStatus> {
    if payload.len() == 2 {
        Some(PowerStatus { bits: (payload[0] as u16) | ((payload[1] as u16) << 8) })
    } else {
        None
    }
}

/// Decodes the payload of the power status register.
pub fn decode_power_status(payload: &[u8]) -> (r: Option<PowerStatus>)
    ensures
        r == power_status_of(payload@),
{
    if payload.len() != 2 {
        return None;
    }
    let lo: u16 = payload[0] as u16;
    let hi: u16 = payload[1] as u16;
    Some(PowerStatus { bits: lo | (hi << 8) })
}

} // verus!
