use vstd::prelude::*;
use crate::error::Error;

verus! {

/// Which link partner a vendor-defined message addresses.
#[derive(Clone, Copy, Debug, PartialEq, Eq, Structural)]
pub enum VdmSopType {
    Sop,
    SopPrime,
    SopPrimePrime,
    SopStar,
}

impl VdmSopType {
    /// The two bits that stand for this type in a message header.
    pub open spec fn bits(self) -> u8 {
        match self {
            VdmSopType::Sop => 0u8,
            VdmSopType::SopPrime => 1u8,
            VdmSopType::SopPrimePrime => 2u8,
            VdmSopType::SopStar => 3u8,
        }
    }

    /// Computes [`Self::bits`].
    pub fn code(self) -> (r: u8)
        ensures
            r == self.bits(),
    {
        match self {
            VdmSopType::Sop => 0,
            VdmSopType::SopPrime => 1,
            VdmSopType::SopPrimePrime => 2,
            VdmSopType::SopStar => 3,
        }
    }
}

/// Fewest vendor data objects in one message.
pub const MIN_VDOS: usize = 1;

/// Most vendor data objects in one message.
pub const MAX_VDOS: usize = 7;

/// Byte `k` (0 is the least significant) of `x`.
pub open spec fn le_byte(x: u32, k: int) -> u8 {
    if k == 0 {
        (x & 0xff) as u8
    } else if k == 1 {
        ((x >> 8) & 0xff) as u8
    } else if k == 2 {
        ((x >> 16) & 0xff) as u8
    } else {
        ((x >> 24) & 0xff) as u8
    }
}

/// The objects one after another, each as four little-endian bytes.
pub open spec fn vdo_bytes(vdos: Seq<u32>) -> Seq<u8> {
    Seq::new(4 * vdos.len(), |i: int| le_byte(vdos[i / 4], i % 4))
}

/// Whether a message may carry `count` objects.
pub open spec fn vdo_count_ok(count: nat) -> bool {
    MIN_VDOS <= count <= MAX_VDOS
}

/// Header byte of a message of `count` objects: the type's bits in the high
/// nibble, the count in the low one.
pub open spec fn vdm_header(sop: VdmSopType, count: nat) -> u8 {
    (sop.bits() << 4) | (count as u8)
}

/// The payload of a vendor-defined message: header byte, then the objects.
pub open spec fn vdm_payload(sop: VdmSopType, vdos: Seq<u32>) -> Seq<u8> {
    seq![vdm_header(sop, vdos.len())] + vdo_bytes(vdos)
}

/// Appends the four little-endian bytes of each object to `out`.
pub fn push_vdos(out: &mut Vec<u8>, vdos: &[u32])
    ensures
        final(out)@ == old(out)@ + vdo_bytes(vdos@),
{
    let ghost before: Seq<u8> = out@;
    let n: usize = vdos.len();
    let mut i: usize = 0;
    assert(out@ =~= before + vdo_bytes(vdos@.subrange(0, 0)));
    while i < n
        invariant
            n == vdos@.len(),
            i <= n,
            out@ == before + vdo_bytes(vdos@.subrange(0, i as int)),
        decreases n - i,
    {
        let x: u32 = vdos[i];
        out.push((x & 0xff) as u8);
        out.push(((x >> 8) & 0xff) as u8);
        out.push(((x >> 16) & 0xff) as u8);
        out.push(((x >> 24) & 0xff) as u8);
        i = i + 1;
        assert(out@ =~= before + vdo_bytes(vdos@.subrange(0, i as int)));
    }
    assert(vdos@.subrange(0, n as int) =~= vdos@);
}

/// Builds the payload of a vendor-defined message.
///
/// Fails with `InvalidArgument` exactly when the number of objects is not
/// between [`MIN_VDOS`] and [`MAX_VDOS`].
pub fn build_vdm(sop: VdmSopType, vdos: &[u32]) -> (r: Result<Vec<u8>, Error>)
    ensures
        vdo_count_ok(vdos@.len()) ==> r.is_ok() && r.unwrap()@ == vdm_payload(sop, vdos@),
        !vdo_count_ok(vdos@.len()) ==> r == Err::<Vec<u8>, Error>(Error::InvalidArgument),
{
    let n: usize = vdos.len();
    if n < MIN_VDOS || n > MAX_VDOS {
        return Err(Error::InvalidArgument);
    }
    let mut payload: Vec<u8> = Vec::new();
    payload.push((sop.code() << 4) | (n as u8));
    push_vdos(&mut payload, vdos);
    Ok(payload)
}

/// The objects that send the target into firmware-update mode.
pub open spec fn dfu_vdos() -> Seq<u32> {
    seq![0x5ac8012u32, 0x106u32, 0x80010000u32]
}

/// The objects that reboot the target into its normal firmware.
pub open spec fn reboot_vdos() -> Seq<u32> {
    seq![0x5ac8012u32, 0x105u32, 0x80000000u32]
}

/// The objects that route the target's serial console onto the cable.
pub open spec fn serial_vdos() -> Seq<u32> {
    seq![0x5ac8012u32, 0x1840306u32]
}

/// The object that switches the local end's own serial routing.
pub open spec fn local_serial_vdos() -> Seq<u32> {
    seq![0x1840306u32]
}

/// Builds [`dfu_vdos`].
pub fn dfu_objects() -> (v: Vec<u32>)
    ensures
        v@ == dfu_vdos(),
{
    let v: Vec<u32> = vec![0x5ac8012u32, 0x106u32, 0x80010000u32];
    assert(v@ =~= dfu_vdos());
    v
}

/// Builds [`reboot_vdos`].
pub fn reboot_objects() -> (v: Vec<u32>)
    ensures
        v@ == reboot_vdos(),
{
    let v: Vec<u32> = vec![0x5ac8012u32, 0x105u32, 0x80000000u32];
    assert(v@ =~= reboot_vdos());
    v
}

/// Builds [`serial_vdos`].
pub fn serial_objects() -> (v: Vec<u32>)
    ensures
        v@ == serial_vdos(),
{
    let v: Vec<u32> = vec![0x5ac8012u32, 0x1840306u32];
    assert(v@ =~= serial_vdos());
    v
}

/// Builds [`local_serial_vdos`].
pub fn local_serial_objects() -> (v: Vec<u32>)
    ensures
        v@ == local_serial_vdos(),
{
    let v: Vec<u32> = vec![0x1840306u32];
    assert(v@ =~= local_serial_vdos());
    v
}

} // verus!
