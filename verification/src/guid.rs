//! Generation of the 128-bit identifier that tags each notification
//! descriptor, so the shell can tell notifications apart across processes.

use vstd::prelude::*;

verus! {

/// A 128-bit GUID, split into the four fields the native descriptor uses.
#[derive(Clone, Copy, PartialEq, Eq, Debug)]
pub struct Guid {
    pub data1: u32,
    pub data2: u16,
    pub data3: u16,
    pub data4: [u8; 8],
}

/// A correctly generated identifier: the version field says "randomly
/// generated" (version 4) and the variant bits have the standard value.
pub open spec fn guid_wf(g: Guid) -> bool {
    &&& 0x4000 <= g.data3 < 0x5000
    &&& 0x80 <= g.data4@[0] < 0xC0
}

/// Relies on getrandom::fill: on success the buffer is filled with random
/// bytes from the operating system. On failure the raw OS error code is
/// reported, or 0 when the failure carries none.
#[verifier::external_body]
fn os_random_bytes_16() -> (r: Result<Vec<u8>, i32>)
    ensures
        (r matches Ok(b) ==> b@.len() == 16),
{
    let mut buf = [0u8; 16];
    match getrandom::fill(&mut buf) {
        Ok(()) => Ok(buf.to_vec()),
        Err(e) => Err(e.raw_os_error().unwrap_or(0)),
    }
}

/// The identifier that 16 bytes of entropy determine: the fields read the
/// bytes in order, except that the version and variant bits are forced to
/// the values every randomly generated GUID carries.
pub open spec fn guid_matches_bytes(g: Guid, b: Seq<u8>) -> bool {
    &&& g.data1 == b[0] * 0x1000000 + b[1] * 0x10000 + b[2] * 0x100 + b[3]
    &&& g.data2 == b[4] * 0x100 + b[5]
    &&& g.data3 == 0x4000 + (b[6] % 0x10) * 0x100 + b[7]
    &&& g.data4@[0] == 0x80 + b[8] % 0x40
    &&& (forall|i: int| 1 <= i < 8 ==> g.data4@[i] == b[8 + i])
}

/// Assembles the identifier the given 16 bytes of entropy determine.
pub fn guid_from_bytes(bytes: &Vec<u8>) -> (g: Guid)
    requires
        bytes@.len() == 16,
    ensures
        guid_matches_bytes(g, bytes@),
        guid_wf(g),
{
    let d1: u32 = (bytes[0] as u32) * 0x1000000 + (bytes[1] as u32) * 0x10000 + (bytes[2] as u32)
        * 0x100 + (bytes[3] as u32);
    let d2: u16 = (bytes[4] as u16) * 0x100 + (bytes[5] as u16);
    let d3: u16 = 0x4000 + ((bytes[6] % 0x10) as u16) * 0x100 + (bytes[7] as u16);
    let d4: [u8; 8] = [
        0x80 + bytes[8] % 0x40,
        bytes[9],
        bytes[10],
        bytes[11],
        bytes[12],
        bytes[13],
        bytes[14],
        bytes[15],
    ];
    Guid { data1: d1, data2: d2, data3: d3, data4: d4 }
}

/// The result the randomness facility's report maps to: 16 bytes of
/// entropy become the identifier they determine, and a failure surfaces
/// the raw platform error code exactly as reported, not reinterpreted.
pub fn guid_outcome(report: Result<Vec<u8>, i32>) -> (r: Result<Guid, i32>)
    requires
        (report matches Ok(b) ==> b@.len() == 16),
    ensures
        (report matches Ok(b) ==> (r matches Ok(g) && guid_matches_bytes(g, b@) && guid_wf(g))),
        (report matches Err(code) ==> r == Result::<Guid, i32>::Err(code)),
{
    match report {
        Ok(bytes) => Ok(guid_from_bytes(&bytes)),
        Err(code) => Err(code),
    }
}

/// Produces a fresh identifier from the platform's randomness facility,
/// with one call and no retry. The facility's report goes through
/// [`guid_outcome`]: a failure surfaces the raw platform error code
/// unchanged.
pub fn generate_guid() -> (r: Result<Guid, i32>)
    ensures
        (r matches Ok(g) ==> guid_wf(g)),
{
    guid_outcome(os_random_bytes_16())
}

} // verus!
