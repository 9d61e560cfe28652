//! The layout of the shared-memory mailbox.
//!
//! The region holds at most one message: byte 0 is the "data present" flag,
//! bytes 1..5 hold the payload length as four bytes in the host's byte
//! order, and the payload follows from byte 5.  A reader takes the payload
//! and clears the flag, so each written payload is taken at most once.

use vstd::prelude::*;
use vstd::bytes::{spec_u32_from_le_bytes, spec_u32_to_le_bytes, u32_from_le_bytes, u32_to_le_bytes};
use crate::error::CommunicationError;

verus! {

/// The size of the shared-memory file, in bytes.
pub const REGION_SIZE: usize = 4096;

/// The number of bytes before the payload: the flag and the length.
pub const HEADER_SIZE: usize = 5;

/// The order in which the bytes of a length are stored.
#[derive(Debug, Clone, Copy, PartialEq, Eq, Structural)]
pub enum ByteOrder {
    /// Least significant byte first.
    Little,
    /// Most significant byte first.
    Big,
}

/// Four bytes taken least significant first, put in `order`.
pub open spec fn in_order(b: Seq<u8>, order: ByteOrder) -> Seq<u8> {
    match order {
        ByteOrder::Little => b,
        ByteOrder::Big => seq![b[3], b[2], b[1], b[0]],
    }
}

/// The four bytes of `n` in `order`.
pub open spec fn length_bytes(n: u32, order: ByteOrder) -> Seq<u8> {
    in_order(spec_u32_to_le_bytes(n), order)
}

/// The bytes of `1u32` as this machine stores them.
///
/// Calls `u32::to_ne_bytes`.  Every Rust target is little- or big-endian,
/// so the bytes are those of one of the two orders; which one depends on
/// the machine and is not stated.
#[verifier::external_body]
fn native_bytes_of_one() -> (b: [u8; 4])
    ensures
        b@ == seq![1u8, 0u8, 0u8, 0u8] || b@ == seq![0u8, 0u8, 0u8, 1u8],
{
    1u32.to_ne_bytes()
}

/// The byte order of this machine, in which lengths are stored.
pub fn host_byte_order() -> (o: ByteOrder) {
    let b = native_bytes_of_one();
    if b[0] == 1 {
        ByteOrder::Little
    } else {
        ByteOrder::Big
    }
}

/// The length recorded in a region's header.
pub open spec fn frame_length(r: Seq<u8>, order: ByteOrder) -> u32 {
    spec_u32_from_le_bytes(in_order(r.subrange(1, 5), order))
}

/// The region announces a payload that a reader accepts.
pub open spec fn frame_ready(r: Seq<u8>, order: ByteOrder) -> bool {
    &&& r.len() >= 5
    &&& r[0] != 0
    &&& 0 < frame_length(r, order) < 4096
}

/// The region as a write of `p` leaves it: flag first, then the length, then
/// the payload; a write stops at the first byte that does not fit.
pub open spec fn written_frame(r: Seq<u8>, p: Seq<u8>, order: ByteOrder) -> Seq<u8> {
    if r.len() == 0 {
        r
    } else if r.len() < 5 {
        r.update(0, 1u8)
    } else if 5 + p.len() > r.len() {
        seq![1u8] + length_bytes(p.len() as u32, order) + r.skip(5)
    } else {
        seq![1u8] + length_bytes(p.len() as u32, order) + p + r.skip(5 + p.len() as int)
    }
}

/// A write of `p` fits in the region `r`.
pub open spec fn frame_fits(r: Seq<u8>, p: Seq<u8>) -> bool {
    5 + p.len() <= r.len()
}

/// A read of the region fails: it is too short for what its header announces.
pub open spec fn frame_overrun(r: Seq<u8>, order: ByteOrder) -> bool {
    ||| r.len() == 0
    ||| (r[0] != 0 && r.len() < 5)
    ||| (frame_ready(r, order) && 5 + frame_length(r, order) > r.len())
}

/// The payload of a region whose frame is ready.
pub open spec fn frame_payload(r: Seq<u8>, order: ByteOrder) -> Seq<u8> {
    r.subrange(5, 5 + frame_length(r, order))
}

fn overrun_error() -> (e: CommunicationError)
    ensures
        e is IoError,
{
    CommunicationError::IoError(String::from_str("shared memory frame does not fit in the region"))
}

/// Writes `payload` as the region's message, its length in `order`.
///
/// Fails with an I/O error, leaving what was written so far, when the
/// region is too small for the header and payload.
pub fn write_frame(region: &mut Vec<u8>, payload: &[u8], order: ByteOrder) -> (r: Result<(), CommunicationError>)
    ensures
        final(region)@ == written_frame(old(region)@, payload@, order),
        r is Ok <==> frame_fits(old(region)@, payload@),
        r matches Err(e) ==> e is IoError,
{
    let total = region.len();
    let ghost r0 = region@;
    if region.len() == 0 {
        return Err(overrun_error());
    }
    region.set(0, 1u8);
    if region.len() < 5 {
        return Err(overrun_error());
    }
    #[verifier::truncate]
    let len32 = payload.len() as u32;
    let le_bytes = u32_to_le_bytes(len32);
    let ghost header = length_bytes(len32, order);
    assert(header.len() == 4);
    let mut k: usize = 0;
    while k < 4
        invariant
            k <= 4,
            le_bytes@ == spec_u32_to_le_bytes(len32),
            le_bytes@.len() == 4,
            header == in_order(le_bytes@, order),
            header.len() == 4,
            region@.len() == r0.len(),
            r0.len() >= 5,
            region@[0] == 1u8,
            forall|j: int| 1 <= j < 1 + k ==> region@[j] == header[j - 1],
            forall|j: int| 1 + k <= j < r0.len() ==> region@[j] == r0[j],
        decreases 4 - k,
    {
        let byte = match order {
            ByteOrder::Little => le_bytes[k],
            ByteOrder::Big => le_bytes[3 - k],
        };
        assert(byte == header[k as int]);
        region.set(1 + k, byte);
        k = k + 1;
    }
    if payload.len() > region.len() - 5 {
        assert(region@ =~= written_frame(r0, payload@, order));
        return Err(overrun_error());
    }
    let mut i: usize = 0;
    while i < payload.len()
        invariant
            i <= payload@.len(),
            5 + payload@.len() <= r0.len(),
            total == r0.len(),
            header == length_bytes(len32, order),
            header.len() == 4,
            region@.len() == r0.len(),
            region@[0] == 1u8,
            forall|j: int| 1 <= j < 5 ==> region@[j] == header[j - 1],
            forall|j: int| 5 <= j < 5 + i ==> region@[j] == payload@[j - 5],
            forall|j: int| 5 + i <= j < r0.len() ==> region@[j] == r0[j],
        decreases payload@.len() - i,
    {
        region.set(5 + i, payload[i]);
        i = i + 1;
    }
    assert(region@ =~= written_frame(r0, payload@, order));
    Ok(())
}

/// Takes the region's message, its length read in `order`, if one is ready,
/// and clears the flag.
///
/// Returns `Ok(None)` when no message is ready, and fails with an I/O error
/// when the region is too short for what its header announces.
pub fn take_frame(region: &mut Vec<u8>, order: ByteOrder) -> (r: Result<Option<Vec<u8>>, CommunicationError>)
    ensures
        frame_overrun(old(region)@, order) ==> (r matches Err(e) && e is IoError) && final(region)@
            == old(region)@,
        !frame_overrun(old(region)@, order) && frame_ready(old(region)@, order) ==> (r matches Ok(
            Some(p),
        ) && p@ == frame_payload(old(region)@, order)) && final(region)@ == old(region)@.update(
            0,
            0u8,
        ),
        !frame_overrun(old(region)@, order) && !frame_ready(old(region)@, order) ==> (r matches Ok(
            None,
        )) && final(region)@ == old(region)@,
{
    if region.len() == 0 {
        return Err(overrun_error());
    }
    if region[0] == 0 {
        return Ok(None);
    }
    if region.len() < 5 {
        return Err(overrun_error());
    }
    let header: Vec<u8> = match order {
        ByteOrder::Little => vec![region[1], region[2], region[3], region[4]],
        ByteOrder::Big => vec![region[4], region[3], region[2], region[1]],
    };
    assert(header@ =~= in_order(region@.subrange(1, 5), order));
    let len = u32_from_le_bytes(header.as_slice());
    if !(len > 0 && len < 4096) {
        return Ok(None);
    }
    let n = len as usize;
    if n > region.len() - 5 {
        return Err(overrun_error());
    }
    let total = region.len();
    let ghost r0 = region@;
    let mut payload: Vec<u8> = Vec::new();
    let mut i: usize = 0;
    while i < n
        invariant
            i <= n,
            5 + n <= region@.len(),
            total == region@.len(),
            region@ == r0,
            payload@ == region@.subrange(5, 5 + i as int),
        decreases n - i,
    {
        payload.push(region[5 + i]);
        assert(payload@ =~= region@.subrange(5, 5 + i + 1));
        i = i + 1;
    }
    region.set(0, 0u8);
    Ok(Some(payload))
}

/// Reading the length bytes of `n` back in the same order gives `n`.
proof fn lemma_length_bytes_round_trip(n: u32, order: ByteOrder)
    ensures
        length_bytes(n, order).len() == 4,
        spec_u32_from_le_bytes(in_order(length_bytes(n, order), order)) == n,
{
    vstd::bytes::lemma_auto_spec_u32_to_from_le_bytes();
    let le = spec_u32_to_le_bytes(n);
    assert(in_order(length_bytes(n, order), order) =~= le);
}

/// A payload of length 1 to 4091 written with its length in one byte order
/// is taken back unchanged by the next read in the same order.
pub proof fn lemma_frame_round_trip(r: Seq<u8>, p: Seq<u8>, order: ByteOrder)
    requires
        0 < p.len() < 4096,
        frame_fits(r, p),
    ensures
        frame_ready(written_frame(r, p, order), order),
        !frame_overrun(written_frame(r, p, order), order),
        frame_payload(written_frame(r, p, order), order) == p,
{
    lemma_length_bytes_round_trip(p.len() as u32, order);
    let w = written_frame(r, p, order);
    assert(w.subrange(1, 5) =~= length_bytes(p.len() as u32, order));
    assert(frame_length(w, order) == p.len());
    assert(w.subrange(5, 5 + p.len() as int) =~= p);
}

/// Once taken, a message is not taken again: the cleared region holds no ready frame.
pub proof fn lemma_frame_taken_once(r: Seq<u8>, order: ByteOrder)
    requires
        r.len() >= 5,
    ensures
        !frame_ready(r.update(0, 0u8), order),
        !frame_overrun(r.update(0, 0u8), order),
{
}

/// A write of an empty payload announces nothing that a reader accepts.
pub proof fn lemma_empty_frame_not_ready(r: Seq<u8>, order: ByteOrder)
    requires
        frame_fits(r, Seq::<u8>::empty()),
    ensures
        !frame_ready(written_frame(r, Seq::<u8>::empty(), order), order),
{
    lemma_length_bytes_round_trip(0u32, order);
    let w = written_frame(r, Seq::<u8>::empty(), order);
    assert(w.subrange(1, 5) =~= length_bytes(0u32, order));
}

} // verus!
