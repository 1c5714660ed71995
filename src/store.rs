//! The persistent configuration slot: `[payload][crc32 little-endian]`,
//! checked against a fixed capacity.
use vstd::prelude::*;

verus! {

/// Capacity of the non-volatile slot, in bytes.
pub const NVS_BUF_SIZE: usize = 256;

/// Length of the trailing checksum.
pub const CRC_LEN: usize = 4;

/// Why a payload could not be written to the slot.
#[derive(Debug, Clone, Copy, PartialEq, Eq, Structural)]
pub enum PersistError {
    /// The sealed payload does not fit in the slot.
    TooLarge,
}

/// CRC-32/ISCSI (Castagnoli) of a byte sequence.
pub uninterp spec fn crc32_iscsi(b: Seq<u8>) -> u32;

/// Relies on `crc::Crc::<u32>::checksum` with the `CRC_32_ISCSI` algorithm:
/// the checksum depends on the bytes alone.
#[verifier::external_body]
fn checksum(b: &[u8]) -> (r: u32)
    ensures
        r == crc32_iscsi(b@),
{
    crc::Crc::<u32>::new(&crc::CRC_32_ISCSI).checksum(b)
}

/// The four little-endian bytes of `x`.
pub open spec fn le_bytes(x: u32) -> Seq<u8> {
    seq![
        (x & 0xff) as u8,
        ((x >> 8u32) & 0xff) as u8,
        ((x >> 16u32) & 0xff) as u8,
        ((x >> 24u32) & 0xff) as u8,
    ]
}

/// The integer that four little-endian bytes spell.
pub open spec fn from_le(b: Seq<u8>) -> u32 {
    (b[0] as u32) | ((b[1] as u32) << 8u32) | ((b[2] as u32) << 16u32) | ((b[3] as u32) << 24u32)
}

/// The slot contents for a payload: the payload followed by its checksum.
pub open spec fn sealed(p: Seq<u8>) -> Seq<u8> {
    p + le_bytes(crc32_iscsi(p))
}

/// Whether a payload, once sealed, fits the slot.
pub open spec fn fits(p: Seq<u8>) -> bool {
    p.len() + CRC_LEN <= NVS_BUF_SIZE
}

/// The payload that a slot holds, if its size is in range and its checksum
/// matches.
pub open spec fn opened(s: Seq<u8>) -> Option<Seq<u8>> {
    if s.len() < CRC_LEN || s.len() > NVS_BUF_SIZE {
        None
    } else {
        let p = s.subrange(0, s.len() - CRC_LEN);
        if crc32_iscsi(p) == from_le(s.subrange(s.len() - CRC_LEN, s.len() as int)) {
            Some(p)
        } else {
            None
        }
    }
}

proof fn lemma_le_round_trip(x: u32)
    ensures
        from_le(le_bytes(x)) == x,
{
    let b0 = (x & 0xff) as u8;
    let b1 = ((x >> 8u32) & 0xff) as u8;
    let b2 = ((x >> 16u32) & 0xff) as u8;
    let b3 = ((x >> 24u32) & 0xff) as u8;
    assert((b0 as u32) | ((b1 as u32) << 8u32) | ((b2 as u32) << 16u32) | ((b3 as u32) << 24u32)
        == x) by (bit_vector)
        requires
            b0 == (x & 0xff) as u8,
            b1 == ((x >> 8u32) & 0xff) as u8,
            b2 == ((x >> 16u32) & 0xff) as u8,
            b3 == ((x >> 24u32) & 0xff) as u8,
    ;
}

/// Seals a payload for the slot. Fails, never truncating, when the sealed
/// payload exceeds the slot's capacity.
pub fn seal(payload: &[u8]) -> (r: Result<Vec<u8>, PersistError>)
    ensures
        r is Ok <==> fits(payload@),
        r matches Ok(s) ==> s@ == sealed(payload@),
        r matches Err(e) ==> e == PersistError::TooLarge,
{
    if payload.len() > NVS_BUF_SIZE - CRC_LEN {
        return Err(PersistError::TooLarge);
    }
    let c = checksum(payload);
    let mut out: Vec<u8> = Vec::with_capacity(payload.len() + CRC_LEN);
    let mut i: usize = 0;
    while i < payload.len()
        invariant
            i <= payload.len(),
            out@ == payload@.subrange(0, i as int),
        decreases payload.len() - i,
    {
        out.push(payload[i]);
        i += 1;
    }
    out.push((c & 0xff) as u8);
    out.push(((c >> 8u32) & 0xff) as u8);
    out.push(((c >> 16u32) & 0xff) as u8);
    out.push(((c >> 24u32) & 0xff) as u8);
    assert(out@ =~= sealed(payload@));
    Ok(out)
}

/// Opens a slot: the payload when the slot's size lies in
/// `[CRC_LEN, NVS_BUF_SIZE]` and its checksum matches, else `None`.
pub fn open(slot: &[u8]) -> (r: Option<Vec<u8>>)
    ensures
        r is Some <==> opened(slot@) is Some,
        r matches Some(p) ==> opened(slot@) == Some(p@),
{
    let n = slot.len();
    if n < CRC_LEN || n > NVS_BUF_SIZE {
        return None;
    }
    let mut p: Vec<u8> = Vec::with_capacity(n - CRC_LEN);
    let mut i: usize = 0;
    while i < n - CRC_LEN
        invariant
            CRC_LEN <= n <= NVS_BUF_SIZE,
            n == slot@.len(),
            i <= n - CRC_LEN,
            p@ == slot@.subrange(0, i as int),
        decreases n - CRC_LEN - i,
    {
        p.push(slot[i]);
        i += 1;
    }
    let stored = (slot[n - 4] as u32) | ((slot[n - 3] as u32) << 8u32) | ((slot[n - 2] as u32)
        << 16u32) | ((slot[n - 1] as u32) << 24u32);
    let c = checksum(p.as_slice());
    proof {
        let tail = slot@.subrange(n - CRC_LEN, n as int);
        assert(tail[0] == slot@[n - 4]);
        assert(tail[1] == slot@[n - 3]);
        assert(tail[2] == slot@[n - 2]);
        assert(tail[3] == slot@[n - 1]);
        assert(stored == from_le(tail));
    }
    if c == stored {
        Some(p)
    } else {
        None
    }
}

/// Sealing a payload that fits and opening the result gives the payload back.
pub proof fn lemma_seal_open_round_trip(p: Seq<u8>)
    requires
        fits(p),
    ensures
        opened(sealed(p)) == Some(p),
{
    let s = sealed(p);
    lemma_le_round_trip(crc32_iscsi(p));
    assert(s.subrange(0, s.len() - CRC_LEN) =~= p);
    assert(s.subrange(s.len() - CRC_LEN, s.len() as int) =~= le_bytes(crc32_iscsi(p)));
}

proof fn lemma_from_le_round_trip(t: Seq<u8>)
    requires
        t.len() == CRC_LEN,
    ensures
        le_bytes(from_le(t)) == t,
{
    let x = from_le(t);
    let (t0, t1, t2, t3) = (t[0], t[1], t[2], t[3]);
    assert(((x & 0xff) as u8) == t0 && (((x >> 8u32) & 0xff) as u8) == t1 && (((x >> 16u32)
        & 0xff) as u8) == t2 && (((x >> 24u32) & 0xff) as u8) == t3) by (bit_vector)
        requires
            x == (t0 as u32) | ((t1 as u32) << 8u32) | ((t2 as u32) << 16u32) | ((t3 as u32)
                << 24u32),
    ;
    assert(le_bytes(x) =~= t);
}

/// A slot that opens is exactly the seal of the payload it yields: a slot
/// whose bytes differ from every seal is refused, and nothing is ever taken
/// from it in part.
pub proof fn lemma_open_only_whole_seals(s: Seq<u8>)
    requires
        opened(s) is Some,
    ensures
        sealed(opened(s)->Some_0) == s,
        fits(opened(s)->Some_0),
{
    let p = opened(s)->Some_0;
    let tail = s.subrange(s.len() - CRC_LEN, s.len() as int);
    lemma_from_le_round_trip(tail);
    assert(p + tail =~= s);
}

/// A sealed slot whose payload is intact but whose checksum bytes were
/// altered, in any number of places, is refused.
pub proof fn lemma_altered_checksum_refused(p: Seq<u8>, s: Seq<u8>)
    requires
        fits(p),
        s.len() == sealed(p).len(),
        s.subrange(0, p.len() as int) == p,
        s != sealed(p),
    ensures
        opened(s) is None,
{
    let n = s.len();
    let tail = s.subrange(n - CRC_LEN, n as int);
    assert(s.subrange(0, n - CRC_LEN) == p);
    if opened(s) is Some {
        lemma_from_le_round_trip(tail);
        assert(tail == le_bytes(crc32_iscsi(p)));
        assert(s =~= sealed(p));
    }
}

} // verus!
