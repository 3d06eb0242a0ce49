//! SFrame key epoch (KID) RTP header extension.
//!
//! The KID is carried as a fixed-width 4-byte big-endian unsigned integer so
//! a subscriber can select the right decryption key. The SFU never inspects
//! the encrypted payload; it only relays the KID.
use vstd::prelude::*;

verus! {

/// SFrame key epoch identifier (KID).
#[derive(Debug, Clone, Copy, PartialEq, Eq, Hash, Structural)]
pub struct KeyEpoch(pub u64);

impl KeyEpoch {
    /// Wrap a key id.
    pub fn new(kid: u64) -> (k: Self)
        ensures
            k.0 == kid,
    {
        Self(kid)
    }

    /// The key id.
    pub fn as_u64(self) -> (v: u64)
        ensures
            v == self.0,
    {
        self.0
    }
}

/// Width in bytes of the KID on the wire.
pub const SFRAME_KID_WIDTH: usize = 4;

/// Big-endian value of four bytes.
pub open spec fn be32(b: Seq<u8>) -> int {
    b[0] * 0x1000000 + b[1] * 0x10000 + b[2] * 0x100 + b[3]
}

/// The four big-endian bytes of a 32-bit KID.
pub open spec fn kid_bytes(k: u64) -> Seq<u8> {
    seq![
        ((k >> 24u64) & 0xffu64) as u8,
        ((k >> 16u64) & 0xffu64) as u8,
        ((k >> 8u64) & 0xffu64) as u8,
        (k & 0xffu64) as u8,
    ]
}

/// Serializer for the KID extension value: a fixed 4-byte big-endian field.
#[derive(Debug, Clone, Copy, Default)]
pub struct KeyEpochSerializer;

impl KeyEpochSerializer {
    /// Write the KID `kid` (if any) into `buf`; returns the number of bytes
    /// written. Nothing is written (0) when there is no KID, when it does not
    /// fit in 32 bits, or when `buf` is shorter than 4 bytes.
    pub fn write_to(&self, buf: &mut [u8], kid: Option<KeyEpoch>) -> (n: usize)
        ensures
            final(buf)@.len() == old(buf)@.len(),
            n == 0 || n == SFRAME_KID_WIDTH,
            n == SFRAME_KID_WIDTH <==> (kid matches Some(k) && k.0 <= u32::MAX && old(
                buf,
            )@.len() >= 4),
            n == 0 ==> final(buf)@ == old(buf)@,
            n == SFRAME_KID_WIDTH ==> (kid matches Some(k) && final(buf)@.subrange(0, 4)
                == kid_bytes(k.0)),
            n == SFRAME_KID_WIDTH ==> final(buf)@.subrange(4, final(buf)@.len() as int) == old(
                buf,
            )@.subrange(4, old(buf)@.len() as int),
    {
        let k = match kid {
            None => return 0,
            Some(k) => k.0,
        };
        if k > 0xffff_ffffu64 {
            return 0;
        }
        if buf.len() < SFRAME_KID_WIDTH {
            return 0;
        }
        let b0 = ((k >> 24u64) & 0xffu64) as u8;
        let b1 = ((k >> 16u64) & 0xffu64) as u8;
        let b2 = ((k >> 8u64) & 0xffu64) as u8;
        let b3 = (k & 0xffu64) as u8;
        buf[0] = b0;
        buf[1] = b1;
        buf[2] = b2;
        buf[3] = b3;
        assert(final(buf)@.subrange(0, 4) =~= kid_bytes(k));
        assert(final(buf)@.subrange(4, final(buf)@.len() as int) =~= old(buf)@.subrange(
            4,
            old(buf)@.len() as int,
        ));
        SFRAME_KID_WIDTH
    }

    /// Parse a KID extension value: exactly 4 bytes, big-endian.
    pub fn parse_value(&self, buf: &[u8]) -> (r: Option<KeyEpoch>)
        ensures
            r is Some <==> buf@.len() == SFRAME_KID_WIDTH,
            r matches Some(k) ==> k.0 == be32(buf@) && k.0 <= u32::MAX,
    {
        if buf.len() != SFRAME_KID_WIDTH {
            return None;
        }
        let (b0, b1, b2, b3) = (buf[0], buf[1], buf[2], buf[3]);
        let v: u64 = ((b0 as u64) << 24u64) | ((b1 as u64) << 16u64) | ((b2 as u64) << 8u64) | (
        b3 as u64);
        proof {
            assert(v == b0 * 0x1000000 + b1 * 0x10000 + b2 * 0x100 + b3 && v <= 0xffff_ffffu64)
                by (bit_vector)
                requires
                    v == ((b0 as u64) << 24u64) | ((b1 as u64) << 16u64) | ((b2 as u64) << 8u64)
                        | (b3 as u64),
            ;
        }
        Some(KeyEpoch(v))
    }

    /// The extension applies to video streams.
    pub fn is_video(&self) -> (r: bool)
        ensures
            r,
    {
        true
    }

    /// The extension applies to audio streams.
    pub fn is_audio(&self) -> (r: bool)
        ensures
            r,
    {
        true
    }
}

/// What the writer puts on the wire, the reader gives back: the four bytes
/// written for a KID that fits in 32 bits parse as that same KID.
pub proof fn lemma_kid_roundtrip(kid: u64)
    requires
        kid <= u32::MAX,
    ensures
        be32(kid_bytes(kid)) == kid,
        kid_bytes(kid).len() == SFRAME_KID_WIDTH,
{
    let b0 = ((kid >> 24u64) & 0xffu64) as u8;
    let b1 = ((kid >> 16u64) & 0xffu64) as u8;
    let b2 = ((kid >> 8u64) & 0xffu64) as u8;
    let b3 = (kid & 0xffu64) as u8;
    assert(b0 * 0x1000000 + b1 * 0x10000 + b2 * 0x100 + b3 == kid) by (bit_vector)
        requires
            kid <= 0xffff_ffffu64,
            b0 == ((kid >> 24u64) & 0xffu64) as u8,
            b1 == ((kid >> 16u64) & 0xffu64) as u8,
            b2 == ((kid >> 8u64) & 0xffu64) as u8,
            b3 == (kid & 0xffu64) as u8,
    ;
}

} // verus!
