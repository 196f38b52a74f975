//! Length-prefixed framing of packets on a byte stream: each packet is
//! preceded by its length as a 2-byte little-endian unsigned integer.
use byteorder::{ByteOrder, LittleEndian};
use vstd::prelude::*;

verus! {

/// Largest payload a length prefix can announce.
pub const MAX_FRAMED_LEN: usize = 65535;

/// Largest packet the receiver accepts (the size of its receive buffer).
pub const MAX_PACKET_BYTES: usize = 10240;

/// A malformed or truncated packet on the byte stream.
#[derive(Clone, Copy, Debug, PartialEq, Eq, Structural)]
pub enum ProtocolError {
    /// The packet is longer than a 2-byte length prefix can announce.
    PacketTooLong { len: usize },
    /// The length prefix announces more bytes than the receiver accepts.
    Oversized { len: usize },
    /// The bytes end before the length prefix or the payload is complete.
    Truncated,
}

/// The value of two bytes read as a little-endian unsigned integer.
pub open spec fn le_u16(b0: u8, b1: u8) -> nat {
    b0 as nat + 256 * b1 as nat
}

/// The two bytes of `n` in little-endian order.
pub open spec fn le_bytes(n: nat) -> Seq<u8> {
    seq![(n % 256) as u8, ((n / 256) % 256) as u8]
}

/// A packet as it stands on the stream: its length prefix, then its bytes.
pub open spec fn framed(p: Seq<u8>) -> Seq<u8> {
    le_bytes(p.len()) + p
}

/// The packet at the start of `buf` and the number of bytes it takes up, or
/// `None` when `buf` ends before it is complete.
pub open spec fn parse_framed(buf: Seq<u8>) -> Option<(Seq<u8>, nat)> {
    if buf.len() < 2 {
        None
    } else {
        let n = le_u16(buf[0], buf[1]);
        if buf.len() < 2 + n {
            None
        } else {
            Some((buf.subrange(2, 2 + n as int), 2 + n))
        }
    }
}

/// Relies on byteorder's `LittleEndian::read_u16`: the first two bytes as a
/// little-endian integer (it panics on fewer than two bytes).
#[verifier::external_body]
fn read_le_u16(buf: &[u8]) -> (r: u16)
    requires
        buf@.len() >= 2,
    ensures
        r as nat == le_u16(buf@[0], buf@[1]),
{
    LittleEndian::read_u16(buf)
}

/// Relies on byteorder's `LittleEndian::write_u16`: the two bytes of `n`,
/// least significant first.
#[verifier::external_body]
fn write_le_u16(n: u16) -> (r: [u8; 2])
    ensures
        r@ == le_bytes(n as nat),
{
    let mut b = [0u8; 2];
    LittleEndian::write_u16(&mut b, n);
    b
}

/// Frames one packet for a byte stream: the 2-byte little-endian length, then
/// the packet. A packet longer than a prefix can announce is refused.
pub fn frame_packet(packet: &[u8]) -> (r: Result<Vec<u8>, ProtocolError>)
    ensures
        packet@.len() <= MAX_FRAMED_LEN ==> (r matches Ok(v) && v@ == framed(packet@)),
        packet@.len() > MAX_FRAMED_LEN ==> r == Err::<Vec<u8>, ProtocolError>(
            ProtocolError::PacketTooLong { len: packet@.len() as usize },
        ),
{
    let len = packet.len();
    if len > MAX_FRAMED_LEN {
        return Err(ProtocolError::PacketTooLong { len });
    }
    let header = write_le_u16(len as u16);
    let mut out: Vec<u8> = Vec::with_capacity(len + 2);
    out.push(header[0]);
    out.push(header[1]);
    let mut i: usize = 0;
    while i < len
        invariant
            len == packet@.len(),
            i <= len,
            header@ == le_bytes(len as nat),
            out@ == le_bytes(len as nat) + packet@.subrange(0, i as int),
        decreases len - i,
    {
        out.push(packet[i]);
        i = i + 1;
        assert(packet@.subrange(0, i as int) =~= packet@.subrange(0, i - 1).push(packet@[i - 1]));
    }
    assert(packet@.subrange(0, len as int) =~= packet@);
    Ok(out)
}

/// Reads a length prefix as the receiver does: the announced packet length,
/// or `Oversized` when it exceeds the receive buffer.
pub fn packet_len(header: &[u8; 2]) -> (r: Result<usize, ProtocolError>)
    ensures
        le_u16(header@[0], header@[1]) <= MAX_PACKET_BYTES ==> r == Ok::<usize, ProtocolError>(
            le_u16(header@[0], header@[1]) as usize,
        ),
        le_u16(header@[0], header@[1]) > MAX_PACKET_BYTES ==> r == Err::<usize, ProtocolError>(
            ProtocolError::Oversized { len: le_u16(header@[0], header@[1]) as usize },
        ),
{
    let n = read_le_u16(header) as usize;
    if n > MAX_PACKET_BYTES {
        Err(ProtocolError::Oversized { len: n })
    } else {
        Ok(n)
    }
}

/// Takes the framed packet at the start of `buf`: its bytes and the number of
/// bytes it took up, or `Truncated` when `buf` ends first.
pub fn deframe(buf: &[u8]) -> (r: Result<(Vec<u8>, usize), ProtocolError>)
    ensures
        parse_framed(buf@) matches Some((p, n)) ==> (r matches Ok((v, m)) && v@ == p && m as nat
            == n),
        parse_framed(buf@) is None ==> r == Err::<(Vec<u8>, usize), ProtocolError>(
            ProtocolError::Truncated,
        ),
{
    if buf.len() < 2 {
        return Err(ProtocolError::Truncated);
    }
    let n = read_le_u16(buf) as usize;
    if buf.len() - 2 < n {
        return Err(ProtocolError::Truncated);
    }
    let blen = buf.len();
    let mut out: Vec<u8> = Vec::with_capacity(n);
    let mut i: usize = 0;
    while i < n
        invariant
            blen == buf@.len(),
            n + 2 <= blen,
            i <= n,
            out@ == buf@.subrange(2, 2 + i),
        decreases n - i,
    {
        out.push(buf[2 + i]);
        i = i + 1;
        assert(buf@.subrange(2, 2 + i) =~= buf@.subrange(2, 2 + i - 1).push(buf@[2 + i - 1]));
    }
    Ok((out, n + 2))
}

/// A framed packet reads back as the same packet, whatever bytes follow it on
/// the stream.
pub proof fn lemma_framing_round_trip(p: Seq<u8>, rest: Seq<u8>)
    requires
        p.len() <= MAX_FRAMED_LEN,
    ensures
        parse_framed(framed(p) + rest) == Some((p, p.len() + 2)),
        parse_framed(framed(p)) == Some((p, p.len() + 2)),
{
    let n = p.len();
    let b = framed(p) + rest;
    assert(le_u16((n % 256) as u8, ((n / 256) % 256) as u8) == n);
    assert(b.subrange(2, 2 + n as int) =~= p);
    assert(framed(p).subrange(2, 2 + n as int) =~= p);
}

} // verus!
