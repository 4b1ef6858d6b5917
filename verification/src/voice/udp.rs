//! The datagrams of a voice session: IP discovery and RTP framing.

use vstd::prelude::*;
use vstd::utf8::{decode_utf8, valid_utf8};
use byteorder::ByteOrder;
use crate::net::{ip_of, IpAddress};

verus! {

/// Samples per second of the audio that is sent.
pub const SAMPLE_RATE: u32 = 48000;

/// Number of bytes in an RTP header.
pub const RTP_HEADER_LEN: usize = 12;

/// Number of bytes in an IP discovery packet, either way.
pub const DISCOVERY_LEN: usize = 70;

/// The two bytes of a 16-bit number, most significant first.
pub open spec fn be16(n: u16) -> Seq<u8> {
    seq![(n / 256) as u8, (n % 256) as u8]
}

/// The four bytes of a 32-bit number, most significant first.
pub open spec fn be32(n: u32) -> Seq<u8> {
    seq![
        (n / 0x100_0000) as u8,
        ((n / 0x1_0000) % 256) as u8,
        ((n / 256) % 256) as u8,
        (n % 256) as u8,
    ]
}

/// The 16-bit number that two bytes write, least significant first.
pub open spec fn le16(lo: u8, hi: u8) -> u16 {
    (lo + 256 * hi) as u16
}

/// The RTP header of a packet: the fixed version and payload type bytes,
/// then sequence number, timestamp and source, each most significant byte
/// first.
pub open spec fn rtp_header_bytes(seq_num: u16, timestamp: u32, ssrc: u32) -> Seq<u8> {
    seq![0x80u8, 0x78u8] + be16(seq_num) + be32(timestamp) + be32(ssrc)
}

/// `byteorder::NetworkEndian::write_u16` into a buffer of two bytes. Trusted:
/// the buffer then holds the number's bytes, most significant first.
#[verifier::external_body]
fn be_u16_bytes(n: u16) -> (r: [u8; 2])
    ensures
        r@ == be16(n),
{
    let mut buf = [0u8; 2];
    byteorder::NetworkEndian::write_u16(&mut buf, n);
    buf
}

/// `byteorder::NetworkEndian::write_u32` into a buffer of four bytes.
/// Trusted: the buffer then holds the number's bytes, most significant first.
#[verifier::external_body]
fn be_u32_bytes(n: u32) -> (r: [u8; 4])
    ensures
        r@ == be32(n),
{
    let mut buf = [0u8; 4];
    byteorder::NetworkEndian::write_u32(&mut buf, n);
    buf
}

/// `byteorder::LittleEndian::read_u16`. Trusted: it reads the first two bytes
/// as a number, least significant byte first.
#[verifier::external_body]
fn le_u16(bytes: &[u8; 2]) -> (r: u16)
    ensures
        r == le16(bytes@[0], bytes@[1]),
{
    byteorder::LittleEndian::read_u16(bytes)
}

/// `std::str::from_utf8`. Trusted: it accepts exactly the byte sequences that
/// are valid UTF-8, and the text that it returns holds the characters that
/// the bytes encode.
#[verifier::external_body]
fn utf8_text(bytes: &[u8]) -> (r: Option<&str>)
    ensures
        r is Some <==> valid_utf8(bytes@),
        r matches Some(text) ==> text@ == decode_utf8(bytes@),
{
    std::str::from_utf8(bytes).ok()
}

/// A buffer was too short for what had to be written into it.
#[derive(Debug, Clone, Copy, PartialEq, Eq, Structural)]
pub struct BufferTooShort;

/// The first `n` bytes of `header` followed by what `before` held behind them.
pub open spec fn overwritten(before: Seq<u8>, header: Seq<u8>) -> Seq<u8> {
    if before.len() >= header.len() {
        header + before.skip(header.len() as int)
    } else {
        header.take(before.len() as int)
    }
}

/// The RTP header of a packet.
pub fn rtp_header_array(seq_num: u16, timestamp: u32, ssrc: u32) -> (header: [u8; 12])
    ensures
        header@ == rtp_header_bytes(seq_num, timestamp, ssrc),
{
    let s = be_u16_bytes(seq_num);
    let t = be_u32_bytes(timestamp);
    let c = be_u32_bytes(ssrc);
    let header: [u8; 12] = [0x80, 0x78, s[0], s[1], t[0], t[1], t[2], t[3], c[0], c[1], c[2], c[3]];
    assert(header@ =~= rtp_header_bytes(seq_num, timestamp, ssrc));
    header
}

/// Writes the RTP header of a packet at the start of `packet_buf`. A buffer
/// of fewer than twelve bytes is filled with as much of the header as it
/// holds, and the call fails.
pub fn rtp_header(packet_buf: &mut [u8], seq_num: u16, timestamp: u32, ssrc: u32) -> (r: Result<
    (),
    BufferTooShort,
>)
    ensures
        final(packet_buf)@ == overwritten(
            old(packet_buf)@,
            rtp_header_bytes(seq_num, timestamp, ssrc),
        ),
        r is Ok <==> old(packet_buf)@.len() >= RTP_HEADER_LEN,
{
    let header = rtp_header_array(seq_num, timestamp, ssrc);
    let n: usize = if packet_buf.len() < RTP_HEADER_LEN {
        packet_buf.len()
    } else {
        RTP_HEADER_LEN
    };
    let mut i: usize = 0;
    while i < n
        invariant
            i <= n <= 12,
            n <= packet_buf@.len(),
            packet_buf@.len() == old(packet_buf)@.len(),
            forall|j: int| 0 <= j < i ==> packet_buf@[j] == header@[j],
            forall|j: int| i <= j < packet_buf@.len() ==> packet_buf@[j] == old(packet_buf)@[j],
        decreases n - i,
    {
        packet_buf[i] = header[i];
        i = i + 1;
    }
    assert(packet_buf@ =~= overwritten(old(packet_buf)@, header@));
    if n < RTP_HEADER_LEN {
        Err(BufferTooShort)
    } else {
        Ok(())
    }
}

/// Builds the 24-byte nonce that seals one RTP packet: the packet's header
/// followed by twelve zero bytes.
pub fn nonce(packet: &[u8]) -> (out: [u8; 24])
    requires
        packet@.len() >= RTP_HEADER_LEN,
    ensures
        out@.subrange(0, 12) == packet@.subrange(0, 12),
        forall|i: int| 12 <= i < 24 ==> out@[i] == 0u8,
{
    let mut out = [0u8; 24];
    let mut i: usize = 0;
    while i < RTP_HEADER_LEN
        invariant
            i <= RTP_HEADER_LEN,
            packet@.len() >= RTP_HEADER_LEN,
            forall|j: int| 0 <= j < i ==> out@[j] == packet@[j],
            forall|j: int| i <= j < 24 ==> out@[j] == 0u8,
        decreases RTP_HEADER_LEN - i,
    {
        out[i] = packet[i];
        i = i + 1;
    }
    assert(out@.subrange(0, 12) =~= packet@.subrange(0, 12));
    out
}

/// The nonce that seals the packet with the given header: the header
/// followed by twelve zero bytes.
pub fn header_nonce(header: &[u8; 12]) -> (out: [u8; 24])
    ensures
        out@ == header@ + Seq::new(12, |i: int| 0u8),
{
    let mut out = [0u8; 24];
    let mut i: usize = 0;
    while i < 12
        invariant
            i <= 12,
            forall|j: int| 0 <= j < i ==> out@[j] == header@[j],
            forall|j: int| i <= j < 24 ==> out@[j] == 0u8,
        decreases 12 - i,
    {
        out[i] = header[i];
        i = i + 1;
    }
    assert(out@ =~= header@ + Seq::new(12, |i: int| 0u8));
    out
}

/// Fills in an IP discovery request: the first four bytes of `buf` become
/// `ssrc`, most significant byte first; the rest stays as it was.
pub fn discovery_request(buf: [u8; 70], ssrc: u32) -> (r: [u8; 70])
    ensures
        r@ == be32(ssrc) + buf@.skip(4),
{
    let b = be_u32_bytes(ssrc);
    let mut out = buf;
    out[0] = b[0];
    out[1] = b[1];
    out[2] = b[2];
    out[3] = b[3];
    assert(out@ =~= be32(ssrc) + buf@.skip(4));
    out
}

/// Why the answer to an IP discovery request could not be read.
#[derive(Debug, Clone, Copy, PartialEq, Eq, Structural)]
pub enum DiscoveryPacketError {
    /// The address is not terminated by a zero byte.
    BadPacketFormat,
    /// The address is not UTF-8.
    IpNotUtf8,
    /// The address is not an IP address.
    BadIp,
}

/// The index of the first zero byte of `buf` at or behind `from`, or the
/// length of `buf` if there is none.
pub open spec fn first_nul(buf: Seq<u8>, from: int) -> int
    decreases buf.len() - from,
{
    if from >= buf.len() {
        buf.len() as int
    } else if buf[from] == 0 {
        from
    } else {
        first_nul(buf, from + 1)
    }
}

/// What an IP discovery response says: the address is the text from byte 4
/// up to the first zero byte, the port is the last two bytes, least
/// significant first.
pub open spec fn discovery_of(buf: Seq<u8>) -> Result<(IpAddress, u16), DiscoveryPacketError> {
    let end = first_nul(buf, 4);
    if end >= buf.len() {
        Err(DiscoveryPacketError::BadPacketFormat)
    } else if !valid_utf8(buf.subrange(4, end)) {
        Err(DiscoveryPacketError::IpNotUtf8)
    } else {
        match ip_of(decode_utf8(buf.subrange(4, end))) {
            Some(address) => Ok((address, le16(buf[buf.len() - 2], buf[buf.len() - 1]))),
            None => Err(DiscoveryPacketError::BadIp),
        }
    }
}

proof fn lemma_first_nul(buf: Seq<u8>, from: int, k: int)
    requires
        0 <= from <= k <= buf.len(),
        forall|j: int| from <= j < k ==> buf[j] != 0,
        k == buf.len() || buf[k] == 0,
    ensures
        first_nul(buf, from) == k,
    decreases k - from,
{
    if from < k {
        lemma_first_nul(buf, from + 1, k);
    }
}

/// Reads the answer to an IP discovery request: our address and port as the
/// voice server sees them.
pub fn parse_discovery_response(buf: [u8; 70]) -> (r: Result<(IpAddress, u16), DiscoveryPacketError>)
    ensures
        r == discovery_of(buf@),
{
    let mut name: Vec<u8> = Vec::new();
    let mut i: usize = 4;
    while i < 70 && buf[i] != 0
        invariant
            4 <= i <= 70,
            name@ == buf@.subrange(4, i as int),
            forall|j: int| 4 <= j < i ==> buf@[j] != 0,
        decreases 70 - i,
    {
        name.push(buf[i]);
        assert(name@ =~= buf@.subrange(4, i + 1));
        i = i + 1;
    }
    proof {
        lemma_first_nul(buf@, 4, i as int);
    }
    if i >= 70 {
        return Err(DiscoveryPacketError::BadPacketFormat);
    }
    let text = match utf8_text(name.as_slice()) {
        Some(text) => text,
        None => {
            return Err(DiscoveryPacketError::IpNotUtf8);
        },
    };
    let ip = match IpAddress::parse(text) {
        Some(ip) => ip,
        None => {
            return Err(DiscoveryPacketError::BadIp);
        },
    };
    let tail: [u8; 2] = [buf[68], buf[69]];
    let port = le_u16(&tail);
    Ok((ip, port))
}

/// The packet that stands for silence: sent in place of encoded audio when
/// the source has nothing to play.
pub open spec fn silence_bytes() -> Seq<u8> {
    seq![0xF8u8, 0xFFu8, 0xFEu8]
}

/// The packet that stands for silence.
pub fn silence_frame() -> (r: Vec<u8>)
    ensures
        r@ == silence_bytes(),
{
    let mut r: Vec<u8> = Vec::new();
    r.push(0xF8);
    r.push(0xFF);
    r.push(0xFE);
    assert(r@ =~= silence_bytes());
    r
}

/// The datagram of one packet: its header, then its sealed body.
pub fn rtp_datagram(header: &[u8; 12], sealed: &[u8]) -> (r: Vec<u8>)
    ensures
        r@ == header@ + sealed@,
{
    let mut r: Vec<u8> = Vec::new();
    let mut i: usize = 0;
    while i < 12
        invariant
            i <= 12,
            r@ == header@.subrange(0, i as int),
        decreases 12 - i,
    {
        r.push(header[i]);
        assert(r@ =~= header@.subrange(0, i + 1));
        i = i + 1;
    }
    let mut k: usize = 0;
    while k < sealed.len()
        invariant
            k <= sealed@.len(),
            r@ == header@ + sealed@.subrange(0, k as int),
        decreases sealed@.len() - k,
    {
        r.push(sealed[k]);
        assert(r@ =~= header@ + sealed@.subrange(0, k + 1));
        k = k + 1;
    }
    assert(r@ =~= header@ + sealed@);
    r
}

} // verus!
