use discord_next::net::IpAddress;
use discord_next::voice::udp::{
    discovery_request, nonce, parse_discovery_response, rtp_datagram, rtp_header, silence_frame,
    DiscoveryPacketError, RTP_HEADER_LEN,
};

#[test]
fn header_sanity_check() {
    let mut packet = [0u8; RTP_HEADER_LEN];
    assert!(rtp_header(&mut packet, 0xFF00, 0xFF_00_FF_00, 0xFF_00_FF_00).is_ok());
    assert_eq!(
        &packet,
        &[0x80u8, 0x78, 0xFF, 0x00, 0xFF, 0x00, 0xFF, 0x00, 0xFF, 0x00, 0xFF, 0x00]
    );
}

#[test]
fn header_into_short_buffer_fails_after_a_partial_write() {
    let mut packet = [0xEEu8; 5];
    assert!(rtp_header(&mut packet, 0x0102, 0x0304_0506, 7).is_err());
    assert_eq!(&packet, &[0x80u8, 0x78, 0x01, 0x02, 0x03]);
}

#[test]
fn header_leaves_the_rest_of_a_long_buffer() {
    let mut packet = [0xEEu8; 14];
    assert!(rtp_header(&mut packet, 1, 2, 3).is_ok());
    assert_eq!(
        &packet,
        &[0x80u8, 0x78, 0, 1, 0, 0, 0, 2, 0, 0, 0, 3, 0xEE, 0xEE]
    );
}

#[test]
fn nonce_copies_header_and_pads_with_zeros() {
    let packet: [u8; 14] = [0x80, 0x78, 1, 2, 3, 4, 5, 6, 7, 8, 9, 10, 0xAA, 0xBB];
    let n = nonce(&packet);
    assert_eq!(&n[..12], &packet[..12]);
    assert_eq!(&n[12..], &[0u8; 12]);
}

#[test]
fn discovery_request_carries_the_source_first() {
    let packet = discovery_request([0u8; 70], 0x0000_0042);
    assert_eq!(packet.len(), 70);
    assert_eq!(&packet[..4], &[0, 0, 0, 0x42]);
    assert!(packet[4..].iter().all(|b| *b == 0));
    let packet = discovery_request([9u8; 70], 0x0102_0304);
    assert_eq!(&packet[..4], &[1, 2, 3, 4]);
    assert!(packet[4..].iter().all(|b| *b == 9));
}

fn response(ip: &[u8], port: [u8; 2]) -> [u8; 70] {
    let mut buf = [0u8; 70];
    buf[3] = 0x42;
    buf[4..4 + ip.len()].copy_from_slice(ip);
    buf[68] = port[0];
    buf[69] = port[1];
    buf
}

#[test]
fn discovery_response_gives_address_and_port() {
    let buf = response(b"192.0.2.1\0", [0xC0, 0x13]);
    assert_eq!(
        parse_discovery_response(buf),
        Ok((IpAddress::V4(192, 0, 2, 1), 5056))
    );
}

#[test]
fn discovery_response_without_terminator_is_bad_format() {
    let buf = [b'1'; 70];
    assert_eq!(
        parse_discovery_response(buf),
        Err(DiscoveryPacketError::BadPacketFormat)
    );
}

#[test]
fn discovery_response_with_invalid_utf8_is_refused() {
    let buf = response(&[0xFF, 0xFE, 0x00], [0, 0]);
    assert_eq!(
        parse_discovery_response(buf),
        Err(DiscoveryPacketError::IpNotUtf8)
    );
}

#[test]
fn discovery_response_with_bad_address_is_refused() {
    for bad in [
        &b"not an ip\0"[..],
        b"\0",
        b"1.2.3\0",
        b"1.2.3.4.5\0",
        b"256.0.0.1\0",
        b"01.2.3.4\0",
        b"1..2.3\0",
        b"1.2.3.4 \0",
        b"+1.2.3.4\0",
    ] {
        let buf = response(bad, [1, 2]);
        assert_eq!(
            parse_discovery_response(buf),
            Err(DiscoveryPacketError::BadIp)
        );
    }
}

#[test]
fn silence_is_the_fixed_three_bytes() {
    assert_eq!(silence_frame(), vec![0xF8u8, 0xFF, 0xFE]);
}

#[test]
fn datagram_is_header_then_body() {
    let header = [1u8, 2, 3, 4, 5, 6, 7, 8, 9, 10, 11, 12];
    assert_eq!(
        rtp_datagram(&header, &[0xAA, 0xBB]),
        vec![1u8, 2, 3, 4, 5, 6, 7, 8, 9, 10, 11, 12, 0xAA, 0xBB]
    );
}

#[test]
fn address_text_round_trips() {
    let a = IpAddress::V4(192, 0, 2, 1);
    assert_eq!(a.to_text(), "192.0.2.1");
    assert_eq!(IpAddress::parse("192.0.2.1"), Some(a));
    assert_eq!(IpAddress::parse("0.0.0.0"), Some(IpAddress::V4(0, 0, 0, 0)));
    assert_eq!(
        IpAddress::parse("255.255.255.255"),
        Some(IpAddress::V4(255, 255, 255, 255))
    );
    assert_eq!(
        IpAddress::parse("::1"),
        Some(IpAddress::V6(0, 0, 0, 0, 0, 0, 0, 1))
    );
    assert_eq!(IpAddress::parse("1.2.3"), None);
}

fn v6(g: [u16; 8]) -> Option<IpAddress> {
    Some(IpAddress::V6(
        g[0], g[1], g[2], g[3], g[4], g[5], g[6], g[7],
    ))
}

#[test]
fn ipv4_texts() {
    assert_eq!(IpAddress::parse("0.0.0.0"), Some(IpAddress::V4(0, 0, 0, 0)));
    assert_eq!(
        IpAddress::parse("127.0.0.1"),
        Some(IpAddress::V4(127, 0, 0, 1))
    );
    for bad in [
        "256.1.1.1",
        "1.2.3",
        "1.2.3.4.5",
        "01.2.3.4",
        "1.2.3.04",
        "1.2.3.4 ",
        " 1.2.3.4",
        "",
        ".",
        "1...4",
        "1.2.3.+4",
        "1.2.3.a",
        "1000.2.3.4",
    ] {
        assert_eq!(IpAddress::parse(bad), None, "{:?}", bad);
    }
}

#[test]
fn ipv6_texts() {
    let good: [(&str, [u16; 8]); 20] = [
        ("::", [0, 0, 0, 0, 0, 0, 0, 0]),
        ("::1", [0, 0, 0, 0, 0, 0, 0, 1]),
        ("1::", [1, 0, 0, 0, 0, 0, 0, 0]),
        ("1:2:3:4:5:6:7:8", [1, 2, 3, 4, 5, 6, 7, 8]),
        ("1:2:3:4:5:6:7::", [1, 2, 3, 4, 5, 6, 7, 0]),
        ("::2:3:4:5:6:7:8", [0, 2, 3, 4, 5, 6, 7, 8]),
        ("1:2:3:4::5:6:7", [1, 2, 3, 4, 0, 5, 6, 7]),
        (
            "2001:db8::ff00:42:8329",
            [0x2001, 0xdb8, 0, 0, 0, 0xff00, 0x42, 0x8329],
        ),
        (
            "2001:0db8:0000:0000:0000:ff00:0042:8329",
            [0x2001, 0xdb8, 0, 0, 0, 0xff00, 0x42, 0x8329],
        ),
        (
            "2001:DB8::FF00:42:8329",
            [0x2001, 0xdb8, 0, 0, 0, 0xff00, 0x42, 0x8329],
        ),
        ("0000::0000", [0, 0, 0, 0, 0, 0, 0, 0]),
        ("::ffff:192.0.2.128", [0, 0, 0, 0, 0, 0xffff, 0xc000, 0x0280]),
        ("::192.0.2.128", [0, 0, 0, 0, 0, 0, 0xc000, 0x0280]),
        ("64:ff9b::192.0.2.33", [0x64, 0xff9b, 0, 0, 0, 0, 0xc000, 0x0221]),
        ("1:2:3:4:5:6:1.2.3.4", [1, 2, 3, 4, 5, 6, 0x0102, 0x0304]),
        ("1::2:3:4:5:1.2.3.4", [1, 0, 2, 3, 4, 5, 0x0102, 0x0304]),
        ("a:b:c:d:e:f:0:1", [10, 11, 12, 13, 14, 15, 0, 1]),
        ("A:B:C:D:E:F:0:1", [10, 11, 12, 13, 14, 15, 0, 1]),
        ("::a:b", [0, 0, 0, 0, 0, 0, 10, 11]),
        ("ffff::ffff", [0xffff, 0, 0, 0, 0, 0, 0, 0xffff]),
    ];
    for (text, groups) in good {
        assert_eq!(IpAddress::parse(text), v6(groups), "{:?}", text);
    }
    for bad in [
        ":",
        ":1",
        "1:",
        ":::",
        "1:::2",
        "::1::",
        "1::2::3",
        "1:2:3:4:5:6:7",
        "1:2:3:4:5:6:7:8:9",
        "1:2:3:4:5:6:7:8::",
        "::1:2:3:4:5:6:7:8",
        "1:2:3:4::5:6:7:8",
        "fe80::1%eth0",
        "12345::",
        "::12345",
        "00000::",
        "g::",
        "::g",
        "::ffff:192.0.2.256",
        "1:2:3:4:5:6:7:1.2.3.4",
        "1:2:3:4:5:1.2.3.4",
        "1::2:3:4:5:6:1.2.3.4",
        "1.2.3.4::",
        "1.2.3.4::1",
        "::1.2.3.4:5",
        "::1.2.3",
        "::1.2.3.4.5",
        "::01.2.3.4",
        "[::1]",
        " ::1",
        "::1 ",
        "1:2:3:4:5:6:7:",
        ":1:2:3:4:5:6:7",
        "-1::",
        "+1::",
        "0x1::",
    ] {
        assert_eq!(IpAddress::parse(bad), None, "{:?}", bad);
    }
}

#[test]
fn ipv6_addresses_are_written_group_by_group() {
    let a = IpAddress::V6(0x2001, 0xdb8, 0, 0, 0, 0xff00, 0x42, 0x8329);
    assert_eq!(a.to_text(), "2001:db8:0:0:0:ff00:42:8329");
    assert_eq!(IpAddress::parse(&a.to_text()), Some(a));
    let zero = IpAddress::V6(0, 0, 0, 0, 0, 0, 0, 0);
    assert_eq!(zero.to_text(), "0:0:0:0:0:0:0:0");
    assert_eq!(IpAddress::parse(&zero.to_text()), Some(zero));
    let max = IpAddress::V6(
        0xffff, 0xffff, 0xffff, 0xffff, 0xffff, 0xffff, 0xffff, 0xffff,
    );
    assert_eq!(max.to_text(), "ffff:ffff:ffff:ffff:ffff:ffff:ffff:ffff");
    assert_eq!(IpAddress::parse(&max.to_text()), Some(max));
}

#[test]
fn discovery_response_may_hold_an_ipv6_address() {
    let buf = response(b"2001:db8::1\0", [1, 0]);
    assert_eq!(
        parse_discovery_response(buf),
        Ok((IpAddress::V6(0x2001, 0xdb8, 0, 0, 0, 0, 0, 1), 1))
    );
}
