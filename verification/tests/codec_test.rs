use stun_rs::addr::IpAddress;
use stun_rs::addr::SockAddr;
use stun_rs::attrs::RawAttr;
use stun_rs::attrs::address_attr::AddressAttr;
use stun_rs::attrs::change_request::ChangeRequest;
use stun_rs::attrs::errcode_attr::ErrcodeAttr;
use stun_rs::attrs::padding_attr::PaddingAttr;
use stun_rs::attrs::response_port::ResponsePort;
use stun_rs::constants::ATTR_ERROR_CODE;
use stun_rs::constants::ATTR_MAPPED_ADDRESS;
use stun_rs::constants::MESSAGE_TYPE_BIND_REQ;
use stun_rs::error::ParsePacketErr;
use stun_rs::header::Header;
use stun_rs::packet::Packet;
use stun_rs::util;

fn some_trans_id() -> [u8; 16] {
    let mut t = util::new_trans_id();
    t[10] = 0xab;
    t
}

#[test]
fn test_round_trip_mixed_attrs() {
    let trans_id = some_trans_id();
    let header = Header::new(MESSAGE_TYPE_BIND_REQ, 0, trans_id);
    let mut packet = Packet::new(header, Vec::new());
    packet.add_attr(ChangeRequest::new(true, true).to_raw());
    packet.add_attr(ResponsePort::new(9000).to_raw());
    packet.add_attr(
        AddressAttr::new(ATTR_MAPPED_ADDRESS, SockAddr { ip: IpAddress::V4([1, 2, 3, 4]), port: 5 })
            .to_raw(),
    );

    let buf = packet.pack();
    let unpacked = Packet::unpack(&buf).unwrap();
    assert_eq!(unpacked, packet);
}

#[test]
fn test_header_round_trip_fields() {
    let trans_id = some_trans_id();
    let header = Header::new(MESSAGE_TYPE_BIND_REQ, 0x1234, trans_id);
    let bytes = header.pack();
    assert_eq!(bytes.len(), 20);
    let back = Header::unpack(&bytes).unwrap();
    assert_eq!(back, header);
}

#[test]
fn test_xor_self_inverse_v4() {
    let trans_id = some_trans_id();
    let addr = SockAddr { ip: IpAddress::V4([192, 168, 8, 100]), port: 5678 };
    let once = util::xor_address(&addr, &trans_id);
    let twice = util::xor_address(&once, &trans_id);
    assert_eq!(twice, addr);
    assert_ne!(once, addr);
}

#[test]
fn test_xor_self_inverse_v6() {
    let trans_id = some_trans_id();
    let addr = SockAddr {
        ip: IpAddress::V6([1, 2, 3, 4, 5, 6, 7, 8, 9, 10, 11, 12, 13, 14, 15, 16]),
        port: 65534,
    };
    let once = util::xor_address(&addr, &trans_id);
    let twice = util::xor_address(&once, &trans_id);
    assert_eq!(twice, addr);
    assert_ne!(once, addr);
}

#[test]
fn test_xor_v4_exact_bytes() {
    // the magic cookie itself XORs to zero
    let trans_id = some_trans_id();
    let addr = SockAddr { ip: IpAddress::V4([0x21, 0x12, 0xA4, 0x42]), port: 0x2112 };
    let once = util::xor_address(&addr, &trans_id);
    assert_eq!(once, SockAddr { ip: IpAddress::V4([0, 0, 0, 0]), port: 0 });
}

#[test]
fn test_msg_len_tracks_attrs() {
    let trans_id = some_trans_id();
    let header = Header::new(MESSAGE_TYPE_BIND_REQ, 0, trans_id);
    let mut packet = Packet::new(header, Vec::new());
    assert_eq!(packet.header.msg_len, 0);
    packet.add_attr(ChangeRequest::new(false, false).to_raw());
    assert_eq!(packet.header.msg_len, 8);
    packet.add_attr(ResponsePort::new(1).to_raw());
    assert_eq!(packet.header.msg_len, 16);
    let more = vec![util::new_padding_attr(8).to_raw()];
    packet.add_attrs(more);
    assert_eq!(packet.header.msg_len, 16 + 4 + 8);
}

#[test]
fn test_unpack_short_buffer() {
    let buf = [0u8; 19];
    match Packet::unpack(&buf) {
        Err(ParsePacketErr::BufSize(_)) => {}
        other => panic!("expected a short-buffer failure, got {:?}", other),
    }
}

#[test]
fn test_unpack_length_mismatch() {
    let trans_id = some_trans_id();
    let header = Header::new(MESSAGE_TYPE_BIND_REQ, 0, trans_id);
    let packet = Packet::new(header, Vec::new());
    let mut buf = packet.pack();
    // announce four attribute bytes that are not there
    buf[3] = 4;
    match Packet::unpack(&buf) {
        Err(ParsePacketErr::NotMatch(_)) => {}
        other => panic!("expected a length mismatch, got {:?}", other),
    }
}

#[test]
fn test_unpack_too_many_attrs() {
    let trans_id = some_trans_id();
    let header = Header::new(MESSAGE_TYPE_BIND_REQ, 0, trans_id);
    let mut attrs = Vec::new();
    for _ in 0..33 {
        attrs.push(RawAttr::new(0x7770, Vec::new()));
    }
    // bypass the builder so that 33 records end up on the wire
    let mut buf = Header::new(MESSAGE_TYPE_BIND_REQ, 33 * 4, trans_id).pack();
    for a in &attrs {
        buf.extend_from_slice(&a.pack());
    }
    match Packet::unpack(&buf) {
        Err(ParsePacketErr::TooManyAttrs) => {}
        other => panic!("expected too many attributes, got {:?}", other),
    }
}

#[test]
fn test_unpack_attr_overruns_buffer() {
    let trans_id = some_trans_id();
    // one record announcing 200 value bytes, but only 4 present
    let mut buf = Header::new(MESSAGE_TYPE_BIND_REQ, 8, trans_id).pack();
    buf.extend_from_slice(&[0x77, 0x70, 0, 200, 1, 2, 3, 4]);
    match Packet::unpack(&buf) {
        Err(ParsePacketErr::BufSize(_)) => {}
        other => panic!("expected a short-buffer failure, got {:?}", other),
    }
}

#[test]
fn test_validate_address_port_bounds() {
    for port in [0u16, 65535] {
        let attr = AddressAttr::new(
            ATTR_MAPPED_ADDRESS,
            SockAddr { ip: IpAddress::V4([1, 2, 3, 4]), port },
        );
        let trans_id = some_trans_id();
        let header = Header::new(MESSAGE_TYPE_BIND_REQ, 0, trans_id);
        let mut packet = Packet::new(header, Vec::new());
        packet.add_attr(attr.to_raw());
        assert!(packet.validate().is_some(), "port {} must fail validation", port);
    }
    let good = AddressAttr::new(
        ATTR_MAPPED_ADDRESS,
        SockAddr { ip: IpAddress::V4([1, 2, 3, 4]), port: 1 },
    );
    let trans_id = some_trans_id();
    let header = Header::new(MESSAGE_TYPE_BIND_REQ, 0, trans_id);
    let mut packet = Packet::new(header, Vec::new());
    packet.add_attr(good.to_raw());
    assert!(packet.validate().is_none());
}

#[test]
fn test_validate_error_code_bounds() {
    for code in [50u16, 700] {
        let trans_id = some_trans_id();
        let header = Header::new(MESSAGE_TYPE_BIND_REQ, 0, trans_id);
        let mut packet = Packet::new(header, Vec::new());
        packet.add_attr(ErrcodeAttr::new(code, "x").to_raw());
        assert!(packet.validate().is_some(), "code {} must fail validation", code);
    }
}

#[test]
fn test_error_code_404_round_trips() {
    let attr = ErrcodeAttr::new(404, "not found");
    let raw = attr.to_raw();
    assert_eq!(raw.attr_type, ATTR_ERROR_CODE);
    let back = ErrcodeAttr::try_from_raw(&raw).unwrap();
    assert_eq!(back.code, 404);
    assert_eq!(back.msg, "not found");
}

#[test]
fn test_error_reason_trailing_spaces_trimmed() {
    // "abc" is padded to "abc " on the wire and trimmed back on decode
    let attr = ErrcodeAttr::new(431, "abc");
    let raw = attr.to_raw();
    assert_eq!(raw.value.len(), 8);
    assert_eq!(&raw.value[4..], b"abc ");
    let back = ErrcodeAttr::try_from_raw(&raw).unwrap();
    assert_eq!(back.msg, "abc");
    assert_eq!(back.code, 431);
}

#[test]
fn test_error_reason_not_utf8() {
    let mut value = vec![0u8, 0, 1, 144];
    value.extend_from_slice(&[0xff, 0xfe, 0x20, 0x20]);
    let raw = RawAttr::new(ATTR_ERROR_CODE, value);
    match ErrcodeAttr::try_from_raw(&raw) {
        Err(ParsePacketErr::NotUtf8) => {}
        other => panic!("expected a UTF-8 failure, got {:?}", other),
    }
}

#[test]
fn test_pack_unpack_error_code_helpers() {
    assert_eq!(util::pack_error_code(404), 0x0404);
    assert_eq!(util::pack_error_code(420), 0x0414);
    assert_eq!(util::unpack_error_code(0x0414), 420);
    assert_eq!(util::unpack_error_code(util::pack_error_code(699)), 699);
}

#[test]
fn test_pack_error_reason_pads_to_four() {
    assert_eq!(util::pack_error_reason("abcd"), "abcd");
    assert_eq!(util::pack_error_reason("abcde"), "abcde   ");
    assert_eq!(util::pack_error_reason(""), "");
}

#[test]
fn test_change_request_round_trip() {
    for (ip, port) in [(false, false), (false, true), (true, false), (true, true)] {
        let raw = ChangeRequest::new(ip, port).to_raw();
        assert_eq!(raw.value.len(), 4);
        let back = ChangeRequest::try_from_raw(&raw).unwrap();
        assert_eq!(back.change_ip, ip);
        assert_eq!(back.change_port, port);
    }
}

#[test]
fn test_change_request_bad_length() {
    let raw = RawAttr::new(stun_rs::constants::ATTR_CHANGE_REQUEST, vec![0, 0, 0, 4, 0]);
    match ChangeRequest::try_from_raw(&raw) {
        Err(ParsePacketErr::BufSize(_)) => {}
        other => panic!("expected a length failure, got {:?}", other),
    }
}

#[test]
fn test_response_port_round_trip() {
    let raw = ResponsePort::new(9000).to_raw();
    assert_eq!(raw.value, vec![0x23, 0x28, 0, 0]);
    let back = ResponsePort::try_from_raw(&raw).unwrap();
    assert_eq!(back.port, 9000);
}

#[test]
fn test_address_attr_unknown_family() {
    let raw = RawAttr::new(ATTR_MAPPED_ADDRESS, vec![0, 3, 0x12, 0x34, 1, 2, 3, 4]);
    match AddressAttr::try_from_raw(&raw) {
        Err(ParsePacketErr::BadValue(_)) => {}
        other => panic!("expected a bad-value failure, got {:?}", other),
    }
}

#[test]
fn test_address_attr_v6_round_trip() {
    let addr = SockAddr {
        ip: IpAddress::V6([9, 8, 7, 6, 5, 4, 3, 2, 1, 0, 11, 12, 13, 14, 15, 16]),
        port: 4321,
    };
    let raw = AddressAttr::new(ATTR_MAPPED_ADDRESS, addr).to_raw();
    assert_eq!(raw.value.len(), 20);
    let back = AddressAttr::try_from_raw(&raw).unwrap();
    assert_eq!(back.address, addr);
    assert_eq!(back.attr_type, ATTR_MAPPED_ADDRESS);
}

#[test]
fn test_padding_attr_rejects_odd_length() {
    let raw = RawAttr::new(stun_rs::constants::ATTR_PADDING, vec![6; 12]);
    match PaddingAttr::try_from_raw(&raw) {
        Err(ParsePacketErr::BadValue(_)) => {}
        other => panic!("expected a bad-value failure, got {:?}", other),
    }
    let ok = RawAttr::new(stun_rs::constants::ATTR_PADDING, vec![6; 16]);
    assert!(PaddingAttr::try_from_raw(&ok).is_ok());
}
