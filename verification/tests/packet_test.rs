use stun_rs::addr::IpAddress;
use stun_rs::addr::SockAddr;
use stun_rs::attrs::address_attr::AddressAttr;
use stun_rs::attrs::change_request::ChangeRequest;
use stun_rs::attrs::errcode_attr::ErrcodeAttr;
use stun_rs::attrs::response_port::ResponsePort;
use stun_rs::attrs::xor_address::XorMappedAddress;
use stun_rs::constants::ATTR_MAPPED_ADDRESS;
use stun_rs::constants::ATTR_OTHER_ADDRESS;
use stun_rs::constants::ATTR_RESPONSE_ORIGIN;
use stun_rs::constants::MAGIC_COOKIE_0;
use stun_rs::constants::MAGIC_COOKIE_1;
use stun_rs::constants::MAGIC_COOKIE_2;
use stun_rs::constants::MAGIC_COOKIE_3;
use stun_rs::constants::MESSAGE_TYPE_BIND_ERR_RES;
use stun_rs::constants::MESSAGE_TYPE_BIND_REQ;
use stun_rs::constants::MESSAGE_TYPE_BIND_RES;
use stun_rs::header::Header;
use stun_rs::packet::Packet;
use stun_rs::util;

fn v6_addr(segments: [u16; 8], port: u16) -> SockAddr {
    let mut b = [0u8; 16];
    for (i, seg) in segments.iter().enumerate() {
        b[2 * i] = (seg >> 8) as u8;
        b[2 * i + 1] = (seg & 0xff) as u8;
    }
    SockAddr { ip: IpAddress::V6(b), port }
}

fn v4_addr(octets: [u8; 4], port: u16) -> SockAddr {
    SockAddr { ip: IpAddress::V4(octets), port }
}

#[test]
pub fn test_print_ipv6() {
    let addr = v6_addr([1, 2, 3, 4, 5, 6, 7, 8], 8080);
    println!("{:?}", addr);
}

#[test]
pub fn test_new_trans_id() {
    let trans_id = util::new_trans_id();
    assert_eq!(trans_id.len(), 16);
    assert_eq!(
        &trans_id[..4],
        &[MAGIC_COOKIE_0, MAGIC_COOKIE_1, MAGIC_COOKIE_2, MAGIC_COOKIE_3]
    );
}

#[test]
pub fn test_new_err_response_packet() {
    let trans_id = util::new_trans_id();

    let header = Header::new(MESSAGE_TYPE_BIND_ERR_RES, 0, trans_id);
    let mut attr_list = Vec::new();
    attr_list.push(ErrcodeAttr::new(502, "not auth").to_raw());

    let packet = Packet::new(header, attr_list);
    let buf = packet.pack();

    // header + (4 record bytes + 2 reserved + 2 code + "not auth" padded to 8)
    assert_eq!(buf.len(), 20 + 4 + 4 + 8);
    assert_eq!(packet.header.msg_len as usize, buf.len() - 20);
}

#[test]
pub fn test_new_response_packet() {
    let trans_id = util::new_trans_id();

    let header = Header::new(MESSAGE_TYPE_BIND_RES, 0, trans_id);
    let mut attr_list = Vec::new();

    let mapped_addr = v6_addr([1, 2, 3, 4, 5, 6, 7, 8], 8080);
    let origin_addr = v4_addr([10, 20, 30, 40], 1234);
    let other_addr = v4_addr([10, 20, 30, 41], 1235);

    attr_list.push(AddressAttr::new(ATTR_MAPPED_ADDRESS, mapped_addr).to_raw());
    attr_list.push(AddressAttr::new(ATTR_RESPONSE_ORIGIN, origin_addr).to_raw());
    attr_list.push(AddressAttr::new(ATTR_OTHER_ADDRESS, other_addr).to_raw());
    attr_list.push(XorMappedAddress::new(trans_id, mapped_addr).to_raw());

    let packet = Packet::new(header, attr_list);
    let buf = packet.pack();

    // one v6 attribute is 24 bytes, one v4 attribute is 12
    assert_eq!(buf.len(), 20 + 24 + 12 + 12 + 24);
}

#[test]
pub fn test_new_req_packet() {
    let trans_id = util::new_trans_id();

    let header = Header::new(MESSAGE_TYPE_BIND_REQ, 0, trans_id);
    let mut attr_list = Vec::new();

    attr_list.push(ChangeRequest::new(false, true).to_raw());
    attr_list.push(ResponsePort::new(8080).to_raw());
    attr_list.push(util::new_padding_attr(16).to_raw());

    let packet = Packet::new(header, attr_list);
    let buf = packet.pack();

    assert_eq!(buf.len(), 20 + 8 + 8 + 4 + 16);
}

#[test]
pub fn test_unpack_req() {
    let trans_id = util::new_trans_id();

    let header = Header::new(MESSAGE_TYPE_BIND_REQ, 0, trans_id);
    let mut attr_list = Vec::new();

    attr_list.push(ChangeRequest::new(false, true).to_raw());
    attr_list.push(ResponsePort::new(8080).to_raw());
    attr_list.push(util::new_padding_attr(16).to_raw());

    let packet = Packet::new(header, attr_list);
    let buf = packet.pack();

    let unpacked = Packet::unpack(&buf).unwrap();
    assert_eq!(unpacked, packet);
}

#[test]
pub fn test_unpack_response() {
    let trans_id = util::new_trans_id();

    let header = Header::new(MESSAGE_TYPE_BIND_RES, 0, trans_id);
    let mut attr_list = Vec::new();

    let mapped_addr = v6_addr([1, 2, 3, 4, 5, 6, 7, 8], 8080);
    let origin_addr = v4_addr([10, 20, 30, 40], 1234);
    let other_addr = v4_addr([10, 20, 30, 41], 1235);

    attr_list.push(AddressAttr::new(ATTR_MAPPED_ADDRESS, mapped_addr).to_raw());
    attr_list.push(AddressAttr::new(ATTR_RESPONSE_ORIGIN, origin_addr).to_raw());
    attr_list.push(AddressAttr::new(ATTR_OTHER_ADDRESS, other_addr).to_raw());
    attr_list.push(XorMappedAddress::new(trans_id, mapped_addr).to_raw());

    let packet = Packet::new(header, attr_list);
    let buf = packet.pack();

    let unpacked = Packet::unpack(&buf).unwrap();
    assert_eq!(unpacked, packet);

    // the xor-mapped attribute decodes back to the clear address
    let xor_attr =
        XorMappedAddress::from_base_attr(&unpacked.attrs[3], &unpacked.header.trans_id).unwrap();
    assert_eq!(xor_attr.address, mapped_addr);
}
