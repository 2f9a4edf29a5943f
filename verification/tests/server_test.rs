use stun_rs::addr::IpAddress;
use stun_rs::addr::SockAddr;
use stun_rs::attrs::address_attr::AddressAttr;
use stun_rs::attrs::errcode_attr::ErrcodeAttr;
use stun_rs::attrs::response_port::ResponsePort;
use stun_rs::client::find_address_attr;
use stun_rs::client::find_response_attrs;
use stun_rs::client::new_request;
use stun_rs::constants::ATTR_OTHER_ADDRESS;
use stun_rs::constants::MESSAGE_TYPE_BIND_ERR_RES;
use stun_rs::constants::MESSAGE_TYPE_BIND_RES;
use stun_rs::packet::Packet;
use stun_rs::stun::get_bad_response;
use stun_rs::stun::get_ca_cp;
use stun_rs::stun::get_change_flag;
use stun_rs::stun::get_response;
use stun_rs::stun::plan_response;
use stun_rs::stun::validate_req;
use stun_rs::util::new_padding_attr;
use stun_rs::util::new_trans_id;

fn ip1() -> IpAddress {
    IpAddress::V4([10, 0, 0, 1])
}

fn ip2() -> IpAddress {
    IpAddress::V4([10, 0, 0, 2])
}

fn server_ips() -> [IpAddress; 2] {
    [ip1(), ip2()]
}

fn server_ports() -> [u16; 2] {
    [3478, 3479]
}

fn remote() -> SockAddr {
    SockAddr { ip: IpAddress::V4([192, 168, 1, 50]), port: 40000 }
}

#[test]
fn test_scenario_no_change_request() {
    // request at (ip1, port1) without change flags: answered from
    // (ip1, port1), other-address = (ip2, port2)
    let local = SockAddr { ip: ip1(), port: 3478 };
    let request = new_request(new_trans_id(), None, None);
    let buf = request.pack();

    let (response, src, dst) =
        plan_response(&buf, local, remote(), server_ips(), server_ports()).unwrap();
    assert_eq!(response.header.msg_type, MESSAGE_TYPE_BIND_RES);
    assert_eq!(response.header.trans_id, request.header.trans_id);
    assert_eq!(src, local);
    assert_eq!(dst, remote());

    let other = find_address_attr(&response, ATTR_OTHER_ADDRESS).unwrap();
    assert_eq!(other, SockAddr { ip: ip2(), port: 3479 });

    let addrs = find_response_attrs(&response).unwrap();
    assert_eq!(addrs.mapped_address, remote());
    assert_eq!(addrs.response_origin, local);
    assert_eq!(addrs.xor_mapped_address, remote());
}

#[test]
fn test_scenario_change_ip_only() {
    // change_ip = true, change_port = false: answered from (ip2, port1)
    let local = SockAddr { ip: ip1(), port: 3478 };
    let request = new_request(new_trans_id(), Some((true, false)), None);
    let buf = request.pack();

    let (response, src, dst) =
        plan_response(&buf, local, remote(), server_ips(), server_ports()).unwrap();
    assert_eq!(response.header.msg_type, MESSAGE_TYPE_BIND_RES);
    assert_eq!(src, SockAddr { ip: ip2(), port: 3478 });
    assert_eq!(dst, remote());
}

#[test]
fn test_scenario_response_port() {
    // RESPONSE-PORT 9000: destination port 9000, destination IP unchanged
    let local = SockAddr { ip: ip1(), port: 3478 };
    let request = new_request(new_trans_id(), None, Some(9000));
    let buf = request.pack();

    let (response, src, dst) =
        plan_response(&buf, local, remote(), server_ips(), server_ports()).unwrap();
    assert_eq!(response.header.msg_type, MESSAGE_TYPE_BIND_RES);
    assert_eq!(src, local);
    assert_eq!(dst, SockAddr { ip: remote().ip, port: 9000 });
}

#[test]
fn test_scenario_truncated_datagram() {
    // 10 bytes, shorter than a header: dropped without an answer
    let local = SockAddr { ip: ip1(), port: 3478 };
    let buf = [0u8; 10];
    let planned = plan_response(&buf, local, remote(), server_ips(), server_ports());
    assert!(planned.is_none());
}

#[test]
fn test_response_port_and_padding_rejected() {
    // both RESPONSE-PORT and PADDING: bad request, answered with an
    // error response from the receiving socket
    let local = SockAddr { ip: ip1(), port: 3478 };
    let mut request = new_request(new_trans_id(), None, Some(9000));
    request.add_attr(new_padding_attr(8).to_raw());
    assert!(validate_req(&request).is_some());

    let buf = request.pack();
    let (response, src, dst) =
        plan_response(&buf, local, remote(), server_ips(), server_ports()).unwrap();
    assert_eq!(response.header.msg_type, MESSAGE_TYPE_BIND_ERR_RES);
    assert_eq!(src, local);
    assert_eq!(dst, remote());
    assert_eq!(response.attrs.len(), 1);
    let err = ErrcodeAttr::try_from_raw(&response.attrs[0]).unwrap();
    assert_eq!(err.code, 400);
    assert_eq!(err.msg, "bad request");
}

#[test]
fn test_validate_req_accepts_plain_request() {
    let request = new_request(new_trans_id(), Some((false, true)), None);
    assert!(validate_req(&request).is_none());
}

#[test]
fn test_validate_req_rejects_response_type() {
    let local = SockAddr { ip: ip1(), port: 3478 };
    let mut request = new_request(new_trans_id(), None, None);
    request.header.msg_type = MESSAGE_TYPE_BIND_RES;
    assert!(validate_req(&request).is_some());
    // still structurally a packet, so the server answers with an error
    let buf = request.pack();
    let (response, _, _) =
        plan_response(&buf, local, remote(), server_ips(), server_ports()).unwrap();
    assert_eq!(response.header.msg_type, MESSAGE_TYPE_BIND_ERR_RES);
}

#[test]
fn test_get_ca_cp_picks_the_other_pair() {
    assert_eq!(get_ca_cp(ip1(), 3478, server_ips(), server_ports()), (ip2(), 3479));
    assert_eq!(get_ca_cp(ip2(), 3479, server_ips(), server_ports()), (ip1(), 3478));
    assert_eq!(get_ca_cp(ip1(), 3479, server_ips(), server_ports()), (ip2(), 3478));
}

#[test]
fn test_get_change_flag_first_match_wins() {
    let mut request = new_request(new_trans_id(), Some((true, false)), Some(9000));
    // a second, contradictory change request is ignored
    request.add_attr(stun_rs::attrs::change_request::ChangeRequest::new(false, true).to_raw());
    let (change_ip, change_port, response_port) = get_change_flag(&request);
    assert!(change_ip);
    assert!(!change_port);
    assert_eq!(response_port, Some(9000));
}

#[test]
fn test_get_response_attribute_order() {
    let local = SockAddr { ip: ip2(), port: 3479 };
    let request = new_request(new_trans_id(), None, None);
    let (response, _, _) = get_response(&request, local, remote(), server_ips(), server_ports());
    let types: Vec<u16> = response.attrs.iter().map(|a| a.attr_type).collect();
    assert_eq!(
        types,
        vec![0x0001, 0x802b, 0x0004, 0x8020, 0x802c, 0x0005]
    );
    // other-address is (ip1, port1) seen from (ip2, port2)
    let other = AddressAttr::try_from_raw(&response.attrs[4]).unwrap();
    assert_eq!(other.address, SockAddr { ip: ip1(), port: 3478 });
}

#[test]
fn test_bad_response_echoes_transaction_id() {
    let request = new_request(new_trans_id(), None, None);
    let local = SockAddr { ip: ip1(), port: 3478 };
    let (response, src, dst) = get_bad_response(&request, local, remote());
    assert_eq!(response.header.msg_type, MESSAGE_TYPE_BIND_ERR_RES);
    assert_eq!(response.header.trans_id, request.header.trans_id);
    assert_eq!(src, local);
    assert_eq!(dst, remote());
}

#[test]
fn test_request_with_response_port_validates() {
    let request = new_request(new_trans_id(), None, Some(9000));
    assert!(validate_req(&request).is_none());
    let found = ResponsePort::try_from_raw(&request.attrs[0]).unwrap();
    assert_eq!(found.port, 9000);
}

#[test]
fn test_unpack_rejects_garbage_then_server_survives() {
    // a packet whose header length exceeds the bytes present is dropped
    let local = SockAddr { ip: ip1(), port: 3478 };
    let request = new_request(new_trans_id(), None, None);
    let mut buf = request.pack();
    buf.truncate(15);
    assert!(Packet::unpack(&buf).is_err());
    assert!(plan_response(&buf, local, remote(), server_ips(), server_ports()).is_none());
}
