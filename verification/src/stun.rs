use vstd::prelude::*;

use crate::addr::IpAddress;
use crate::addr::SockAddr;
use crate::addr::sock_addr_model_wf;
use crate::addr::xor_addr_model;
use crate::attrs::RawAttr;
use crate::attrs::address_attr::AddressAttr;
use crate::attrs::address_attr::addr_value_wire;
use crate::attrs::change_request::ChangeRequest;
use crate::attrs::errcode_attr::ErrcodeAttr;
use crate::attrs::errcode_attr::errcode_value_wire;
use crate::attrs::response_port::ResponsePort;
use crate::attrs::xor_address::XorMappedAddress;
use crate::constants::ATTR_CHANGED_ADDRESS;
use crate::constants::ATTR_CHANGE_REQUEST;
use crate::constants::ATTR_ERROR_CODE;
use crate::constants::ATTR_MAPPED_ADDRESS;
use crate::constants::ATTR_OTHER_ADDRESS;
use crate::constants::ATTR_PADDING;
use crate::constants::ATTR_RESPONSE_ORIGIN;
use crate::constants::ATTR_RESPONSE_PORT;
use crate::constants::ATTR_SOURCE_ADDRESS;
use crate::constants::ATTR_XOR_MAPPED_ADDRESS;
use crate::constants::ERROR_CODE_BAD_REQUEST;
use crate::constants::MESSAGE_TYPE_BIND_ERR_RES;
use crate::constants::MESSAGE_TYPE_BIND_REQ;
use crate::constants::MESSAGE_TYPE_BIND_RES;
use crate::error::ParsePacketErr;
use crate::header::Header;
use crate::packet::Packet;
use crate::packet::packet_valid;
use crate::wire::AttrModel;
use crate::wire::PacketModel;
use crate::wire::be16;
use crate::wire::spec_unpack;
use vstd::utf8::encode_utf8;
use vstd::utf8::is_ascii_chars_encode_utf8;

verus! {

/// Some attribute of this type is present.
pub open spec fn has_attr(s: Seq<AttrModel>, t: u16) -> bool {
    exists|i: int| 0 <= i < s.len() && s[i].attr_type == t
}

/// A request the server answers with a binding response: a binding
/// request that passes validation and does not carry RESPONSE-PORT and
/// PADDING at the same time.
pub open spec fn req_valid(p: PacketModel) -> bool {
    &&& p.header.msg_type == MESSAGE_TYPE_BIND_REQ
    &&& packet_valid(p)
    &&& !(has_attr(p.attrs, ATTR_RESPONSE_PORT) && has_attr(p.attrs, ATTR_PADDING))
}

/// The change flags of the first CHANGE-REQUEST attribute whose value
/// decodes; absent one, both flags are off.
pub open spec fn spec_change_flags(s: Seq<AttrModel>) -> (bool, bool)
    decreases s.len(),
{
    if s.len() == 0 {
        (false, false)
    } else if s[0].attr_type == ATTR_CHANGE_REQUEST && s[0].value.len() == 4 {
        (s[0].value[3] & 0x04 == 0x04, s[0].value[3] & 0x02 == 0x02)
    } else {
        spec_change_flags(s.skip(1))
    }
}

/// The port of the first RESPONSE-PORT attribute whose value decodes.
pub open spec fn spec_response_port(s: Seq<AttrModel>) -> Option<u16>
    decreases s.len(),
{
    if s.len() == 0 {
        None
    } else if s[0].attr_type == ATTR_RESPONSE_PORT && s[0].value.len() == 4 {
        Some(be16(s[0].value[0], s[0].value[1]))
    } else {
        spec_response_port(s.skip(1))
    }
}

/// The server identity that differs from the receiving one in IP.
pub open spec fn alt_ip(da: IpAddress, ips: [IpAddress; 2]) -> IpAddress {
    if da == ips@[0] {
        ips@[1]
    } else {
        ips@[0]
    }
}

/// The server identity that differs from the receiving one in port.
pub open spec fn alt_port(dp: u16, ports: [u16; 2]) -> u16 {
    if dp == ports@[0] {
        ports@[1]
    } else {
        ports@[0]
    }
}

/// Which socket identity the response leaves from: the receiving one,
/// with IP and/or port swapped to the alternates as the request's
/// change flags ask.
pub open spec fn response_source(
    flags: (bool, bool),
    local: SockAddr,
    ips: [IpAddress; 2],
    ports: [u16; 2],
) -> SockAddr {
    SockAddr {
        ip: if flags.0 {
            alt_ip(local.ip, ips)
        } else {
            local.ip
        },
        port: if flags.1 {
            alt_port(local.port, ports)
        } else {
            local.port
        },
    }
}

/// Where the response goes: the request's source, with the port
/// overridden when the request named one.
pub open spec fn response_dest(rp: Option<u16>, remote: SockAddr) -> SockAddr {
    SockAddr {
        ip: remote.ip,
        port: if rp is Some {
            rp->0
        } else {
            remote.port
        },
    }
}

/// The six attributes of a successful binding response, in order.
pub open spec fn response_attrs(
    local: SockAddr,
    remote: SockAddr,
    ips: [IpAddress; 2],
    ports: [u16; 2],
    tid: Seq<u8>,
) -> Seq<AttrModel> {
    let other = SockAddr { ip: alt_ip(local.ip, ips), port: alt_port(local.port, ports) };
    seq![
        AttrModel { attr_type: ATTR_MAPPED_ADDRESS, value: addr_value_wire(remote@) },
        AttrModel { attr_type: ATTR_RESPONSE_ORIGIN, value: addr_value_wire(local@) },
        AttrModel { attr_type: ATTR_SOURCE_ADDRESS, value: addr_value_wire(local@) },
        AttrModel {
            attr_type: ATTR_XOR_MAPPED_ADDRESS,
            value: addr_value_wire(xor_addr_model(remote@, tid)),
        },
        AttrModel { attr_type: ATTR_OTHER_ADDRESS, value: addr_value_wire(other@) },
        AttrModel { attr_type: ATTR_CHANGED_ADDRESS, value: addr_value_wire(other@) },
    ]
}

/// The one attribute of a bad-request error response.
pub open spec fn bad_response_attrs() -> Seq<AttrModel> {
    seq![
        AttrModel {
            attr_type: ATTR_ERROR_CODE,
            value: errcode_value_wire(ERROR_CODE_BAD_REQUEST, "bad request"@),
        },
    ]
}

/// Read a request packet out of a datagram.
pub fn parse_request(buf: &[u8]) -> (r: Result<Packet, ParsePacketErr>)
    ensures
        r matches Ok(p) ==> p.wf() && spec_unpack(buf@) == Ok::<
            PacketModel,
            crate::error::ParseErrKind,
        >(p@),
        r matches Err(e) ==> spec_unpack(buf@) matches Err(k) && e.kind() == k,
{
    Packet::unpack(buf)
}

/// Decide whether a parsed packet is a request this server answers
/// normally; a reason is returned exactly when it is not.
pub fn validate_req(req: &Packet) -> (r: Option<String>)
    ensures
        r is None <==> req_valid(req@),
{
    if req.header.msg_type != MESSAGE_TYPE_BIND_REQ {
        return Some("not a binding request".to_owned());
    }
    if let Some(_) = req.validate() {
        return Some("a field value breaks the protocol rules".to_owned());
    }
    let ghost models = crate::attrs::raw_seq_model(req.attrs@);
    let mut has_res_port = false;
    let mut has_padding = false;
    let mut i: usize = 0;
    while i < req.attrs.len()
        invariant
            i <= req.attrs@.len(),
            models == crate::attrs::raw_seq_model(req.attrs@),
            has_res_port == has_attr(models.take(i as int), ATTR_RESPONSE_PORT),
            has_padding == has_attr(models.take(i as int), ATTR_PADDING),
        decreases req.attrs@.len() - i,
    {
        let attr_type = req.attrs[i].attr_type;
        proof {
            assert(models[i as int] == req.attrs@[i as int]@);
        }
        if attr_type == ATTR_RESPONSE_PORT {
            has_res_port = true;
        }
        if attr_type == ATTR_PADDING {
            has_padding = true;
        }
        proof {
            let upto = models.take(i as int + 1);
            assert(upto.take(i as int) =~= models.take(i as int));
            assert(upto[i as int] == models[i as int]);
            assert forall|t: u16| has_attr(upto, t) implies has_attr(models.take(i as int), t)
                || models[i as int].attr_type == t by {
                let w = choose|k: int| 0 <= k < upto.len() && upto[k].attr_type == t;
                if w < i {
                    assert(models.take(i as int)[w].attr_type == t);
                }
            }
            assert forall|t: u16|
                has_attr(models.take(i as int), t) implies has_attr(upto, t) by {
                let w = choose|k: int|
                    0 <= k < models.take(i as int).len() && models.take(i as int)[k].attr_type
                        == t;
                assert(upto[w].attr_type == t);
            }
            if models[i as int].attr_type == ATTR_RESPONSE_PORT {
                assert(has_attr(upto, ATTR_RESPONSE_PORT));
            }
            if models[i as int].attr_type == ATTR_PADDING {
                assert(has_attr(upto, ATTR_PADDING));
            }
        }
        i += 1;
    }
    proof {
        assert(models.take(i as int) =~= models);
        assert(models == req@.attrs);
    }
    if has_res_port && has_padding {
        return Some("RESPONSE-PORT and PADDING appear at the same time".to_owned());
    }
    None
}

/// The change flags and the requested response port of a request:
/// first decodable match of each attribute kind wins.
pub fn get_change_flag(req: &Packet) -> (r: (bool, bool, Option<u16>))
    ensures
        (r.0, r.1) == spec_change_flags(req@.attrs),
        r.2 == spec_response_port(req@.attrs),
{
    let ghost models = crate::attrs::raw_seq_model(req.attrs@);
    let mut change_ip = false;
    let mut change_port = false;
    let mut found_cr = false;
    let mut response_port: Option<u16> = None;
    let mut i: usize = 0;
    proof {
        assert(models.skip(0) =~= models);
    }
    while i < req.attrs.len()
        invariant
            i <= req.attrs@.len(),
            models == crate::attrs::raw_seq_model(req.attrs@),
            spec_change_flags(models) == (if found_cr {
                (change_ip, change_port)
            } else {
                spec_change_flags(models.skip(i as int))
            }),
            spec_response_port(models) == (if response_port is Some {
                response_port
            } else {
                spec_response_port(models.skip(i as int))
            }),
            !found_cr ==> (change_ip, change_port) == (false, false),
        decreases req.attrs@.len() - i,
    {
        let attr = &req.attrs[i];
        proof {
            assert(models[i as int] == req.attrs@[i as int]@);
            assert(models.skip(i as int)[0] == models[i as int]);
            assert(models.skip(i as int).skip(1) =~= models.skip(i as int + 1));
        }
        if !found_cr && attr.attr_type == ATTR_CHANGE_REQUEST {
            match ChangeRequest::try_from_raw(attr) {
                Ok(v) => {
                    change_ip = v.change_ip;
                    change_port = v.change_port;
                    found_cr = true;
                },
                Err(_) => {},
            }
        }
        if response_port.is_none() && attr.attr_type == ATTR_RESPONSE_PORT {
            match ResponsePort::try_from_raw(attr) {
                Ok(v) => {
                    response_port = Some(v.port);
                },
                Err(_) => {},
            }
        }
        i += 1;
    }
    proof {
        assert(models.skip(i as int) =~= Seq::<AttrModel>::empty());
        assert(models == req@.attrs);
    }
    (change_ip, change_port, response_port)
}

/// The alternate server identity seen from the receiving one: the other
/// IP of the pair and the other port of the pair.
pub fn get_ca_cp(da: IpAddress, dp: u16, ips: [IpAddress; 2], ports: [u16; 2]) -> (r: (
    IpAddress,
    u16,
))
    ensures
        r.0 == alt_ip(da, ips),
        r.1 == alt_port(dp, ports),
{
    let ca = if da == ips[0] {
        ips[1]
    } else {
        ips[0]
    };
    let cp = if dp == ports[0] {
        ports[1]
    } else {
        ports[0]
    };
    (ca, cp)
}

/// Build the binding response for a validated request received on
/// `local_addr` from `remote_addr`, and pick the source and destination
/// addresses the protocol asks for.
pub fn get_response(
    req: &Packet,
    local_addr: SockAddr,
    remote_addr: SockAddr,
    ips: [IpAddress; 2],
    ports: [u16; 2],
) -> (r: (Packet, SockAddr, SockAddr))
    ensures
        r.0.wf(),
        r.0.header.msg_type == MESSAGE_TYPE_BIND_RES,
        r.0.header.trans_id == req.header.trans_id,
        r.0@.attrs == response_attrs(local_addr, remote_addr, ips, ports, req.header.trans_id@),
        r.1 == response_source(spec_change_flags(req@.attrs), local_addr, ips, ports),
        r.2 == response_dest(spec_response_port(req@.attrs), remote_addr),
{
    let trans_id = req.header.trans_id;
    let header = Header::new(MESSAGE_TYPE_BIND_RES, 0, trans_id);

    let (ca, cp) = get_ca_cp(local_addr.ip, local_addr.port, ips, ports);
    let other_addr = SockAddr { ip: ca, port: cp };

    proof {
        crate::addr::lemma_sock_addr_wf(local_addr);
        crate::addr::lemma_sock_addr_wf(remote_addr);
        crate::addr::lemma_sock_addr_wf(other_addr);
        crate::attrs::address_attr::lemma_addr_value_wire_len(remote_addr@);
        crate::attrs::address_attr::lemma_addr_value_wire_len(local_addr@);
        crate::attrs::address_attr::lemma_addr_value_wire_len(other_addr@);
        crate::attrs::address_attr::lemma_addr_value_wire_len(
            xor_addr_model(remote_addr@, trans_id@),
        );
    }

    let mut response = Packet::new(header, Vec::new());
    proof {
        assert(crate::attrs::raw_seq_model(Seq::<RawAttr>::empty()) =~= Seq::<
            AttrModel,
        >::empty());
        assert(response@.attrs =~= Seq::<AttrModel>::empty());
    }
    response.add_attr(AddressAttr::new(ATTR_MAPPED_ADDRESS, remote_addr).to_raw());
    response.add_attr(AddressAttr::new(ATTR_RESPONSE_ORIGIN, local_addr).to_raw());
    response.add_attr(AddressAttr::new(ATTR_SOURCE_ADDRESS, local_addr).to_raw());
    response.add_attr(XorMappedAddress::new(trans_id, remote_addr).to_raw());
    response.add_attr(AddressAttr::new(ATTR_OTHER_ADDRESS, other_addr).to_raw());
    response.add_attr(AddressAttr::new(ATTR_CHANGED_ADDRESS, other_addr).to_raw());
    proof {
        assert(response@.attrs =~= response_attrs(
            local_addr,
            remote_addr,
            ips,
            ports,
            trans_id@,
        ));
    }

    let (change_ip, change_port, response_port) = get_change_flag(req);

    let dst_addr = match response_port {
        None => remote_addr,
        Some(v) => SockAddr { ip: remote_addr.ip, port: v },
    };

    let src_ip = if change_ip {
        ca
    } else {
        local_addr.ip
    };
    let src_port = if change_port {
        cp
    } else {
        local_addr.port
    };
    let src_addr = SockAddr { ip: src_ip, port: src_port };

    (response, src_addr, dst_addr)
}

/// Build the error response for a request that failed validation.  It
/// always goes back from the receiving socket to the request's source.
pub fn get_bad_response(req: &Packet, local_addr: SockAddr, remote_addr: SockAddr) -> (r: (
    Packet,
    SockAddr,
    SockAddr,
))
    ensures
        r.0.wf(),
        r.0.header.msg_type == MESSAGE_TYPE_BIND_ERR_RES,
        r.0.header.trans_id == req.header.trans_id,
        r.0@.attrs == bad_response_attrs(),
        r.1 == local_addr,
        r.2 == remote_addr,
{
    let trans_id = req.header.trans_id;
    let header = Header::new(MESSAGE_TYPE_BIND_ERR_RES, 0, trans_id);

    let mut res = Packet::new(header, Vec::new());
    proof {
        assert(crate::attrs::raw_seq_model(Seq::<RawAttr>::empty()) =~= Seq::<
            AttrModel,
        >::empty());
        assert(res@.attrs =~= Seq::<AttrModel>::empty());
        reveal_strlit("bad request");
        assert(vstd::utf8::is_ascii_chars("bad request"@));
        is_ascii_chars_encode_utf8("bad request"@);
        assert(encode_utf8("bad request"@).len() == 11);
    }
    res.add_attr(ErrcodeAttr::new(ERROR_CODE_BAD_REQUEST, "bad request").to_raw());
    proof {
        assert(res@.attrs =~= bad_response_attrs());
    }
    (res, local_addr, remote_addr)
}

/// Everything the server decides about one datagram: parse, validate,
/// and choose the response packet, its source identity and its
/// destination.  `None` means the datagram is dropped without an answer.
pub fn plan_response(
    buf: &[u8],
    local_addr: SockAddr,
    remote_addr: SockAddr,
    ips: [IpAddress; 2],
    ports: [u16; 2],
) -> (r: Option<(Packet, SockAddr, SockAddr)>)
    ensures
        r is Some <==> spec_unpack(buf@) is Ok,
        r matches Some(t) ==> (spec_unpack(buf@) matches Ok(p) && t.0.wf()
            && t.0.header.trans_id@ == p.header.trans_id && (req_valid(p)
            ==> t.0.header.msg_type == MESSAGE_TYPE_BIND_RES && t.0@.attrs == response_attrs(
            local_addr,
            remote_addr,
            ips,
            ports,
            p.header.trans_id,
        ) && t.1 == response_source(spec_change_flags(p.attrs), local_addr, ips, ports) && t.2
            == response_dest(spec_response_port(p.attrs), remote_addr)) && (!req_valid(p)
            ==> t.0.header.msg_type == MESSAGE_TYPE_BIND_ERR_RES && t.0@.attrs
            == bad_response_attrs() && t.1 == local_addr && t.2 == remote_addr)),
{
    let request = match parse_request(buf) {
        Ok(v) => v,
        Err(_) => {
            return None;
        },
    };
    if let Some(_) = validate_req(&request) {
        let (response, src_addr, dst_addr) = get_bad_response(&request, local_addr, remote_addr);
        return Some((response, src_addr, dst_addr));
    }
    let (response, src_addr, dst_addr) = get_response(
        &request,
        local_addr,
        remote_addr,
        ips,
        ports,
    );
    Some((response, src_addr, dst_addr))
}

} // verus!
