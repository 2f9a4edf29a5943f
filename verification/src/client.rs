use vstd::prelude::*;

use crate::addr::SockAddr;
use crate::addr::xor_addr_model;
use crate::attrs::address_attr::AddressAttr;
use crate::attrs::address_attr::addr_value_model;
use crate::attrs::address_attr::addr_value_ok;
use crate::attrs::change_request::ChangeRequest;
use crate::attrs::response_port::ResponsePort;
use crate::attrs::xor_address::XorMappedAddress;
use crate::constants::ATTR_CHANGE_REQUEST;
use crate::constants::ATTR_MAPPED_ADDRESS;
use crate::constants::ATTR_OTHER_ADDRESS;
use crate::constants::ATTR_RESPONSE_ORIGIN;
use crate::constants::ATTR_RESPONSE_PORT;
use crate::constants::ATTR_XOR_MAPPED_ADDRESS;
use crate::constants::MESSAGE_TYPE_BIND_REQ;
use crate::error::ValidateErr;
use crate::header::Header;
use crate::header::TransId;
use crate::packet::Packet;
use crate::wire::AttrModel;

verus! {

/// What went wrong while probing: a human-readable reason.
#[derive(Debug)]
pub struct ProbeError(pub String);

impl From<ValidateErr> for ProbeError {
    fn from(e: ValidateErr) -> (r: Self) {
        ProbeError(e.0)
    }
}

impl vstd::std_specs::convert::FromSpecImpl<ValidateErr> for ProbeError {
    open spec fn obeys_from_spec() -> bool {
        true
    }

    open spec fn from_spec(e: ValidateErr) -> Self {
        ProbeError(e.0)
    }
}

impl From<String> for ProbeError {
    fn from(e: String) -> (r: Self) {
        ProbeError(e)
    }
}

impl vstd::std_specs::convert::FromSpecImpl<String> for ProbeError {
    open spec fn obeys_from_spec() -> bool {
        true
    }

    open spec fn from_spec(e: String) -> Self {
        ProbeError(e)
    }
}

/// The four addresses a binding response tells the client.
#[derive(Debug, Clone, Copy)]
pub struct ResponseAddressAttr {
    pub mapped_address: SockAddr,
    pub response_origin: SockAddr,
    pub other_address: SockAddr,
    pub xor_mapped_address: SockAddr,
}

/// The first attribute of the given type, if any: attribute order is
/// observable and the first match wins.
pub open spec fn find_attr(s: Seq<AttrModel>, t: u16) -> Option<AttrModel>
    decreases s.len(),
{
    if s.len() == 0 {
        None
    } else if s[0].attr_type == t {
        Some(s[0])
    } else {
        find_attr(s.skip(1), t)
    }
}

/// The attributes of an outbound binding request: the change flags if
/// asked for, then the response port if asked for.
pub open spec fn request_attrs(cr: Option<(bool, bool)>, rp: Option<u16>) -> Seq<AttrModel> {
    (if cr is Some {
        let flags = cr->0;
        seq![
            AttrModel {
                attr_type: ATTR_CHANGE_REQUEST,
                value: (ChangeRequest { change_ip: flags.0, change_port: flags.1 }).value_wire(),
            },
        ]
    } else {
        Seq::empty()
    }) + (if rp is Some {
        seq![
            AttrModel {
                attr_type: ATTR_RESPONSE_PORT,
                value: (ResponsePort { port: rp->0 }).value_wire(),
            },
        ]
    } else {
        Seq::empty()
    })
}

/// Build one outbound binding request.
pub fn new_request(
    trans_id: TransId,
    change_request: Option<(bool, bool)>,
    response_port: Option<u16>,
) -> (r: Packet)
    ensures
        r.wf(),
        r.header.msg_type == MESSAGE_TYPE_BIND_REQ,
        r.header.trans_id == trans_id,
        r@.attrs == request_attrs(change_request, response_port),
{
    let header = Header::new(MESSAGE_TYPE_BIND_REQ, 0, trans_id);
    let mut request = Packet::new(header, Vec::new());
    proof {
        assert(request@.attrs =~= Seq::<AttrModel>::empty());
    }
    if let Some((change_ip, change_port)) = change_request {
        let attr = ChangeRequest::new(change_ip, change_port);
        request.add_attr(attr.to_raw());
    }
    if let Some(port) = response_port {
        let attr = ResponsePort::new(port);
        request.add_attr(attr.to_raw());
    }
    proof {
        assert(request@.attrs =~= request_attrs(change_request, response_port));
    }
    request
}

/// The first attribute of the given type, decoded as an address.
pub fn find_address_attr(packet: &Packet, attr_type: u16) -> (r: Result<SockAddr, ProbeError>)
    ensures
        r is Ok <==> (find_attr(packet@.attrs, attr_type) matches Some(a) && addr_value_ok(
            a.value,
        )),
        r matches Ok(addr) ==> (find_attr(packet@.attrs, attr_type) matches Some(a) && addr@
            == addr_value_model(a.value)),
{
    let ghost models = crate::attrs::raw_seq_model(packet.attrs@);
    let mut i: usize = 0;
    proof {
        assert(models.skip(0) =~= models);
    }
    while i < packet.attrs.len()
        invariant
            i <= packet.attrs@.len(),
            models == crate::attrs::raw_seq_model(packet.attrs@),
            find_attr(models, attr_type) == find_attr(models.skip(i as int), attr_type),
        decreases packet.attrs@.len() - i,
    {
        let attr = &packet.attrs[i];
        proof {
            assert(models[i as int] == packet.attrs@[i as int]@);
            assert(models.skip(i as int)[0] == models[i as int]);
            assert(models.skip(i as int).skip(1) =~= models.skip(i as int + 1));
        }
        if attr.attr_type == attr_type {
            match AddressAttr::try_from_raw(attr) {
                Ok(address_attr) => {
                    return Ok(address_attr.address);
                },
                Err(_) => {
                    return Err(ProbeError("malformed address attribute".to_owned()));
                },
            }
        }
        i += 1;
    }
    proof {
        assert(models.skip(i as int) =~= Seq::<AttrModel>::empty());
    }
    Err(ProbeError("address attribute not found".to_owned()))
}

/// The first XOR-mapped address attribute, decoded with the packet's
/// own transaction id.
pub fn find_xor_address_attr(packet: &Packet) -> (r: Result<SockAddr, ProbeError>)
    ensures
        r is Ok <==> (find_attr(packet@.attrs, ATTR_XOR_MAPPED_ADDRESS) matches Some(a)
            && addr_value_ok(a.value)),
        r matches Ok(addr) ==> (find_attr(packet@.attrs, ATTR_XOR_MAPPED_ADDRESS) matches Some(a)
            && addr@ == xor_addr_model(addr_value_model(a.value), packet@.header.trans_id)),
{
    let ghost models = crate::attrs::raw_seq_model(packet.attrs@);
    let mut i: usize = 0;
    proof {
        assert(models.skip(0) =~= models);
    }
    while i < packet.attrs.len()
        invariant
            i <= packet.attrs@.len(),
            models == crate::attrs::raw_seq_model(packet.attrs@),
            find_attr(models, ATTR_XOR_MAPPED_ADDRESS) == find_attr(
                models.skip(i as int),
                ATTR_XOR_MAPPED_ADDRESS,
            ),
        decreases packet.attrs@.len() - i,
    {
        let attr = &packet.attrs[i];
        proof {
            assert(models[i as int] == packet.attrs@[i as int]@);
            assert(models.skip(i as int)[0] == models[i as int]);
            assert(models.skip(i as int).skip(1) =~= models.skip(i as int + 1));
        }
        if attr.attr_type == ATTR_XOR_MAPPED_ADDRESS {
            match XorMappedAddress::from_base_attr(attr, &packet.header.trans_id) {
                Ok(xor_attr) => {
                    return Ok(xor_attr.address);
                },
                Err(_) => {
                    return Err(ProbeError("malformed xor-mapped address attribute".to_owned()));
                },
            }
        }
        i += 1;
    }
    proof {
        assert(models.skip(i as int) =~= Seq::<AttrModel>::empty());
    }
    Err(ProbeError("xor-mapped address attribute not found".to_owned()))
}

/// All four addresses a binding response carries, or the first one that
/// is missing or malformed.
pub fn find_response_attrs(packet: &Packet) -> (r: Result<ResponseAddressAttr, ProbeError>)
    ensures
        r is Ok <==> (find_attr(packet@.attrs, ATTR_MAPPED_ADDRESS) matches Some(m)
            && addr_value_ok(m.value)) && (find_attr(
            packet@.attrs,
            ATTR_RESPONSE_ORIGIN,
        ) matches Some(o) && addr_value_ok(o.value)) && (find_attr(
            packet@.attrs,
            ATTR_OTHER_ADDRESS,
        ) matches Some(t) && addr_value_ok(t.value)) && (find_attr(
            packet@.attrs,
            ATTR_XOR_MAPPED_ADDRESS,
        ) matches Some(x) && addr_value_ok(x.value)),
        r matches Ok(a) ==> (find_attr(packet@.attrs, ATTR_MAPPED_ADDRESS) matches Some(m)
            && a.mapped_address@ == addr_value_model(m.value)) && (find_attr(
            packet@.attrs,
            ATTR_RESPONSE_ORIGIN,
        ) matches Some(o) && a.response_origin@ == addr_value_model(o.value)) && (find_attr(
            packet@.attrs,
            ATTR_OTHER_ADDRESS,
        ) matches Some(t) && a.other_address@ == addr_value_model(t.value)) && (find_attr(
            packet@.attrs,
            ATTR_XOR_MAPPED_ADDRESS,
        ) matches Some(x) && a.xor_mapped_address@ == xor_addr_model(
            addr_value_model(x.value),
            packet@.header.trans_id,
        )),
{
    let mapped_address = match find_address_attr(packet, ATTR_MAPPED_ADDRESS) {
        Ok(v) => v,
        Err(e) => {
            return Err(e);
        },
    };
    let response_origin = match find_address_attr(packet, ATTR_RESPONSE_ORIGIN) {
        Ok(v) => v,
        Err(e) => {
            return Err(e);
        },
    };
    let other_address = match find_address_attr(packet, ATTR_OTHER_ADDRESS) {
        Ok(v) => v,
        Err(e) => {
            return Err(e);
        },
    };
    let xor_mapped_address = match find_xor_address_attr(packet) {
        Ok(v) => v,
        Err(e) => {
            return Err(e);
        },
    };
    Ok(ResponseAddressAttr { mapped_address, response_origin, other_address, xor_mapped_address })
}

} // verus!
