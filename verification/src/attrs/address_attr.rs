use vstd::prelude::*;

use crate::addr::IpAddress;
use crate::addr::IpModel;
use crate::addr::SockAddr;
use crate::addr::SockAddrModel;
use crate::attrs::RawAttr;
use crate::constants::ATTR_CHANGED_ADDRESS;
use crate::constants::ATTR_FAMILY_IPV4;
use crate::constants::ATTR_FAMILY_IPV6;
use crate::constants::ATTR_MAPPED_ADDRESS;
use crate::constants::ATTR_OTHER_ADDRESS;
use crate::constants::ATTR_RESPONSE_ORIGIN;
use crate::constants::ATTR_SOURCE_ADDRESS;
use crate::error::AttrValidator;
use crate::error::ParseErrKind;
use crate::error::ParsePacketErr;
use crate::error::ValidateErr;
use crate::wire::be16;
use crate::wire::hi8;
use crate::wire::lo8;
use crate::wire::u16_from_be;
use crate::wire::u16_to_be;

verus! {

/// An attribute that carries an address: one reserved byte, one family
/// byte, the port, then the four or sixteen address octets.  The same
/// layout serves several attribute type codes.
#[derive(Debug, Clone, Copy, PartialEq)]
pub struct AddressAttr {
    pub attr_type: u16,
    pub address: SockAddr,
}

/// The attribute type codes that use the address layout.
pub open spec fn is_address_type(t: u16) -> bool {
    t == ATTR_MAPPED_ADDRESS || t == ATTR_SOURCE_ADDRESS || t == ATTR_CHANGED_ADDRESS || t
        == ATTR_OTHER_ADDRESS || t == ATTR_RESPONSE_ORIGIN
}

/// The value bytes that encode an address.
pub open spec fn addr_value_wire(a: SockAddrModel) -> Seq<u8> {
    match a.ip {
        IpModel::V4(b) => seq![0u8, ATTR_FAMILY_IPV4, hi8(a.port), lo8(a.port)] + b,
        IpModel::V6(b) => seq![0u8, ATTR_FAMILY_IPV6, hi8(a.port), lo8(a.port)] + b,
    }
}

/// The value bytes hold a whole address of the family they announce.
pub open spec fn addr_value_ok(v: Seq<u8>) -> bool {
    v.len() >= 4 && ((v[1] == ATTR_FAMILY_IPV4 && v.len() >= 8) || (v[1] == ATTR_FAMILY_IPV6
        && v.len() >= 20))
}

/// The address that a well-formed value encodes.  The reserved byte is
/// ignored, exactly as decoding ignores it.
pub open spec fn addr_value_model(v: Seq<u8>) -> SockAddrModel {
    SockAddrModel {
        ip: if v[1] == ATTR_FAMILY_IPV4 {
            IpModel::V4(v.subrange(4, 8))
        } else {
            IpModel::V6(v.subrange(4, 20))
        },
        port: be16(v[2], v[3]),
    }
}

/// An encoded address value is 8 bytes for IPv4 and 20 for IPv6.
pub proof fn lemma_addr_value_wire_len(a: SockAddrModel)
    requires
        crate::addr::sock_addr_model_wf(a),
    ensures
        addr_value_wire(a).len() == 4 + (match a.ip {
            IpModel::V4(b) => b.len(),
            IpModel::V6(b) => b.len(),
        }),
        addr_value_wire(a).len() <= 20,
{
}

/// Encoding the address a value holds gives the value back, reserved
/// byte and surplus bytes aside.
pub proof fn lemma_addr_value_round_trip(a: SockAddrModel)
    requires
        crate::addr::sock_addr_model_wf(a),
    ensures
        addr_value_ok(addr_value_wire(a)),
        addr_value_model(addr_value_wire(a)) == a,
{
    let w = addr_value_wire(a);
    crate::wire::lemma_split_of_be16(hi8(a.port), lo8(a.port));
    crate::wire::lemma_be16_of_split(a.port);
    match a.ip {
        IpModel::V4(b) => {
            assert(w.subrange(4, 8) =~= b);
        },
        IpModel::V6(b) => {
            assert(w.subrange(4, 20) =~= b);
        },
    }
}

/// Which failure decoding an address value reports.
pub open spec fn addr_decode_err(v: Seq<u8>) -> ParseErrKind {
    if v.len() < 4 {
        ParseErrKind::BufSize
    } else if v[1] == ATTR_FAMILY_IPV4 || v[1] == ATTR_FAMILY_IPV6 {
        ParseErrKind::BufSize
    } else {
        ParseErrKind::BadValue
    }
}

impl AddressAttr {
    pub fn new(attr_type: u16, address: SockAddr) -> (r: Self)
        ensures
            r.attr_type == attr_type,
            r.address == address,
    {
        Self { attr_type, address }
    }

    pub fn is_like_mapped_addr(attr_type: u16) -> (r: bool)
        ensures
            r == is_address_type(attr_type),
    {
        attr_type == ATTR_MAPPED_ADDRESS || attr_type == ATTR_SOURCE_ADDRESS || attr_type
            == ATTR_CHANGED_ADDRESS || attr_type == ATTR_OTHER_ADDRESS || attr_type
            == ATTR_RESPONSE_ORIGIN
    }

    pub fn to_raw(&self) -> (r: RawAttr)
        ensures
            r.wf(),
            r.attr_type == self.attr_type,
            r.value@ == addr_value_wire(self.address@),
    {
        let (p_hi, p_lo) = u16_to_be(self.address.port);
        let mut v: Vec<u8> = Vec::new();
        v.push(0);
        match self.address.ip {
            IpAddress::V4(b) => {
                v.push(ATTR_FAMILY_IPV4);
                v.push(p_hi);
                v.push(p_lo);
                v.extend_from_slice(b.as_slice());
            },
            IpAddress::V6(b) => {
                v.push(ATTR_FAMILY_IPV6);
                v.push(p_hi);
                v.push(p_lo);
                v.extend_from_slice(b.as_slice());
            },
        }
        proof {
            assert(v@ =~= addr_value_wire(self.address@));
        }
        RawAttr::new(self.attr_type, v)
    }

    /// Decode the address layout from a raw attribute's value; bytes past
    /// the announced family's length are ignored.
    pub fn try_from_raw(base_attr: &RawAttr) -> (r: Result<Self, ParsePacketErr>)
        ensures
            r is Ok <==> addr_value_ok(base_attr.value@),
            r matches Ok(a) ==> a.attr_type == base_attr.attr_type && a.address@
                == addr_value_model(base_attr.value@),
            r matches Err(e) ==> e.kind() == addr_decode_err(base_attr.value@),
    {
        let v = &base_attr.value;
        if v.len() < 4 {
            return Err(ParsePacketErr::BufSize("address value shorter than 4 bytes".to_owned()));
        }
        let family = v[1];
        let port = u16_from_be(v[2], v[3]);
        if family == ATTR_FAMILY_IPV4 {
            if v.len() < 8 {
                return Err(ParsePacketErr::BufSize("too few bytes for an IPv4 address".to_owned()));
            }
            let ip = [v[4], v[5], v[6], v[7]];
            let address = SockAddr { ip: IpAddress::V4(ip), port };
            proof {
                assert(ip@ =~= base_attr.value@.subrange(4, 8));
            }
            Ok(Self { attr_type: base_attr.attr_type, address })
        } else if family == ATTR_FAMILY_IPV6 {
            if v.len() < 20 {
                return Err(ParsePacketErr::BufSize("too few bytes for an IPv6 address".to_owned()));
            }
            let ip = [
                v[4],
                v[5],
                v[6],
                v[7],
                v[8],
                v[9],
                v[10],
                v[11],
                v[12],
                v[13],
                v[14],
                v[15],
                v[16],
                v[17],
                v[18],
                v[19],
            ];
            let address = SockAddr { ip: IpAddress::V6(ip), port };
            proof {
                assert(ip@ =~= base_attr.value@.subrange(4, 20));
            }
            Ok(Self { attr_type: base_attr.attr_type, address })
        } else {
            Err(ParsePacketErr::BadValue("unknown address family".to_owned()))
        }
    }
}

impl AttrValidator for AddressAttr {
    /// An address-layout type code and a usable port.
    open spec fn valid(&self) -> bool {
        is_address_type(self.attr_type) && 0 < self.address.port < 65535
    }

    fn validate(&self) -> (r: Option<ValidateErr>) {
        if !AddressAttr::is_like_mapped_addr(self.attr_type) {
            return Some(ValidateErr("not an address attribute type".to_owned()));
        }
        let port = self.address.port;
        if port > 0 && port < 65535 {
            return None;
        }
        Some(ValidateErr("address port out of range".to_owned()))
    }
}

} // verus!
