use vstd::prelude::*;

use crate::addr::SockAddr;
use crate::addr::xor_addr_model;
use crate::attrs::RawAttr;
use crate::attrs::address_attr::AddressAttr;
use crate::attrs::address_attr::addr_decode_err;
use crate::attrs::address_attr::addr_value_model;
use crate::attrs::address_attr::addr_value_ok;
use crate::attrs::address_attr::addr_value_wire;
use crate::constants::ATTR_XOR_MAPPED_ADDRESS;
use crate::error::AttrValidator;
use crate::error::ParsePacketErr;
use crate::error::ValidateErr;
use crate::header::TransId;
use crate::util::xor_address;

verus! {

/// An address attribute whose value bytes carry the address obfuscated
/// by the XOR transform; the clear address lives here, together with the
/// transaction id the transform needs.
#[derive(Debug, Clone, Copy, PartialEq)]
pub struct XorMappedAddress {
    pub address: SockAddr,
    pub trans_id: TransId,
}

impl XorMappedAddress {
    pub fn new(trans_id: TransId, address: SockAddr) -> (r: Self)
        ensures
            r.trans_id == trans_id,
            r.address == address,
    {
        Self { trans_id, address }
    }

    /// Decode a raw attribute's value as an address and undo the XOR
    /// transform with the given transaction id.
    pub fn from_base_attr(base_attr: &RawAttr, trans_id: &TransId) -> (r: Result<
        Self,
        ParsePacketErr,
    >)
        ensures
            r is Ok <==> addr_value_ok(base_attr.value@),
            r matches Ok(x) ==> x.trans_id@ == trans_id@ && x.address@ == xor_addr_model(
                addr_value_model(base_attr.value@),
                trans_id@,
            ),
            r matches Err(e) ==> e.kind() == addr_decode_err(base_attr.value@),
    {
        let decoded = match AddressAttr::try_from_raw(base_attr) {
            Ok(a) => a,
            Err(e) => {
                return Err(e);
            },
        };
        let address = xor_address(&decoded.address, trans_id);
        Ok(Self { address, trans_id: *trans_id })
    }

    /// Serialize: apply the XOR transform, then the address layout under
    /// the XOR-mapped type code.
    pub fn to_raw(&self) -> (r: RawAttr)
        ensures
            r.wf(),
            r.attr_type == ATTR_XOR_MAPPED_ADDRESS,
            r.value@ == addr_value_wire(xor_addr_model(self.address@, self.trans_id@)),
    {
        let obfuscated = xor_address(&self.address, &self.trans_id);
        AddressAttr::new(ATTR_XOR_MAPPED_ADDRESS, obfuscated).to_raw()
    }
}

impl AttrValidator for XorMappedAddress {
    /// A usable port on the decoded address.
    open spec fn valid(&self) -> bool {
        0 < self.address.port < 65535
    }

    fn validate(&self) -> (r: Option<ValidateErr>) {
        let port = self.address.port;
        if port > 0 && port < 65535 {
            return None;
        }
        Some(ValidateErr("xor-mapped address port out of range".to_owned()))
    }
}

} // verus!
