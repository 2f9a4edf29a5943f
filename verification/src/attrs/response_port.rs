use vstd::prelude::*;

use crate::attrs::RawAttr;
use crate::constants::ATTR_RESPONSE_PORT;
use crate::error::AttrValidator;
use crate::error::ParseErrKind;
use crate::error::ParsePacketErr;
use crate::error::ValidateErr;
use crate::wire::be16;
use crate::wire::hi8;
use crate::wire::lo8;
use crate::wire::u16_from_be;
use crate::wire::u16_to_be;

verus! {

/// The port a client asks the server to send the response to instead of
/// the port the request came from.
#[derive(Debug, Clone, Copy, PartialEq, Eq, Structural)]
pub struct ResponsePort {
    pub port: u16,
}

impl ResponsePort {
    pub fn new(port: u16) -> (r: Self)
        ensures
            r.port == port,
    {
        Self { port }
    }

    /// Two port bytes followed by two reserved bytes.
    pub open spec fn value_wire(&self) -> Seq<u8> {
        seq![hi8(self.port), lo8(self.port), 0u8, 0u8]
    }

    pub fn to_raw(&self) -> (r: RawAttr)
        ensures
            r.wf(),
            r.attr_type == ATTR_RESPONSE_PORT,
            r.value@ == self.value_wire(),
    {
        let (p_hi, p_lo) = u16_to_be(self.port);
        let mut v: Vec<u8> = Vec::new();
        v.push(p_hi);
        v.push(p_lo);
        v.push(0);
        v.push(0);
        proof {
            assert(v@ =~= self.value_wire());
        }
        RawAttr::new(ATTR_RESPONSE_PORT, v)
    }

    pub fn try_from_raw(base_attr: &RawAttr) -> (r: Result<Self, ParsePacketErr>)
        ensures
            r is Ok <==> base_attr.value@.len() == 4,
            r matches Ok(p) ==> p.port == be16(base_attr.value@[0], base_attr.value@[1]),
            r matches Err(e) ==> e.kind() == ParseErrKind::BufSize,
    {
        if base_attr.value.len() != 4 {
            return Err(
                ParsePacketErr::BufSize("response-port value is not 4 bytes".to_owned()),
            );
        }
        let port = u16_from_be(base_attr.value[0], base_attr.value[1]);
        Ok(Self { port })
    }
}

impl AttrValidator for ResponsePort {
    /// A usable port: neither zero nor the all-ones port.
    open spec fn valid(&self) -> bool {
        0 < self.port < 65535
    }

    fn validate(&self) -> (r: Option<ValidateErr>) {
        if self.port > 0 && self.port < 65535 {
            return None;
        }
        Some(ValidateErr("response port out of range".to_owned()))
    }
}

} // verus!
