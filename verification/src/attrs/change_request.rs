use vstd::prelude::*;

use crate::attrs::RawAttr;
use crate::constants::ATTR_CHANGE_REQUEST;
use crate::error::ParseErrKind;
use crate::error::ParsePacketErr;

verus! {

/// The two flags a client may set to ask the server to answer from the
/// alternate IP and/or the alternate port.
#[derive(Debug, Clone, Copy, PartialEq, Eq, Structural)]
pub struct ChangeRequest {
    pub change_ip: bool,
    pub change_port: bool,
}

impl ChangeRequest {
    pub fn new(change_ip: bool, change_port: bool) -> (r: Self)
        ensures
            r.change_ip == change_ip,
            r.change_port == change_port,
    {
        Self { change_ip, change_port }
    }

    /// The low byte of the 32-bit flag field.
    pub open spec fn flag_byte(&self) -> u8 {
        ((if self.change_ip {
            4int
        } else {
            0int
        }) + (if self.change_port {
            2int
        } else {
            0int
        })) as u8
    }

    /// The four-byte flag field, big-endian.
    pub open spec fn value_wire(&self) -> Seq<u8> {
        seq![0u8, 0u8, 0u8, self.flag_byte()]
    }

    pub fn to_raw(&self) -> (r: RawAttr)
        ensures
            r.wf(),
            r.attr_type == ATTR_CHANGE_REQUEST,
            r.value@ == self.value_wire(),
    {
        let flag: u8 = (if self.change_ip {
            4
        } else {
            0
        }) + (if self.change_port {
            2
        } else {
            0
        });
        let mut v: Vec<u8> = Vec::new();
        v.push(0);
        v.push(0);
        v.push(0);
        v.push(flag);
        proof {
            assert(v@ =~= self.value_wire());
        }
        RawAttr::new(ATTR_CHANGE_REQUEST, v)
    }

    pub fn try_from_raw(base_attr: &RawAttr) -> (r: Result<Self, ParsePacketErr>)
        ensures
            r is Ok <==> base_attr.value@.len() == 4,
            r matches Ok(c) ==> c.change_ip == (base_attr.value@[3] & 0x04 == 0x04)
                && c.change_port == (base_attr.value@[3] & 0x02 == 0x02),
            r matches Err(e) ==> e.kind() == ParseErrKind::BufSize,
    {
        if base_attr.value.len() != 4 {
            return Err(
                ParsePacketErr::BufSize("change-request value is not 4 bytes".to_owned()),
            );
        }
        let flag = base_attr.value[3];
        Ok(Self { change_ip: flag & 0x04 == 0x04, change_port: flag & 0x02 == 0x02 })
    }
}

} // verus!
