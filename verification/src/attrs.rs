use vstd::prelude::*;

use crate::error::ParseErrKind;
use crate::error::ParsePacketErr;
use crate::wire::AttrModel;
use crate::wire::attr_wire;
use crate::wire::be16;
use crate::wire::u16_from_be;
use crate::wire::u16_to_be;
use vstd::slice::slice_subrange;
use vstd::slice::slice_to_vec;

pub mod address_attr;
pub mod change_request;
pub mod errcode_attr;
pub mod padding_attr;
pub mod response_port;
pub mod xor_address;

verus! {

/// One attribute as it stands in a packet: a type code, the value's
/// byte count, and the value bytes.
#[derive(Debug, Clone, PartialEq, Eq)]
pub struct RawAttr {
    pub attr_type: u16,
    pub attr_len: u16,
    pub value: Vec<u8>,
}

impl View for RawAttr {
    type V = AttrModel;

    open spec fn view(&self) -> AttrModel {
        AttrModel { attr_type: self.attr_type, value: self.value@ }
    }
}

/// The attribute models of a sequence of raw attributes, in order.
pub open spec fn raw_seq_model(s: Seq<RawAttr>) -> Seq<AttrModel> {
    Seq::new(s.len(), |i: int| s[i]@)
}

impl RawAttr {
    /// The stored length field agrees with the value bytes.
    pub open spec fn wf(&self) -> bool {
        self.attr_len == self.value@.len()
    }

    pub fn new(attr_type: u16, value: Vec<u8>) -> (r: Self)
        requires
            value@.len() <= 0xffff,
        ensures
            r.wf(),
            r.attr_type == attr_type,
            r.value@ == value@,
    {
        let attr_len = value.len() as u16;
        Self { attr_type, attr_len, value }
    }

    /// Wire size of this attribute's record: four record bytes plus the value.
    pub fn len(&self) -> (r: usize)
        ensures
            r == self.attr_len + 4,
    {
        self.attr_len as usize + 4
    }

    pub fn pack(&self) -> (r: Vec<u8>)
        requires
            self.wf(),
        ensures
            r@ == attr_wire(self@),
    {
        let mut buf: Vec<u8> = Vec::new();
        let (t_hi, t_lo) = u16_to_be(self.attr_type);
        buf.push(t_hi);
        buf.push(t_lo);
        let (l_hi, l_lo) = u16_to_be(self.attr_len);
        buf.push(l_hi);
        buf.push(l_lo);
        buf.extend_from_slice(self.value.as_slice());
        proof {
            assert(buf@ =~= attr_wire(self@));
        }
        buf
    }

    /// Read one attribute record from the front of the buffer; bytes past
    /// the record are ignored.
    pub fn unpack(buf: &[u8]) -> (r: Result<Self, ParsePacketErr>)
        ensures
            r is Ok <==> buf@.len() >= 4 && buf@.len() >= be16(buf@[2], buf@[3]) + 4,
            r matches Ok(a) ==> a.wf() && a.attr_type == be16(buf@[0], buf@[1]) && a.value@
                == buf@.subrange(4, 4 + be16(buf@[2], buf@[3]) as int),
            r matches Err(e) ==> e.kind() == ParseErrKind::BufSize,
    {
        if buf.len() < 4 {
            return Err(ParsePacketErr::BufSize("attribute record shorter than 4 bytes".to_owned()));
        }
        let attr_type = u16_from_be(buf[0], buf[1]);
        let attr_len = u16_from_be(buf[2], buf[3]);
        if buf.len() < attr_len as usize + 4 {
            return Err(
                ParsePacketErr::BufSize("attribute value overruns the buffer".to_owned()),
            );
        }
        let value = slice_to_vec(slice_subrange(buf, 4, 4 + attr_len as usize));
        Ok(Self { attr_type, attr_len, value })
    }
}

} // verus!
