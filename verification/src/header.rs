use vstd::prelude::*;

use crate::constants::HEADER_LEN;
use crate::constants::MESSAGE_TYPE_BIND_ERR_RES;
use crate::constants::MESSAGE_TYPE_BIND_REQ;
use crate::constants::MESSAGE_TYPE_BIND_RES;
use crate::constants::TRANS_ID_LEN;
use crate::error::ParseErrKind;
use crate::error::ParsePacketErr;
use crate::error::ValidateErr;
use crate::wire::HeaderModel;
use crate::wire::be16;
use crate::wire::header_wire;
use crate::wire::u16_from_be;
use crate::wire::u16_to_be;

verus! {

/// A transaction id: four magic-cookie bytes followed by twelve bytes
/// that are random on requests this library builds.
pub type TransId = [u8; TRANS_ID_LEN];

/// The fixed 20-byte packet header.  `msg_len` counts the attribute
/// section only, never the header itself.
#[derive(Clone, Copy, Debug, PartialEq, Eq)]
pub struct Header {
    pub msg_type: u16,
    pub msg_len: u16,
    pub trans_id: TransId,
}

/// One of the three message types this protocol knows.
pub open spec fn msg_type_known(t: u16) -> bool {
    t == MESSAGE_TYPE_BIND_REQ || t == MESSAGE_TYPE_BIND_RES || t == MESSAGE_TYPE_BIND_ERR_RES
}

impl View for Header {
    type V = HeaderModel;

    open spec fn view(&self) -> HeaderModel {
        HeaderModel { msg_type: self.msg_type, msg_len: self.msg_len, trans_id: self.trans_id@ }
    }
}

impl Header {
    pub fn new(msg_type: u16, msg_len: u16, trans_id: TransId) -> (r: Self)
        ensures
            r.msg_type == msg_type,
            r.msg_len == msg_len,
            r.trans_id == trans_id,
    {
        Self { msg_type, msg_len, trans_id }
    }

    pub fn len(&self) -> (r: usize)
        ensures
            r == HEADER_LEN,
    {
        HEADER_LEN
    }

    pub fn pack(&self) -> (r: Vec<u8>)
        ensures
            r@ == header_wire(self@),
    {
        let mut buf: Vec<u8> = Vec::new();
        let (t_hi, t_lo) = u16_to_be(self.msg_type);
        buf.push(t_hi);
        buf.push(t_lo);
        let (l_hi, l_lo) = u16_to_be(self.msg_len);
        buf.push(l_hi);
        buf.push(l_lo);
        let mut i: usize = 0;
        while i < TRANS_ID_LEN
            invariant
                i <= TRANS_ID_LEN,
                buf@ == header_wire(self@).take(4 + i),
            decreases TRANS_ID_LEN - i,
        {
            buf.push(self.trans_id[i]);
            proof {
                assert(buf@ =~= header_wire(self@).take(4 + i + 1));
            }
            i += 1;
        }
        proof {
            assert(buf@ =~= header_wire(self@));
        }
        buf
    }

    pub fn unpack(buf: &[u8]) -> (r: Result<Self, ParsePacketErr>)
        ensures
            r is Ok <==> buf@.len() >= HEADER_LEN,
            r matches Ok(h) ==> h.msg_type == be16(buf@[0], buf@[1]) && h.msg_len == be16(
                buf@[2],
                buf@[3],
            ) && h.trans_id@ == buf@.subrange(4, 20),
            r matches Err(e) ==> e.kind() == ParseErrKind::BufSize,
    {
        if buf.len() < HEADER_LEN {
            return Err(ParsePacketErr::BufSize("header shorter than 20 bytes".to_owned()));
        }
        let msg_type = u16_from_be(buf[0], buf[1]);
        let msg_len = u16_from_be(buf[2], buf[3]);
        let mut trans_id: TransId = [0u8; 16];
        let mut i: usize = 0;
        while i < TRANS_ID_LEN
            invariant
                i <= TRANS_ID_LEN,
                buf@.len() >= HEADER_LEN,
                forall|j: int| 0 <= j < i ==> trans_id@[j] == buf@[4 + j],
            decreases TRANS_ID_LEN - i,
        {
            trans_id[i] = buf[4 + i];
            i += 1;
        }
        proof {
            assert(trans_id@ =~= buf@.subrange(4, 20));
        }
        Ok(Self { msg_type, msg_len, trans_id })
    }

    pub fn validate(&self) -> (r: Option<ValidateErr>)
        ensures
            r is None <==> msg_type_known(self.msg_type),
    {
        if self.msg_type == MESSAGE_TYPE_BIND_REQ || self.msg_type == MESSAGE_TYPE_BIND_RES
            || self.msg_type == MESSAGE_TYPE_BIND_ERR_RES {
            return None;
        }
        Some(ValidateErr("not a supported message type".to_owned()))
    }
}

} // verus!
