use vstd::prelude::*;

use crate::attrs::RawAttr;
use crate::constants::ATTR_PADDING;
use crate::error::ParseErrKind;
use crate::error::ParsePacketErr;
use vstd::slice::slice_to_vec;

verus! {

/// Filler bytes; a valid padding value is a multiple of eight bytes long.
#[derive(Debug, Clone, PartialEq)]
pub struct PaddingAttr {
    pub data: Vec<u8>,
}

impl PaddingAttr {
    pub fn new(data: Vec<u8>) -> (r: Self)
        ensures
            r.data@ == data@,
    {
        Self { data }
    }

    /// The raw record: the filler bytes under the padding type code.
    pub fn to_raw(self) -> (r: RawAttr)
        requires
            self.data@.len() <= 0xffff,
        ensures
            r.wf(),
            r.attr_type == ATTR_PADDING,
            r.value@ == self.data@,
    {
        RawAttr::new(ATTR_PADDING, self.data)
    }

    pub fn try_from_raw(base_attr: &RawAttr) -> (r: Result<Self, ParsePacketErr>)
        ensures
            r is Ok <==> base_attr.value@.len() % 8 == 0,
            r matches Ok(p) ==> p.data@ == base_attr.value@,
            r matches Err(e) ==> e.kind() == ParseErrKind::BadValue,
    {
        if base_attr.value.len() % 8 != 0 {
            return Err(
                ParsePacketErr::BadValue("padding length is not a multiple of eight".to_owned()),
            );
        }
        Ok(Self { data: slice_to_vec(base_attr.value.as_slice()) })
    }
}

} // verus!
