use vstd::prelude::*;

verus! {

pub const MAGIC_COOKIE_0: u8 = 0x21;

pub const MAGIC_COOKIE_1: u8 = 0x12;

pub const MAGIC_COOKIE_2: u8 = 0xA4;

pub const MAGIC_COOKIE_3: u8 = 0x42;

/// The magic cookie as a 16-bit value, used to obfuscate ports.
pub const MAGIC_COOKIE_PREFIX: u16 = 0x2112;

pub const TRANS_ID_LEN: usize = 16;

pub const HEADER_LEN: usize = 20;

/// Parsing consumes at most this many attribute records from one packet.
pub const MAX_ATTRS: usize = 32;

pub const MESSAGE_TYPE_BIND_REQ: u16 = 0x0001;

pub const MESSAGE_TYPE_BIND_RES: u16 = 0x0101;

pub const MESSAGE_TYPE_BIND_ERR_RES: u16 = 0x0111;

pub const ATTR_FAMILY_IPV4: u8 = 0x01;

pub const ATTR_FAMILY_IPV6: u8 = 0x02;

pub const ATTR_MAPPED_ADDRESS: u16 = 0x0001;

pub const ATTR_CHANGE_REQUEST: u16 = 0x0003;

pub const ATTR_SOURCE_ADDRESS: u16 = 0x0004;

pub const ATTR_CHANGED_ADDRESS: u16 = 0x0005;

pub const ATTR_ERROR_CODE: u16 = 0x0009;

pub const ATTR_PADDING: u16 = 0x0026;

pub const ATTR_RESPONSE_PORT: u16 = 0x0027;

pub const ATTR_XOR_MAPPED_ADDRESS: u16 = 0x8020;

pub const ATTR_RESPONSE_ORIGIN: u16 = 0x802b;

pub const ATTR_OTHER_ADDRESS: u16 = 0x802c;

pub const ERROR_CODE_BAD_REQUEST: u16 = 400;

/// The four magic-cookie bytes, as a sequence for specifications.
pub open spec fn magic_cookie_seq() -> Seq<u8> {
    seq![MAGIC_COOKIE_0, MAGIC_COOKIE_1, MAGIC_COOKIE_2, MAGIC_COOKIE_3]
}

/// The four magic-cookie bytes, for executable code.
pub fn magic_cookie() -> (r: [u8; 4])
    ensures
        r@ == magic_cookie_seq(),
{
    let r = [MAGIC_COOKIE_0, MAGIC_COOKIE_1, MAGIC_COOKIE_2, MAGIC_COOKIE_3];
    proof {
        assert(r@ =~= magic_cookie_seq());
    }
    r
}

} // verus!
