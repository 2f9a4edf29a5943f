use vstd::prelude::*;

use crate::attrs::RawAttr;
use crate::constants::ATTR_ERROR_CODE;
use crate::error::AttrValidator;
use crate::error::ParseErrKind;
use crate::error::ParsePacketErr;
use crate::error::ValidateErr;
use crate::util::pack_error_code;
use crate::util::pack_error_code_spec;
use crate::util::pad_len;
use crate::util::unpack_error_code;
use crate::util::unpack_error_code_spec;
use crate::wire::be16;
use crate::wire::hi8;
use crate::wire::lo8;
use crate::wire::u16_from_be;
use crate::wire::u16_to_be;
use vstd::slice::slice_subrange;
use vstd::slice::slice_to_vec;
use vstd::string::StrSliceExecFns;
use vstd::utf8::decode_utf8;
use vstd::utf8::encode_utf8;
use vstd::utf8::valid_utf8;

verus! {

/// An error code (class 1-6 and number 0-99, packed into 16 bits) with
/// a human-readable reason.
#[derive(Debug, Clone, PartialEq)]
pub struct ErrcodeAttr {
    pub code: u16,
    pub msg: String,
}

/// The reason's UTF-8 bytes padded with spaces to a four-byte multiple.
pub open spec fn padded_reason_bytes(msg: Seq<char>) -> Seq<u8> {
    encode_utf8(msg) + Seq::new(pad_len(encode_utf8(msg).len()), |i: int| 32u8)
}

/// The value bytes of an error-code attribute: two reserved bytes, the
/// packed code, then the padded reason.
pub open spec fn errcode_value_wire(code: u16, msg: Seq<char>) -> Seq<u8> {
    seq![0u8, 0u8, hi8(pack_error_code_spec(code)), lo8(pack_error_code_spec(code))]
        + padded_reason_bytes(msg)
}

/// The reason with its trailing spaces removed.
pub open spec fn trim_trailing_spaces(s: Seq<char>) -> Seq<char>
    decreases s.len(),
{
    if s.len() > 0 && s.last() == ' ' {
        trim_trailing_spaces(s.drop_last())
    } else {
        s
    }
}

/// Relies on String::from_utf8: it succeeds exactly on valid UTF-8, and
/// then returns the decoded characters.
#[verifier::external_body]
fn utf8_to_string(bytes: Vec<u8>) -> (r: Option<String>)
    ensures
        r is Some <==> valid_utf8(bytes@),
        r matches Some(s) ==> s@ == decode_utf8(bytes@),
{
    String::from_utf8(bytes).ok()
}

fn trim_trailing_spaces_exec(s: &String) -> (r: String)
    ensures
        r@ == trim_trailing_spaces(s@),
{
    let n = s.as_str().unicode_len();
    let mut end = n;
    proof {
        assert(s@.take(n as int) =~= s@);
    }
    while end > 0 && s.as_str().get_char(end - 1) == ' '
        invariant
            end <= n,
            n == s@.len(),
            trim_trailing_spaces(s@) == trim_trailing_spaces(s@.take(end as int)),
        decreases end,
    {
        end -= 1;
        proof {
            assert(s@.take(end as int + 1).last() == s@[end as int]);
            assert(s@.take(end as int + 1).drop_last() =~= s@.take(end as int));
        }
    }
    let trimmed = s.as_str().substring_char(0, end);
    proof {
        if end > 0 {
            assert(s@.take(end as int).last() == s@[end as int - 1]);
        }
        assert(trim_trailing_spaces(s@.take(end as int)) == s@.take(end as int));
    }
    trimmed.to_owned()
}

impl ErrcodeAttr {
    pub fn new(code: u16, msg: &str) -> (r: Self)
        ensures
            r.code == code,
            r.msg@ == msg@,
    {
        Self { code, msg: msg.to_owned() }
    }

    pub fn to_raw(&self) -> (r: RawAttr)
        requires
            errcode_value_wire(self.code, self.msg@).len() <= 0xffff,
        ensures
            r.wf(),
            r.attr_type == ATTR_ERROR_CODE,
            r.value@ == errcode_value_wire(self.code, self.msg@),
    {
        let packed = pack_error_code(self.code);
        let (c_hi, c_lo) = u16_to_be(packed);
        let mut v: Vec<u8> = Vec::new();
        v.push(0);
        v.push(0);
        v.push(c_hi);
        v.push(c_lo);
        v.extend_from_slice(self.msg.as_str().as_bytes());
        proof {
            assert(v@ =~= seq![
                0u8,
                0u8,
                hi8(pack_error_code_spec(self.code)),
                lo8(pack_error_code_spec(self.code)),
            ] + encode_utf8(self.msg@));
        }
        let ghost reason_len = encode_utf8(self.msg@).len();
        let mut k: usize = 0;
        let pad: usize = match (v.len() - 4) % 4 {
            0 => 0,
            rest => 4 - rest,
        };
        proof {
            assert(pad == pad_len(reason_len));
        }
        while k < pad
            invariant
                k <= pad,
                pad == pad_len(reason_len),
                errcode_value_wire(self.code, self.msg@).len() <= 0xffff,
                v@ == seq![
                    0u8,
                    0u8,
                    hi8(pack_error_code_spec(self.code)),
                    lo8(pack_error_code_spec(self.code)),
                ] + encode_utf8(self.msg@) + Seq::new(k as nat, |i: int| 32u8),
            decreases pad - k,
        {
            v.push(32);
            k += 1;
            proof {
                assert(v@ =~= seq![
                    0u8,
                    0u8,
                    hi8(pack_error_code_spec(self.code)),
                    lo8(pack_error_code_spec(self.code)),
                ] + encode_utf8(self.msg@) + Seq::new(k as nat, |i: int| 32u8));
            }
        }
        proof {
            assert(v@ =~= errcode_value_wire(self.code, self.msg@));
        }
        RawAttr::new(ATTR_ERROR_CODE, v)
    }

    pub fn try_from_raw(base_attr: &RawAttr) -> (r: Result<Self, ParsePacketErr>)
        ensures
            r is Ok <==> base_attr.value@.len() >= 4 && valid_utf8(base_attr.value@.skip(4)),
            r matches Ok(a) ==> a.code == unpack_error_code_spec(
                be16(base_attr.value@[2], base_attr.value@[3]),
            ) && a.msg@ == trim_trailing_spaces(decode_utf8(base_attr.value@.skip(4))),
            r matches Err(e) ==> e.kind() == (if base_attr.value@.len() < 4 {
                ParseErrKind::BufSize
            } else {
                ParseErrKind::NotUtf8
            }),
    {
        let v = &base_attr.value;
        if v.len() < 4 {
            return Err(
                ParsePacketErr::BufSize("error-code value shorter than 4 bytes".to_owned()),
            );
        }
        let packed = u16_from_be(v[2], v[3]);
        let code = unpack_error_code(packed);
        let tail = slice_to_vec(slice_subrange(v.as_slice(), 4, v.len()));
        let decoded = match utf8_to_string(tail) {
            Some(s) => s,
            None => {
                return Err(ParsePacketErr::NotUtf8);
            },
        };
        let msg = trim_trailing_spaces_exec(&decoded);
        Ok(Self { code, msg })
    }
}

impl AttrValidator for ErrcodeAttr {
    /// A code in the protocol's range: class 1 through 6.
    open spec fn valid(&self) -> bool {
        100 < self.code < 700
    }

    fn validate(&self) -> (r: Option<ValidateErr>) {
        if self.code > 100 && self.code < 700 {
            return None;
        }
        Some(ValidateErr("error code out of range".to_owned()))
    }
}

} // verus!
