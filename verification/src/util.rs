use vstd::prelude::*;

use crate::addr::IpAddress;
use crate::addr::SockAddr;
use crate::addr::xor_addr_model;
use crate::addr::xor_port;
use crate::addr::xor_v4_bytes;
use crate::addr::xor_v6_bytes;
use crate::attrs::padding_attr::PaddingAttr;
use crate::constants::MAGIC_COOKIE_0;
use crate::constants::MAGIC_COOKIE_1;
use crate::constants::MAGIC_COOKIE_2;
use crate::constants::MAGIC_COOKIE_3;
use crate::constants::MAGIC_COOKIE_PREFIX;
use crate::constants::magic_cookie;
use crate::constants::magic_cookie_seq;
use crate::header::TransId;
use rand::Rng;
use vstd::arithmetic::div_mod::lemma_fundamental_div_mod;
use vstd::string::StringSliceAdditionalSpecFns;

verus! {

/// Relies on rand's thread-local generator: `fill_bytes` fills the whole
/// slice with fresh random data.  Nothing more can be promised of the bytes.
#[verifier::external_body]
fn random_bytes_12() -> (r: [u8; 12]) {
    let mut buf = [0u8; 12];
    rand::rng().fill_bytes(&mut buf);
    buf
}

/// A fresh transaction id: the four magic-cookie bytes, then twelve
/// random bytes.
pub fn new_trans_id() -> (r: TransId)
    ensures
        r@.len() == 16,
        r@.subrange(0, 4) == magic_cookie_seq(),
{
    let rb = random_bytes_12();
    let r: TransId = [
        MAGIC_COOKIE_0,
        MAGIC_COOKIE_1,
        MAGIC_COOKIE_2,
        MAGIC_COOKIE_3,
        rb[0],
        rb[1],
        rb[2],
        rb[3],
        rb[4],
        rb[5],
        rb[6],
        rb[7],
        rb[8],
        rb[9],
        rb[10],
        rb[11],
    ];
    proof {
        assert(r@.subrange(0, 4) =~= magic_cookie_seq());
    }
    r
}

/// XOR four IPv4 octets with the magic cookie and the port with the
/// cookie's high half.
pub fn xor_address_v4(ip: [u8; 4], port: u16) -> (r: ([u8; 4], u16))
    ensures
        r.0@ == xor_v4_bytes(ip@),
        r.1 == xor_port(port),
{
    let out = [
        ip[0] ^ MAGIC_COOKIE_0,
        ip[1] ^ MAGIC_COOKIE_1,
        ip[2] ^ MAGIC_COOKIE_2,
        ip[3] ^ MAGIC_COOKIE_3,
    ];
    proof {
        assert(out@ =~= xor_v4_bytes(ip@));
    }
    (out, port ^ MAGIC_COOKIE_PREFIX)
}

/// XOR sixteen IPv6 octets with the magic cookie followed by the
/// transaction id's remaining bytes, and the port with the cookie's
/// high half.
pub fn xor_address_v6(ip: [u8; 16], port: u16, trans_id: &TransId) -> (r: ([u8; 16], u16))
    ensures
        r.0@ == xor_v6_bytes(ip@, trans_id@),
        r.1 == xor_port(port),
{
    let cookie = magic_cookie();
    let mut out: [u8; 16] = [0u8; 16];
    let mut i: usize = 0;
    while i < 16
        invariant
            i <= 16,
            cookie@ == magic_cookie_seq(),
            forall|j: int| 0 <= j < i ==> out@[j] == xor_v6_bytes(ip@, trans_id@)[j],
        decreases 16 - i,
    {
        if i < 4 {
            out[i] = ip[i] ^ cookie[i];
        } else {
            out[i] = ip[i] ^ trans_id[i];
        }
        i += 1;
    }
    proof {
        assert(out@ =~= xor_v6_bytes(ip@, trans_id@));
    }
    (out, port ^ MAGIC_COOKIE_PREFIX)
}

/// The whole address obfuscation, dispatching on the address family.
pub fn xor_address(addr: &SockAddr, trans_id: &TransId) -> (r: SockAddr)
    ensures
        r@ == xor_addr_model(addr@, trans_id@),
{
    match addr.ip {
        IpAddress::V4(b) => {
            let (nb, np) = xor_address_v4(b, addr.port);
            SockAddr { ip: IpAddress::V4(nb), port: np }
        },
        IpAddress::V6(b) => {
            let (nb, np) = xor_address_v6(b, addr.port, trans_id);
            SockAddr { ip: IpAddress::V6(nb), port: np }
        },
    }
}

/// The packed form of an error code: class in the high byte, number in
/// the low byte.  A class too large for its byte loses its high bits,
/// exactly as the shift below discards them.
pub open spec fn pack_error_code_spec(code: u16) -> u16 {
    (((code / 100) % 256) * 256 + code % 100) as u16
}

/// Class and number recombined from a packed error code.
pub open spec fn unpack_error_code_spec(packed: u16) -> u16 {
    ((packed / 256) * 100 + packed % 256) as u16
}

pub fn pack_error_code(code: u16) -> (r: u16)
    ensures
        r == pack_error_code_spec(code),
{
    let n1 = code / 100;
    let n2 = code % 100;
    proof {
        assert(n1 <= 655 && n2 <= 99 ==> (n1 << 8) | n2 == ((n1 % 256) * 256 + n2) as u16)
            by (bit_vector);
    }
    (n1 << 8) | n2
}

pub fn unpack_error_code(packed: u16) -> (r: u16)
    ensures
        r == unpack_error_code_spec(packed),
{
    let n1 = packed >> 8;
    let n2 = packed & 0x00ff;
    proof {
        assert(packed >> 8 == packed / 256) by (bit_vector);
        assert(packed & 0x00ff == packed % 256) by (bit_vector);
    }
    n1 * 100 + n2
}

/// Packing and then unpacking an error code gives the code back, for
/// every code whose class fits the packed form's high byte.
pub proof fn lemma_error_code_round_trip(code: u16)
    requires
        code / 100 <= 255,
    ensures
        unpack_error_code_spec(pack_error_code_spec(code)) == code,
{
    let a = code / 100;
    let b = code % 100;
    lemma_fundamental_div_mod(code as int, 100);
    assert((a * 256 + b) / 256 == a && (a * 256 + b) % 256 == b) by (nonlinear_arith)
        requires
            0 <= a <= 255,
            0 <= b < 100,
    ;
}

/// Space bytes needed to pad `n` bytes to a multiple of four.
pub open spec fn pad_len(n: nat) -> nat {
    if n % 4 == 0 {
        0
    } else {
        (4 - n % 4) as nat
    }
}

/// An error reason padded with spaces to a four-byte multiple.
pub fn pack_error_reason(msg: &str) -> (r: String)
    ensures
        r@ == msg@ + Seq::new(pad_len(msg.spec_bytes().len()), |i: int| ' '),
{
    let bytes_len = msg.as_bytes().len();
    let padding: usize = match bytes_len % 4 {
        0 => 0,
        v => 4 - v,
    };
    let mut out = msg.to_owned();
    let mut k: usize = 0;
    proof {
        reveal_strlit(" ");
        assert(out@ =~= msg@ + Seq::new(0, |i: int| ' '));
    }
    while k < padding
        invariant
            k <= padding,
            padding == pad_len(msg.spec_bytes().len()),
            out@ == msg@ + Seq::new(k as nat, |i: int| ' '),
        decreases padding - k,
    {
        proof {
            reveal_strlit(" ");
        }
        out.append(" ");
        k += 1;
        proof {
            assert(out@ =~= msg@ + Seq::new(k as nat, |i: int| ' '));
        }
    }
    out
}

/// A padding attribute holding `len / 8 * 8` filler bytes.
pub fn new_padding_attr(len: u16) -> (r: PaddingAttr)
    ensures
        r.data@ == Seq::new((len / 8 * 8) as nat, |i: int| 6u8),
{
    let new_len = len / 8 * 8;
    let mut data: Vec<u8> = Vec::new();
    let mut k: usize = 0;
    while k < new_len as usize
        invariant
            new_len == len / 8 * 8,
            k <= len / 8 * 8,
            data@ == Seq::new(k as nat, |i: int| 6u8),
        decreases len / 8 * 8 - k,
    {
        data.push(6);
        k += 1;
        proof {
            assert(data@ =~= Seq::new(k as nat, |i: int| 6u8));
        }
    }
    PaddingAttr::new(data)
}

} // verus!
