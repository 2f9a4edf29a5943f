use vstd::prelude::*;

use crate::constants::MAGIC_COOKIE_PREFIX;
use crate::constants::magic_cookie_seq;

verus! {

broadcast use vstd::array::axiom_array_ext_equal;

/// An IP address held as plain octets, exactly as it travels on the wire.
#[derive(Clone, Copy, Debug)]
pub enum IpAddress {
    V4([u8; 4]),
    V6([u8; 16]),
}

/// An IP address together with a port.
#[derive(Clone, Copy, Debug)]
pub struct SockAddr {
    pub ip: IpAddress,
    pub port: u16,
}

/// Mathematical model of an [`IpAddress`]: the octets as a sequence.
pub enum IpModel {
    V4(Seq<u8>),
    V6(Seq<u8>),
}

/// Mathematical model of a [`SockAddr`].
pub struct SockAddrModel {
    pub ip: IpModel,
    pub port: u16,
}

impl View for IpAddress {
    type V = IpModel;

    open spec fn view(&self) -> IpModel {
        match *self {
            IpAddress::V4(b) => IpModel::V4(b@),
            IpAddress::V6(b) => IpModel::V6(b@),
        }
    }
}

impl View for SockAddr {
    type V = SockAddrModel;

    open spec fn view(&self) -> SockAddrModel {
        SockAddrModel { ip: self.ip@, port: self.port }
    }
}

/// The octet count matches the address family.
pub open spec fn ip_model_wf(ip: IpModel) -> bool {
    match ip {
        IpModel::V4(s) => s.len() == 4,
        IpModel::V6(s) => s.len() == 16,
    }
}

pub open spec fn sock_addr_model_wf(a: SockAddrModel) -> bool {
    ip_model_wf(a.ip)
}

/// The model of any executable address is well formed: its octet count
/// is fixed by its array type.
pub proof fn lemma_sock_addr_wf(a: SockAddr)
    ensures
        sock_addr_model_wf(a@),
{
    match a.ip {
        IpAddress::V4(b) => {
            assert(b@.len() == 4);
        },
        IpAddress::V6(b) => {
            assert(b@.len() == 16);
        },
    }
}

/// Obfuscate a port: XOR with the high 16 bits of the magic cookie.
pub open spec fn xor_port(p: u16) -> u16 {
    p ^ MAGIC_COOKIE_PREFIX
}

/// Obfuscate IPv4 octets: XOR byte-for-byte with the magic cookie.
pub open spec fn xor_v4_bytes(s: Seq<u8>) -> Seq<u8> {
    Seq::new(4, |i: int| s[i] ^ magic_cookie_seq()[i])
}

/// Obfuscate IPv6 octets: the first four XOR the magic cookie, the rest
/// XOR the transaction id's bytes at the same offsets.
pub open spec fn xor_v6_bytes(s: Seq<u8>, tid: Seq<u8>) -> Seq<u8> {
    Seq::new(16, |i: int| if i < 4 {
        s[i] ^ magic_cookie_seq()[i]
    } else {
        s[i] ^ tid[i]
    })
}

pub open spec fn xor_ip_model(ip: IpModel, tid: Seq<u8>) -> IpModel {
    match ip {
        IpModel::V4(s) => IpModel::V4(xor_v4_bytes(s)),
        IpModel::V6(s) => IpModel::V6(xor_v6_bytes(s, tid)),
    }
}

/// The whole address transform: obfuscated port and obfuscated octets.
pub open spec fn xor_addr_model(a: SockAddrModel, tid: Seq<u8>) -> SockAddrModel {
    SockAddrModel { ip: xor_ip_model(a.ip, tid), port: xor_port(a.port) }
}

proof fn lemma_xor_byte_self_inverse(x: u8, c: u8)
    ensures
        (x ^ c) ^ c == x,
{
    assert((x ^ c) ^ c == x) by (bit_vector);
}

proof fn lemma_xor_port_self_inverse(p: u16)
    ensures
        xor_port(xor_port(p)) == p,
{
    let c = MAGIC_COOKIE_PREFIX;
    assert((p ^ c) ^ c == p) by (bit_vector);
}

/// Applying the address transform twice with the same transaction id
/// yields the original address.
pub proof fn lemma_xor_address_self_inverse(a: SockAddrModel, tid: Seq<u8>)
    requires
        sock_addr_model_wf(a),
        tid.len() == 16,
    ensures
        xor_addr_model(xor_addr_model(a, tid), tid) == a,
{
    lemma_xor_port_self_inverse(a.port);
    match a.ip {
        IpModel::V4(s) => {
            assert forall|i: int| 0 <= i < 4 implies xor_v4_bytes(xor_v4_bytes(s))[i] == s[i] by {
                lemma_xor_byte_self_inverse(s[i], magic_cookie_seq()[i]);
            }
            assert(xor_v4_bytes(xor_v4_bytes(s)) =~= s);
        },
        IpModel::V6(s) => {
            assert forall|i: int| 0 <= i < 16 implies xor_v6_bytes(
                xor_v6_bytes(s, tid),
                tid,
            )[i] == s[i] by {
                if i < 4 {
                    lemma_xor_byte_self_inverse(s[i], magic_cookie_seq()[i]);
                } else {
                    lemma_xor_byte_self_inverse(s[i], tid[i]);
                }
            }
            assert(xor_v6_bytes(xor_v6_bytes(s, tid), tid) =~= s);
        },
    }
}

fn bytes4_eq(a: &[u8; 4], b: &[u8; 4]) -> (r: bool)
    ensures
        r <==> a@ == b@,
{
    let r = a[0] == b[0] && a[1] == b[1] && a[2] == b[2] && a[3] == b[3];
    proof {
        if r {
            assert(a@ =~= b@);
        }
    }
    r
}

fn bytes16_eq(a: &[u8; 16], b: &[u8; 16]) -> (r: bool)
    ensures
        r <==> a@ == b@,
{
    let mut i: usize = 0;
    while i < 16
        invariant
            i <= 16,
            forall|j: int| 0 <= j < i ==> a@[j] == b@[j],
        decreases 16 - i,
    {
        if a[i] != b[i] {
            return false;
        }
        i += 1;
    }
    proof {
        assert(a@ =~= b@);
    }
    true
}

impl PartialEq for IpAddress {
    fn eq(&self, other: &IpAddress) -> (r: bool) {
        match (self, other) {
            (IpAddress::V4(a), IpAddress::V4(b)) => {
                let same = bytes4_eq(a, b);
                proof {
                    if same {
                        assert(*a =~= *b);
                    } else {
                        assert(*a != *b) by {
                            if *a == *b {
                                assert(a@ == b@);
                            }
                        }
                    }
                }
                same
            },
            (IpAddress::V6(a), IpAddress::V6(b)) => {
                let same = bytes16_eq(a, b);
                proof {
                    if same {
                        assert(*a =~= *b);
                    } else {
                        assert(*a != *b) by {
                            if *a == *b {
                                assert(a@ == b@);
                            }
                        }
                    }
                }
                same
            },
            _ => false,
        }
    }
}

impl vstd::std_specs::cmp::PartialEqSpecImpl for IpAddress {
    open spec fn obeys_eq_spec() -> bool {
        true
    }

    open spec fn eq_spec(&self, other: &IpAddress) -> bool {
        *self == *other
    }
}

impl Eq for IpAddress {

}

impl PartialEq for SockAddr {
    fn eq(&self, other: &SockAddr) -> (r: bool) {
        self.ip == other.ip && self.port == other.port
    }
}

impl vstd::std_specs::cmp::PartialEqSpecImpl for SockAddr {
    open spec fn obeys_eq_spec() -> bool {
        true
    }

    open spec fn eq_spec(&self, other: &SockAddr) -> bool {
        *self == *other
    }
}

impl Eq for SockAddr {

}

} // verus!
