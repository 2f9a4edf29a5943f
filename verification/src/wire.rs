use vstd::prelude::*;

use crate::constants::MAX_ATTRS;
use crate::error::ParseErrKind;

verus! {

/// High byte of a 16-bit big-endian value.
pub open spec fn hi8(x: u16) -> u8 {
    (x / 256) as u8
}

/// Low byte of a 16-bit big-endian value.
pub open spec fn lo8(x: u16) -> u8 {
    (x % 256) as u8
}

/// A 16-bit value read big-endian from two bytes.
pub open spec fn be16(hi: u8, lo: u8) -> u16 {
    (hi * 256 + lo) as u16
}

pub proof fn lemma_be16_of_split(x: u16)
    ensures
        be16(hi8(x), lo8(x)) == x,
{
}

pub proof fn lemma_split_of_be16(hi: u8, lo: u8)
    ensures
        hi8(be16(hi, lo)) == hi,
        lo8(be16(hi, lo)) == lo,
{
}

/// Split a 16-bit value into its big-endian bytes.
pub fn u16_to_be(x: u16) -> (r: (u8, u8))
    ensures
        r.0 == hi8(x),
        r.1 == lo8(x),
{
    proof {
        assert(x >> 8 == x / 256) by (bit_vector);
        assert(x & 0xff == x % 256) by (bit_vector);
    }
    ((x >> 8) as u8, (x & 0xff) as u8)
}

/// Read a 16-bit value from its big-endian bytes.
pub fn u16_from_be(hi: u8, lo: u8) -> (r: u16)
    ensures
        r == be16(hi, lo),
{
    let h16 = hi as u16;
    let l16 = lo as u16;
    proof {
        assert(h16 <= 255 && l16 <= 255 ==> (h16 << 8) | l16 == h16 * 256 + l16) by (bit_vector);
    }
    (h16 << 8) | l16
}

/// Model of one raw attribute: its type code and its value bytes.
/// The on-wire length field is derived, so the model does not carry it.
pub struct AttrModel {
    pub attr_type: u16,
    pub value: Seq<u8>,
}

/// Model of a packet header.
pub struct HeaderModel {
    pub msg_type: u16,
    pub msg_len: u16,
    pub trans_id: Seq<u8>,
}

/// Model of a whole packet.
pub struct PacketModel {
    pub header: HeaderModel,
    pub attrs: Seq<AttrModel>,
}

/// The value fits the attribute record's 16-bit length field.
pub open spec fn attr_model_wf(a: AttrModel) -> bool {
    a.value.len() <= 0xffff
}

pub open spec fn header_model_wf(h: HeaderModel) -> bool {
    h.trans_id.len() == 16
}

/// A packet the codec can serialize and read back: every attribute fits its
/// record, the count stays within what parsing will consume, and the header
/// length is exactly the byte count of the attribute section.
pub open spec fn packet_model_wf(p: PacketModel) -> bool {
    &&& header_model_wf(p.header)
    &&& forall|i: int| 0 <= i < p.attrs.len() ==> attr_model_wf(#[trigger] p.attrs[i])
    &&& p.attrs.len() <= MAX_ATTRS
    &&& p.header.msg_len == attrs_total_len(p.attrs)
}

/// Byte count of a serialized attribute list: four record bytes plus the
/// value bytes for each attribute.
pub open spec fn attrs_total_len(s: Seq<AttrModel>) -> int
    decreases s.len(),
{
    if s.len() == 0 {
        0
    } else {
        4 + s[0].value.len() + attrs_total_len(s.skip(1))
    }
}

/// One attribute record on the wire: type, length, value.
pub open spec fn attr_wire(a: AttrModel) -> Seq<u8> {
    seq![
        hi8(a.attr_type),
        lo8(a.attr_type),
        hi8(a.value.len() as u16),
        lo8(a.value.len() as u16),
    ] + a.value
}

/// An attribute list on the wire, records in order.
pub open spec fn attrs_wire(s: Seq<AttrModel>) -> Seq<u8>
    decreases s.len(),
{
    if s.len() == 0 {
        Seq::empty()
    } else {
        attr_wire(s[0]) + attrs_wire(s.skip(1))
    }
}

/// The 20 header bytes: type, length, transaction id.
pub open spec fn header_wire(h: HeaderModel) -> Seq<u8> {
    seq![hi8(h.msg_type), lo8(h.msg_type), hi8(h.msg_len), lo8(h.msg_len)] + h.trans_id
}

/// A whole packet on the wire.
pub open spec fn packet_wire(p: PacketModel) -> Seq<u8> {
    header_wire(p.header) + attrs_wire(p.attrs)
}

/// Read attribute records until the bytes run out.  Leftover bytes that
/// cannot hold a record make the packet's length inconsistent; a record
/// whose declared length overruns the buffer is a short buffer; more than
/// `max` records is refused outright.
pub open spec fn parse_attrs(bytes: Seq<u8>, max: nat) -> Result<Seq<AttrModel>, ParseErrKind>
    decreases bytes.len(),
{
    if bytes.len() == 0 {
        Ok(Seq::empty())
    } else if bytes.len() < 4 {
        Err(ParseErrKind::NotMatch)
    } else if max == 0 {
        Err(ParseErrKind::TooManyAttrs)
    } else {
        let alen = be16(bytes[2], bytes[3]) as int;
        if bytes.len() < alen + 4 {
            Err(ParseErrKind::BufSize)
        } else {
            match parse_attrs(bytes.skip(alen + 4), (max - 1) as nat) {
                Ok(rest) => Ok(
                    seq![
                        AttrModel {
                            attr_type: be16(bytes[0], bytes[1]),
                            value: bytes.subrange(4, 4 + alen),
                        },
                    ] + rest,
                ),
                Err(e) => Err(e),
            }
        }
    }
}

/// Read a whole packet: at least a header, a length field that matches the
/// remaining bytes exactly, then the attribute records.
pub open spec fn spec_unpack(bytes: Seq<u8>) -> Result<PacketModel, ParseErrKind> {
    if bytes.len() < 20 {
        Err(ParseErrKind::BufSize)
    } else {
        let msg_len = be16(bytes[2], bytes[3]);
        if bytes.len() - 20 != msg_len {
            Err(ParseErrKind::NotMatch)
        } else {
            match parse_attrs(bytes.skip(20), MAX_ATTRS as nat) {
                Ok(attrs) => Ok(
                    PacketModel {
                        header: HeaderModel {
                            msg_type: be16(bytes[0], bytes[1]),
                            msg_len,
                            trans_id: bytes.subrange(4, 20),
                        },
                        attrs,
                    },
                ),
                Err(e) => Err(e),
            }
        }
    }
}

/// Parsing stopped mid-buffer can be resumed: whatever the rest of the
/// buffer parses to decides what the whole attribute section parses to.
pub open spec fn parse_attrs_resume(
    whole: Seq<u8>,
    rem: Seq<u8>,
    done: Seq<AttrModel>,
    max: nat,
) -> bool {
    match parse_attrs(rem, max) {
        Ok(rest) => parse_attrs(whole, MAX_ATTRS as nat) == Ok::<Seq<AttrModel>, ParseErrKind>(
            done + rest,
        ),
        Err(e) => parse_attrs(whole, MAX_ATTRS as nat) == Err::<Seq<AttrModel>, ParseErrKind>(e),
    }
}

pub proof fn lemma_attrs_total_len_nonneg(s: Seq<AttrModel>)
    ensures
        attrs_total_len(s) >= 0,
    decreases s.len(),
{
    if s.len() > 0 {
        lemma_attrs_total_len_nonneg(s.skip(1));
    }
}

/// A serialized attribute list is as long as `attrs_total_len` says.
pub proof fn lemma_attrs_wire_len(s: Seq<AttrModel>)
    ensures
        attrs_wire(s).len() == attrs_total_len(s),
    decreases s.len(),
{
    if s.len() > 0 {
        lemma_attrs_wire_len(s.skip(1));
    }
}

/// Parsing a serialized attribute list gives the list back.
pub proof fn lemma_parse_attrs_of_wire(s: Seq<AttrModel>, max: nat)
    requires
        forall|i: int| 0 <= i < s.len() ==> attr_model_wf(#[trigger] s[i]),
        s.len() <= max,
    ensures
        parse_attrs(attrs_wire(s), max) == Ok::<Seq<AttrModel>, ParseErrKind>(s),
    decreases s.len(),
{
    let w = attrs_wire(s);
    if s.len() == 0 {
        assert(w.len() == 0);
        assert(parse_attrs(w, max)->Ok_0 =~= s);
    } else {
        let head = s[0];
        let aw = attr_wire(head);
        let rest_wire = attrs_wire(s.skip(1));
        assert(aw.len() == 4 + head.value.len());
        assert(w.len() >= 4);
        assert(w[2] == hi8(head.value.len() as u16));
        assert(w[3] == lo8(head.value.len() as u16));
        lemma_split_of_be16(hi8(head.value.len() as u16), lo8(head.value.len() as u16));
        lemma_be16_of_split(head.value.len() as u16);
        let alen = be16(w[2], w[3]) as int;
        assert(alen == head.value.len());
        assert(w.len() == aw.len() + rest_wire.len());
        assert(w.skip(alen + 4) =~= rest_wire);
        assert(w.subrange(4, 4 + alen) =~= head.value);
        assert(be16(w[0], w[1]) == head.attr_type) by {
            lemma_be16_of_split(head.attr_type);
        }
        lemma_parse_attrs_of_wire(s.skip(1), (max - 1) as nat);
        let parsed = parse_attrs(w, max);
        assert(parsed is Ok);
        assert(parsed->Ok_0 =~= s);
    }
}

/// Round trip: reading back a serialized well-formed packet yields the
/// same packet, header fields and attribute list alike.
pub proof fn lemma_unpack_of_pack(p: PacketModel)
    requires
        packet_model_wf(p),
    ensures
        spec_unpack(packet_wire(p)) == Ok::<PacketModel, ParseErrKind>(p),
{
    let w = packet_wire(p);
    let hw = header_wire(p.header);
    assert(hw.len() == 20);
    lemma_attrs_wire_len(p.attrs);
    assert(w.len() == 20 + attrs_total_len(p.attrs));
    lemma_be16_of_split(p.header.msg_type);
    lemma_be16_of_split(p.header.msg_len);
    assert(be16(w[0], w[1]) == p.header.msg_type);
    assert(be16(w[2], w[3]) == p.header.msg_len);
    assert(w.subrange(4, 20) =~= p.header.trans_id);
    assert(w.skip(20) =~= attrs_wire(p.attrs));
    lemma_parse_attrs_of_wire(p.attrs, MAX_ATTRS as nat);
    let r = spec_unpack(w);
    assert(r is Ok);
    assert(r->Ok_0.header == p.header);
    assert(r->Ok_0 == p);
}

} // verus!
