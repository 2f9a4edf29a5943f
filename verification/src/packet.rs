use vstd::prelude::*;

use crate::addr::xor_port;
use crate::attrs::RawAttr;
use crate::attrs::address_attr::AddressAttr;
use crate::attrs::address_attr::addr_value_model;
use crate::attrs::address_attr::addr_value_ok;
use crate::attrs::address_attr::is_address_type;
use crate::attrs::errcode_attr::ErrcodeAttr;
use crate::attrs::raw_seq_model;
use crate::attrs::response_port::ResponsePort;
use crate::attrs::xor_address::XorMappedAddress;
use crate::constants::ATTR_ERROR_CODE;
use crate::constants::ATTR_RESPONSE_PORT;
use crate::constants::ATTR_XOR_MAPPED_ADDRESS;
use crate::constants::HEADER_LEN;
use crate::constants::MAX_ATTRS;
use crate::error::AttrValidator;
use crate::error::ValidateErr;
use crate::header::msg_type_known;
use crate::util::unpack_error_code_spec;
use vstd::utf8::valid_utf8;
use crate::error::ParseErrKind;
use crate::error::ParsePacketErr;
use crate::header::Header;
use crate::wire::AttrModel;
use crate::wire::PacketModel;
use crate::wire::attrs_total_len;
use crate::wire::attrs_wire;
use crate::wire::be16;
use crate::wire::lemma_attrs_total_len_nonneg;
use crate::wire::packet_model_wf;
use crate::wire::packet_wire;
use crate::wire::parse_attrs;
use crate::wire::parse_attrs_resume;
use crate::wire::spec_unpack;
use crate::wire::u16_from_be;
use vstd::slice::slice_subrange;

verus! {

/// A header and an ordered list of raw attributes.  The header's length
/// field is derived from the list and is recomputed on every mutation.
#[derive(Debug, Clone, PartialEq)]
pub struct Packet {
    pub header: Header,
    pub attrs: Vec<RawAttr>,
}

impl View for Packet {
    type V = PacketModel;

    open spec fn view(&self) -> PacketModel {
        PacketModel { header: self.header@, attrs: raw_seq_model(self.attrs@) }
    }
}

impl Packet {
    /// Every attribute record is consistent, the attribute count stays
    /// within what parsing accepts, and the header length is the byte
    /// count of the attribute section.
    pub open spec fn wf(&self) -> bool {
        &&& forall|i: int| 0 <= i < self.attrs@.len() ==> (#[trigger] self.attrs@[i]).wf()
        &&& packet_model_wf(self@)
    }

    pub fn new(header: Header, attrs: Vec<RawAttr>) -> (r: Self)
        requires
            forall|i: int| 0 <= i < attrs@.len() ==> (#[trigger] attrs@[i]).wf(),
            attrs@.len() <= MAX_ATTRS,
            attrs_total_len(raw_seq_model(attrs@)) <= 0xffff,
        ensures
            r.wf(),
            r.header.msg_type == header.msg_type,
            r.header.trans_id == header.trans_id,
            r@.attrs == raw_seq_model(attrs@),
            r.header.msg_len == attrs_total_len(r@.attrs),
    {
        let mut packet = Self { header, attrs };
        packet.update_header_len();
        packet
    }

    fn update_header_len(&mut self)
        requires
            forall|i: int| 0 <= i < old(self).attrs@.len() ==> (#[trigger] old(
                self,
            ).attrs@[i]).wf(),
            attrs_total_len(raw_seq_model(old(self).attrs@)) <= 0xffff,
        ensures
            final(self).header.msg_type == old(self).header.msg_type,
            final(self).header.trans_id == old(self).header.trans_id,
            final(self).attrs == old(self).attrs,
            final(self).header.msg_len == attrs_total_len(raw_seq_model(final(self).attrs@)),
    {
        let ghost models = raw_seq_model(self.attrs@);
        let mut total: usize = 0;
        let mut i: usize = 0;
        proof {
            assert(models.skip(0) =~= models);
        }
        while i < self.attrs.len()
            invariant
                i <= self.attrs@.len(),
                forall|j: int| 0 <= j < self.attrs@.len() ==> (#[trigger] self.attrs@[j]).wf(),
                models == raw_seq_model(self.attrs@),
                total + attrs_total_len(models.skip(i as int)) == attrs_total_len(models),
                attrs_total_len(models) <= 0xffff,
                total <= 0xffff,
            decreases self.attrs@.len() - i,
        {
            proof {
                assert(models.skip(i as int)[0] == models[i as int]);
                assert(models.skip(i as int).skip(1) =~= models.skip(i as int + 1));
                lemma_attrs_total_len_nonneg(models.skip(i as int + 1));
            }
            total = total + self.attrs[i].len();
            i += 1;
        }
        proof {
            assert(models.skip(i as int) =~= Seq::<AttrModel>::empty());
        }
        self.header.msg_len = total as u16;
    }

    pub fn add_attr(&mut self, attr: RawAttr)
        requires
            old(self).wf(),
            attr.wf(),
            old(self).attrs@.len() < MAX_ATTRS,
            attrs_total_len(raw_seq_model(old(self).attrs@)) + 4 + attr.value@.len() <= 0xffff,
        ensures
            final(self).wf(),
            final(self)@.attrs == old(self)@.attrs.push(attr@),
            final(self).header.msg_type == old(self).header.msg_type,
            final(self).header.trans_id == old(self).header.trans_id,
            final(self).header.msg_len == attrs_total_len(final(self)@.attrs),
            final(self).header.msg_len == old(self).header.msg_len + 4 + attr.value@.len(),
    {
        let ghost olds = raw_seq_model(self.attrs@);
        let ghost a = attr@;
        self.attrs.push(attr);
        proof {
            assert(raw_seq_model(self.attrs@) =~= olds.push(a));
            lemma_attrs_total_len_push(olds, a);
        }
        self.update_header_len();
    }

    pub fn add_attrs(&mut self, attrs: Vec<RawAttr>)
        requires
            old(self).wf(),
            forall|i: int| 0 <= i < attrs@.len() ==> (#[trigger] attrs@[i]).wf(),
            old(self).attrs@.len() + attrs@.len() <= MAX_ATTRS,
            attrs_total_len(raw_seq_model(old(self).attrs@) + raw_seq_model(attrs@)) <= 0xffff,
        ensures
            final(self).wf(),
            final(self)@.attrs == old(self)@.attrs + raw_seq_model(attrs@),
            final(self).header.msg_type == old(self).header.msg_type,
            final(self).header.trans_id == old(self).header.trans_id,
            final(self).header.msg_len == attrs_total_len(final(self)@.attrs),
    {
        let ghost more_models = raw_seq_model(attrs@);
        let mut more = attrs;
        self.attrs.append(&mut more);
        proof {
            assert(raw_seq_model(self.attrs@) =~= raw_seq_model(old(self).attrs@) + more_models);
        }
        self.update_header_len();
    }

    /// Serialize: header bytes, then each attribute record in insertion order.
    pub fn pack(&self) -> (r: Vec<u8>)
        requires
            self.wf(),
        ensures
            r@ == packet_wire(self@),
    {
        let ghost models = raw_seq_model(self.attrs@);
        let mut buf = self.header.pack();
        let mut i: usize = 0;
        proof {
            assert(models.skip(0) =~= models);
            assert(buf@ + attrs_wire(models) =~= packet_wire(self@));
        }
        while i < self.attrs.len()
            invariant
                i <= self.attrs@.len(),
                self.wf(),
                models == raw_seq_model(self.attrs@),
                buf@ + attrs_wire(models.skip(i as int)) == packet_wire(self@),
            decreases self.attrs@.len() - i,
        {
            proof {
                assert(models.skip(i as int)[0] == models[i as int]);
                assert(models.skip(i as int).skip(1) =~= models.skip(i as int + 1));
            }
            let mut record = self.attrs[i].pack();
            buf.append(&mut record);
            proof {
                assert(buf@ + attrs_wire(models.skip(i as int + 1)) =~= packet_wire(self@));
            }
            i += 1;
        }
        proof {
            assert(models.skip(i as int) =~= Seq::<AttrModel>::empty());
            assert(buf@ =~= packet_wire(self@));
        }
        buf
    }

    /// Read a whole packet back from bytes, or say exactly why the bytes
    /// are not one.
    pub fn unpack(buf: &[u8]) -> (r: Result<Self, ParsePacketErr>)
        ensures
            r matches Ok(p) ==> p.wf() && spec_unpack(buf@) == Ok::<PacketModel, ParseErrKind>(
                p@,
            ),
            r matches Err(e) ==> spec_unpack(buf@) matches Err(k) && e.kind() == k,
            buf@.len() < HEADER_LEN ==> (r matches Err(e) && e.kind() == ParseErrKind::BufSize),
            buf@.len() >= HEADER_LEN && be16(buf@[2], buf@[3]) != buf@.len() - HEADER_LEN ==> (
            r matches Err(e) && e.kind() == ParseErrKind::NotMatch),
    {
        if buf.len() < HEADER_LEN {
            return Err(ParsePacketErr::BufSize("shorter than a header".to_owned()));
        }
        let header = match Header::unpack(buf) {
            Ok(h) => h,
            Err(e) => {
                return Err(e);
            },
        };
        let origin_len = header.msg_len;
        if buf.len() - HEADER_LEN != origin_len as usize {
            return Err(
                ParsePacketErr::NotMatch("header length disagrees with the buffer".to_owned()),
            );
        }
        let ghost section = buf@.skip(HEADER_LEN as int);
        let mut attr_list: Vec<RawAttr> = Vec::new();
        let mut pos: usize = HEADER_LEN;
        let mut max_attr: usize = MAX_ATTRS;
        proof {
            assert(raw_seq_model(attr_list@) =~= Seq::<AttrModel>::empty());
            if parse_attrs(section, MAX_ATTRS as nat) is Ok {
                assert(Seq::<AttrModel>::empty() + parse_attrs(section, MAX_ATTRS as nat)->Ok_0
                    =~= parse_attrs(section, MAX_ATTRS as nat)->Ok_0);
            }
        }
        while buf.len() - pos >= 4
            invariant
                HEADER_LEN <= pos <= buf@.len(),
                max_attr <= MAX_ATTRS,
                attr_list@.len() == MAX_ATTRS - max_attr,
                forall|j: int| 0 <= j < attr_list@.len() ==> (#[trigger] attr_list@[j]).wf(),
                section == buf@.skip(HEADER_LEN as int),
                be16(buf@[2], buf@[3]) == buf@.len() - HEADER_LEN,
                attrs_total_len(raw_seq_model(attr_list@)) == pos - HEADER_LEN,
                parse_attrs_resume(
                    section,
                    buf@.skip(pos as int),
                    raw_seq_model(attr_list@),
                    max_attr as nat,
                ),
            decreases buf@.len() - pos,
        {
            let ghost rem = buf@.skip(pos as int);
            let ghost done = raw_seq_model(attr_list@);
            let ghost entry_max = max_attr as nat;
            if max_attr == 0 {
                proof {
                    assert(parse_attrs(rem, 0) == Err::<Seq<AttrModel>, ParseErrKind>(
                        ParseErrKind::TooManyAttrs,
                    ));
                }
                return Err(ParsePacketErr::TooManyAttrs);
            }
            let alen = u16_from_be(buf[pos + 2], buf[pos + 3]) as usize;
            proof {
                assert(rem[2] == buf@[pos + 2] && rem[3] == buf@[pos + 3]);
            }
            if buf.len() - pos < alen + 4 {
                proof {
                    assert(parse_attrs(rem, entry_max) == Err::<Seq<AttrModel>, ParseErrKind>(
                        ParseErrKind::BufSize,
                    ));
                }
                return Err(
                    ParsePacketErr::BufSize("attribute value overruns the packet".to_owned()),
                );
            }
            let record = slice_subrange(buf, pos, pos + alen + 4);
            proof {
                assert(record@[0] == rem[0] && record@[1] == rem[1]);
                assert(record@[2] == rem[2] && record@[3] == rem[3]);
                assert(record@.len() == alen + 4);
            }
            let attr = match RawAttr::unpack(record) {
                Ok(a) => a,
                Err(e) => {
                    // the slice was cut to hold one whole record, so
                    // unpacking it cannot fail
                    proof {
                        assert(false);
                    }
                    return Err(e);
                },
            };
            proof {
                assert(attr@.value =~= rem.subrange(4, 4 + alen as int));
            }
            attr_list.push(attr);
            pos = pos + alen + 4;
            max_attr = max_attr - 1;
            proof {
                let new_rem = buf@.skip(pos as int);
                let new_done = raw_seq_model(attr_list@);
                assert(new_done =~= done.push(attr@));
                lemma_attrs_total_len_push(done, attr@);
                assert(rem.skip(alen + 4) =~= new_rem);
                let head = AttrModel { attr_type: be16(rem[0], rem[1]), value: rem.subrange(4, 4 + alen as int) };
                assert(head == attr@);
                if parse_attrs(new_rem, max_attr as nat) is Ok {
                    let rest = parse_attrs(new_rem, max_attr as nat)->Ok_0;
                    assert(parse_attrs(rem, entry_max) == Ok::<Seq<AttrModel>, ParseErrKind>(
                        seq![head] + rest,
                    ));
                    assert(done + (seq![head] + rest) =~= new_done + rest);
                } else {
                    assert(parse_attrs(rem, entry_max) == parse_attrs(new_rem, max_attr as nat));
                }
            }
        }
        if pos != buf.len() {
            proof {
                let rem = buf@.skip(pos as int);
                assert(0 < rem.len() < 4);
                assert(parse_attrs(rem, max_attr as nat) == Err::<Seq<AttrModel>, ParseErrKind>(
                    ParseErrKind::NotMatch,
                ));
            }
            return Err(
                ParsePacketErr::NotMatch("attribute records do not fill the packet".to_owned()),
            );
        }
        proof {
            let rem = buf@.skip(pos as int);
            assert(rem.len() == 0);
            assert(parse_attrs(rem, max_attr as nat) == Ok::<Seq<AttrModel>, ParseErrKind>(
                Seq::empty(),
            ));
            assert(raw_seq_model(attr_list@) + Seq::<AttrModel>::empty() =~= raw_seq_model(
                attr_list@,
            ));
            lemma_attrs_total_len_nonneg(raw_seq_model(attr_list@));
        }
        let packet = Packet::new(header, attr_list);
        Ok(packet)
    }
}

/// The value rules for one attribute, keyed by its type code.  Types the
/// protocol does not validate pass unconditionally.
pub open spec fn attr_validates(a: AttrModel) -> bool {
    &&& is_address_type(a.attr_type) ==> addr_value_ok(a.value) && 0 < addr_value_model(
        a.value,
    ).port < 65535
    &&& a.attr_type == ATTR_ERROR_CODE ==> a.value.len() >= 4 && valid_utf8(a.value.skip(4))
        && 100 < unpack_error_code_spec(be16(a.value[2], a.value[3])) < 700
    &&& a.attr_type == ATTR_RESPONSE_PORT ==> a.value.len() == 4 && 0 < be16(
        a.value[0],
        a.value[1],
    ) < 65535
    &&& a.attr_type == ATTR_XOR_MAPPED_ADDRESS ==> addr_value_ok(a.value) && 0 < xor_port(
        addr_value_model(a.value).port,
    ) < 65535
}

/// A structurally parsed packet whose message type is known and whose
/// attributes all pass their value rules.
pub open spec fn packet_valid(p: PacketModel) -> bool {
    &&& msg_type_known(p.header.msg_type)
    &&& forall|i: int| 0 <= i < p.attrs.len() ==> attr_validates(#[trigger] p.attrs[i])
}

impl Packet {
    /// Check the protocol's value rules over the header and each
    /// attribute present; the first failure wins.
    pub fn validate(&self) -> (r: Option<ValidateErr>)
        ensures
            r is None <==> packet_valid(self@),
    {
        if let Some(e) = self.header.validate() {
            return Some(e);
        }
        let ghost models = raw_seq_model(self.attrs@);
        let mut i: usize = 0;
        while i < self.attrs.len()
            invariant
                i <= self.attrs@.len(),
                models == raw_seq_model(self.attrs@),
                forall|j: int| 0 <= j < i ==> attr_validates(#[trigger] models[j]),
            decreases self.attrs@.len() - i,
        {
            let attr = &self.attrs[i];
            proof {
                assert(models[i as int] == self.attrs@[i as int]@);
            }
            if AddressAttr::is_like_mapped_addr(attr.attr_type) {
                match AddressAttr::try_from_raw(attr) {
                    Ok(typed) => {
                        if let Some(e) = typed.validate() {
                            proof {
                                assert(typed.address.port == addr_value_model(
                                    models[i as int].value,
                                ).port);
                                assert(self@.attrs[i as int] == models[i as int]);
                                assert(!attr_validates(self@.attrs[i as int]));
                            }
                            return Some(e);
                        }
                    },
                    Err(_) => {
                        proof {
                            assert(self@.attrs[i as int] == models[i as int]);
                            assert(!attr_validates(self@.attrs[i as int]));
                        }
                        return Some(ValidateErr("malformed address attribute".to_owned()));
                    },
                }
            }
            if attr.attr_type == ATTR_ERROR_CODE {
                match ErrcodeAttr::try_from_raw(attr) {
                    Ok(typed) => {
                        if let Some(e) = typed.validate() {
                            proof {
                                assert(self@.attrs[i as int] == models[i as int]);
                                assert(!attr_validates(self@.attrs[i as int]));
                            }
                            return Some(e);
                        }
                    },
                    Err(_) => {
                        proof {
                            assert(self@.attrs[i as int] == models[i as int]);
                            assert(!attr_validates(self@.attrs[i as int]));
                        }
                        return Some(ValidateErr("malformed error-code attribute".to_owned()));
                    },
                }
            }
            if attr.attr_type == ATTR_RESPONSE_PORT {
                match ResponsePort::try_from_raw(attr) {
                    Ok(typed) => {
                        if let Some(e) = typed.validate() {
                            proof {
                                assert(self@.attrs[i as int] == models[i as int]);
                                assert(!attr_validates(self@.attrs[i as int]));
                            }
                            return Some(e);
                        }
                    },
                    Err(_) => {
                        proof {
                            assert(self@.attrs[i as int] == models[i as int]);
                            assert(!attr_validates(self@.attrs[i as int]));
                        }
                        return Some(ValidateErr("malformed response-port attribute".to_owned()));
                    },
                }
            }
            if attr.attr_type == ATTR_XOR_MAPPED_ADDRESS {
                match XorMappedAddress::from_base_attr(attr, &self.header.trans_id) {
                    Ok(typed) => {
                        if let Some(e) = typed.validate() {
                            proof {
                                assert(typed.address.port == xor_port(addr_value_model(
                                    models[i as int].value,
                                ).port));
                                assert(self@.attrs[i as int] == models[i as int]);
                                assert(!attr_validates(self@.attrs[i as int]));
                            }
                            return Some(e);
                        }
                    },
                    Err(_) => {
                        proof {
                            assert(self@.attrs[i as int] == models[i as int]);
                            assert(!attr_validates(self@.attrs[i as int]));
                        }
                        return Some(
                            ValidateErr("malformed xor-mapped address attribute".to_owned()),
                        );
                    },
                }
            }
            i += 1;
        }
        None
    }
}

/// Appending one attribute grows the section by that attribute's record size.
pub proof fn lemma_attrs_total_len_push(s: Seq<AttrModel>, a: AttrModel)
    ensures
        attrs_total_len(s.push(a)) == attrs_total_len(s) + 4 + a.value.len(),
    decreases s.len(),
{
    if s.len() == 0 {
        assert(s.push(a)[0] == a);
        assert(s.push(a).skip(1) =~= Seq::<AttrModel>::empty());
        assert(attrs_total_len(Seq::<AttrModel>::empty()) == 0);
        assert(attrs_total_len(s) == 0);
        assert(attrs_total_len(s.push(a)) == 4 + a.value.len() + attrs_total_len(
            s.push(a).skip(1),
        ));
    } else {
        assert(s.push(a)[0] == s[0]);
        assert(s.push(a).skip(1) =~= s.skip(1).push(a));
        lemma_attrs_total_len_push(s.skip(1), a);
        assert(attrs_total_len(s) == 4 + s[0].value.len() + attrs_total_len(s.skip(1)));
    }
}

} // verus!
