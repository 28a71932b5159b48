//! Decoding OSC packets from UDP datagrams and flattening bundles into the
//! messages they carry.
//!
//! Decoding is `rosc`'s; its packets are carried here as plain values:
//! each message's address and the kind of its first argument, with float
//! arguments kept as their bit patterns.
use vstd::prelude::*;

verus! {

/// `rosc::OscPacket`, a decoded packet, seen only by the conversion to
/// [`OscPacketModel`].
#[verifier::external_type_specification]
#[verifier::external_body]
pub struct ExOscPacket(rosc::OscPacket);

/// The first argument of a message, as far as a parameter value is read
/// from it (floats as their bit patterns).
#[derive(Debug, Clone, Copy, PartialEq, Eq)]
pub enum OscArg {
    Float(u32),
    Double(u64),
    Int(i32),
    Long(i64),
    /// Any other kind of argument.
    Other,
}

/// A decoded message: its address and its first argument, if any.
#[derive(Debug, Clone, PartialEq)]
pub struct OscMessageModel {
    pub addr: String,
    pub first_arg: Option<OscArg>,
}

/// A decoded packet: one message, or a bundle of packets in order.
#[derive(Debug)]
pub enum OscPacketModel {
    Message(OscMessageModel),
    Bundle(Vec<OscPacketModel>),
}

/// The packet `rosc::decoder::decode_udp` decodes from a datagram (`None`
/// when it reports an error).
pub uninterp spec fn spec_decode_osc(bytes: Seq<u8>) -> Option<OscPacketModel>;

/// `rosc::decoder::decode_udp`: decode a datagram into a packet (`None`
/// on a decode error). The result is named, not described: it depends on
/// the bytes alone.
#[verifier::external_body]
pub fn decode_osc(bytes: &[u8]) -> (r: Option<OscPacketModel>)
    ensures
        r == spec_decode_osc(bytes@),
{
    match rosc::decoder::decode_udp(bytes) {
        Ok((_, packet)) => Some(packet_model(packet)),
        Err(_) => None,
    }
}

/// The conversion [`decode_osc`] applies to a `rosc` packet, one for one:
/// a message keeps its address and the kind of its first argument; a
/// bundle keeps its packets in order (its time tag is dropped).
#[verifier::external_body]
fn packet_model(packet: rosc::OscPacket) -> (r: OscPacketModel) {
    match packet {
        rosc::OscPacket::Message(m) => OscPacketModel::Message(OscMessageModel {
            first_arg: m.args.first().map(|a| match a {
                rosc::OscType::Float(f) => OscArg::Float(f.to_bits()),
                rosc::OscType::Double(d) => OscArg::Double(d.to_bits()),
                rosc::OscType::Int(i) => OscArg::Int(*i),
                rosc::OscType::Long(l) => OscArg::Long(*l),
                _ => OscArg::Other,
            }),
            addr: m.addr,
        }),
        rosc::OscPacket::Bundle(b) => OscPacketModel::Bundle(b.content.into_iter().map(packet_model).collect()),
    }
}

/// The messages a packet carries, depth first, in order.
pub open spec fn spec_flatten(p: OscPacketModel) -> Seq<OscMessageModel>
    decreases p,
{
    match p {
        OscPacketModel::Message(m) => seq![m],
        OscPacketModel::Bundle(v) => spec_flatten_all(v@),
    }
}

/// The messages the packets of `s` carry, in order.
pub open spec fn spec_flatten_all(s: Seq<OscPacketModel>) -> Seq<OscMessageModel>
    decreases s,
{
    if s.len() == 0 {
        Seq::empty()
    } else {
        spec_flatten_all(s.drop_last()) + spec_flatten(s.last())
    }
}

/// The messages a packet carries: a message itself, or the messages of a
/// bundle's packets in order, nested bundles included.
pub fn flatten_messages(packet: OscPacketModel) -> (r: Vec<OscMessageModel>)
    ensures
        r@ == spec_flatten(packet),
    decreases packet,
{
    match packet {
        OscPacketModel::Message(m) => {
            let mut out: Vec<OscMessageModel> = Vec::new();
            out.push(m);
            proof {
                assert(out@ =~= seq![m]);
            }
            out
        },
        OscPacketModel::Bundle(v) => {
            let ghost orig = v@;
            let mut rest = v;
            let mut out: Vec<OscMessageModel> = Vec::new();
            let ghost mut k: int = 0;
            proof {
                assert(orig.subrange(0, 0) =~= Seq::<OscPacketModel>::empty());
            }
            while rest.len() > 0
                invariant
                    0 <= k <= orig.len(),
                    rest@ == orig.subrange(k, orig.len() as int),
                    out@ == spec_flatten_all(orig.subrange(0, k)),
                    decreases_to!(packet => orig),
                decreases rest@.len(),
            {
                let p = rest.remove(0);
                proof {
                    assert(p == orig[k]);
                    assert(decreases_to!(packet => orig[k]));
                }
                let part = flatten_messages(p);
                let ghost before = out@;
                let mut part = part;
                out.append(&mut part);
                proof {
                    let next = orig.subrange(0, k + 1);
                    assert(next.drop_last() =~= orig.subrange(0, k));
                    assert(next.last() == orig[k]);
                    assert(rest@ =~= orig.subrange(k + 1, orig.len() as int));
                    k = k + 1;
                }
            }
            proof {
                assert(orig.subrange(0, k) =~= orig);
            }
            out
        },
    }
}

} // verus!
