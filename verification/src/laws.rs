use vstd::prelude::*;
use vstd::utf8::encode_utf8;
use crate::pack_tool::{spec_header_bytes, spec_short, spec_string_bytes, spec_varint};
use crate::protocol::{
    MqttCleanSession, MqttDup, MqttQos, MqttRetain, MqttSessionPresent, MqttWillFlag,
    spec_qos_num, spec_qos_of_num,
};
use crate::reason_code::{ReasonCodeV3, spec_v3_code_num};
use crate::types::{TypeKind, spec_kind_num};
use crate::un_pack_tool::{
    lemma_varint_round_trip, spec_be16, spec_be32, spec_parse_string, spec_remaining_data,
    spec_varint_decode, spec_varint_decode_rec,
};
use crate::hex::{
    PropertyFilter, PropertyItemModel, spec_filter_allows, spec_parse_property_value,
    spec_properties_bytes, spec_property_block_bytes, spec_property_bytes, spec_property_num,
    spec_property_of_num, spec_property_value_fits, spec_unpack_properties,
};
use crate::v3::{
    ConnectModel, PublishModel, SubackModel, SubscribeModel, UnsubscribeModel, connect_wf,
    publish_wf, subscribe_wf, unsubscribe_wf,
};
use crate::v3_packet::{
    spec_connack_bytes, spec_not_payload_bytes, spec_publish_body, spec_publish_bytes,
    spec_suback_bytes, spec_subscribe_body,
};
use crate::v3_unpacket::{
    spec_parse_publish, spec_parse_sub_entries, spec_parse_subscribe, spec_parse_unsub_entries,
    spec_parse_unsubscribe,
};

verus! {

broadcast use vstd::utf8::encode_utf8_valid_utf8, vstd::utf8::encode_utf8_decode_utf8,
    vstd::utf8::decode_utf8_encode_utf8;

/// A string decodes back to the characters it was encoded from, consuming
/// exactly its own bytes, whatever follows it.
pub proof fn lemma_string_round_trip(s: Seq<char>, rest: Seq<u8>)
    requires
        encode_utf8(s).len() <= 65535,
    ensures
        spec_parse_string(spec_string_bytes(s) + rest) == Some(
            (s, 2 + encode_utf8(s).len() as int),
        ),
        (spec_string_bytes(s) + rest).skip(2 + encode_utf8(s).len() as int) == rest,
{
    let n = encode_utf8(s).len() as int;
    let b = spec_string_bytes(s) + rest;
    assert(b[0] == (n / 256) as u8);
    assert(b[1] == (n % 256) as u8);
    assert(spec_be16(b) == n);
    assert(b.subrange(2, 2 + n) =~= encode_utf8(s));
    assert(decode_utf8_id(s));
    assert(b.skip(2 + n) =~= rest);
}

/// Decoding an encoding gives the characters back.
pub open spec fn decode_utf8_id(s: Seq<char>) -> bool {
    vstd::utf8::decode_utf8(encode_utf8(s)) == s
}

/// A decoded string re-encodes to exactly the bytes it was read from: what
/// the decoder consumed, the encoder reproduces.
pub proof fn lemma_string_reencode(b: Seq<u8>)
    ensures
        spec_parse_string(b) matches Some((s, c)) ==> spec_string_bytes(s) == b.take(c),
{
    if spec_parse_string(b) is Some {
        let (s, c) = spec_parse_string(b).unwrap();
        let n = spec_be16(b) as int;
        assert(encode_utf8(s) == b.subrange(2, 2 + n));
        assert(spec_string_bytes(s) =~= b.take(c));
    }
}

/// Scaling a variable-byte-integer decode: the accumulator and multiplier
/// pass straight through the digits.
proof fn lemma_varint_decode_scale(b: Seq<u8>, budget: nat, mult: nat, acc: nat)
    requires
        mult >= 1,
    ensures
        match spec_varint_decode_rec(b, budget, 1, 0) {
            Some((w, c)) => spec_varint_decode_rec(b, budget, mult, acc) == Some(
                ((acc + mult * w) as nat, c),
            ),
            None => spec_varint_decode_rec(b, budget, mult, acc) is None,
        },
    decreases budget,
{
    if budget > 0 && b.len() > 0 && b[0] < 128 {
        assert(acc + mult * ((b[0] % 128) as nat) == acc + (b[0] % 128) * mult)
            by (nonlinear_arith);
    }
    if budget > 0 && b.len() > 0 && b[0] >= 128 {
        let d = (b[0] % 128) as nat;
        lemma_varint_decode_scale(b.skip(1), (budget - 1) as nat, mult * 128, (acc + d
            * mult) as nat);
        lemma_varint_decode_scale(b.skip(1), (budget - 1) as nat, 128, d);
        if spec_varint_decode_rec(b.skip(1), (budget - 1) as nat, 1, 0) is Some {
            let (w1, c1) = spec_varint_decode_rec(b.skip(1), (budget - 1) as nat, 1, 0).unwrap();
            assert(spec_varint_decode_rec(b, budget, mult, acc) == Some(
                (((acc + d * mult) + (mult * 128) * w1) as nat, (c1 + 1) as nat),
            ));
            assert(spec_varint_decode_rec(b, budget, 1, 0) == Some(
                ((d + 128 * w1) as nat, (c1 + 1) as nat),
            ));
            assert((acc + d * mult) + (mult * 128) * w1 == acc + mult * (d + 128 * w1))
                by (nonlinear_arith);
        }
    }
}

/// A decode that consumed as many bytes as the canonical encoding of its
/// value re-encodes to exactly the bytes it consumed: a canonical variable
/// byte integer survives the round trip byte for byte.
pub proof fn lemma_varint_reencode(b: Seq<u8>, budget: nat)
    ensures
        match spec_varint_decode_rec(b, budget, 1, 0) {
            Some((v, c)) => spec_varint(v).len() == c ==> b.take(c as int) == spec_varint(v),
            None => true,
        },
    decreases budget,
{
    if budget > 0 && b.len() > 0 {
        if b[0] < 128 {
            let v = (b[0] % 128) as nat;
            assert(spec_varint(v) =~= seq![b[0]]);
            assert(b.take(1) =~= seq![b[0]]);
        } else {
            let d0 = (b[0] % 128) as nat;
            lemma_varint_decode_scale(b.skip(1), (budget - 1) as nat, 128, d0);
            lemma_varint_reencode(b.skip(1), (budget - 1) as nat);
            let sub = spec_varint_decode_rec(b.skip(1), (budget - 1) as nat, 1, 0);
            if sub is Some {
                let (w, c2) = spec_varint_decode_rec(
                    b.skip(1),
                    (budget - 1) as nat,
                    1,
                    0,
                ).unwrap();
                let v = (d0 + 128 * w) as nat;
                if spec_varint(v).len() == c2 + 1 {
                    assert(v % 128 == d0 && v / 128 == w) by (nonlinear_arith)
                        requires
                            v == d0 + 128 * w,
                            d0 < 128,
                    ;
                    if w == 0 {
                        assert(spec_varint(v).len() == 1);
                    } else {
                        assert(v >= 128);
                        assert(spec_varint(v) == seq![(v % 128 + 128) as u8] + spec_varint(
                            v / 128,
                        ));
                        assert((v % 128 + 128) as u8 == b[0]);
                        assert(spec_varint(w).len() == c2);
                        crate::un_pack_tool::lemma_varint_decode_rec_len(
                            b.skip(1),
                            (budget - 1) as nat,
                        );
                        assert(c2 <= b.skip(1).len());
                        assert(b.skip(1).take(c2 as int) == spec_varint(w));
                        assert(b.take(c2 + 1 as int) =~= seq![b[0]] + b.skip(1).take(c2 as int));
                        assert(b.take(c2 + 1 as int) =~= spec_varint(v));
                    }
                }
            }
        }
    }
}

/// A fixed header without flags decodes back to its kind, and the
/// remaining-length field declares exactly the body behind it.
pub proof fn lemma_short_header(k: TypeKind, body: Seq<u8>)
    requires
        body.len() <= crate::varint_max(),
    ensures
        spec_remaining_data(spec_header_bytes(k, body.len()) + body) == Some(body),
        (spec_header_bytes(k, body.len()) + body)[0] / 16 == spec_kind_num(k),
{
    let b = spec_header_bytes(k, body.len()) + body;
    assert(b[0] == (spec_kind_num(k) * 16) as u8);
    assert(b.skip(1) =~= spec_varint(body.len()) + body);
    lemma_varint_round_trip(body.len() as nat, body);
    let c = spec_varint(body.len()).len() as int;
    assert(spec_varint_decode(b.skip(1)) == Some((body.len() as nat, c as nat)));
    assert(b.subrange(1 + c, 1 + c + body.len() as int) =~= body);
    assert(b[0] / 16 == spec_kind_num(k)) by (nonlinear_arith)
        requires
            b[0] == (spec_kind_num(k) * 16) as u8,
            1 <= spec_kind_num(k) <= 15,
    ;
}

/// A CONNACK decodes back to the session-present flag and return code it was
/// encoded from.
pub proof fn lemma_connack_round_trip(sp: MqttSessionPresent, code: ReasonCodeV3)
    ensures
        ({
            let b = spec_connack_bytes(sp, code);
            &&& spec_remaining_data(b) matches Some(body) && body.len() == 2 && (if body[0] % 2
                == 1 {
                MqttSessionPresent::Enable
            } else {
                MqttSessionPresent::Disable
            }) == sp && body[1] == spec_v3_code_num(code)
        }),
{
    let body = seq![
        if sp == MqttSessionPresent::Enable {
            1u8
        } else {
            0u8
        },
        spec_v3_code_num(code),
    ];
    lemma_short_header(TypeKind::CONNACK, body);
}

/// An acknowledgment packet that carries only a packet identifier decodes
/// back to that identifier.
pub proof fn lemma_not_payload_round_trip(message_id: u16, kind: TypeKind)
    ensures
        ({
            let b = spec_not_payload_bytes(message_id, kind);
            &&& spec_remaining_data(b) matches Some(body) && body.len() == 2 && spec_be16(body)
                == message_id
            &&& b[0] / 16 == spec_kind_num(kind)
        }),
{
    lemma_short_header(kind, spec_short(message_id));
}

/// A SUBACK decodes back to its identifier and its grant codes.
pub proof fn lemma_suback_round_trip(m: SubackModel)
    requires
        m.codes.len() + 2 <= crate::varint_max(),
    ensures
        ({
            let b = spec_suback_bytes(m);
            spec_remaining_data(b) matches Some(body) && body.len() >= 2 && spec_be16(body)
                == m.message_id && body.skip(2) == m.codes
        }),
{
    let body = spec_short(m.message_id) + m.codes;
    lemma_short_header(TypeKind::SUBACK, body);
    assert(body.subrange(0, 2) =~= spec_short(m.message_id));
    assert(body[0] == spec_short(m.message_id)[0]);
    assert(body[1] == spec_short(m.message_id)[1]);
    assert(body.skip(2) =~= m.codes);
}

/// The PUBLISH flag bits read back out of the first header byte.
proof fn lemma_publish_flags_bits(d: u8, q: u8, rr: u8)
    ensures
        d <= 1 && q <= 2 && rr <= 1 ==> ({
            let f = (48 + d * 8 + q * 2 + rr) as u8;
            &&& f / 16 == 3
            &&& (f / 2) % 4 == q
            &&& f % 2 == rr
            &&& (f / 8) % 2 == d
        }),
{
    assert(d <= 1 && q <= 2 && rr <= 1 ==> ({
        let f = (48 + d * 8 + q * 2 + rr) as u8;
        &&& f / 16 == 3
        &&& (f / 2) % 4 == q
        &&& f % 2 == rr
        &&& (f / 8) % 2 == d
    })) by (bit_vector);
}

/// A PUBLISH decodes back to the topic, identifier and body it was encoded
/// from, and its header flags read back as its QoS, DUP and RETAIN.
#[verifier::rlimit(100)]
#[verifier::spinoff_prover]
pub proof fn lemma_publish_round_trip(m: PublishModel)
    requires
        publish_wf(m),
        m.qos != MqttQos::Qos0 ==> m.message_id != 0,
        spec_publish_body(m).len() <= crate::varint_max(),
    ensures
        ({
            let b = spec_publish_bytes(m);
            &&& crate::types::spec_kind_of_num(b[0] / 16) == Some(TypeKind::PUBLISH)
            &&& spec_qos_of_num((b[0] / 2) % 4) == Some(m.qos)
            &&& (b[0] % 2 == 1) == (m.retain == MqttRetain::Enable)
            &&& ((b[0] / 8) % 2 == 1) == (m.dup == MqttDup::Enable)
            &&& spec_parse_publish(b, Some(m.qos)) == Some(
                (
                    m.topic,
                    if m.qos == MqttQos::Qos0 {
                        0u16
                    } else {
                        m.message_id
                    },
                    m.msg_body,
                ),
            )
        }),
{
    let body = spec_publish_body(m);
    let b = spec_publish_bytes(m);
    let d: u8 = if m.dup == MqttDup::Enable {
        1
    } else {
        0
    };
    let q: u8 = spec_qos_num(m.qos);
    let rr: u8 = if m.retain == MqttRetain::Enable {
        1
    } else {
        0
    };
    assert(b[0] == (48 + d * 8 + q * 2 + rr) as u8);
    lemma_publish_flags_bits(d, q, rr);
    assert(b.skip(1) =~= spec_varint(body.len()) + body);
    lemma_varint_round_trip(body.len() as nat, body);
    let c0 = spec_varint(body.len()).len() as int;
    assert(spec_varint_decode(b.skip(1)) == Some((body.len() as nat, c0 as nat)));
    assert(b.subrange(1 + c0, 1 + c0 + body.len() as int) =~= body);
    assert(spec_remaining_data(b) == Some(body));
    let rest = (if m.qos != MqttQos::Qos0 {
        spec_short(m.message_id)
    } else {
        Seq::<u8>::empty()
    }) + encode_utf8(m.msg_body);
    assert(body =~= spec_string_bytes(m.topic) + rest);
    lemma_string_round_trip(m.topic, rest);
    let c = 2 + encode_utf8(m.topic).len() as int;
    assert(body.skip(c) == rest);
    if m.qos != MqttQos::Qos0 {
        assert(rest.subrange(0, 2) =~= spec_short(m.message_id));
        assert(rest[0] == spec_short(m.message_id)[0]);
        assert(rest[1] == spec_short(m.message_id)[1]);
        assert(spec_be16(rest) == m.message_id);
        assert(rest.skip(2) =~= encode_utf8(m.msg_body));
    } else {
        assert(rest =~= encode_utf8(m.msg_body));
    }
}

/// A single-topic SUBSCRIBE decodes back to its identifier and its one
/// topic entry, and the options byte reads back as the requested QoS.
pub proof fn lemma_subscribe_round_trip(m: SubscribeModel)
    requires
        subscribe_wf(m),
    ensures
        spec_parse_subscribe(crate::v3_packet::spec_subscribe_bytes(m)) == Some(
            (m.message_id, seq![(m.topic, spec_qos_num(m.qos))]),
        ),
        spec_qos_of_num(spec_qos_num(m.qos)) == Some(m.qos),
{
    let body = spec_subscribe_body(m);
    let b = crate::v3_packet::spec_subscribe_bytes(m);
    lemma_short_header(TypeKind::SUBSCRIBE, body);
    assert(spec_remaining_data(b) == Some(body));
    assert(body.subrange(0, 2) =~= spec_short(m.message_id));
    assert(body[0] == spec_short(m.message_id)[0]);
    assert(body[1] == spec_short(m.message_id)[1]);
    assert(spec_be16(body) == m.message_id);
    let entries = body.skip(2);
    assert(entries =~= spec_string_bytes(m.topic) + seq![spec_qos_num(m.qos)]);
    lemma_string_round_trip(m.topic, seq![spec_qos_num(m.qos)]);
    let c = 2 + encode_utf8(m.topic).len() as int;
    assert(entries.len() == c + 1);
    assert(entries[c] == spec_qos_num(m.qos));
    assert(entries.skip(c + 1) =~= Seq::<u8>::empty());
    assert(spec_parse_sub_entries(entries.skip(c + 1)) == Some(
        Seq::<(Seq<char>, u8)>::empty(),
    ));
    assert(spec_parse_sub_entries(entries) == Some(seq![(m.topic, spec_qos_num(m.qos))])) by {
        assert(seq![(m.topic, spec_qos_num(m.qos))] + Seq::<(Seq<char>, u8)>::empty() =~= seq![
            (m.topic, spec_qos_num(m.qos)),
        ]);
    }
}

/// A single-topic UNSUBSCRIBE decodes back to its identifier and topic.
pub proof fn lemma_unsubscribe_round_trip(m: UnsubscribeModel)
    requires
        unsubscribe_wf(m),
    ensures
        spec_parse_unsubscribe(crate::v3_packet::spec_unsubscribe_bytes(m)) == Some(
            (m.message_id, seq![m.topic]),
        ),
{
    let body = crate::v3_packet::spec_unsubscribe_body(m);
    let b = crate::v3_packet::spec_unsubscribe_bytes(m);
    lemma_short_header(TypeKind::UNSUBSCRIBE, body);
    assert(body.subrange(0, 2) =~= spec_short(m.message_id));
    assert(body[0] == spec_short(m.message_id)[0]);
    assert(body[1] == spec_short(m.message_id)[1]);
    assert(spec_be16(body) == m.message_id);
    let entries = body.skip(2);
    assert(entries =~= spec_string_bytes(m.topic) + Seq::<u8>::empty());
    lemma_string_round_trip(m.topic, Seq::<u8>::empty());
    let c = 2 + encode_utf8(m.topic).len() as int;
    assert(entries.skip(c) =~= Seq::<u8>::empty());
    assert(spec_parse_unsub_entries(entries.skip(c)) == Some(Seq::<Seq<char>>::empty()));
    assert(spec_parse_unsub_entries(entries) == Some(seq![m.topic])) by {
        assert(seq![m.topic] + Seq::<Seq<char>>::empty() =~= seq![m.topic]);
    }
}

/// The connect-flag bits read back out of the flags byte.
proof fn lemma_connect_flags_bits(cs: u8, w: u8, q: u8, rr: u8, u: u8, p: u8)
    ensures
        cs <= 1 && w <= 1 && q <= 2 && rr <= 1 && u <= 1 && p <= 1 ==> ({
            let f = (cs * 2 + w * (4 + q * 8 + rr * 32) + u * 128 + p * 64) as u8;
            &&& (f / 2) % 2 == cs
            &&& (f / 4) % 2 == w
            &&& (f / 8) % 4 == w * q
            &&& (f / 32) % 2 == w * rr
            &&& (f / 64) % 2 == p
            &&& (f / 128) % 2 == u
        }),
{
    assert(cs <= 1 && w <= 1 && q <= 2 && rr <= 1 && u <= 1 && p <= 1 ==> ({
        let f = (cs * 2 + w * (4 + q * 8 + rr * 32) + u * 128 + p * 64) as u8;
        &&& (f / 2) % 2 == cs
        &&& (f / 4) % 2 == w
        &&& (f / 8) % 4 == w * q
        &&& (f / 32) % 2 == w * rr
        &&& (f / 64) % 2 == p
        &&& (f / 128) % 2 == u
    })) by (bit_vector);
}

/// What a CONNECT must hold so that serializing and parsing gives it back:
/// its strings fit, the protocol name is the four-byte name of the level the
/// broker serves, the will fields follow the will flag bit for bit, and the
/// whole body fits a one-byte remaining length.
pub open spec fn connect_round_trip_wf(m: ConnectModel) -> bool {
    &&& connect_wf(m)
    &&& m.protocol_level != crate::protocol::MqttProtocolLevel::Level5
    &&& (m.will_flag == MqttWillFlag::Enable ==> m.payload.will_topic is Some
        && m.payload.will_message is Some)
    &&& (m.will_flag == MqttWillFlag::Disable ==> m.payload.will_topic is None
        && m.payload.will_message is None && m.will_qos == MqttQos::Qos0 && m.will_retain
        == MqttRetain::Disable)
    &&& m.payload.properties is None
    &&& crate::v3_packet::spec_connect_body(m).len() <= crate::varint_max()
}

/// An optional string that a flag announces parses back to itself, leaving
/// what follows it.
proof fn lemma_opt_string_parse(o: Option<Seq<char>>, rest: Seq<u8>)
    requires
        crate::pack_tool::spec_opt_fits(o),
    ensures
        crate::un_pack_tool::spec_parse_opt_string(
            o is Some,
            crate::v3_packet::spec_opt_string_bytes(o) + rest,
        ) == Some((o, rest)),
{
    if o is Some {
        let u = o.unwrap();
        assert(crate::v3_packet::spec_opt_string_bytes(o) + rest =~= spec_string_bytes(u) + rest);
        lemma_string_round_trip(u, rest);
    } else {
        assert(crate::v3_packet::spec_opt_string_bytes(o) + rest =~= rest);
    }
}

/// An enabled will block parses back to its properties, topic and message,
/// leaving what follows it.
proof fn lemma_will_block_parse(
    level: crate::protocol::MqttProtocolLevel,
    wt: Seq<char>,
    wm: Seq<char>,
    rest: Seq<u8>,
)
    requires
        level != crate::protocol::MqttProtocolLevel::Level5,
        encode_utf8(wt).len() <= 65535,
        encode_utf8(wm).len() <= 65535,
    ensures
        crate::un_pack_tool::spec_parse_will_block(
            level,
            spec_string_bytes(wt) + spec_string_bytes(wm) + rest,
            MqttWillFlag::Enable,
        ) == Some((None::<Seq<crate::hex::PropertyItemModel>>, Some(wt), Some(wm), rest)),
{
    let b1 = spec_string_bytes(wt) + spec_string_bytes(wm) + rest;
    assert(b1 =~= spec_string_bytes(wt) + (spec_string_bytes(wm) + rest));
    lemma_string_round_trip(wt, spec_string_bytes(wm) + rest);
    let c1 = 2 + encode_utf8(wt).len() as int;
    assert(b1.skip(c1) == spec_string_bytes(wm) + rest);
    lemma_string_round_trip(wm, rest);
}

/// A CONNECT payload parses back to the fields it was serialized from.
#[verifier::rlimit(100)]
#[verifier::spinoff_prover]
proof fn lemma_payload_round_trip(
    level: crate::protocol::MqttProtocolLevel,
    cid: Seq<char>,
    wt: Option<Seq<char>>,
    wm: Option<Seq<char>>,
    un: Option<Seq<char>>,
    pw: Option<Seq<char>>,
    will_flag: MqttWillFlag,
)
    requires
        level != crate::protocol::MqttProtocolLevel::Level5,
        encode_utf8(cid).len() <= 65535,
        crate::pack_tool::spec_opt_fits(wt),
        crate::pack_tool::spec_opt_fits(wm),
        crate::pack_tool::spec_opt_fits(un),
        crate::pack_tool::spec_opt_fits(pw),
        will_flag == MqttWillFlag::Enable ==> wt is Some && wm is Some,
        will_flag != MqttWillFlag::Enable ==> wt is None && wm is None,
    ensures
        ({
            let willpart = if will_flag == MqttWillFlag::Enable {
                crate::v3_packet::spec_opt_string_bytes(wt)
                    + crate::v3_packet::spec_opt_string_bytes(wm)
            } else {
                Seq::<u8>::empty()
            };
            let pb = spec_string_bytes(cid) + willpart + crate::v3_packet::spec_opt_string_bytes(
                un,
            ) + crate::v3_packet::spec_opt_string_bytes(pw);
            crate::un_pack_tool::spec_parse_connect_payload(
                level,
                pb,
                will_flag,
                if un is Some {
                    crate::protocol::MqttUsernameFlag::Enable
                } else {
                    crate::protocol::MqttUsernameFlag::Disable
                },
                if pw is Some {
                    crate::protocol::MqttPasswordFlag::Enable
                } else {
                    crate::protocol::MqttPasswordFlag::Disable
                },
            ) == Some(
                crate::message::ConnectPayloadModel {
                    client_id: cid,
                    will_topic: wt,
                    will_message: wm,
                    user_name: un,
                    password: pw,
                    properties: None,
                },
            )
        }),
{
    let willpart = if will_flag == MqttWillFlag::Enable {
        crate::v3_packet::spec_opt_string_bytes(wt) + crate::v3_packet::spec_opt_string_bytes(wm)
    } else {
        Seq::<u8>::empty()
    };
    let unpart = crate::v3_packet::spec_opt_string_bytes(un);
    let pwpart = crate::v3_packet::spec_opt_string_bytes(pw);
    let pb = spec_string_bytes(cid) + willpart + unpart + pwpart;

    lemma_string_round_trip(cid, willpart + (unpart + pwpart));
    assert(pb =~= spec_string_bytes(cid) + (willpart + (unpart + pwpart)));
    let c0 = 2 + encode_utf8(cid).len() as int;
    let b1 = pb.skip(c0);
    assert(b1 == willpart + (unpart + pwpart));

    if will_flag == MqttWillFlag::Enable {
        let wts = wt.unwrap();
        let wms = wm.unwrap();
        assert(b1 =~= spec_string_bytes(wts) + spec_string_bytes(wms) + (unpart + pwpart));
        lemma_will_block_parse(level, wts, wms, unpart + pwpart);
    } else {
        assert(b1 =~= unpart + pwpart);
    }
    let wb = crate::un_pack_tool::spec_parse_will_block(
        crate::protocol::MqttProtocolLevel::Level3_1_1,
        b1,
        will_flag,
    );
    let b2 = wb.unwrap().3;
    assert(b2 == unpart + pwpart);

    assert(b2 =~= crate::v3_packet::spec_opt_string_bytes(un) + pwpart);
    lemma_opt_string_parse(un, pwpart);
    let b3 = crate::un_pack_tool::spec_parse_opt_string(un is Some, b2).unwrap().1;
    assert(b3 == pwpart);

    assert(b3 =~= crate::v3_packet::spec_opt_string_bytes(pw) + Seq::<u8>::empty());
    lemma_opt_string_parse(pw, Seq::<u8>::empty());
}

/// The fields of a CONNECT variable header read back out of its body at
/// their places behind the protocol name.
#[verifier::rlimit(100)]
#[verifier::spinoff_prover]
proof fn lemma_connect_header_fields(name: Seq<char>, lvl: u8, f: u8, ka: u16, pb: Seq<u8>)
    requires
        encode_utf8(name).len() <= 65535,
    ensures
        ({
            let body = spec_string_bytes(name) + seq![lvl] + seq![f] + spec_short(ka) + pb;
            let c0 = 2 + encode_utf8(name).len() as int;
            &&& crate::un_pack_tool::spec_parse_string(body) == Some((name, c0))
            &&& body.len() == c0 + 4 + pb.len()
            &&& body[c0] == lvl
            &&& body[c0 + 1] == f
            &&& spec_be16(body.subrange(c0 + 2, c0 + 4)) == ka
            &&& body.skip(c0 + 4) == pb
        }),
{
    let body = spec_string_bytes(name) + seq![lvl] + seq![f] + spec_short(ka) + pb;
    let c0 = 2 + encode_utf8(name).len() as int;
    let tail = seq![lvl] + seq![f] + spec_short(ka) + pb;
    assert(body =~= spec_string_bytes(name) + tail);
    lemma_string_round_trip(name, tail);
    assert(body[c0] == tail[0]);
    assert(body[c0 + 1] == tail[1]);
    assert(body.subrange(c0 + 2, c0 + 4) =~= spec_short(ka));
    assert(spec_be16(body.subrange(c0 + 2, c0 + 4)) == ka);
    assert(body.skip(c0 + 4) =~= pb);
}

/// A CONNECT decodes back to exactly the packet it was encoded from.
#[verifier::rlimit(100)]
#[verifier::spinoff_prover]
pub proof fn lemma_connect_round_trip(m: ConnectModel)
    requires
        connect_round_trip_wf(m),
    ensures
        crate::v3_unpacket::spec_parse_connect(crate::v3_packet::spec_connect_bytes(m)) == Some(
            m,
        ),
{
    let body = crate::v3_packet::spec_connect_body(m);
    let b = crate::v3_packet::spec_connect_bytes(m);
    lemma_short_header(TypeKind::CONNECT, body);
    assert(spec_remaining_data(b) == Some(body));

    let name_b = spec_string_bytes(m.protocol_name);
    let c0 = 2 + encode_utf8(m.protocol_name).len() as int;
    assert(name_b.len() == c0);
    let cs: u8 = if m.clean_session == MqttCleanSession::Enable {
        1
    } else {
        0
    };
    let w: u8 = if m.will_flag == MqttWillFlag::Enable {
        1
    } else {
        0
    };
    let q: u8 = spec_qos_num(m.will_qos);
    let rr: u8 = if m.will_retain == MqttRetain::Enable {
        1
    } else {
        0
    };
    let u: u8 = if m.payload.user_name is Some {
        1
    } else {
        0
    };
    let p: u8 = if m.payload.password is Some {
        1
    } else {
        0
    };
    let f = crate::pack_tool::spec_connect_flags(
        m.clean_session,
        m.will_flag,
        m.will_qos,
        m.will_retain,
        m.payload.user_name is Some,
        m.payload.password is Some,
    );
    assert(f == (cs * 2 + w * (4 + q * 8 + rr * 32) + u * 128 + p * 64) as u8);
    lemma_connect_flags_bits(cs, w, q, rr, u, p);

    let willpart = if m.will_flag == MqttWillFlag::Enable {
        crate::v3_packet::spec_opt_string_bytes(m.payload.will_topic)
            + crate::v3_packet::spec_opt_string_bytes(m.payload.will_message)
    } else {
        Seq::<u8>::empty()
    };
    let unpart = crate::v3_packet::spec_opt_string_bytes(m.payload.user_name);
    let pwpart = crate::v3_packet::spec_opt_string_bytes(m.payload.password);
    let cidb = spec_string_bytes(m.payload.client_id);
    let lvl = crate::protocol::spec_level_num(m.protocol_level);
    let pb = cidb + willpart + unpart + pwpart;
    assert(body == name_b + seq![lvl] + seq![f] + spec_short(m.keep_alive) + pb);
    lemma_connect_header_fields(m.protocol_name, lvl, f, m.keep_alive, pb);
    assert(crate::protocol::spec_level_of_num(lvl) == Some(m.protocol_level));
    assert(spec_qos_of_num((f / 8) % 4) == Some(m.will_qos)) by {
        if m.will_flag == MqttWillFlag::Enable {
            assert((f / 8) % 4 == q);
        } else {
            assert((f / 8) % 4 == 0);
        }
    }
    lemma_payload_round_trip(
        m.protocol_level,
        m.payload.client_id,
        m.payload.will_topic,
        m.payload.will_message,
        m.payload.user_name,
        m.payload.password,
        m.will_flag,
    );

    let parsed = crate::v3_unpacket::spec_parse_connect(b);
    assert(parsed is Some);
    let pm = parsed.unwrap();
    assert(pm.payload == m.payload);
    assert(pm == m);
}

/// A property identifier's wire byte reads back as the identifier.
proof fn lemma_property_num_round_trip(id: crate::hex::Property)
    ensures
        spec_property_of_num(spec_property_num(id)) == Some(id),
{
}

/// A property value decodes back to the value it was encoded from, whatever
/// follows it.
#[verifier::rlimit(100)]
#[verifier::spinoff_prover]
proof fn lemma_property_value_round_trip(m: PropertyItemModel, rest: Seq<u8>)
    requires
        spec_property_value_fits(m),
    ensures
        ({
            let vb = spec_property_bytes(m).skip(1);
            spec_parse_property_value(m.id, vb + rest) == Some((m.value, vb.len() as int))
        }),
{
    let vb = spec_property_bytes(m).skip(1);
    let b = vb + rest;
    match m.value {
        crate::hex::PropertyValueModel::Long(v) => {
            assert(vb =~= crate::pack_tool::spec_long(v));
            assert(b[0] == vb[0] && b[1] == vb[1] && b[2] == vb[2] && b[3] == vb[3]);
            assert(spec_be32(b) == v);
        },
        crate::hex::PropertyValueModel::Short(v) => {
            assert(vb =~= spec_short(v));
            assert(b[0] == vb[0] && b[1] == vb[1]);
            assert(spec_be16(b) == v);
        },
        crate::hex::PropertyValueModel::Byte(v) => {
            assert(vb =~= seq![v]);
            assert(b[0] == v);
        },
        crate::hex::PropertyValueModel::String(t) => {
            assert(vb =~= spec_string_bytes(t));
            assert(b =~= spec_string_bytes(t) + rest);
            lemma_string_round_trip(t, rest);
        },
        crate::hex::PropertyValueModel::Pair(k, v) => {
            assert(vb =~= spec_string_bytes(k) + spec_string_bytes(v));
            assert(b =~= spec_string_bytes(k) + (spec_string_bytes(v) + rest));
            lemma_string_round_trip(k, spec_string_bytes(v) + rest);
            let c1 = 2 + encode_utf8(k).len() as int;
            assert(b.skip(c1) == spec_string_bytes(v) + rest);
            lemma_string_round_trip(v, rest);
        },
        crate::hex::PropertyValueModel::VarInt(v) => {
            assert(vb =~= spec_varint(v as nat));
            assert(b =~= spec_varint(v as nat) + rest);
            lemma_varint_round_trip(v as nat, rest);
        },
    }
}

/// A run of properties all accepted by the rule decodes back to itself when
/// the budget covers exactly its bytes.
#[verifier::rlimit(100)]
#[verifier::spinoff_prover]
proof fn lemma_properties_round_trip(items: Seq<PropertyItemModel>, f: PropertyFilter)
    requires
        forall|i: int| 0 <= i < items.len() ==> spec_property_value_fits(#[trigger] items[i]),
        forall|i: int| 0 <= i < items.len() ==> spec_filter_allows(f, (#[trigger] items[i]).id),
    ensures
        spec_unpack_properties(spec_properties_bytes(items), spec_properties_bytes(items).len(), f)
            == Some(items),
    decreases items.len(),
{
    let b = spec_properties_bytes(items);
    if items.len() == 0 {
        assert(b =~= Seq::<u8>::empty());
    } else {
        let head = items[0];
        let tail = items.skip(1);
        let hb = spec_property_bytes(head);
        let tb = spec_properties_bytes(tail);
        assert(b == hb + tb);
        assert(hb[0] == spec_property_num(head.id));
        assert(b[0] == spec_property_num(head.id));
        lemma_property_num_round_trip(head.id);
        let vb = hb.skip(1);
        assert(b.skip(1) =~= vb + tb);
        lemma_property_value_round_trip(head, tb);
        let c = vb.len() as int;
        assert(spec_parse_property_value(head.id, b.skip(1)) == Some((head.value, c)));
        assert(b.skip(1 + c) =~= tb);
        lemma_properties_round_trip(tail, f);
        assert(b.len() - 1 - c == tb.len());
        assert(seq![PropertyItemModel { id: head.id, value: head.value }] + tail =~= items);
    }
}

/// A property block all of whose properties the rule accepts decodes back
/// to exactly its properties, whatever follows the block.
#[verifier::rlimit(100)]
#[verifier::spinoff_prover]
pub proof fn lemma_property_block_round_trip(
    items: Seq<PropertyItemModel>,
    f: PropertyFilter,
    rest: Seq<u8>,
)
    requires
        forall|i: int| 0 <= i < items.len() ==> spec_property_value_fits(#[trigger] items[i]),
        forall|i: int| 0 <= i < items.len() ==> spec_filter_allows(f, (#[trigger] items[i]).id),
        spec_properties_bytes(items).len() <= crate::varint_max(),
    ensures
        crate::v5_unpacket::spec_parse_props_block(
            spec_property_block_bytes(items, f) + rest,
            f,
        ) == Some((items, rest)),
{
    let kept = items.filter(|m: PropertyItemModel| spec_filter_allows(f, m.id));
    assert(kept == items) by {
        lemma_filter_all(items, f);
    }
    let pb = spec_properties_bytes(items);
    let n = pb.len() as int;
    let b = spec_property_block_bytes(items, f) + rest;
    assert(b =~= spec_varint(pb.len()) + (pb + rest));
    lemma_varint_round_trip(pb.len() as nat, pb + rest);
    let c = spec_varint(pb.len()).len() as int;
    assert(spec_varint_decode(b) == Some((pb.len() as nat, c as nat)));
    if n == 0 {
        assert(items.len() == 0) by {
            if items.len() > 0 {
                assert(pb == spec_property_bytes(items[0]) + spec_properties_bytes(items.skip(1)));
                assert(pb.len() >= 1);
            }
        }
        assert(b.skip(c) =~= rest);
        assert(items =~= Seq::<PropertyItemModel>::empty());
    } else {
        assert(b.subrange(c, c + n) =~= pb);
        lemma_properties_round_trip(items, f);
        assert(b.skip(c + n) =~= rest);
    }
}

/// Filtering keeps a run of properties whole when the rule accepts each.
proof fn lemma_filter_all(items: Seq<PropertyItemModel>, f: PropertyFilter)
    requires
        forall|i: int| 0 <= i < items.len() ==> spec_filter_allows(f, (#[trigger] items[i]).id),
    ensures
        items.filter(|m: PropertyItemModel| spec_filter_allows(f, m.id)) == items,
    decreases items.len(),
{
    reveal(Seq::filter);
    if items.len() > 0 {
        lemma_filter_all(items.drop_last(), f);
        assert(items.filter(|m: PropertyItemModel| spec_filter_allows(f, m.id)) =~= items);
    } else {
        assert(items.filter(|m: PropertyItemModel| spec_filter_allows(f, m.id)) =~= items);
    }
}

} // verus!
