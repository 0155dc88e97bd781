use vstd::prelude::*;
use vstd::slice::{slice_subrange, slice_to_vec};
use vstd::utf8::{decode_utf8, encode_utf8, valid_utf8};
use crate::message::BaseMessage;
use crate::protocol::{
    MqttCleanSession, MqttDup, MqttPasswordFlag, MqttProtocolLevel, MqttQos, MqttRetain,
    MqttSessionPresent, MqttUsernameFlag, MqttWillFlag, spec_level_of_num, spec_qos_of_num,
};
use crate::un_pack_tool::{
    CodecError, get_connect_payload_data, get_connect_variable_header, parse_short_int,
    parse_string, spec_be16, spec_parse_connect_payload, spec_parse_string, spec_remaining_data,
    string_from_utf8,
};
use crate::v3::{
    ConnackMessage, ConnectMessage, ConnectModel, PubackMessage, PubcompMessage, PublishMessage,
    PubrecMessage, PubrelMessage, SubackMessage, SubscribeMessage, UnsubackMessage,
    UnsubscribeMessage,
};

verus! {

broadcast use vstd::utf8::encode_utf8_valid_utf8, vstd::utf8::encode_utf8_decode_utf8,
    vstd::utf8::decode_utf8_encode_utf8;

/// Parsing of a whole CONNECT packet out of its raw bytes: the body behind
/// the remaining length, opening with the protocol name.
pub open spec fn spec_parse_connect(b: Seq<u8>) -> Option<ConnectModel> {
    match spec_remaining_data(b) {
        None => None,
        Some(body) => match spec_parse_string(body) {
            None => None,
            Some((name, c)) => if c + 4 > body.len() {
                None
            } else {
                match spec_level_of_num(body[c]) {
                    None => None,
                    Some(level) => match spec_qos_of_num((body[c + 1] / 8) % 4) {
                        None => None,
                        Some(wq) => {
                            let will = if (body[c + 1] / 4) % 2 == 1 {
                                MqttWillFlag::Enable
                            } else {
                                MqttWillFlag::Disable
                            };
                            let user = if (body[c + 1] / 128) % 2 == 1 {
                                MqttUsernameFlag::Enable
                            } else {
                                MqttUsernameFlag::Disable
                            };
                            let pass = if (body[c + 1] / 64) % 2 == 1 {
                                MqttPasswordFlag::Enable
                            } else {
                                MqttPasswordFlag::Disable
                            };
                            match spec_parse_connect_payload(
                                level,
                                body.skip(c + 4),
                                will,
                                user,
                                pass,
                            ) {
                                None => None,
                                Some(pm) => Some(
                                    ConnectModel {
                                        protocol_name: name,
                                        protocol_level: level,
                                        clean_session: if (body[c + 1] / 2) % 2 == 1 {
                                            MqttCleanSession::Enable
                                        } else {
                                            MqttCleanSession::Disable
                                        },
                                        will_flag: will,
                                        will_qos: wq,
                                        will_retain: if (body[c + 1] / 32) % 2 == 1 {
                                            MqttRetain::Enable
                                        } else {
                                            MqttRetain::Disable
                                        },
                                        keep_alive: spec_be16(body.subrange(c + 2, c + 4)),
                                        payload: pm,
                                    },
                                ),
                            }
                        },
                    },
                }
            },
        },
    }
}

/// Decodes a CONNECT.
pub fn connect(base: BaseMessage) -> (r: Result<ConnectMessage, CodecError>)
    ensures
        match spec_parse_connect(base.bytes@) {
            Some(model) => r matches Ok(m) && m@ == model && m.msg_type == base.msg_type
                && m.bytes@ == base.bytes@,
            None => r is Err,
        },
{
    if base.bytes.len() < 1 {
        return Err(CodecError::MalformedPacket);
    }
    let body = match crate::un_pack_tool::try_get_remaining_data(base.bytes.as_slice()) {
        Some(d) => d,
        None => {
            return Err(CodecError::MalformedPacket);
        },
    };
    let (variable_header, last_data) = match get_connect_variable_header(body) {
        Ok(p) => p,
        Err(e) => {
            return Err(e);
        },
    };
    let protocol_name = match variable_header.protocol_name {
        Some(n) => n,
        None => {
            proof {
                assert(false);
            }
            return Err(CodecError::MalformedString);
        },
    };
    let protocol_level = match variable_header.protocol_level {
        Some(l) => l,
        None => {
            return Err(CodecError::ProtocolError);
        },
    };
    let will_qos = match variable_header.will_qos {
        Some(q) => q,
        None => {
            return Err(CodecError::MalformedPacket);
        },
    };
    let (clean_session, will_flag, will_retain, username_flag, password_flag, keep_alive) = match (
        variable_header.clean_session,
        variable_header.will_flag,
        variable_header.will_retain,
        variable_header.username_flag,
        variable_header.password_flag,
        variable_header.keep_alive,
    ) {
        (Some(cs), Some(wf), Some(wr), Some(uf), Some(pf), Some(ka)) => (cs, wf, wr, uf, pf, ka),
        _ => {
            proof {
                assert(false);
            }
            return Err(CodecError::MalformedPacket);
        },
    };

    let payload = match get_connect_payload_data(
        protocol_level,
        last_data,
        will_flag,
        username_flag,
        password_flag,
    ) {
        Ok(p) => p,
        Err(e) => {
            return Err(e);
        },
    };

    Ok(
        ConnectMessage {
            msg_type: base.msg_type,
            protocol_name,
            protocol_level,
            clean_session,
            will_flag,
            will_qos,
            will_retain,
            keep_alive,
            payload,
            bytes: base.bytes,
        },
    )
}

/// Decodes a CONNACK.
pub fn connack(base: BaseMessage) -> (r: Result<ConnackMessage, CodecError>)
    ensures
        match spec_remaining_data(base.bytes@) {
            Some(body) => if body.len() >= 2 {
                r matches Ok(m) && {
                    &&& m.msg_type == base.msg_type
                    &&& m.session_present == (if body[0] % 2 == 1 {
                        MqttSessionPresent::Enable
                    } else {
                        MqttSessionPresent::Disable
                    })
                    &&& m.return_code == body[1]
                    &&& m.bytes@ == base.bytes@
                }
            } else {
                r matches Err(e) && e == CodecError::MalformedPacket
            },
            None => r matches Err(e) && e == CodecError::MalformedPacket,
        },
{
    if base.bytes.len() < 1 {
        return Err(CodecError::MalformedPacket);
    }
    let body = match crate::un_pack_tool::try_get_remaining_data(base.bytes.as_slice()) {
        Some(d) => d,
        None => {
            return Err(CodecError::MalformedPacket);
        },
    };
    if body.len() < 2 {
        return Err(CodecError::MalformedPacket);
    }
    let sp_byte = body[0] % 2;
    let session_present = if sp_byte == 1 {
        MqttSessionPresent::Enable
    } else {
        MqttSessionPresent::Disable
    };
    let return_code = body[1];
    Ok(ConnackMessage { msg_type: base.msg_type, session_present, return_code, bytes: base.bytes })
}

/// Parsing of a PUBLISH out of its raw bytes, the QoS read off the fixed
/// header deciding whether a packet identifier is there; an identifier of
/// zero where one is owed is malformed.
pub open spec fn spec_parse_publish(b: Seq<u8>, qos: Option<MqttQos>) -> Option<
    (Seq<char>, u16, Seq<char>),
> {
    match spec_remaining_data(b) {
        None => None,
        Some(body) => match spec_parse_string(body) {
            None => None,
            Some((topic, c)) => {
                let rest = body.skip(c);
                if qos matches Some(q) && q != MqttQos::Qos0 {
                    if rest.len() < 2 {
                        None
                    } else if spec_be16(rest) == 0 {
                        None
                    } else if !valid_utf8(rest.skip(2)) {
                        None
                    } else {
                        Some((topic, spec_be16(rest), decode_utf8(rest.skip(2))))
                    }
                } else {
                    if !valid_utf8(rest) {
                        None
                    } else {
                        Some((topic, 0, decode_utf8(rest)))
                    }
                }
            },
        },
    }
}

/// Decodes a PUBLISH.
pub fn publish(base: BaseMessage) -> (r: Result<PublishMessage, CodecError>)
    ensures
        match spec_parse_publish(base.bytes@, base.qos) {
            Some((topic, id, body)) => r matches Ok(m) && {
                &&& m.msg_type == base.msg_type
                &&& m.topic@ == topic
                &&& m.message_id == id
                &&& m.msg_body@ == body
                &&& m.dup == (match base.dup {
                    Some(d) => d,
                    None => MqttDup::Disable,
                })
                &&& m.qos == (match base.qos {
                    Some(q) => q,
                    None => MqttQos::Qos0,
                })
                &&& m.retain == (match base.retain {
                    Some(re) => re,
                    None => MqttRetain::Disable,
                })
                &&& m.bytes@ == base.bytes@
            },
            None => r is Err,
        },
{
    if base.bytes.len() < 1 {
        return Err(CodecError::MalformedPacket);
    }
    let body = match crate::un_pack_tool::try_get_remaining_data(base.bytes.as_slice()) {
        Some(d) => d,
        None => {
            return Err(CodecError::MalformedPacket);
        },
    };
    let (topic, last_data) = match parse_string(body) {
        Ok(p) => p,
        Err(e) => {
            return Err(e);
        },
    };
    let rest = match last_data {
        Some(rest) => rest,
        None => {
            proof {
                assert(false);
            }
            body
        },
    };
    let id_needed = match base.qos {
        Some(q) => !matches!(q, MqttQos::Qos0),
        None => false,
    };
    let (message_id, body_slice) = if id_needed {
        if rest.len() < 2 {
            return Err(CodecError::MalformedPacket);
        }
        let (id, after) = parse_short_int(rest);
        if id == 0 {
            return Err(CodecError::MalformedPacket);
        }
        (id, after)
    } else {
        (0u16, rest)
    };
    let msg_body = match string_from_utf8(slice_to_vec(body_slice)) {
        Some(s) => s,
        None => {
            return Err(CodecError::MalformedString);
        },
    };
    Ok(
        PublishMessage {
            msg_type: base.msg_type,
            message_id,
            topic,
            dup: match base.dup {
                Some(d) => d,
                None => MqttDup::Disable,
            },
            qos: match base.qos {
                Some(q) => q,
                None => MqttQos::Qos0,
            },
            retain: match base.retain {
                Some(re) => re,
                None => MqttRetain::Disable,
            },
            msg_body,
            bytes: base.bytes,
        },
    )
}

/// Parsing of the topic entries of a SUBSCRIBE body: each a string and an
/// options byte, until the body ends.
pub open spec fn spec_parse_sub_entries(b: Seq<u8>) -> Option<Seq<(Seq<char>, u8)>>
    decreases b.len(),
{
    if b.len() == 0 {
        Some(Seq::empty())
    } else {
        match spec_parse_string(b) {
            None => None,
            Some((t, c)) => if c >= b.len() {
                None
            } else {
                match spec_parse_sub_entries(b.skip(c + 1)) {
                    None => None,
                    Some(rest) => Some(seq![(t, b[c])] + rest),
                }
            },
        }
    }
}

/// Parsing of a whole single-packet SUBSCRIBE: the packet identifier and at
/// least one topic entry.
pub open spec fn spec_parse_subscribe(b: Seq<u8>) -> Option<(u16, Seq<(Seq<char>, u8)>)> {
    match spec_remaining_data(b) {
        None => None,
        Some(body) => if body.len() < 2 {
            None
        } else {
            match spec_parse_sub_entries(body.skip(2)) {
                None => None,
                Some(es) => if es.len() == 0 {
                    None
                } else {
                    Some((spec_be16(body), es))
                },
            }
        },
    }
}

/// Reads the topic entries of a SUBSCRIBE body.
pub(crate) fn parse_sub_entries(data: &[u8]) -> (r: Result<Vec<(String, u8)>, CodecError>)
    ensures
        match spec_parse_sub_entries(data@) {
            Some(es) => r matches Ok(v) && v@.len() == es.len() && (forall|i: int|
                0 <= i < es.len() ==> (#[trigger] v@[i]).0@ == es[i].0 && v@[i].1 == es[i].1),
            None => r is Err,
        },
    decreases data@.len(),
{
    if data.len() == 0 {
        let r: Vec<(String, u8)> = Vec::new();
        return Ok(r);
    }
    let (topic, _last) = match parse_string(data) {
        Ok(p) => p,
        Err(e) => {
            return Err(e);
        },
    };
    let c = topic.as_str().len() + 2;
    if c >= data.len() {
        return Err(CodecError::MalformedPacket);
    }
    let opts = data[c];
    let rest = slice_subrange(data, c + 1, data.len());
    match parse_sub_entries(rest) {
        Ok(mut v) => {
            v.insert(0, (topic, opts));
            Ok(v)
        },
        Err(e) => Err(e),
    }
}

/// Decodes a SUBSCRIBE into one message per topic entry, each carrying the
/// packet identifier; an options byte that is not a QoS the protocol knows
/// fails the packet.
#[verifier::loop_isolation(false)]
pub fn subscribe(base: BaseMessage) -> (r: Result<Vec<SubscribeMessage>, CodecError>)
    ensures
        match spec_parse_subscribe(base.bytes@) {
            Some((id, es)) => if forall|i: int| 0 <= i < es.len() ==> (#[trigger] es[i]).1 <= 2 {
                r matches Ok(v) && v@.len() == es.len() && (forall|i: int|
                    0 <= i < es.len() ==> {
                        &&& (#[trigger] v@[i]).msg_type == base.msg_type
                        &&& v@[i].message_id == id
                        &&& v@[i].topic@ == es[i].0
                        &&& Some(v@[i].qos) == spec_qos_of_num(es[i].1)
                        &&& v@[i].bytes@ == base.bytes@
                    })
            } else {
                r is Err
            },
            None => r is Err,
        },
{
    if base.bytes.len() == 0 {
        return Err(CodecError::MalformedPacket);
    }
    let remain_data = match crate::un_pack_tool::try_get_remaining_data(base.bytes.as_slice()) {
        Some(d) => d,
        None => {
            return Err(CodecError::MalformedPacket);
        },
    };
    if remain_data.len() < 2 {
        return Err(CodecError::MalformedPacket);
    }
    let (message_id, entries_slice) = parse_short_int(remain_data);
    let entries = match parse_sub_entries(entries_slice) {
        Ok(v) => v,
        Err(e) => {
            return Err(e);
        },
    };
    if entries.len() == 0 {
        return Err(CodecError::MalformedPacket);
    }
    let ghost es = spec_parse_subscribe(base.bytes@).unwrap().1;
    let mut subs: Vec<SubscribeMessage> = Vec::new();
    let mut i: usize = 0;
    while i < entries.len()
        invariant
            i <= entries@.len(),
            entries@.len() == es.len(),
            forall|j: int|
                0 <= j < es.len() ==> (#[trigger] entries@[j]).0@ == es[j].0 && entries@[j].1
                    == es[j].1,
            forall|j: int| 0 <= j < i ==> (#[trigger] es[j]).1 <= 2,
            subs@.len() == i,
            spec_parse_subscribe(base.bytes@) matches Some(p) && p.1 == es && p.0
                == spec_be16(spec_remaining_data(base.bytes@).unwrap()),
            forall|j: int|
                0 <= j < i ==> {
                    &&& (#[trigger] subs@[j]).msg_type == base.msg_type
                    &&& subs@[j].message_id == spec_parse_subscribe(base.bytes@).unwrap().0
                    &&& subs@[j].topic@ == es[j].0
                    &&& Some(subs@[j].qos) == spec_qos_of_num(es[j].1)
                    &&& subs@[j].bytes@ == base.bytes@
                },
        decreases entries@.len() - i,
    {
        let (topic, opts) = {
            let e = &entries[i];
            (e.0.clone(), e.1)
        };
        if opts > 2 {
            return Err(CodecError::MalformedPacket);
        }
        let qos = match MqttQos::from_num(opts) {
            Some(q) => q,
            None => {
                proof {
                    assert(false);
                }
                return Err(CodecError::MalformedPacket);
            },
        };
        let bytes = slice_to_vec(base.bytes.as_slice());
        subs.push(
            SubscribeMessage { msg_type: base.msg_type, message_id, topic, qos, bytes },
        );
        i = i + 1;
    }
    Ok(subs)
}

/// Parsing of the topic entries of an UNSUBSCRIBE body: strings until the
/// body ends.
pub open spec fn spec_parse_unsub_entries(b: Seq<u8>) -> Option<Seq<Seq<char>>>
    decreases b.len(),
{
    if b.len() == 0 {
        Some(Seq::empty())
    } else {
        match spec_parse_string(b) {
            None => None,
            Some((t, c)) => match spec_parse_unsub_entries(b.skip(c)) {
                None => None,
                Some(rest) => Some(seq![t] + rest),
            },
        }
    }
}

/// Parsing of a whole single-packet UNSUBSCRIBE: the packet identifier and at
/// least one topic.
pub open spec fn spec_parse_unsubscribe(b: Seq<u8>) -> Option<(u16, Seq<Seq<char>>)> {
    match spec_remaining_data(b) {
        None => None,
        Some(body) => if body.len() < 2 {
            None
        } else {
            match spec_parse_unsub_entries(body.skip(2)) {
                None => None,
                Some(es) => if es.len() == 0 {
                    None
                } else {
                    Some((spec_be16(body), es))
                },
            }
        },
    }
}

/// Reads the topics of an UNSUBSCRIBE body.
pub(crate) fn parse_unsub_entries(data: &[u8]) -> (r: Result<Vec<String>, CodecError>)
    ensures
        match spec_parse_unsub_entries(data@) {
            Some(es) => r matches Ok(v) && v@.len() == es.len() && (forall|i: int|
                0 <= i < es.len() ==> (#[trigger] v@[i])@ == es[i]),
            None => r is Err,
        },
    decreases data@.len(),
{
    if data.len() == 0 {
        let r: Vec<String> = Vec::new();
        return Ok(r);
    }
    let (topic, _last) = match parse_string(data) {
        Ok(p) => p,
        Err(e) => {
            return Err(e);
        },
    };
    let c = topic.as_str().len() + 2;
    let rest = slice_subrange(data, c, data.len());
    match parse_unsub_entries(rest) {
        Ok(mut v) => {
            v.insert(0, topic);
            Ok(v)
        },
        Err(e) => Err(e),
    }
}

/// Decodes an UNSUBSCRIBE into one message per topic, each carrying the
/// packet identifier.
#[verifier::loop_isolation(false)]
pub fn unsubscribe(base: BaseMessage) -> (r: Result<Vec<UnsubscribeMessage>, CodecError>)
    ensures
        match spec_parse_unsubscribe(base.bytes@) {
            Some((id, es)) => r matches Ok(v) && v@.len() == es.len() && (forall|i: int|
                0 <= i < es.len() ==> {
                    &&& (#[trigger] v@[i]).msg_type == base.msg_type
                    &&& v@[i].message_id == id
                    &&& v@[i].topic@ == es[i]
                    &&& v@[i].bytes@ == base.bytes@
                }),
            None => r is Err,
        },
{
    if base.bytes.len() == 0 {
        return Err(CodecError::MalformedPacket);
    }
    let remain_data = match crate::un_pack_tool::try_get_remaining_data(base.bytes.as_slice()) {
        Some(d) => d,
        None => {
            return Err(CodecError::MalformedPacket);
        },
    };
    if remain_data.len() < 2 {
        return Err(CodecError::MalformedPacket);
    }
    let (message_id, entries_slice) = parse_short_int(remain_data);
    let entries = match parse_unsub_entries(entries_slice) {
        Ok(v) => v,
        Err(e) => {
            return Err(e);
        },
    };
    if entries.len() == 0 {
        return Err(CodecError::MalformedPacket);
    }
    let ghost es = spec_parse_unsubscribe(base.bytes@).unwrap().1;
    let mut subs: Vec<UnsubscribeMessage> = Vec::new();
    let mut i: usize = 0;
    while i < entries.len()
        invariant
            i <= entries@.len(),
            entries@.len() == es.len(),
            forall|j: int| 0 <= j < es.len() ==> (#[trigger] entries@[j])@ == es[j],
            subs@.len() == i,
            spec_parse_unsubscribe(base.bytes@) matches Some(p) && p.1 == es,
            forall|j: int|
                0 <= j < i ==> {
                    &&& (#[trigger] subs@[j]).msg_type == base.msg_type
                    &&& subs@[j].message_id == spec_parse_unsubscribe(base.bytes@).unwrap().0
                    &&& subs@[j].topic@ == es[j]
                    &&& subs@[j].bytes@ == base.bytes@
                },
        decreases entries@.len() - i,
    {
        let topic = entries[i].clone();
        let bytes = slice_to_vec(base.bytes.as_slice());
        subs.push(UnsubscribeMessage { msg_type: base.msg_type, message_id, topic, bytes });
        i = i + 1;
    }
    Ok(subs)
}

/// Decodes an UNSUBACK.
pub fn unsuback(base: BaseMessage) -> (r: Result<UnsubackMessage, CodecError>)
    ensures
        match spec_remaining_data(base.bytes@) {
            Some(body) => if body.len() >= 2 {
                r matches Ok(m) && m.msg_type == base.msg_type && m.message_id == spec_be16(body)
                    && m.bytes@ == base.bytes@
            } else {
                r matches Err(e) && e == CodecError::MalformedPacket
            },
            None => r matches Err(e) && e == CodecError::MalformedPacket,
        },
{
    if base.bytes.len() < 1 {
        return Err(CodecError::MalformedPacket);
    }
    let body = match crate::un_pack_tool::try_get_remaining_data(base.bytes.as_slice()) {
        Some(d) => d,
        None => {
            return Err(CodecError::MalformedPacket);
        },
    };
    if body.len() < 2 {
        return Err(CodecError::MalformedPacket);
    }
    let (message_id, _rest) = parse_short_int(body);
    Ok(UnsubackMessage { msg_type: base.msg_type, message_id, bytes: base.bytes })
}

/// Decodes a SUBACK.
pub fn suback(base: BaseMessage) -> (r: Result<SubackMessage, CodecError>)
    ensures
        match spec_remaining_data(base.bytes@) {
            Some(body) => if body.len() >= 2 {
                r matches Ok(m) && m.msg_type == base.msg_type && m.message_id == spec_be16(body)
                    && m.codes@ == body.skip(2) && m.bytes@ == base.bytes@
            } else {
                r matches Err(e) && e == CodecError::MalformedPacket
            },
            None => r matches Err(e) && e == CodecError::MalformedPacket,
        },
{
    if base.bytes.len() < 1 {
        return Err(CodecError::MalformedPacket);
    }
    let body = match crate::un_pack_tool::try_get_remaining_data(base.bytes.as_slice()) {
        Some(d) => d,
        None => {
            return Err(CodecError::MalformedPacket);
        },
    };
    if body.len() < 2 {
        return Err(CodecError::MalformedPacket);
    }
    let (message_id, rest) = parse_short_int(body);
    let codes = slice_to_vec(rest);
    Ok(SubackMessage { msg_type: base.msg_type, message_id, codes, bytes: base.bytes })
}

/// Decodes a PUBACK.
pub fn puback(base: BaseMessage) -> (r: Result<PubackMessage, CodecError>)
    ensures
        match spec_remaining_data(base.bytes@) {
            Some(body) => if body.len() >= 2 {
                r matches Ok(m) && m.msg_type == base.msg_type && m.message_id == spec_be16(body)
                    && m.bytes@ == base.bytes@
            } else {
                r matches Err(e) && e == CodecError::MalformedPacket
            },
            None => r matches Err(e) && e == CodecError::MalformedPacket,
        },
{
    if base.bytes.len() < 1 {
        return Err(CodecError::MalformedPacket);
    }
    let body = match crate::un_pack_tool::try_get_remaining_data(base.bytes.as_slice()) {
        Some(d) => d,
        None => {
            return Err(CodecError::MalformedPacket);
        },
    };
    if body.len() < 2 {
        return Err(CodecError::MalformedPacket);
    }
    let (message_id, _rest) = parse_short_int(body);
    Ok(PubackMessage { msg_type: base.msg_type, message_id, bytes: base.bytes })
}

/// Decodes a PUBREC.
pub fn pubrec(base: BaseMessage) -> (r: Result<PubrecMessage, CodecError>)
    ensures
        match spec_remaining_data(base.bytes@) {
            Some(body) => if body.len() >= 2 {
                r matches Ok(m) && m.msg_type == base.msg_type && m.message_id == spec_be16(body)
                    && m.bytes@ == base.bytes@
            } else {
                r matches Err(e) && e == CodecError::MalformedPacket
            },
            None => r matches Err(e) && e == CodecError::MalformedPacket,
        },
{
    if base.bytes.len() < 1 {
        return Err(CodecError::MalformedPacket);
    }
    let body = match crate::un_pack_tool::try_get_remaining_data(base.bytes.as_slice()) {
        Some(d) => d,
        None => {
            return Err(CodecError::MalformedPacket);
        },
    };
    if body.len() < 2 {
        return Err(CodecError::MalformedPacket);
    }
    let (message_id, _rest) = parse_short_int(body);
    Ok(PubrecMessage { msg_type: base.msg_type, message_id, bytes: base.bytes })
}

/// Decodes a PUBREL.
pub fn pubrel(base: BaseMessage) -> (r: Result<PubrelMessage, CodecError>)
    ensures
        match spec_remaining_data(base.bytes@) {
            Some(body) => if body.len() >= 2 {
                r matches Ok(m) && m.msg_type == base.msg_type && m.message_id == spec_be16(body)
                    && m.bytes@ == base.bytes@
            } else {
                r matches Err(e) && e == CodecError::MalformedPacket
            },
            None => r matches Err(e) && e == CodecError::MalformedPacket,
        },
{
    if base.bytes.len() < 1 {
        return Err(CodecError::MalformedPacket);
    }
    let body = match crate::un_pack_tool::try_get_remaining_data(base.bytes.as_slice()) {
        Some(d) => d,
        None => {
            return Err(CodecError::MalformedPacket);
        },
    };
    if body.len() < 2 {
        return Err(CodecError::MalformedPacket);
    }
    let (message_id, _rest) = parse_short_int(body);
    Ok(PubrelMessage { msg_type: base.msg_type, message_id, bytes: base.bytes })
}

/// Decodes a PUBCOMP.
pub fn pubcomp(base: BaseMessage) -> (r: Result<PubcompMessage, CodecError>)
    ensures
        match spec_remaining_data(base.bytes@) {
            Some(body) => if body.len() >= 2 {
                r matches Ok(m) && m.msg_type == base.msg_type && m.message_id == spec_be16(body)
                    && m.bytes@ == base.bytes@
            } else {
                r matches Err(e) && e == CodecError::MalformedPacket
            },
            None => r matches Err(e) && e == CodecError::MalformedPacket,
        },
{
    if base.bytes.len() < 1 {
        return Err(CodecError::MalformedPacket);
    }
    let body = match crate::un_pack_tool::try_get_remaining_data(base.bytes.as_slice()) {
        Some(d) => d,
        None => {
            return Err(CodecError::MalformedPacket);
        },
    };
    if body.len() < 2 {
        return Err(CodecError::MalformedPacket);
    }
    let (message_id, _rest) = parse_short_int(body);
    Ok(PubcompMessage { msg_type: base.msg_type, message_id, bytes: base.bytes })
}

/// Every string a parsed CONNECT carries fits behind its two byte length
/// prefix, the will fields are there when the will flag is set, and the will
/// QoS is one of the three the protocol grants.
pub proof fn lemma_parse_connect_fits(b: Seq<u8>)
    requires
        spec_parse_connect(b) is Some,
    ensures
        ({
            let m = spec_parse_connect(b).unwrap();
            &&& encode_utf8(m.payload.client_id).len() <= 65535
            &&& crate::pack_tool::spec_opt_fits(m.payload.will_topic)
            &&& crate::pack_tool::spec_opt_fits(m.payload.will_message)
            &&& crate::pack_tool::spec_opt_fits(m.payload.user_name)
            &&& crate::pack_tool::spec_opt_fits(m.payload.password)
            &&& (m.will_flag == MqttWillFlag::Enable ==> m.payload.will_topic is Some
                && m.payload.will_message is Some)
            &&& (m.will_flag != MqttWillFlag::Enable ==> m.payload.will_topic is None
                && m.payload.will_message is None)
            &&& m.will_qos != MqttQos::Failure
        }),
{
    let m = spec_parse_connect(b).unwrap();
    let body = spec_remaining_data(b).unwrap();
    let c = spec_parse_string(body).unwrap().1;
    lemma_parse_payload_fits(
        m.protocol_level,
        body.skip(c + 4),
        m.will_flag,
        if (body[c + 1] / 128) % 2 == 1 {
            MqttUsernameFlag::Enable
        } else {
            MqttUsernameFlag::Disable
        },
        if (body[c + 1] / 64) % 2 == 1 {
            MqttPasswordFlag::Enable
        } else {
            MqttPasswordFlag::Disable
        },
    );
}

/// The strings of a parsed CONNECT payload fit behind their length prefixes,
/// and the will fields follow the will flag.
pub proof fn lemma_parse_payload_fits(
    level: MqttProtocolLevel,
    pb: Seq<u8>,
    will_flag: MqttWillFlag,
    username_flag: MqttUsernameFlag,
    password_flag: MqttPasswordFlag,
)
    requires
        spec_parse_connect_payload(level, pb, will_flag, username_flag, password_flag) is Some,
    ensures
        ({
            let pm = spec_parse_connect_payload(
                level,
                pb,
                will_flag,
                username_flag,
                password_flag,
            ).unwrap();
            &&& encode_utf8(pm.client_id).len() <= 65535
            &&& crate::pack_tool::spec_opt_fits(pm.will_topic)
            &&& crate::pack_tool::spec_opt_fits(pm.will_message)
            &&& crate::pack_tool::spec_opt_fits(pm.user_name)
            &&& crate::pack_tool::spec_opt_fits(pm.password)
            &&& (will_flag == MqttWillFlag::Enable ==> pm.will_topic is Some
                && pm.will_message is Some)
            &&& (will_flag != MqttWillFlag::Enable ==> pm.will_topic is None
                && pm.will_message is None)
        }),
{
    lemma_parse_string_fits(pb);
    let (cid, c0) = crate::un_pack_tool::spec_parse_string(pb).unwrap();
    let b1 = pb.skip(c0);
    let wb = crate::un_pack_tool::spec_parse_will_block(level, b1, will_flag);
    if will_flag == MqttWillFlag::Enable {
        let (props, b2) = crate::un_pack_tool::spec_parse_will_props(level, b1).unwrap();
        lemma_parse_string_fits(b2);
        let (wt, c1) = crate::un_pack_tool::spec_parse_string(b2).unwrap();
        lemma_parse_string_fits(b2.skip(c1));
    }
    let (_, _, _, b3) = wb.unwrap();
    if username_flag == MqttUsernameFlag::Enable {
        lemma_parse_string_fits(b3);
    }
    let after_user = crate::un_pack_tool::spec_parse_opt_string(
        username_flag == MqttUsernameFlag::Enable,
        b3,
    ).unwrap().1;
    if password_flag == MqttPasswordFlag::Enable {
        lemma_parse_string_fits(after_user);
    }
}

/// A parsed string's encoding is as long as the length prefix said.
pub proof fn lemma_parse_string_fits(b: Seq<u8>)
    ensures
        spec_parse_string(b) matches Some((s, c)) ==> encode_utf8(s).len() <= 65535 && c == 2
            + encode_utf8(s).len(),
{
    if spec_parse_string(b) is Some {
        let (s, c) = spec_parse_string(b).unwrap();
        let n = spec_be16(b) as int;
        assert(encode_utf8(decode_utf8(b.subrange(2, 2 + n))) == b.subrange(2, 2 + n));
    }
}

} // verus!
