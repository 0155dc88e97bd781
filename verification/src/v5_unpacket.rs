use vstd::prelude::*;
use vstd::slice::{slice_subrange, slice_to_vec};
use vstd::utf8::{decode_utf8, encode_utf8, valid_utf8};
use crate::hex::{
    PropertyFilter, PropertyItem, PropertyItemModel, items_view, spec_unpack_properties,
};
use crate::message::BaseMessage;
use crate::protocol::{
    MqttDup, MqttNoLocal, MqttPasswordFlag, MqttQos, MqttRetain, MqttRetainAsPublished,
    MqttSessionPresent, MqttUsernameFlag, MqttWillFlag, spec_qos_of_num, spec_level_of_num,
};
use crate::reason_code::{ReasonPhrases, spec_phrase_num, spec_phrase_of_num};
use crate::types::TypeKind;
use crate::un_pack_tool::{
    CodecError, get_connect_payload_data, get_connect_variable_header, parse_short_int,
    parse_string, spec_be16, spec_parse_connect_payload, spec_parse_string,
    spec_remaining_data, spec_varint_decode, string_from_utf8, try_get_remaining_data,
    unpack_var_int,
};
use crate::v3::ConnectModel;
use crate::v3_unpacket::{spec_parse_sub_entries, spec_parse_unsub_entries};
use crate::v5::{
    AuthMessage, CommonPayloadMessage, ConnackMessage, ConnectMessage, DisconnectMessage,
    PublishMessage, SubackMessage, SubscribeMessage, UnsubackMessage, UnsubscribeMessage,
};

verus! {

broadcast use vstd::utf8::encode_utf8_valid_utf8, vstd::utf8::encode_utf8_decode_utf8,
    vstd::utf8::decode_utf8_encode_utf8;

/// Parsing of a property block behind its variable-byte-integer length: the
/// properties and what follows the block; a zero length yields an empty
/// list.
pub open spec fn spec_parse_props_block(b: Seq<u8>, f: PropertyFilter) -> Option<
    (Seq<PropertyItemModel>, Seq<u8>),
> {
    match spec_varint_decode(b) {
        None => None,
        Some((n, c)) => if n == 0 {
            Some((Seq::empty(), b.skip(c as int)))
        } else if c + n > b.len() {
            None
        } else {
            match spec_unpack_properties(b.subrange(c as int, (c + n) as int), n, f) {
                None => None,
                Some(ps) => Some((ps, b.skip((c + n) as int))),
            }
        },
    }
}

/// Reads a property block behind its variable-byte-integer length off the
/// buffer.
fn parse_props_block<'a>(data: &'a [u8], f: PropertyFilter) -> (r: Result<
    (Vec<PropertyItem>, &'a [u8]),
    CodecError,
>)
    ensures
        match spec_parse_props_block(data@, f) {
            Some((ps, rest)) => r matches Ok((v, re)) && items_view(v@) == ps && re@ == rest,
            None => r is Err,
        },
{
    proof {
        crate::un_pack_tool::lemma_varint_decode_max(data@);
    }
    let (n, after_len) = match unpack_var_int(data) {
        Some(p) => p,
        None => {
            return Err(CodecError::MalformedVarInt);
        },
    };
    let varint_len = data.len() - after_len.len();
    let n = n as usize;
    if n == 0 {
        let v: Vec<PropertyItem> = Vec::new();
        assert(items_view(v@) =~= Seq::<PropertyItemModel>::empty());
        return Ok((v, after_len));
    }
    if after_len.len() < n {
        return Err(CodecError::MalformedPacket);
    }
    let window = slice_subrange(data, varint_len, varint_len + n);
    proof {
        let c = spec_varint_decode(data@).unwrap().1;
        assert(data@.skip(c as int).subrange(0, n as int) =~= data@.subrange(
            c as int,
            c + n as int,
        ));
        assert(data@.skip(c as int).skip(n as int) =~= data@.skip(c + n as int));
    }
    match crate::hex::un_pack_property::unpack_list(n as u32, window, f) {
        Ok(v) => Ok((v, slice_subrange(data, varint_len + n, data.len()))),
        Err(e) => Err(e),
    }
}

/// Parsing of a whole v5 CONNECT: the shared fields, and the connect
/// property block between the variable header and the payload.
pub open spec fn spec_parse_connect(b: Seq<u8>) -> Option<
    (ConnectModel, Seq<PropertyItemModel>),
> {
    match spec_remaining_data(b) {
        None => None,
        Some(body) => match spec_parse_string(body) {
            None => None,
            Some((name, c)) => if c + 4 > body.len() {
                None
            } else {
                match spec_level_of_num(body[c]) {
                    None => None,
                    Some(level) => match spec_qos_of_num((body[c + 1] / 8) % 4) {
                        None => None,
                        Some(wq) => {
                            let will = if (body[c + 1] / 4) % 2 == 1 {
                                MqttWillFlag::Enable
                            } else {
                                MqttWillFlag::Disable
                            };
                            let user = if (body[c + 1] / 128) % 2 == 1 {
                                MqttUsernameFlag::Enable
                            } else {
                                MqttUsernameFlag::Disable
                            };
                            let pass = if (body[c + 1] / 64) % 2 == 1 {
                                MqttPasswordFlag::Enable
                            } else {
                                MqttPasswordFlag::Disable
                            };
                            match spec_parse_props_block(
                                body.skip(c + 4),
                                PropertyFilter::Connect,
                            ) {
                                None => None,
                                Some((props, after)) => match spec_parse_connect_payload(
                                    level,
                                    after,
                                    will,
                                    user,
                                    pass,
                                ) {
                                    None => None,
                                    Some(pm) => Some(
                                        (
                                            ConnectModel {
                                                protocol_name: name,
                                                protocol_level: level,
                                                clean_session: if (body[c + 1] / 2) % 2 == 1 {
                                                    crate::protocol::MqttCleanSession::Enable
                                                } else {
                                                    crate::protocol::MqttCleanSession::Disable
                                                },
                                                will_flag: will,
                                                will_qos: wq,
                                                will_retain: if (body[c + 1] / 32) % 2 == 1 {
                                                    MqttRetain::Enable
                                                } else {
                                                    MqttRetain::Disable
                                                },
                                                keep_alive: spec_be16(body.subrange(c + 2, c + 4)),
                                                payload: pm,
                                            },
                                            props,
                                        ),
                                    ),
                                },
                            }
                        },
                    },
                }
            },
        },
    }
}

/// Decodes a v5 CONNECT.
pub fn connect(base: BaseMessage) -> (r: Result<ConnectMessage, CodecError>)
    ensures
        match spec_parse_connect(base.bytes@) {
            Some((model, props)) => r matches Ok(m) && {
                &&& m.msg_type == base.msg_type
                &&& m.protocol_name@ == model.protocol_name
                &&& m.protocol_level == model.protocol_level
                &&& m.clean_session == model.clean_session
                &&& m.will_flag == model.will_flag
                &&& m.will_qos == model.will_qos
                &&& m.will_retain == model.will_retain
                &&& m.keep_alive == model.keep_alive
                &&& m.payload@ == model.payload
                &&& m.properties matches Some(v) && items_view(v@) == props
                &&& m.bytes@ == base.bytes@
            },
            None => r is Err,
        },
{
    if base.bytes.len() < 1 {
        return Err(CodecError::MalformedPacket);
    }
    let body = match try_get_remaining_data(base.bytes.as_slice()) {
        Some(d) => d,
        None => {
            return Err(CodecError::MalformedPacket);
        },
    };
    let (variable_header, last_data) = match get_connect_variable_header(body) {
        Ok(p) => p,
        Err(e) => {
            return Err(e);
        },
    };
    let protocol_name = match variable_header.protocol_name {
        Some(n) => n,
        None => {
            proof {
                assert(false);
            }
            return Err(CodecError::MalformedString);
        },
    };
    let protocol_level = match variable_header.protocol_level {
        Some(l) => l,
        None => {
            return Err(CodecError::ProtocolError);
        },
    };
    let will_qos = match variable_header.will_qos {
        Some(q) => q,
        None => {
            return Err(CodecError::MalformedPacket);
        },
    };
    let (clean_session, will_flag, will_retain, username_flag, password_flag, keep_alive) = match (
        variable_header.clean_session,
        variable_header.will_flag,
        variable_header.will_retain,
        variable_header.username_flag,
        variable_header.password_flag,
        variable_header.keep_alive,
    ) {
        (Some(cs), Some(wf), Some(wr), Some(uf), Some(pf), Some(ka)) => (cs, wf, wr, uf, pf, ka),
        _ => {
            proof {
                assert(false);
            }
            return Err(CodecError::MalformedPacket);
        },
    };

    let (properties, after_props) = match parse_props_block(last_data, PropertyFilter::Connect) {
        Ok(p) => p,
        Err(e) => {
            return Err(e);
        },
    };

    let payload = match get_connect_payload_data(
        protocol_level,
        after_props,
        will_flag,
        username_flag,
        password_flag,
    ) {
        Ok(p) => p,
        Err(e) => {
            return Err(e);
        },
    };

    Ok(
        ConnectMessage {
            msg_type: base.msg_type,
            protocol_name,
            protocol_level,
            clean_session,
            will_flag,
            will_qos,
            will_retain,
            keep_alive,
            payload,
            properties: Some(properties),
            bytes: base.bytes,
        },
    )
}

/// Decodes a v5 CONNACK: session-present byte, reason code, properties.
pub fn connack(base: BaseMessage) -> (r: Result<ConnackMessage, CodecError>)
    ensures
        match spec_remaining_data(base.bytes@) {
            Some(body) => if body.len() < 2 {
                r is Err
            } else {
                match spec_parse_props_block(body.skip(2), PropertyFilter::Connack) {
                    Some((ps, _rest)) => r matches Ok(m) && {
                        &&& m.msg_type == base.msg_type
                        &&& m.session_present == (if body[0] % 2 == 1 {
                            MqttSessionPresent::Enable
                        } else {
                            MqttSessionPresent::Disable
                        })
                        &&& m.return_code == body[1]
                        &&& m.properties matches Some(v) && items_view(v@) == ps
                        &&& m.bytes@ == base.bytes@
                    },
                    None => r is Err,
                }
            },
            None => r is Err,
        },
{
    if base.bytes.len() < 1 {
        return Err(CodecError::MalformedPacket);
    }
    let body = match try_get_remaining_data(base.bytes.as_slice()) {
        Some(d) => d,
        None => {
            return Err(CodecError::MalformedPacket);
        },
    };
    if body.len() < 2 {
        return Err(CodecError::MalformedPacket);
    }
    let session_present = if body[0] % 2 == 1 {
        MqttSessionPresent::Enable
    } else {
        MqttSessionPresent::Disable
    };
    let return_code = body[1];
    let tail = slice_subrange(body, 2, body.len());
    let (properties, _rest) = match parse_props_block(tail, PropertyFilter::Connack) {
        Ok(p) => p,
        Err(e) => {
            return Err(e);
        },
    };
    Ok(
        ConnackMessage {
            msg_type: base.msg_type,
            session_present,
            return_code,
            properties: Some(properties),
            bytes: base.bytes,
        },
    )
}

/// Parsing of a v5 PUBLISH: topic, identifier when the QoS asks for one (a
/// zero identifier is malformed), property block, then the application
/// bytes.
pub open spec fn spec_parse_publish(b: Seq<u8>, qos: Option<MqttQos>) -> Option<
    (Seq<char>, u16, Seq<PropertyItemModel>, Seq<char>),
> {
    match spec_remaining_data(b) {
        None => None,
        Some(body) => match spec_parse_string(body) {
            None => None,
            Some((topic, c)) => {
                let rest = body.skip(c);
                if qos matches Some(q) && q != MqttQos::Qos0 {
                    if rest.len() < 2 {
                        None
                    } else if spec_be16(rest) == 0 {
                        None
                    } else {
                        match spec_parse_props_block(rest.skip(2), PropertyFilter::Publish) {
                            None => None,
                            Some((ps, payload)) => if valid_utf8(payload) {
                                Some((topic, spec_be16(rest), ps, decode_utf8(payload)))
                            } else {
                                None
                            },
                        }
                    }
                } else {
                    match spec_parse_props_block(rest, PropertyFilter::Publish) {
                        None => None,
                        Some((ps, payload)) => if valid_utf8(payload) {
                            Some((topic, 0, ps, decode_utf8(payload)))
                        } else {
                            None
                        },
                    }
                }
            },
        },
    }
}

/// Decodes a v5 PUBLISH.
pub fn publish(base: BaseMessage) -> (r: Result<PublishMessage, CodecError>)
    ensures
        match spec_parse_publish(base.bytes@, base.qos) {
            Some((topic, id, ps, body)) => r matches Ok(m) && {
                &&& m.msg_type == base.msg_type
                &&& m.topic@ == topic
                &&& m.message_id == id
                &&& m.properties matches Some(v) && items_view(v@) == ps
                &&& m.msg_body@ == body
                &&& m.dup == (match base.dup {
                    Some(d) => d,
                    None => MqttDup::Disable,
                })
                &&& m.qos == (match base.qos {
                    Some(q) => q,
                    None => MqttQos::Qos0,
                })
                &&& m.retain == (match base.retain {
                    Some(re) => re,
                    None => MqttRetain::Disable,
                })
                &&& m.bytes@ == base.bytes@
            },
            None => r is Err,
        },
{
    if base.bytes.len() < 1 {
        return Err(CodecError::MalformedPacket);
    }
    let body = match try_get_remaining_data(base.bytes.as_slice()) {
        Some(d) => d,
        None => {
            return Err(CodecError::MalformedPacket);
        },
    };
    let (topic, last_data) = match parse_string(body) {
        Ok(p) => p,
        Err(e) => {
            return Err(e);
        },
    };
    let rest = match last_data {
        Some(rest) => rest,
        None => {
            proof {
                assert(false);
            }
            body
        },
    };
    let id_needed = match base.qos {
        Some(q) => !matches!(q, MqttQos::Qos0),
        None => false,
    };
    let (message_id, after_id) = if id_needed {
        if rest.len() < 2 {
            return Err(CodecError::MalformedPacket);
        }
        let (id, after) = parse_short_int(rest);
        if id == 0 {
            return Err(CodecError::MalformedPacket);
        }
        (id, after)
    } else {
        (0u16, rest)
    };
    let (properties, payload_slice) = match parse_props_block(after_id, PropertyFilter::Publish) {
        Ok(p) => p,
        Err(e) => {
            return Err(e);
        },
    };
    let msg_body = match string_from_utf8(slice_to_vec(payload_slice)) {
        Some(s) => s,
        None => {
            return Err(CodecError::MalformedString);
        },
    };
    Ok(
        PublishMessage {
            msg_type: base.msg_type,
            message_id,
            topic,
            dup: match base.dup {
                Some(d) => d,
                None => MqttDup::Disable,
            },
            qos: match base.qos {
                Some(q) => q,
                None => MqttQos::Qos0,
            },
            retain: match base.retain {
                Some(re) => re,
                None => MqttRetain::Disable,
            },
            msg_body,
            properties: Some(properties),
            bytes: base.bytes,
        },
    )
}

/// Parsing of a whole v5 SUBSCRIBE: the packet identifier, its property
/// block, and at least one topic entry with its options byte.
pub open spec fn spec_parse_subscribe(b: Seq<u8>) -> Option<
    (u16, Seq<PropertyItemModel>, Seq<(Seq<char>, u8)>),
> {
    match spec_remaining_data(b) {
        None => None,
        Some(body) => if body.len() < 2 {
            None
        } else {
            match spec_parse_props_block(body.skip(2), PropertyFilter::Subscribe) {
                None => None,
                Some((ps, entries)) => match spec_parse_sub_entries(entries) {
                    None => None,
                    Some(es) => if es.len() == 0 {
                        None
                    } else {
                        Some((spec_be16(body), ps, es))
                    },
                },
            }
        },
    }
}

/// Decodes a v5 SUBSCRIBE into one message per topic entry, each carrying
/// the packet identifier, the block's properties, and its options bit by
/// bit.
#[verifier::loop_isolation(false)]
pub fn subscribe(base: BaseMessage) -> (r: Result<Vec<SubscribeMessage>, CodecError>)
    ensures
        match spec_parse_subscribe(base.bytes@) {
            Some((id, ps, es)) => r matches Ok(v) && v@.len() == es.len() && (forall|i: int|
                0 <= i < es.len() ==> {
                    &&& (#[trigger] v@[i]).msg_type == base.msg_type
                    &&& v@[i].message_id == id
                    &&& v@[i].topic@ == es[i].0
                    &&& v@[i].qos == spec_qos_of_num(es[i].1 % 4)
                    &&& v@[i].no_local == Some(
                        if (es[i].1 / 4) % 2 == 1 {
                            MqttNoLocal::Enable
                        } else {
                            MqttNoLocal::Disable
                        },
                    )
                    &&& v@[i].retain_as_published == Some(
                        if (es[i].1 / 8) % 2 == 1 {
                            MqttRetainAsPublished::Enable
                        } else {
                            MqttRetainAsPublished::Disable
                        },
                    )
                    &&& v@[i].retain_handling == Some((es[i].1 / 16) as u8)
                    &&& (v@[i].properties matches Some(pv) && items_view(pv@) == ps)
                    &&& v@[i].bytes@ == base.bytes@
                }),
            None => r is Err,
        },
{
    if base.bytes.len() < 1 {
        return Err(CodecError::MalformedPacket);
    }
    let remain_data = match try_get_remaining_data(base.bytes.as_slice()) {
        Some(d) => d,
        None => {
            return Err(CodecError::MalformedPacket);
        },
    };
    if remain_data.len() < 2 {
        return Err(CodecError::MalformedPacket);
    }
    let (message_id, after_id) = parse_short_int(remain_data);
    let (properties, entries_slice) = match parse_props_block(
        after_id,
        PropertyFilter::Subscribe,
    ) {
        Ok(p) => p,
        Err(e) => {
            return Err(e);
        },
    };
    let entries = match crate::v3_unpacket::parse_sub_entries(entries_slice) {
        Ok(v) => v,
        Err(e) => {
            return Err(e);
        },
    };
    if entries.len() == 0 {
        return Err(CodecError::MalformedPacket);
    }
    let ghost es = spec_parse_subscribe(base.bytes@).unwrap().2;
    let mut subs: Vec<SubscribeMessage> = Vec::new();
    let mut i: usize = 0;
    while i < entries.len()
        invariant
            i <= entries@.len(),
            entries@.len() == es.len(),
            forall|j: int|
                0 <= j < es.len() ==> (#[trigger] entries@[j]).0@ == es[j].0 && entries@[j].1
                    == es[j].1,
            subs@.len() == i,
            forall|j: int|
                0 <= j < i ==> {
                    &&& (#[trigger] subs@[j]).msg_type == base.msg_type
                    &&& subs@[j].message_id == message_id
                    &&& subs@[j].topic@ == es[j].0
                    &&& subs@[j].qos == spec_qos_of_num(es[j].1 % 4)
                    &&& subs@[j].no_local == Some(
                        if (es[j].1 / 4) % 2 == 1 {
                            MqttNoLocal::Enable
                        } else {
                            MqttNoLocal::Disable
                        },
                    )
                    &&& subs@[j].retain_as_published == Some(
                        if (es[j].1 / 8) % 2 == 1 {
                            MqttRetainAsPublished::Enable
                        } else {
                            MqttRetainAsPublished::Disable
                        },
                    )
                    &&& subs@[j].retain_handling == Some((es[j].1 / 16) as u8)
                    &&& (subs@[j].properties matches Some(pv) && items_view(pv@) == items_view(
                        properties@,
                    ))
                    &&& subs@[j].bytes@ == base.bytes@
                },
        decreases entries@.len() - i,
    {
        let (topic, byte_data) = {
            let e = &entries[i];
            (e.0.clone(), e.1)
        };
        let qos = byte_data % 4;
        let no_local = (byte_data / 4) % 2;
        let retain_as_published = (byte_data / 8) % 2;
        let retain_handling = byte_data / 16;
        let props_copy = crate::subscript::clone_properties(&properties);
        proof {
            assert(items_view(props_copy@) =~= items_view(properties@));
        }
        subs.push(
            SubscribeMessage {
                msg_type: base.msg_type,
                message_id,
                topic,
                qos: MqttQos::from_num(qos),
                no_local: MqttNoLocal::from_bit(no_local),
                retain_as_published: MqttRetainAsPublished::from_bit(retain_as_published),
                retain_handling: Some(retain_handling),
                properties: Some(props_copy),
                bytes: slice_to_vec(base.bytes.as_slice()),
            },
        );
        i = i + 1;
    }
    Ok(subs)
}

/// Parsing of a whole v5 UNSUBSCRIBE: the packet identifier, its property
/// block, and at least one topic.
pub open spec fn spec_parse_unsubscribe(b: Seq<u8>) -> Option<
    (u16, Seq<PropertyItemModel>, Seq<Seq<char>>),
> {
    match spec_remaining_data(b) {
        None => None,
        Some(body) => if body.len() < 2 {
            None
        } else {
            match spec_parse_props_block(body.skip(2), PropertyFilter::Unsubscribe) {
                None => None,
                Some((ps, entries)) => match spec_parse_unsub_entries(entries) {
                    None => None,
                    Some(es) => if es.len() == 0 {
                        None
                    } else {
                        Some((spec_be16(body), ps, es))
                    },
                },
            }
        },
    }
}

/// Decodes a v5 UNSUBSCRIBE into one message per topic, each carrying the
/// packet identifier and the block's properties.
#[verifier::loop_isolation(false)]
pub fn unsubscribe(base: BaseMessage) -> (r: Result<Vec<UnsubscribeMessage>, CodecError>)
    ensures
        match spec_parse_unsubscribe(base.bytes@) {
            Some((id, ps, es)) => r matches Ok(v) && v@.len() == es.len() && (forall|i: int|
                0 <= i < es.len() ==> {
                    &&& (#[trigger] v@[i]).msg_type == base.msg_type
                    &&& v@[i].message_id == id
                    &&& v@[i].topic@ == es[i]
                    &&& (v@[i].properties matches Some(pv) && items_view(pv@) == ps)
                    &&& v@[i].bytes@ == base.bytes@
                }),
            None => r is Err,
        },
{
    if base.bytes.len() < 1 {
        return Err(CodecError::MalformedPacket);
    }
    let remain_data = match try_get_remaining_data(base.bytes.as_slice()) {
        Some(d) => d,
        None => {
            return Err(CodecError::MalformedPacket);
        },
    };
    if remain_data.len() < 2 {
        return Err(CodecError::MalformedPacket);
    }
    let (message_id, after_id) = parse_short_int(remain_data);
    let (properties, entries_slice) = match parse_props_block(
        after_id,
        PropertyFilter::Unsubscribe,
    ) {
        Ok(p) => p,
        Err(e) => {
            return Err(e);
        },
    };
    let entries = match crate::v3_unpacket::parse_unsub_entries(entries_slice) {
        Ok(v) => v,
        Err(e) => {
            return Err(e);
        },
    };
    if entries.len() == 0 {
        return Err(CodecError::MalformedPacket);
    }
    let ghost es = spec_parse_unsubscribe(base.bytes@).unwrap().2;
    let mut subs: Vec<UnsubscribeMessage> = Vec::new();
    let mut i: usize = 0;
    while i < entries.len()
        invariant
            i <= entries@.len(),
            entries@.len() == es.len(),
            forall|j: int| 0 <= j < es.len() ==> (#[trigger] entries@[j])@ == es[j],
            subs@.len() == i,
            forall|j: int|
                0 <= j < i ==> {
                    &&& (#[trigger] subs@[j]).msg_type == base.msg_type
                    &&& subs@[j].message_id == message_id
                    &&& subs@[j].topic@ == es[j]
                    &&& (subs@[j].properties matches Some(pv) && items_view(pv@) == items_view(
                        properties@,
                    ))
                    &&& subs@[j].bytes@ == base.bytes@
                },
        decreases entries@.len() - i,
    {
        let topic = entries[i].clone();
        let props_copy = crate::subscript::clone_properties(&properties);
        proof {
            assert(items_view(props_copy@) =~= items_view(properties@));
        }
        subs.push(
            UnsubscribeMessage {
                msg_type: base.msg_type,
                message_id,
                topic,
                properties: Some(props_copy),
                bytes: slice_to_vec(base.bytes.as_slice()),
            },
        );
        i = i + 1;
    }
    Ok(subs)
}

/// Decodes a v5 SUBACK: identifier, property block, then the codes.
pub fn suback(base: BaseMessage) -> (r: Result<SubackMessage, CodecError>)
    ensures
        match spec_remaining_data(base.bytes@) {
            Some(body) => if body.len() < 2 {
                r is Err
            } else {
                match spec_parse_props_block(body.skip(2), PropertyFilter::PubAndSub) {
                    Some((ps, rest)) => r matches Ok(m) && {
                        &&& m.msg_type == base.msg_type
                        &&& m.message_id == spec_be16(body)
                        &&& m.properties matches Some(v) && items_view(v@) == ps
                        &&& m.codes@ == rest
                        &&& m.bytes@ == base.bytes@
                    },
                    None => r is Err,
                }
            },
            None => r is Err,
        },
{
    if base.bytes.len() < 1 {
        return Err(CodecError::MalformedPacket);
    }
    let body = match try_get_remaining_data(base.bytes.as_slice()) {
        Some(d) => d,
        None => {
            return Err(CodecError::MalformedPacket);
        },
    };
    if body.len() < 2 {
        return Err(CodecError::MalformedPacket);
    }
    let (message_id, after_id) = parse_short_int(body);
    let (properties, rest) = match parse_props_block(after_id, PropertyFilter::PubAndSub) {
        Ok(p) => p,
        Err(e) => {
            return Err(e);
        },
    };
    let codes = slice_to_vec(rest);
    Ok(
        SubackMessage {
            msg_type: base.msg_type,
            message_id,
            codes,
            properties: Some(properties),
            bytes: base.bytes,
        },
    )
}

/// Decodes a v5 UNSUBACK: identifier, property block, then the codes.
pub fn unsuback(base: BaseMessage) -> (r: Result<UnsubackMessage, CodecError>)
    ensures
        match spec_remaining_data(base.bytes@) {
            Some(body) => if body.len() < 2 {
                r is Err
            } else {
                match spec_parse_props_block(body.skip(2), PropertyFilter::PubAndSub) {
                    Some((ps, rest)) => r matches Ok(m) && {
                        &&& m.msg_type == base.msg_type
                        &&& m.message_id == spec_be16(body)
                        &&& m.properties matches Some(v) && items_view(v@) == ps
                        &&& m.codes@ == rest
                        &&& m.bytes@ == base.bytes@
                    },
                    None => r is Err,
                }
            },
            None => r is Err,
        },
{
    if base.bytes.len() < 1 {
        return Err(CodecError::MalformedPacket);
    }
    let body = match try_get_remaining_data(base.bytes.as_slice()) {
        Some(d) => d,
        None => {
            return Err(CodecError::MalformedPacket);
        },
    };
    if body.len() < 2 {
        return Err(CodecError::MalformedPacket);
    }
    let (message_id, after_id) = parse_short_int(body);
    let (properties, rest) = match parse_props_block(after_id, PropertyFilter::PubAndSub) {
        Ok(p) => p,
        Err(e) => {
            return Err(e);
        },
    };
    let codes = slice_to_vec(rest);
    Ok(
        UnsubackMessage {
            msg_type: base.msg_type,
            message_id,
            codes,
            properties: Some(properties),
            bytes: base.bytes,
        },
    )
}

/// Decodes a v5 DISCONNECT: an optional reason code, then an optional
/// property block.
pub fn disconnect(base: BaseMessage) -> (r: Result<DisconnectMessage, CodecError>)
    ensures
        match spec_remaining_data(base.bytes@) {
            Some(body) => if body.len() == 0 {
                r matches Ok(m) && m.msg_type == base.msg_type && m.code == spec_phrase_num(
                    ReasonPhrases::Success,
                ) && m.bytes@ == base.bytes@
            } else if body.len() == 1 {
                r matches Ok(m) && m.msg_type == base.msg_type && m.code == body[0] && m.bytes@
                    == base.bytes@
            } else {
                match spec_parse_props_block(body.skip(1), PropertyFilter::Disconnect) {
                    Some((ps, _rest)) => r matches Ok(m) && {
                        &&& m.msg_type == base.msg_type
                        &&& m.code == body[0]
                        &&& m.properties matches Some(v) && items_view(v@) == ps
                        &&& m.bytes@ == base.bytes@
                    },
                    None => r is Err,
                }
            },
            None => r is Err,
        },
{
    if base.bytes.len() < 1 {
        return Err(CodecError::MalformedPacket);
    }
    let body = match try_get_remaining_data(base.bytes.as_slice()) {
        Some(d) => d,
        None => {
            return Err(CodecError::MalformedPacket);
        },
    };
    if body.len() == 0 {
        let properties: Vec<PropertyItem> = Vec::new();
        return Ok(
            DisconnectMessage {
                msg_type: base.msg_type,
                code: ReasonPhrases::Success.as_byte(),
                properties: Some(properties),
                bytes: base.bytes,
            },
        );
    }
    let code = body[0];
    if body.len() == 1 {
        let properties: Vec<PropertyItem> = Vec::new();
        return Ok(
            DisconnectMessage {
                msg_type: base.msg_type,
                code,
                properties: Some(properties),
                bytes: base.bytes,
            },
        );
    }
    let tail = slice_subrange(body, 1, body.len());
    let (properties, _rest) = match parse_props_block(tail, PropertyFilter::Disconnect) {
        Ok(p) => p,
        Err(e) => {
            return Err(e);
        },
    };
    Ok(
        DisconnectMessage {
            msg_type: base.msg_type,
            code,
            properties: Some(properties),
            bytes: base.bytes,
        },
    )
}

/// Decodes a v5 AUTH: an optional reason code, then an optional property
/// block.
pub fn auth(base: BaseMessage) -> (r: Result<AuthMessage, CodecError>)
    ensures
        match spec_remaining_data(base.bytes@) {
            Some(body) => if body.len() == 0 {
                r matches Ok(m) && m.msg_type == base.msg_type && m.code == spec_phrase_num(
                    ReasonPhrases::Success,
                ) && m.bytes@ == base.bytes@
            } else if body.len() == 1 {
                r matches Ok(m) && m.msg_type == base.msg_type && m.code == body[0] && m.bytes@
                    == base.bytes@
            } else {
                match spec_parse_props_block(body.skip(1), PropertyFilter::Auth) {
                    Some((ps, _rest)) => r matches Ok(m) && {
                        &&& m.msg_type == base.msg_type
                        &&& m.code == body[0]
                        &&& m.properties matches Some(v) && items_view(v@) == ps
                        &&& m.bytes@ == base.bytes@
                    },
                    None => r is Err,
                }
            },
            None => r is Err,
        },
{
    if base.bytes.len() < 1 {
        return Err(CodecError::MalformedPacket);
    }
    let body = match try_get_remaining_data(base.bytes.as_slice()) {
        Some(d) => d,
        None => {
            return Err(CodecError::MalformedPacket);
        },
    };
    if body.len() == 0 {
        let properties: Vec<PropertyItem> = Vec::new();
        return Ok(
            AuthMessage {
                msg_type: base.msg_type,
                code: ReasonPhrases::Success.as_byte(),
                properties: Some(properties),
                bytes: base.bytes,
            },
        );
    }
    let code = body[0];
    if body.len() == 1 {
        let properties: Vec<PropertyItem> = Vec::new();
        return Ok(
            AuthMessage { msg_type: base.msg_type, code, properties: Some(properties), bytes: base.bytes },
        );
    }
    let tail = slice_subrange(body, 1, body.len());
    let (properties, _rest) = match parse_props_block(tail, PropertyFilter::Auth) {
        Ok(p) => p,
        Err(e) => {
            return Err(e);
        },
    };
    Ok(
        AuthMessage { msg_type: base.msg_type, code, properties: Some(properties), bytes: base.bytes },
    )
}

/// Parsing of a v5 acknowledgment packet: the identifier, the reason code
/// when one is there, and the property block when one is there.
pub open spec fn spec_parse_reason_code(b: Seq<u8>) -> Option<
    (u16, ReasonPhrases, Seq<PropertyItemModel>),
> {
    match spec_remaining_data(b) {
        None => None,
        Some(body) => if body.len() < 2 {
            None
        } else if body.len() == 2 {
            Some((spec_be16(body), ReasonPhrases::Success, Seq::empty()))
        } else {
            match spec_phrase_of_num(body[2]) {
                None => None,
                Some(code) => if body.len() == 3 {
                    Some((spec_be16(body), code, Seq::empty()))
                } else {
                    match spec_parse_props_block(body.skip(3), PropertyFilter::PubAndSub) {
                        None => None,
                        Some((ps, _rest)) => Some((spec_be16(body), code, ps)),
                    }
                },
            }
        },
    }
}

/// Decodes a v5 acknowledgment packet.
pub fn get_reason_code(base: BaseMessage) -> (r: Result<CommonPayloadMessage, CodecError>)
    ensures
        match spec_parse_reason_code(base.bytes@) {
            Some((id, code, ps)) => r matches Ok(m) && {
                &&& m.msg_type == base.msg_type
                &&& m.message_id == id
                &&& m.code == code
                &&& m.properties matches Some(v) && items_view(v@) == ps
                &&& m.bytes@ == base.bytes@
            },
            None => r is Err,
        },
{
    if base.bytes.len() < 1 {
        return Err(CodecError::MalformedPacket);
    }
    let body = match try_get_remaining_data(base.bytes.as_slice()) {
        Some(d) => d,
        None => {
            return Err(CodecError::MalformedPacket);
        },
    };
    if body.len() < 2 {
        return Err(CodecError::MalformedPacket);
    }
    let (message_id, after_id) = parse_short_int(body);
    if body.len() == 2 {
        let properties: Vec<PropertyItem> = Vec::new();
        return Ok(
            CommonPayloadMessage {
                msg_type: base.msg_type,
                message_id,
                code: ReasonPhrases::Success,
                properties: Some(properties),
                bytes: base.bytes,
            },
        );
    }
    let code = match ReasonPhrases::from_num(body[2]) {
        Some(c) => c,
        None => {
            return Err(CodecError::MalformedPacket);
        },
    };
    let (properties, _rest) = if body.len() > 3 {
        let tail = slice_subrange(body, 3, body.len());
        match parse_props_block(tail, PropertyFilter::PubAndSub) {
            Ok(p) => p,
            Err(e) => {
                return Err(e);
            },
        }
    } else {
        let empty_props: Vec<PropertyItem> = Vec::new();
        (empty_props, slice_subrange(body, 2, body.len()))
    };
    Ok(
        CommonPayloadMessage {
            msg_type: base.msg_type,
            message_id,
            code,
            properties: Some(properties),
            bytes: base.bytes,
        },
    )
}

} // verus!
