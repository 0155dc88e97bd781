use vstd::prelude::*;
use vstd::string::StrSliceExecFns;
use vstd::utf8::encode_utf8;
use crate::message::ConnectPayloadModel;
use crate::pack_tool::{
    pack_client_id, pack_connect_flags, pack_header, pack_message_short_id, pack_password,
    pack_protocol_name, pack_publish_header, pack_short_int, pack_string, pack_username,
    pack_will_message, pack_will_topic, spec_connect_flags, spec_header_bytes,
    spec_publish_flags_byte, spec_short, spec_string_bytes, spec_varint,
};
use crate::protocol::{MqttQos, MqttSessionPresent, MqttWillFlag, spec_level_num, spec_qos_num};
use crate::reason_code::{ReasonCodeV3, spec_v3_code_num};
use crate::types::TypeKind;
use crate::v3::{
    ConnectMessage, ConnectModel, PublishMessage, PublishModel, SubackMessage, SubackModel,
    SubscribeMessage, SubscribeModel, UnsubscribeMessage, UnsubscribeModel, connect_wf, publish_wf,
    subscribe_wf, unsubscribe_wf,
};

verus! {

/// The bytes of an optional length-prefixed string; nothing when absent.
pub open spec fn spec_opt_string_bytes(o: Option<Seq<char>>) -> Seq<u8> {
    match o {
        Some(s) => spec_string_bytes(s),
        None => Seq::empty(),
    }
}

/// The body of a CONNECT packet: protocol name, level, connect flags, keep
/// alive, then the payload in its fixed order.
pub open spec fn spec_connect_body(m: ConnectModel) -> Seq<u8> {
    spec_string_bytes(m.protocol_name) + seq![spec_level_num(m.protocol_level)] + seq![
        spec_connect_flags(
            m.clean_session,
            m.will_flag,
            m.will_qos,
            m.will_retain,
            m.payload.user_name is Some,
            m.payload.password is Some,
        ),
    ] + spec_short(m.keep_alive) + spec_string_bytes(m.payload.client_id) + (if m.will_flag
        == MqttWillFlag::Enable {
        spec_opt_string_bytes(m.payload.will_topic) + spec_opt_string_bytes(m.payload.will_message)
    } else {
        Seq::empty()
    }) + spec_opt_string_bytes(m.payload.user_name) + spec_opt_string_bytes(m.payload.password)
}

/// A whole CONNECT packet.
pub open spec fn spec_connect_bytes(m: ConnectModel) -> Seq<u8> {
    spec_header_bytes(TypeKind::CONNECT, spec_connect_body(m).len()) + spec_connect_body(m)
}

/// Serializes a CONNECT.
#[verifier::rlimit(100)]
pub fn connect(msg: &ConnectMessage) -> (r: Vec<u8>)
    requires
        msg.msg_type == TypeKind::CONNECT,
        connect_wf(msg@),
    ensures
        r@ == spec_connect_bytes(msg@),
{
    let mut body: Vec<u8> = pack_protocol_name(&msg.protocol_name);

    body.push(msg.protocol_level.as_num());

    let flags = match pack_connect_flags(
        msg.clean_session,
        msg.will_flag,
        msg.will_qos,
        msg.will_retain,
        msg.payload.user_name.as_ref(),
        msg.payload.password.as_ref(),
    ) {
        Ok(f) => f,
        Err(_) => {
            proof {
                assert(false);
            }
            0
        },
    };
    body.push(flags);

    let mut keep_alive = pack_short_int(msg.keep_alive);
    body.append(&mut keep_alive);

    let mut client_id = pack_client_id(&msg.payload.client_id);
    body.append(&mut client_id);

    if msg.will_flag == MqttWillFlag::Enable {
        if let Some(mut will_topic) = pack_will_topic(msg) {
            body.append(&mut will_topic);
        }
        if let Some(mut will_message) = pack_will_message(msg) {
            body.append(&mut will_message);
        }
    }

    if let Some(mut user_name) = pack_username(msg) {
        body.append(&mut user_name);
    }

    if let Some(mut password) = pack_password(msg) {
        body.append(&mut password);
    }

    assert(body@ =~= spec_connect_body(msg@));

    let mut package = pack_header(TypeKind::CONNECT, body.len());
    package.append(&mut body);
    assert(package@ =~= spec_connect_bytes(msg@));
    package
}

/// A whole CONNACK packet: session-present byte, then the return code.
pub open spec fn spec_connack_bytes(session_present: MqttSessionPresent, code: ReasonCodeV3) -> Seq<
    u8,
> {
    spec_header_bytes(TypeKind::CONNACK, 2) + seq![
        if session_present == MqttSessionPresent::Enable {
            1u8
        } else {
            0u8
        },
        spec_v3_code_num(code),
    ]
}

/// Serializes a CONNACK.
pub fn connack(session_present: MqttSessionPresent, return_code: ReasonCodeV3) -> (r: Vec<u8>)
    ensures
        r@ == spec_connack_bytes(session_present, return_code),
{
    let sp: u8 = if session_present == MqttSessionPresent::Enable {
        1
    } else {
        0
    };
    let mut body: Vec<u8> = Vec::new();
    body.push(sp);
    body.push(return_code.as_byte());

    let mut package = pack_header(TypeKind::CONNACK, body.len());
    package.append(&mut body);
    assert(package@ =~= spec_connack_bytes(session_present, return_code));
    package
}

/// The body of a PUBLISH: the topic, the packet identifier when the quality
/// of service asks for one, then the application bytes.
pub open spec fn spec_publish_body(m: PublishModel) -> Seq<u8> {
    spec_string_bytes(m.topic) + (if m.qos != MqttQos::Qos0 {
        spec_short(m.message_id)
    } else {
        Seq::empty()
    }) + encode_utf8(m.msg_body)
}

/// A whole PUBLISH packet, its flags in the fixed header.
pub open spec fn spec_publish_bytes(m: PublishModel) -> Seq<u8> {
    seq![
        spec_publish_flags_byte(TypeKind::PUBLISH, Some(m.qos), Some(m.dup), Some(m.retain)),
    ] + spec_varint(spec_publish_body(m).len()) + spec_publish_body(m)
}

/// Serializes a PUBLISH.
pub fn publish(msg: &PublishMessage) -> (r: Vec<u8>)
    requires
        msg.msg_type == TypeKind::PUBLISH,
        publish_wf(msg@),
    ensures
        r@ == spec_publish_bytes(msg@),
{
    let mut body = pack_string(&msg.topic);

    if !matches!(msg.qos, MqttQos::Qos0) {
        let mut id = pack_message_short_id(msg.message_id);
        body.append(&mut id);
    }

    let mut payload = msg.msg_body.as_str().as_bytes_vec();
    body.append(&mut payload);

    assert(body@ =~= spec_publish_body(msg@));

    let mut package = pack_publish_header(
        TypeKind::PUBLISH,
        body.len(),
        Some(msg.qos),
        Some(msg.dup),
        Some(msg.retain),
    );
    package.append(&mut body);
    assert(package@ =~= spec_publish_bytes(msg@));
    package
}

/// The body of a client SUBSCRIBE with one topic: identifier, topic, options.
pub open spec fn spec_subscribe_body(m: SubscribeModel) -> Seq<u8> {
    spec_short(m.message_id) + spec_string_bytes(m.topic) + seq![spec_qos_num(m.qos)]
}

/// A whole single-topic SUBSCRIBE packet.
pub open spec fn spec_subscribe_bytes(m: SubscribeModel) -> Seq<u8> {
    spec_header_bytes(TypeKind::SUBSCRIBE, spec_subscribe_body(m).len()) + spec_subscribe_body(m)
}

/// Serializes a single-topic SUBSCRIBE.
pub fn subscribe(msg: &SubscribeMessage) -> (r: Vec<u8>)
    requires
        subscribe_wf(msg@),
    ensures
        r@ == spec_subscribe_bytes(msg@),
{
    let mut body = pack_message_short_id(msg.message_id);

    let mut topic = pack_string(&msg.topic);
    body.append(&mut topic);

    body.push(msg.qos.as_byte());

    assert(body@ =~= spec_subscribe_body(msg@));

    let mut package = pack_header(TypeKind::SUBSCRIBE, body.len());
    package.append(&mut body);
    assert(package@ =~= spec_subscribe_bytes(msg@));
    package
}

/// The body of a SUBACK: the identifier, then one return code per topic.
pub open spec fn spec_suback_body(m: SubackModel) -> Seq<u8> {
    spec_short(m.message_id) + m.codes
}

/// A whole SUBACK packet.
pub open spec fn spec_suback_bytes(m: SubackModel) -> Seq<u8> {
    spec_header_bytes(TypeKind::SUBACK, spec_suback_body(m).len()) + spec_suback_body(m)
}

/// Serializes a SUBACK.
pub fn suback(msg: &SubackMessage) -> (r: Vec<u8>)
    ensures
        r@ == spec_suback_bytes(msg@),
{
    let mut body = pack_message_short_id(msg.message_id);

    let mut codes = vstd::slice::slice_to_vec(msg.codes.as_slice());
    body.append(&mut codes);

    assert(body@ =~= spec_suback_body(msg@));

    let mut package = pack_header(TypeKind::SUBACK, body.len());
    package.append(&mut body);
    assert(package@ =~= spec_suback_bytes(msg@));
    package
}

/// The body of a client UNSUBSCRIBE with one topic.
pub open spec fn spec_unsubscribe_body(m: UnsubscribeModel) -> Seq<u8> {
    spec_short(m.message_id) + spec_string_bytes(m.topic)
}

/// A whole single-topic UNSUBSCRIBE packet.
pub open spec fn spec_unsubscribe_bytes(m: UnsubscribeModel) -> Seq<u8> {
    spec_header_bytes(TypeKind::UNSUBSCRIBE, spec_unsubscribe_body(m).len())
        + spec_unsubscribe_body(m)
}

/// Serializes a single-topic UNSUBSCRIBE.
pub fn unsubscribe(msg: &UnsubscribeMessage) -> (r: Vec<u8>)
    requires
        unsubscribe_wf(msg@),
    ensures
        r@ == spec_unsubscribe_bytes(msg@),
{
    let mut body = pack_message_short_id(msg.message_id);

    let mut topic = pack_string(&msg.topic);
    body.append(&mut topic);

    assert(body@ =~= spec_unsubscribe_body(msg@));

    let mut package = pack_header(TypeKind::UNSUBSCRIBE, body.len());
    package.append(&mut body);
    assert(package@ =~= spec_unsubscribe_bytes(msg@));
    package
}

/// A whole acknowledgment packet that carries only a packet identifier.
pub open spec fn spec_not_payload_bytes(message_id: u16, kind: TypeKind) -> Seq<u8> {
    spec_header_bytes(kind, 2) + spec_short(message_id)
}

/// Serializes a packet whose body is a bare packet identifier.
pub fn not_payload(message_id: u16, msg_type: TypeKind) -> (r: Vec<u8>)
    ensures
        r@ == spec_not_payload_bytes(message_id, msg_type),
{
    let mut body = pack_message_short_id(message_id);

    let mut package = pack_header(msg_type, body.len());
    package.append(&mut body);
    assert(package@ =~= spec_not_payload_bytes(message_id, msg_type));
    package
}

} // verus!
