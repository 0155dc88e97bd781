use mqtt_broker::message::BaseMessage;
use mqtt_broker::pack_tool::{pack_short_int, pack_string, pack_var_int, string_fits};
use mqtt_broker::protocol::{MqttDup, MqttQos, MqttRetain, MqttSessionPresent};
use mqtt_broker::reason_code::ReasonCodeV3;
use mqtt_broker::types::TypeKind;
use mqtt_broker::un_pack_tool::{
    CodecError, get_remaining_length, parse_short_int, parse_string, unpack_var_int,
};
use mqtt_broker::v3::{ConnackMessage, PubackMessage, PublishMessage, SubackMessage};

#[test]
fn short_int_round_trip() {
    let bytes = pack_short_int(0x1234);
    assert_eq!(bytes, vec![0x12, 0x34]);
    let (v, rest) = parse_short_int(bytes.as_slice());
    assert_eq!(v, 0x1234);
    assert_eq!(rest.len(), 0);
}

#[test]
fn var_int_round_trip() {
    for n in [0usize, 1, 127, 128, 16383, 16384, 2097151, 2097152, 268435455] {
        let encoded = pack_var_int(n);
        // the remaining-length reader expects the field behind a header byte
        let mut framed = vec![0x00u8];
        framed.extend_from_slice(encoded.as_slice());
        let (value, consumed) = get_remaining_length(framed.as_slice()).unwrap();
        assert_eq!(value, n);
        assert_eq!(consumed, 1 + encoded.len());
        let (value2, rest) = unpack_var_int(encoded.as_slice()).unwrap();
        assert_eq!(value2 as usize, n);
        assert_eq!(rest.len(), 0);
    }
}

#[test]
fn var_int_encoding_exact() {
    assert_eq!(pack_var_int(0), vec![0x00]);
    assert_eq!(pack_var_int(127), vec![0x7F]);
    assert_eq!(pack_var_int(128), vec![0x80, 0x01]);
    assert_eq!(pack_var_int(268435455), vec![0xFF, 0xFF, 0xFF, 0x7F]);
}

#[test]
fn var_int_overlong_rejected() {
    // five continuation bytes can never be a remaining length
    let framed = vec![0x00u8, 0xFF, 0xFF, 0xFF, 0xFF, 0x01];
    assert!(get_remaining_length(framed.as_slice()).is_err());
    // a truncated field is refused as well
    let framed = vec![0x00u8, 0xFF];
    assert!(get_remaining_length(framed.as_slice()).is_err());
}

#[test]
fn string_round_trip() {
    let s = String::from("h\u{e9}llo \u{4e16}\u{754c}");
    assert!(string_fits(&s));
    let bytes = pack_string(&s);
    let (back, rest) = parse_string(bytes.as_slice()).unwrap();
    assert_eq!(back, s);
    assert_eq!(rest.unwrap().len(), 0);
    // the decoder consumes exactly what the encoder wrote
    let reencoded = pack_string(&back);
    assert_eq!(reencoded, bytes);
}

#[test]
fn string_length_overrun_rejected() {
    // the prefix declares three bytes but only two follow
    let bytes = vec![0x00u8, 0x03, 0x61, 0x62];
    assert_eq!(parse_string(bytes.as_slice()).unwrap_err(), CodecError::MalformedString);
}

#[test]
fn string_invalid_utf8_rejected() {
    let bytes = vec![0x00u8, 0x02, 0xC3, 0x28];
    assert_eq!(parse_string(bytes.as_slice()).unwrap_err(), CodecError::MalformedString);
}

#[test]
fn connack_bytes_exact() {
    let msg = ConnackMessage::new(MqttSessionPresent::Disable, ReasonCodeV3::ConnectionAccepted);
    assert_eq!(msg.bytes, vec![0x20, 0x02, 0x00, 0x00]);
}

#[test]
fn puback_bytes_exact() {
    let msg = PubackMessage::new(7);
    assert_eq!(msg.bytes, vec![0x40, 0x02, 0x00, 0x07]);
}

#[test]
fn publish_encode_decode_round_trip() {
    let msg = PublishMessage::new(
        MqttQos::Qos1,
        MqttDup::Disable,
        MqttRetain::Disable,
        String::from("t"),
        7,
        String::from("hi"),
    );
    assert_eq!(msg.bytes, vec![0x32, 0x07, 0x00, 0x01, 0x74, 0x00, 0x07, 0x68, 0x69]);
    let base = BaseMessage::from_bytes(msg.bytes.clone()).unwrap();
    assert_eq!(base.msg_type, TypeKind::PUBLISH);
    assert_eq!(base.qos, Some(MqttQos::Qos1));
    let decoded = mqtt_broker::v3_unpacket::publish(base).unwrap();
    assert_eq!(decoded.topic, "t");
    assert_eq!(decoded.message_id, 7);
    assert_eq!(decoded.msg_body, "hi");
    assert_eq!(decoded.qos, MqttQos::Qos1);
}

#[test]
fn connect_encode_decode_round_trip() {
    let builder = mqtt_broker::config::ConfigBuilder::default();
    let config = builder.client_id(String::from("abcd")).build().unwrap();
    let msg = mqtt_broker::v3::ConnectMessage::new(
        mqtt_broker::protocol::MqttCleanSession::Enable,
        config,
    );
    let base = BaseMessage::from_bytes(msg.bytes.clone()).unwrap();
    assert_eq!(base.msg_type, TypeKind::CONNECT);
    let decoded = mqtt_broker::v3_unpacket::connect(base).unwrap();
    assert_eq!(decoded.payload.client_id, "abcd");
    assert_eq!(decoded.protocol_name, "MQTT");
    assert_eq!(decoded.keep_alive, 60);
    assert_eq!(decoded.clean_session, mqtt_broker::protocol::MqttCleanSession::Enable);
}

#[test]
fn subscribe_decode_multiple_topics() {
    // one SUBSCRIBE carrying two topic entries: "ab" and "cd"
    let bytes = vec![
        0x82u8, 0x0C, 0x00, 0x01, 0x00, 0x02, 0x61, 0x62, 0x01, 0x00, 0x02, 0x63, 0x64, 0x00,
    ];
    let base = BaseMessage::from_bytes(bytes).unwrap();
    let subs = mqtt_broker::v3_unpacket::subscribe(base).unwrap();
    assert_eq!(subs.len(), 2);
    assert_eq!(subs[0].topic, "ab");
    assert_eq!(subs[0].qos, MqttQos::Qos1);
    assert_eq!(subs[0].message_id, 1);
    assert_eq!(subs[1].topic, "cd");
    assert_eq!(subs[1].qos, MqttQos::Qos0);
    assert_eq!(subs[1].message_id, 1);
}

#[test]
fn subscribe_bad_qos_rejected() {
    // options byte three is no QoS the protocol grants
    let bytes = vec![0x82u8, 0x06, 0x00, 0x01, 0x00, 0x01, 0x74, 0x03];
    let base = BaseMessage::from_bytes(bytes).unwrap();
    assert!(mqtt_broker::v3_unpacket::subscribe(base).is_err());
}

#[test]
fn suback_grants_requested_qos() {
    let msg = SubackMessage::new(1, MqttQos::Qos0);
    assert_eq!(msg.bytes, vec![0x90, 0x03, 0x00, 0x01, 0x00]);
    let failing = SubackMessage::new(1, MqttQos::Failure);
    assert_eq!(failing.bytes, vec![0x90, 0x03, 0x00, 0x01, 0x80]);
}

#[test]
fn v5_connack_properties_round_trip() {
    let msg = mqtt_broker::v5::ConnackMessage::default();
    let base = BaseMessage::from_bytes(msg.bytes.clone()).unwrap();
    let decoded = mqtt_broker::v5_unpacket::connack(base).unwrap();
    assert_eq!(decoded.return_code, 0);
    assert_eq!(decoded.session_present, MqttSessionPresent::Disable);
    let props = decoded.properties.unwrap();
    assert_eq!(props.len(), 6);
    assert_eq!(props[0].as_long(), Some(1048576));
    assert_eq!(props[4].as_short(), Some(65535));
}

#[test]
fn v5_common_round_trip() {
    let msg = mqtt_broker::v5::CommonPayloadMessage::new(TypeKind::PUBACK, 9);
    let base = BaseMessage::from_bytes(msg.bytes.clone()).unwrap();
    let decoded = mqtt_broker::v5_unpacket::get_reason_code(base).unwrap();
    assert_eq!(decoded.message_id, 9);
    assert_eq!(decoded.code, mqtt_broker::reason_code::ReasonPhrases::Success);
}

#[test]
fn v5_common_code_round_trip() {
    let props: Vec<mqtt_broker::hex::PropertyItem> = Vec::new();
    let bytes = mqtt_broker::v5_packet::common(
        9,
        mqtt_broker::reason_code::ReasonPhrases::UnspecifiedError,
        Some(&props),
        TypeKind::PUBCOMP,
    );
    assert_eq!(bytes, vec![0x70, 0x04, 0x00, 0x09, 0x80, 0x00]);
    let base = BaseMessage::from_bytes(bytes).unwrap();
    let decoded = mqtt_broker::v5_unpacket::get_reason_code(base).unwrap();
    assert_eq!(decoded.message_id, 9);
    assert_eq!(decoded.code, mqtt_broker::reason_code::ReasonPhrases::UnspecifiedError);
}

#[test]
fn v5_pubrel_carries_its_flag_bits() {
    let msg = mqtt_broker::v5::CommonPayloadMessage::new(TypeKind::PUBREL, 1);
    assert_eq!(msg.bytes[0], 0x62);
}

#[test]
fn publish_zero_packet_id_rejected() {
    // a QoS one publish whose packet identifier is zero is malformed
    let bytes = vec![0x32u8, 0x07, 0x00, 0x01, 0x74, 0x00, 0x00, 0x68, 0x69];
    let base = BaseMessage::from_bytes(bytes).unwrap();
    assert!(mqtt_broker::v3_unpacket::publish(base).is_err());
}

#[test]
fn subscribe_failure_code_rejected() {
    // the failure grant code is no requestable QoS
    let bytes = vec![0x82u8, 0x06, 0x00, 0x01, 0x00, 0x01, 0x74, 0x80];
    let base = BaseMessage::from_bytes(bytes).unwrap();
    assert!(mqtt_broker::v3_unpacket::subscribe(base).is_err());
}

#[test]
fn large_publish_round_trip() {
    // a body long enough that the remaining length takes two bytes
    let mut body = String::new();
    for _ in 0..80 {
        body.push_str("abc");
    }
    let msg = PublishMessage::new(
        MqttQos::Qos1,
        MqttDup::Disable,
        MqttRetain::Disable,
        String::from("big"),
        7,
        body.clone(),
    );
    assert!(msg.bytes.len() > 130);
    assert_eq!(msg.bytes[1] & 0x80, 0x80);
    let base = BaseMessage::from_bytes(msg.bytes.clone()).unwrap();
    let decoded = mqtt_broker::v3_unpacket::publish(base).unwrap();
    assert_eq!(decoded.topic, "big");
    assert_eq!(decoded.message_id, 7);
    assert_eq!(decoded.msg_body, body);
}

#[test]
fn large_property_block_round_trip() {
    // a property block past one hundred and twenty-seven bytes needs a
    // two byte length field on both paths
    let mut reason = String::new();
    for _ in 0..50 {
        reason.push_str("abc");
    }
    let props = vec![mqtt_broker::hex::PropertyItem(
        mqtt_broker::hex::Property::ReasonString,
        mqtt_broker::hex::PropertyValue::String(reason.clone()),
    )];
    let bytes = mqtt_broker::v5_packet::connack(
        MqttSessionPresent::Disable,
        mqtt_broker::reason_code::ReasonCodeV5::ReasonPhrases(
            mqtt_broker::reason_code::ReasonPhrases::Success,
        ),
        Some(&props),
    );
    let base = BaseMessage::from_bytes(bytes).unwrap();
    let decoded = mqtt_broker::v5_unpacket::connack(base).unwrap();
    let decoded_props = decoded.properties.unwrap();
    assert_eq!(decoded_props.len(), 1);
    assert_eq!(decoded_props[0].as_str().unwrap(), &reason);
}

#[test]
fn feed_reassembles_split_and_joined_packets() {
    let mut buffer: Vec<u8> = Vec::new();
    // a CONNECT split across two reads comes out whole
    let connect = vec![
        0x10u8, 0x10, 0x00, 0x04, 0x4D, 0x51, 0x54, 0x54, 0x04, 0x02, 0x00, 0x3C, 0x00, 0x04,
        0x61, 0x62, 0x63, 0x64,
    ];
    let frames = mqtt_broker::message::feed(&mut buffer, connect[..7].to_vec());
    assert_eq!(frames.len(), 0);
    assert_eq!(buffer.len(), 7);
    let frames = mqtt_broker::message::feed(&mut buffer, connect[7..].to_vec());
    assert_eq!(frames.len(), 1);
    assert_eq!(frames[0], connect);
    assert_eq!(buffer.len(), 0);
    // two packets in one read come out one by one
    let two = vec![0xC0u8, 0x00, 0xE0, 0x00];
    let frames = mqtt_broker::message::feed(&mut buffer, two);
    assert_eq!(frames.len(), 2);
    assert_eq!(frames[0], vec![0xC0, 0x00]);
    assert_eq!(frames[1], vec![0xE0, 0x00]);
    assert_eq!(buffer.len(), 0);
}

#[test]
fn reason_code_text() {
    assert_eq!(ReasonCodeV3::ConnectionAccepted.as_str(), "Connection accepted");
    assert_eq!(mqtt_broker::reason_code::ReasonPhrases::QosNotSupported.as_byte(), 0x9B);
}
