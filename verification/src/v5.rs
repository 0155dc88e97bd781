use vstd::prelude::*;
use vstd::utf8::encode_utf8;
use crate::hex::{
    Property, PropertyItem, PropertyValue, items_view, spec_property_value_fits,
};
use crate::message::{
    ConnectMessagePayload, MqttBytesMessage, MqttMessage, PingreqMessage, PingrespMessage,
    props_view,
};
use crate::protocol::{
    MqttCleanSession, MqttDup, MqttNoLocal, MqttProtocolLevel, MqttQos, MqttRetain,
    MqttRetainAsPublished, MqttSessionPresent, MqttWillFlag,
};
use crate::reason_code::{ReasonCodeV5, ReasonPhrases, spec_phrase_num, spec_v5_code_num};
use crate::types::TypeKind;
use crate::v5_packet;

verus! {

/// A parsed or built MQTT 5.0 control packet.
#[derive(Debug, Clone)]
pub enum MqttMessageV5 {
    Connect(ConnectMessage),
    Connack(ConnackMessage),
    Publish(PublishMessage),
    Puback(CommonPayloadMessage),
    Pubrec(CommonPayloadMessage),
    Pubrel(CommonPayloadMessage),
    Pubcomp(CommonPayloadMessage),
    Subscribe(SubscribeMessage),
    Suback(SubackMessage),
    Unsubscribe(UnsubscribeMessage),
    Unsuback(UnsubackMessage),
    Pingreq(PingreqMessage),
    Pingresp(PingrespMessage),
    Disconnect(DisconnectMessage),
    Auth(AuthMessage),
}

/// A v5 CONNECT packet.
#[derive(Debug, Clone)]
pub struct ConnectMessage {
    pub msg_type: TypeKind,
    pub protocol_name: String,
    pub protocol_level: MqttProtocolLevel,
    pub clean_session: MqttCleanSession,
    pub will_flag: MqttWillFlag,
    pub will_qos: MqttQos,
    pub will_retain: MqttRetain,
    pub keep_alive: u16,
    pub payload: ConnectMessagePayload,
    pub properties: Option<Vec<PropertyItem>>,
    pub bytes: Vec<u8>,
}

impl MqttMessage for ConnectMessage {
    fn get_message_type(&self) -> TypeKind {
        self.msg_type
    }
}

impl MqttBytesMessage for ConnectMessage {
    fn as_bytes(&self) -> &[u8] {
        self.bytes.as_slice()
    }
}

/// A v5 CONNACK packet.
#[derive(Debug, Clone)]
pub struct ConnackMessage {
    pub msg_type: TypeKind,
    pub session_present: MqttSessionPresent,
    pub return_code: u8,
    pub properties: Option<Vec<PropertyItem>>,
    pub bytes: Vec<u8>,
}

impl MqttMessage for ConnackMessage {
    fn get_message_type(&self) -> TypeKind {
        self.msg_type
    }
}

impl MqttBytesMessage for ConnackMessage {
    fn as_bytes(&self) -> &[u8] {
        self.bytes.as_slice()
    }
}

impl Default for ConnackMessage {
    /// The broker's usual v5 answer: success, no session present, and the
    /// capabilities it announces to every client.
    fn default() -> (r: Self)
        ensures
            r.msg_type == TypeKind::CONNACK,
            r.session_present == MqttSessionPresent::Disable,
            r.return_code == spec_phrase_num(ReasonPhrases::Success),
            r.properties is Some,
            r.bytes@ == v5_packet::spec_connack_bytes(
                MqttSessionPresent::Disable,
                spec_phrase_num(ReasonPhrases::Success),
                props_view(r.properties),
            ),
    {
        let mut props: Vec<PropertyItem> = Vec::new();
        props.push(PropertyItem(Property::MaximumPacketSize, PropertyValue::Long(1048576)));
        props.push(PropertyItem(Property::RetainAvailable, PropertyValue::Byte(1)));
        props.push(PropertyItem(Property::SharedSubscriptionAvailable, PropertyValue::Byte(1)));
        props.push(
            PropertyItem(Property::SubscriptionIdentifierAvailable, PropertyValue::Byte(1)),
        );
        props.push(PropertyItem(Property::TopicAliasMaximum, PropertyValue::Short(65535)));
        props.push(PropertyItem(Property::WildcardSubscriptionAvailable, PropertyValue::Byte(1)));
        let bytes = v5_packet::connack(
            MqttSessionPresent::Disable,
            ReasonCodeV5::ReasonPhrases(ReasonPhrases::Success),
            Some(&props),
        );
        ConnackMessage {
            msg_type: TypeKind::CONNACK,
            session_present: MqttSessionPresent::Disable,
            return_code: ReasonPhrases::Success.as_byte(),
            properties: Some(props),
            bytes,
        }
    }
}

/// A v5 PUBLISH packet.
#[derive(Debug, Clone)]
pub struct PublishMessage {
    pub msg_type: TypeKind,
    pub message_id: u16,
    pub topic: String,
    pub dup: MqttDup,
    pub qos: MqttQos,
    pub retain: MqttRetain,
    pub msg_body: String,
    pub properties: Option<Vec<PropertyItem>>,
    pub bytes: Vec<u8>,
}

impl MqttMessage for PublishMessage {
    fn get_message_type(&self) -> TypeKind {
        self.msg_type
    }
}

impl MqttBytesMessage for PublishMessage {
    fn as_bytes(&self) -> &[u8] {
        self.bytes.as_slice()
    }
}

/// A v5 single-topic SUBSCRIBE packet, with its subscription options.
#[derive(Debug, Clone)]
pub struct SubscribeMessage {
    pub msg_type: TypeKind,
    pub message_id: u16,
    pub topic: String,
    pub qos: Option<MqttQos>,
    pub no_local: Option<MqttNoLocal>,
    pub retain_as_published: Option<MqttRetainAsPublished>,
    pub retain_handling: Option<u8>,
    pub properties: Option<Vec<PropertyItem>>,
    pub bytes: Vec<u8>,
}

impl MqttMessage for SubscribeMessage {
    fn get_message_type(&self) -> TypeKind {
        self.msg_type
    }
}

impl MqttBytesMessage for SubscribeMessage {
    fn as_bytes(&self) -> &[u8] {
        self.bytes.as_slice()
    }
}

/// A v5 single-topic UNSUBSCRIBE packet.
#[derive(Debug, Clone)]
pub struct UnsubscribeMessage {
    pub msg_type: TypeKind,
    pub message_id: u16,
    pub topic: String,
    pub properties: Option<Vec<PropertyItem>>,
    pub bytes: Vec<u8>,
}

impl MqttMessage for UnsubscribeMessage {
    fn get_message_type(&self) -> TypeKind {
        self.msg_type
    }
}

impl MqttBytesMessage for UnsubscribeMessage {
    fn as_bytes(&self) -> &[u8] {
        self.bytes.as_slice()
    }
}

/// A v5 SUBACK packet.
#[derive(Debug, Clone)]
pub struct SubackMessage {
    pub msg_type: TypeKind,
    pub message_id: u16,
    pub codes: Vec<u8>,
    pub properties: Option<Vec<PropertyItem>>,
    pub bytes: Vec<u8>,
}

impl MqttMessage for SubackMessage {
    fn get_message_type(&self) -> TypeKind {
        self.msg_type
    }
}

impl MqttBytesMessage for SubackMessage {
    fn as_bytes(&self) -> &[u8] {
        self.bytes.as_slice()
    }
}

impl SubackMessage {
    /// The SUBACK answering one v5 subscription: the granted QoS, or the
    /// v5 code for a QoS the broker does not grant.
    pub fn from_subscribe(smsg: &SubscribeMessage) -> (r: Self)
        requires
            smsg.qos is Some,
            smsg.properties is Some,
            forall|i: int|
                0 <= i < smsg.properties.unwrap()@.len() ==> spec_property_value_fits(
                    #[trigger] smsg.properties.unwrap()@[i]@,
                ),
        ensures
            r.msg_type == TypeKind::SUBACK,
            r.message_id == smsg.message_id,
            r.codes@ == seq![
                match smsg.qos {
                    Some(MqttQos::Qos0) => 0u8,
                    Some(MqttQos::Qos1) => 1u8,
                    Some(MqttQos::Qos2) => 2u8,
                    _ => spec_phrase_num(ReasonPhrases::QosNotSupported),
                },
            ],
            r.properties is Some,
            r.bytes@ == v5_packet::spec_suback_bytes(
                smsg.message_id,
                props_view(r.properties),
                r.codes@,
            ),
    {
        let code: u8 = match smsg.qos {
            Some(MqttQos::Qos0) => 0,
            Some(MqttQos::Qos1) => 1,
            Some(MqttQos::Qos2) => 2,
            _ => ReasonPhrases::QosNotSupported.as_byte(),
        };
        let mut codes: Vec<u8> = Vec::new();
        codes.push(code);
        let properties: Vec<PropertyItem> = Vec::new();
        let mut msg = SubackMessage {
            msg_type: TypeKind::SUBACK,
            message_id: smsg.message_id,
            codes,
            properties: Some(properties),
            bytes: Vec::new(),
        };
        msg.bytes = v5_packet::suback(&msg);
        msg
    }
}

/// A v5 UNSUBACK packet.
#[derive(Debug, Clone)]
pub struct UnsubackMessage {
    pub msg_type: TypeKind,
    pub message_id: u16,
    pub codes: Vec<u8>,
    pub properties: Option<Vec<PropertyItem>>,
    pub bytes: Vec<u8>,
}

impl MqttMessage for UnsubackMessage {
    fn get_message_type(&self) -> TypeKind {
        self.msg_type
    }
}

impl MqttBytesMessage for UnsubackMessage {
    fn as_bytes(&self) -> &[u8] {
        self.bytes.as_slice()
    }
}

impl UnsubackMessage {
    pub fn new(message_id: u16) -> (r: Self)
        ensures
            r.msg_type == TypeKind::UNSUBACK,
            r.message_id == message_id,
            r.codes@ == seq![spec_phrase_num(ReasonPhrases::Success)],
            r.bytes@ == v5_packet::spec_unsuback_bytes(
                message_id,
                props_view(r.properties),
                r.codes@,
            ),
    {
        let mut codes: Vec<u8> = Vec::new();
        codes.push(ReasonPhrases::Success.as_byte());
        let properties: Vec<PropertyItem> = Vec::new();
        let mut msg = UnsubackMessage {
            msg_type: TypeKind::UNSUBACK,
            message_id,
            codes,
            properties: Some(properties),
            bytes: Vec::new(),
        };
        msg.bytes = v5_packet::unsuback(&msg);
        msg
    }
}

/// A v5 DISCONNECT packet: a reason code and its properties.
#[derive(Debug, Clone)]
pub struct DisconnectMessage {
    pub msg_type: TypeKind,
    pub code: u8,
    pub properties: Option<Vec<PropertyItem>>,
    pub bytes: Vec<u8>,
}

impl MqttMessage for DisconnectMessage {
    fn get_message_type(&self) -> TypeKind {
        self.msg_type
    }
}

impl MqttBytesMessage for DisconnectMessage {
    fn as_bytes(&self) -> &[u8] {
        self.bytes.as_slice()
    }
}

impl DisconnectMessage {
    pub fn new(code: ReasonPhrases, properties: Option<Vec<PropertyItem>>) -> (r:
        DisconnectMessage)
        requires
            match properties {
                Some(ps) => forall|i: int|
                    0 <= i < ps@.len() ==> spec_property_value_fits(#[trigger] ps@[i]@),
                None => true,
            },
        ensures
            r.msg_type == TypeKind::DISCONNECT,
            r.code == spec_phrase_num(code),
            r.properties is Some,
            r.bytes@ == v5_packet::spec_disconnect_bytes(
                spec_phrase_num(code),
                props_view(r.properties),
            ),
    {
        let properties = match properties {
            Some(ps) => ps,
            None => Vec::new(),
        };
        let mut msg = DisconnectMessage {
            msg_type: TypeKind::DISCONNECT,
            code: code.as_byte(),
            properties: Some(properties),
            bytes: Vec::new(),
        };
        msg.bytes = v5_packet::disconnect(&msg);
        msg
    }
}

impl Default for DisconnectMessage {
    fn default() -> (r: Self)
        ensures
            r.msg_type == TypeKind::DISCONNECT,
            r.code == spec_phrase_num(ReasonPhrases::Success),
            r.properties is Some,
            r.bytes@ == v5_packet::spec_disconnect_bytes(
                spec_phrase_num(ReasonPhrases::Success),
                props_view(r.properties),
            ),
    {
        DisconnectMessage::new(ReasonPhrases::Success, None)
    }
}

/// A v5 AUTH packet: a reason code and its properties.
#[derive(Debug, Clone)]
pub struct AuthMessage {
    pub msg_type: TypeKind,
    pub code: u8,
    pub properties: Option<Vec<PropertyItem>>,
    pub bytes: Vec<u8>,
}

impl MqttMessage for AuthMessage {
    fn get_message_type(&self) -> TypeKind {
        self.msg_type
    }
}

impl MqttBytesMessage for AuthMessage {
    fn as_bytes(&self) -> &[u8] {
        self.bytes.as_slice()
    }
}

impl Default for AuthMessage {
    fn default() -> (r: Self)
        ensures
            r.msg_type == TypeKind::AUTH,
            r.code == spec_phrase_num(ReasonPhrases::Success),
            r.properties is Some,
            r.bytes@ == v5_packet::spec_auth_bytes(
                spec_phrase_num(ReasonPhrases::Success),
                props_view(r.properties),
            ),
    {
        let properties: Vec<PropertyItem> = Vec::new();
        let mut msg = AuthMessage {
            msg_type: TypeKind::AUTH,
            code: ReasonPhrases::Success.as_byte(),
            properties: Some(properties),
            bytes: Vec::new(),
        };
        msg.bytes = v5_packet::auth(&msg);
        msg
    }
}

/// A v5 acknowledgment packet: identifier, reason code and properties.
#[derive(Debug, Clone)]
pub struct CommonPayloadMessage {
    pub msg_type: TypeKind,
    pub message_id: u16,
    pub code: ReasonPhrases,
    pub properties: Option<Vec<PropertyItem>>,
    pub bytes: Vec<u8>,
}

impl MqttMessage for CommonPayloadMessage {
    fn get_message_type(&self) -> TypeKind {
        self.msg_type
    }
}

impl MqttBytesMessage for CommonPayloadMessage {
    fn as_bytes(&self) -> &[u8] {
        self.bytes.as_slice()
    }
}

impl CommonPayloadMessage {
    pub fn new(kind: TypeKind, message_id: u16) -> (r: CommonPayloadMessage)
        ensures
            r.msg_type == kind,
            r.message_id == message_id,
            r.code == ReasonPhrases::Success,
            r.properties is Some,
            r.bytes@ == v5_packet::spec_common_bytes(
                message_id,
                ReasonPhrases::Success,
                props_view(r.properties),
                kind,
            ),
    {
        let properties: Vec<PropertyItem> = Vec::new();
        let bytes = v5_packet::common(message_id, ReasonPhrases::Success, Some(&properties), kind);
        CommonPayloadMessage {
            msg_type: kind,
            message_id,
            code: ReasonPhrases::Success,
            properties: Some(properties),
            bytes,
        }
    }
}

} // verus!
