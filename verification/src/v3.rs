use vstd::prelude::*;
use vstd::utf8::encode_utf8;
use crate::message::{
    ConnectMessagePayload, ConnectPayloadModel, MqttBytesMessage, MqttMessage, PingreqMessage,
    PingrespMessage, opt_view,
};
use crate::pack_tool::{pack_header, spec_header_bytes, spec_opt_fits};
use crate::protocol::{
    MqttCleanSession, MqttDup, MqttPasswordFlag, MqttProtocolLevel, MqttQos, MqttRetain,
    MqttSessionPresent, MqttUsernameFlag, MqttWillFlag, spec_qos_num,
};
use crate::reason_code::{ReasonCodeV3, spec_v3_code_num};
use crate::types::TypeKind;
use crate::v3_packet;

verus! {

/// A parsed or built MQTT 3.1.1 control packet.
#[derive(Debug, Clone)]
pub enum MqttMessageV3 {
    Connect(ConnectMessage),
    Connack(ConnackMessage),
    Publish(PublishMessage),
    Puback(PubackMessage),
    Pubrec(PubrecMessage),
    Pubrel(PubrelMessage),
    Pubcomp(PubcompMessage),
    Subscribe(SubscribeMessage),
    Suback(SubackMessage),
    Unsubscribe(UnsubscribeMessage),
    Unsuback(UnsubackMessage),
    Pingreq(PingreqMessage),
    Pingresp(PingrespMessage),
    Disconnect(DisconnectMessage),
}

/// The serialized bytes a v3 packet of any kind carries.
pub open spec fn spec_v3_message_bytes(m: MqttMessageV3) -> Seq<u8> {
    match m {
        MqttMessageV3::Connect(msg) => msg.bytes@,
        MqttMessageV3::Connack(msg) => msg.bytes@,
        MqttMessageV3::Publish(msg) => msg.bytes@,
        MqttMessageV3::Puback(msg) => msg.bytes@,
        MqttMessageV3::Pubrec(msg) => msg.bytes@,
        MqttMessageV3::Pubrel(msg) => msg.bytes@,
        MqttMessageV3::Pubcomp(msg) => msg.bytes@,
        MqttMessageV3::Subscribe(msg) => msg.bytes@,
        MqttMessageV3::Suback(msg) => msg.bytes@,
        MqttMessageV3::Unsubscribe(msg) => msg.bytes@,
        MqttMessageV3::Unsuback(msg) => msg.bytes@,
        MqttMessageV3::Pingreq(msg) => msg.bytes@,
        MqttMessageV3::Pingresp(msg) => msg.bytes@,
        MqttMessageV3::Disconnect(msg) => msg.bytes@,
    }
}

impl MqttMessageV3 {
    pub fn is_connect(&self) -> (r: bool)
        ensures
            r == (self matches MqttMessageV3::Connect(_)),
    {
        matches!(self, MqttMessageV3::Connect(_))
    }

    pub fn is_cannack(&self) -> (r: bool)
        ensures
            r == (self matches MqttMessageV3::Connack(_)),
    {
        matches!(self, MqttMessageV3::Connack(_))
    }

    pub fn is_publish(&self) -> (r: bool)
        ensures
            r == (self matches MqttMessageV3::Publish(_)),
    {
        matches!(self, MqttMessageV3::Publish(_))
    }

    pub fn is_puback(&self) -> (r: bool)
        ensures
            r == (self matches MqttMessageV3::Puback(_)),
    {
        matches!(self, MqttMessageV3::Puback(_))
    }

    pub fn is_pubrec(&self) -> (r: bool)
        ensures
            r == (self matches MqttMessageV3::Pubrec(_)),
    {
        matches!(self, MqttMessageV3::Pubrec(_))
    }

    pub fn is_pubrel(&self) -> (r: bool)
        ensures
            r == (self matches MqttMessageV3::Pubrel(_)),
    {
        matches!(self, MqttMessageV3::Pubrel(_))
    }

    pub fn is_pubcomp(&self) -> (r: bool)
        ensures
            r == (self matches MqttMessageV3::Pubcomp(_)),
    {
        matches!(self, MqttMessageV3::Pubcomp(_))
    }

    pub fn is_subscribe(&self) -> (r: bool)
        ensures
            r == (self matches MqttMessageV3::Subscribe(_)),
    {
        matches!(self, MqttMessageV3::Subscribe(_))
    }

    pub fn is_suback(&self) -> (r: bool)
        ensures
            r == (self matches MqttMessageV3::Suback(_)),
    {
        matches!(self, MqttMessageV3::Suback(_))
    }

    pub fn is_unsubscribe(&self) -> (r: bool)
        ensures
            r == (self matches MqttMessageV3::Unsubscribe(_)),
    {
        matches!(self, MqttMessageV3::Unsubscribe(_))
    }

    pub fn is_unsuback(&self) -> (r: bool)
        ensures
            r == (self matches MqttMessageV3::Unsuback(_)),
    {
        matches!(self, MqttMessageV3::Unsuback(_))
    }

    pub fn is_pingreq(&self) -> (r: bool)
        ensures
            r == (self matches MqttMessageV3::Pingreq(_)),
    {
        matches!(self, MqttMessageV3::Pingreq(_))
    }

    pub fn is_pingresp(&self) -> (r: bool)
        ensures
            r == (self matches MqttMessageV3::Pingresp(_)),
    {
        matches!(self, MqttMessageV3::Pingresp(_))
    }

    pub fn is_disconnect(&self) -> (r: bool)
        ensures
            r == (self matches MqttMessageV3::Disconnect(_)),
    {
        matches!(self, MqttMessageV3::Disconnect(_))
    }

    /// The serialized bytes of the packet.
    pub fn as_bytes(&self) -> (r: &[u8])
        ensures
            r@ == spec_v3_message_bytes(*self),
    {
        match self {
            MqttMessageV3::Connect(msg) => msg.bytes.as_slice(),
            MqttMessageV3::Connack(msg) => msg.bytes.as_slice(),
            MqttMessageV3::Publish(msg) => msg.bytes.as_slice(),
            MqttMessageV3::Puback(msg) => msg.bytes.as_slice(),
            MqttMessageV3::Pubrec(msg) => msg.bytes.as_slice(),
            MqttMessageV3::Pubrel(msg) => msg.bytes.as_slice(),
            MqttMessageV3::Pubcomp(msg) => msg.bytes.as_slice(),
            MqttMessageV3::Subscribe(msg) => msg.bytes.as_slice(),
            MqttMessageV3::Suback(msg) => msg.bytes.as_slice(),
            MqttMessageV3::Unsubscribe(msg) => msg.bytes.as_slice(),
            MqttMessageV3::Unsuback(msg) => msg.bytes.as_slice(),
            MqttMessageV3::Pingreq(msg) => msg.bytes.as_slice(),
            MqttMessageV3::Pingresp(msg) => msg.bytes.as_slice(),
            MqttMessageV3::Disconnect(msg) => msg.bytes.as_slice(),
        }
    }
}

/// The fields a CONNECT variable header declares, each as far as it parsed.
pub struct VariableHeader {
    pub protocol_name: Option<String>,
    pub keep_alive: Option<u16>,
    pub protocol_level: Option<MqttProtocolLevel>,
    pub clean_session: Option<MqttCleanSession>,
    pub will_flag: Option<MqttWillFlag>,
    pub will_qos: Option<MqttQos>,
    pub will_retain: Option<MqttRetain>,
    pub password_flag: Option<MqttPasswordFlag>,
    pub username_flag: Option<MqttUsernameFlag>,
}

/// A CONNECT packet.
#[derive(Debug, Clone)]
pub struct ConnectMessage {
    pub msg_type: TypeKind,
    pub protocol_name: String,
    pub protocol_level: MqttProtocolLevel,
    pub clean_session: MqttCleanSession,
    pub will_flag: MqttWillFlag,
    pub will_qos: MqttQos,
    pub will_retain: MqttRetain,
    pub keep_alive: u16,
    pub payload: ConnectMessagePayload,
    pub bytes: Vec<u8>,
}

/// The mathematical shape of a CONNECT.
pub ghost struct ConnectModel {
    pub protocol_name: Seq<char>,
    pub protocol_level: MqttProtocolLevel,
    pub clean_session: MqttCleanSession,
    pub will_flag: MqttWillFlag,
    pub will_qos: MqttQos,
    pub will_retain: MqttRetain,
    pub keep_alive: u16,
    pub payload: ConnectPayloadModel,
}

impl View for ConnectMessage {
    type V = ConnectModel;

    open spec fn view(&self) -> ConnectModel {
        ConnectModel {
            protocol_name: self.protocol_name@,
            protocol_level: self.protocol_level,
            clean_session: self.clean_session,
            will_flag: self.will_flag,
            will_qos: self.will_qos,
            will_retain: self.will_retain,
            keep_alive: self.keep_alive,
            payload: self.payload@,
        }
    }
}

/// What a CONNECT must hold so that it can stand on the wire: every string
/// fits behind its length prefix, and an enabled will has a legal QoS.
pub open spec fn connect_wf(m: ConnectModel) -> bool {
    &&& encode_utf8(m.protocol_name).len() <= 65535
    &&& encode_utf8(m.payload.client_id).len() <= 65535
    &&& spec_opt_fits(m.payload.will_topic)
    &&& spec_opt_fits(m.payload.will_message)
    &&& spec_opt_fits(m.payload.user_name)
    &&& spec_opt_fits(m.payload.password)
    &&& (m.will_flag == MqttWillFlag::Enable ==> m.will_qos != MqttQos::Failure)
}

impl ConnectMessage {
    /// A client-side CONNECT built from a configuration.
    pub fn new(clean_session: MqttCleanSession, config: crate::config::Config) -> (r:
        ConnectMessage)
        requires
            encode_utf8(config.protocol_name@).len() <= 65535,
            encode_utf8(config.client_id@).len() <= 65535,
            spec_opt_fits(crate::message::opt_view(config.will.will_topic)),
            spec_opt_fits(crate::message::opt_view(config.will.will_message)),
            spec_opt_fits(crate::message::opt_view(config.username)),
            spec_opt_fits(crate::message::opt_view(config.password)),
            config.will.will_flag == MqttWillFlag::Enable ==> config.will.will_qos
                != MqttQos::Failure,
        ensures
            r.msg_type == TypeKind::CONNECT,
            r@.protocol_name == config.protocol_name@,
            r@.protocol_level == config.protocol_level,
            r@.clean_session == clean_session,
            r@.will_flag == config.will.will_flag,
            r@.keep_alive == config.keep_alive,
            r@.payload.client_id == config.client_id@,
            r.bytes@ == v3_packet::spec_connect_bytes(r@),
    {
        let mut msg = ConnectMessage {
            msg_type: TypeKind::CONNECT,
            protocol_name: config.protocol_name(),
            protocol_level: config.protocol_level(),
            clean_session,
            will_flag: config.will().will_flag(),
            will_qos: config.will().will_qos(),
            will_retain: config.will().will_retain(),
            keep_alive: config.keep_alive(),
            payload: ConnectMessagePayload {
                client_id: config.client_id(),
                will_topic: config.will().will_topic(),
                will_message: config.will().will_message(),
                user_name: config.username(),
                password: config.password(),
                properties: None,
            },
            bytes: Vec::new(),
        };
        msg.bytes = v3_packet::connect(&msg);
        msg
    }
}

impl MqttMessage for ConnectMessage {
    fn get_message_type(&self) -> TypeKind {
        self.msg_type
    }
}

impl MqttBytesMessage for ConnectMessage {
    fn as_bytes(&self) -> &[u8] {
        self.bytes.as_slice()
    }
}

/// A CONNACK packet.
#[derive(Debug, Clone)]
pub struct ConnackMessage {
    pub msg_type: TypeKind,
    pub session_present: MqttSessionPresent,
    pub return_code: u8,
    pub bytes: Vec<u8>,
}

impl MqttMessage for ConnackMessage {
    fn get_message_type(&self) -> TypeKind {
        self.msg_type
    }
}

impl MqttBytesMessage for ConnackMessage {
    fn as_bytes(&self) -> &[u8] {
        self.bytes.as_slice()
    }
}

impl Default for ConnackMessage {
    /// The broker's usual answer: accepted, no session present.
    fn default() -> (r: Self)
        ensures
            r.msg_type == TypeKind::CONNACK,
            r.session_present == MqttSessionPresent::Disable,
            r.return_code == 0,
            r.bytes@ == v3_packet::spec_connack_bytes(
                MqttSessionPresent::Disable,
                ReasonCodeV3::ConnectionAccepted,
            ),
    {
        ConnackMessage::new(MqttSessionPresent::Disable, ReasonCodeV3::ConnectionAccepted)
    }
}

impl ConnackMessage {
    pub fn new(session_present: MqttSessionPresent, return_code: ReasonCodeV3) -> (r:
        ConnackMessage)
        ensures
            r.msg_type == TypeKind::CONNACK,
            r.session_present == session_present,
            r.return_code == spec_v3_code_num(return_code),
            r.bytes@ == v3_packet::spec_connack_bytes(session_present, return_code),
    {
        ConnackMessage {
            msg_type: TypeKind::CONNACK,
            session_present,
            return_code: return_code.as_byte(),
            bytes: v3_packet::connack(session_present, return_code),
        }
    }
}

/// A single-topic SUBSCRIBE packet.
#[derive(Debug, Clone)]
pub struct SubscribeMessage {
    pub msg_type: TypeKind,
    pub message_id: u16,
    pub topic: String,
    pub qos: MqttQos,
    pub bytes: Vec<u8>,
}

/// The mathematical shape of a single-topic SUBSCRIBE.
pub ghost struct SubscribeModel {
    pub message_id: u16,
    pub topic: Seq<char>,
    pub qos: MqttQos,
}

impl View for SubscribeMessage {
    type V = SubscribeModel;

    open spec fn view(&self) -> SubscribeModel {
        SubscribeModel { message_id: self.message_id, topic: self.topic@, qos: self.qos }
    }
}

/// What a SUBSCRIBE must hold to stand on the wire.
pub open spec fn subscribe_wf(m: SubscribeModel) -> bool {
    encode_utf8(m.topic).len() <= 65535
}

impl MqttMessage for SubscribeMessage {
    fn get_message_type(&self) -> TypeKind {
        self.msg_type
    }
}

impl MqttBytesMessage for SubscribeMessage {
    fn as_bytes(&self) -> &[u8] {
        self.bytes.as_slice()
    }
}

impl SubscribeMessage {
    pub fn new(message_id: u16, topic: String, qos: MqttQos) -> (r: Self)
        requires
            encode_utf8(topic@).len() <= 65535,
        ensures
            r.msg_type == TypeKind::SUBSCRIBE,
            r@ == (SubscribeModel { message_id, topic: topic@, qos }),
            r.bytes@ == v3_packet::spec_subscribe_bytes(r@),
    {
        let mut msg = SubscribeMessage {
            msg_type: TypeKind::SUBSCRIBE,
            message_id,
            topic,
            qos,
            bytes: Vec::new(),
        };
        msg.bytes = v3_packet::subscribe(&msg);
        msg
    }
}

/// A SUBACK packet.
#[derive(Debug, Clone)]
pub struct SubackMessage {
    pub msg_type: TypeKind,
    pub message_id: u16,
    pub codes: Vec<u8>,
    pub bytes: Vec<u8>,
}

/// The mathematical shape of a SUBACK.
pub ghost struct SubackModel {
    pub message_id: u16,
    pub codes: Seq<u8>,
}

impl View for SubackMessage {
    type V = SubackModel;

    open spec fn view(&self) -> SubackModel {
        SubackModel { message_id: self.message_id, codes: self.codes@ }
    }
}

impl MqttMessage for SubackMessage {
    fn get_message_type(&self) -> TypeKind {
        self.msg_type
    }
}

impl MqttBytesMessage for SubackMessage {
    fn as_bytes(&self) -> &[u8] {
        self.bytes.as_slice()
    }
}

impl SubackMessage {
    /// The grant for one requested QoS: the QoS itself when it is one the
    /// broker grants, the failure code otherwise.
    pub fn new(message_id: u16, qos: MqttQos) -> (r: Self)
        ensures
            r.msg_type == TypeKind::SUBACK,
            r.message_id == message_id,
            r.codes@ == seq![spec_qos_num(qos)],
            r.bytes@ == v3_packet::spec_suback_bytes(r@),
    {
        let mut codes: Vec<u8> = Vec::new();
        codes.push(qos.as_byte());
        let mut msg = SubackMessage { msg_type: TypeKind::SUBACK, message_id, codes, bytes: Vec::new() };
        msg.bytes = v3_packet::suback(&msg);
        msg
    }

    /// The SUBACK that grants exactly what the subscription asked.
    pub fn from_subscribe(smsg: &SubscribeMessage) -> (r: Self)
        ensures
            r.msg_type == TypeKind::SUBACK,
            r.message_id == smsg.message_id,
            r.codes@ == seq![spec_qos_num(smsg.qos)],
            r.bytes@ == v3_packet::spec_suback_bytes(r@),
    {
        SubackMessage::new(smsg.message_id, smsg.qos)
    }
}

/// A single-topic UNSUBSCRIBE packet.
#[derive(Debug, Clone)]
pub struct UnsubscribeMessage {
    pub msg_type: TypeKind,
    pub message_id: u16,
    pub topic: String,
    pub bytes: Vec<u8>,
}

/// The mathematical shape of a single-topic UNSUBSCRIBE.
pub ghost struct UnsubscribeModel {
    pub message_id: u16,
    pub topic: Seq<char>,
}

impl View for UnsubscribeMessage {
    type V = UnsubscribeModel;

    open spec fn view(&self) -> UnsubscribeModel {
        UnsubscribeModel { message_id: self.message_id, topic: self.topic@ }
    }
}

/// What an UNSUBSCRIBE must hold to stand on the wire.
pub open spec fn unsubscribe_wf(m: UnsubscribeModel) -> bool {
    encode_utf8(m.topic).len() <= 65535
}

impl MqttMessage for UnsubscribeMessage {
    fn get_message_type(&self) -> TypeKind {
        self.msg_type
    }
}

impl MqttBytesMessage for UnsubscribeMessage {
    fn as_bytes(&self) -> &[u8] {
        self.bytes.as_slice()
    }
}

impl UnsubscribeMessage {
    pub fn new(message_id: u16, topic: String) -> (r: Self)
        requires
            encode_utf8(topic@).len() <= 65535,
        ensures
            r.msg_type == TypeKind::UNSUBSCRIBE,
            r@ == (UnsubscribeModel { message_id, topic: topic@ }),
            r.bytes@ == v3_packet::spec_unsubscribe_bytes(r@),
    {
        let mut msg = UnsubscribeMessage {
            msg_type: TypeKind::UNSUBSCRIBE,
            message_id,
            topic,
            bytes: Vec::new(),
        };
        msg.bytes = v3_packet::unsubscribe(&msg);
        msg
    }
}

/// An UNSUBACK packet.
#[derive(Debug, Clone)]
pub struct UnsubackMessage {
    pub msg_type: TypeKind,
    pub message_id: u16,
    pub bytes: Vec<u8>,
}

impl MqttMessage for UnsubackMessage {
    fn get_message_type(&self) -> TypeKind {
        self.msg_type
    }
}

impl MqttBytesMessage for UnsubackMessage {
    fn as_bytes(&self) -> &[u8] {
        self.bytes.as_slice()
    }
}

impl UnsubackMessage {
    pub fn new(message_id: u16) -> (r: Self)
        ensures
            r.msg_type == TypeKind::UNSUBACK,
            r.message_id == message_id,
            r.bytes@ == v3_packet::spec_not_payload_bytes(message_id, TypeKind::UNSUBACK),
    {
        let mut msg = UnsubackMessage { msg_type: TypeKind::UNSUBACK, message_id, bytes: Vec::new() };
        msg.bytes = v3_packet::not_payload(msg.message_id, TypeKind::UNSUBACK);
        msg
    }
}

/// A PUBLISH packet.
#[derive(Debug, Clone)]
pub struct PublishMessage {
    pub msg_type: TypeKind,
    pub message_id: u16,
    pub topic: String,
    pub dup: MqttDup,
    pub qos: MqttQos,
    pub retain: MqttRetain,
    pub msg_body: String,
    pub bytes: Vec<u8>,
}

/// The mathematical shape of a PUBLISH.
pub ghost struct PublishModel {
    pub message_id: u16,
    pub topic: Seq<char>,
    pub dup: MqttDup,
    pub qos: MqttQos,
    pub retain: MqttRetain,
    pub msg_body: Seq<char>,
}

impl View for PublishMessage {
    type V = PublishModel;

    open spec fn view(&self) -> PublishModel {
        PublishModel {
            message_id: self.message_id,
            topic: self.topic@,
            dup: self.dup,
            qos: self.qos,
            retain: self.retain,
            msg_body: self.msg_body@,
        }
    }
}

/// What a PUBLISH must hold to stand on the wire: the topic fits behind its
/// length prefix, and the QoS is one a PUBLISH can carry.
pub open spec fn publish_wf(m: PublishModel) -> bool {
    &&& encode_utf8(m.topic).len() <= 65535
    &&& m.qos != MqttQos::Failure
}

impl MqttMessage for PublishMessage {
    fn get_message_type(&self) -> TypeKind {
        self.msg_type
    }
}

impl MqttBytesMessage for PublishMessage {
    fn as_bytes(&self) -> &[u8] {
        self.bytes.as_slice()
    }
}

impl PublishMessage {
    pub fn new(
        qos: MqttQos,
        dup: MqttDup,
        retain: MqttRetain,
        topic: String,
        message_id: u16,
        message_body: String,
    ) -> (r: PublishMessage)
        requires
            encode_utf8(topic@).len() <= 65535,
            qos != MqttQos::Failure,
        ensures
            r.msg_type == TypeKind::PUBLISH,
            r@ == (PublishModel {
                message_id,
                topic: topic@,
                dup,
                qos,
                retain,
                msg_body: message_body@,
            }),
            r.bytes@ == v3_packet::spec_publish_bytes(r@),
    {
        let mut msg = PublishMessage {
            msg_type: TypeKind::PUBLISH,
            message_id,
            topic,
            dup,
            qos,
            retain,
            msg_body: message_body,
            bytes: Vec::new(),
        };
        msg.bytes = v3_packet::publish(&msg);
        msg
    }

    /// A server-originated publish: at-least-once, not duplicate, not
    /// retained.
    pub fn simple_new_msg(topic: String, message_id: u16, message_body: String) -> (r:
        PublishMessage)
        requires
            encode_utf8(topic@).len() <= 65535,
        ensures
            r.msg_type == TypeKind::PUBLISH,
            r@ == (PublishModel {
                message_id,
                topic: topic@,
                dup: MqttDup::Disable,
                qos: MqttQos::Qos1,
                retain: MqttRetain::Disable,
                msg_body: message_body@,
            }),
            r.bytes@ == v3_packet::spec_publish_bytes(r@),
    {
        PublishMessage::new(
            MqttQos::Qos1,
            MqttDup::Disable,
            MqttRetain::Disable,
            topic,
            message_id,
            message_body,
        )
    }
}

/// A PUBACK packet.
#[derive(Debug, Clone)]
pub struct PubackMessage {
    pub msg_type: TypeKind,
    pub message_id: u16,
    pub bytes: Vec<u8>,
}

impl MqttMessage for PubackMessage {
    fn get_message_type(&self) -> TypeKind {
        self.msg_type
    }
}

impl MqttBytesMessage for PubackMessage {
    fn as_bytes(&self) -> &[u8] {
        self.bytes.as_slice()
    }
}

impl PubackMessage {
    pub fn new(message_id: u16) -> (r: Self)
        ensures
            r.msg_type == TypeKind::PUBACK,
            r.message_id == message_id,
            r.bytes@ == v3_packet::spec_not_payload_bytes(message_id, TypeKind::PUBACK),
    {
        let mut msg = PubackMessage { msg_type: TypeKind::PUBACK, message_id, bytes: Vec::new() };
        msg.bytes = v3_packet::not_payload(msg.message_id, TypeKind::PUBACK);
        msg
    }
}

/// A PUBREC packet.
#[derive(Debug, Clone)]
pub struct PubrecMessage {
    pub msg_type: TypeKind,
    pub message_id: u16,
    pub bytes: Vec<u8>,
}

impl MqttMessage for PubrecMessage {
    fn get_message_type(&self) -> TypeKind {
        self.msg_type
    }
}

impl MqttBytesMessage for PubrecMessage {
    fn as_bytes(&self) -> &[u8] {
        self.bytes.as_slice()
    }
}

impl PubrecMessage {
    pub fn new(message_id: u16) -> (r: Self)
        ensures
            r.msg_type == TypeKind::PUBREC,
            r.message_id == message_id,
            r.bytes@ == v3_packet::spec_not_payload_bytes(message_id, TypeKind::PUBREC),
    {
        let mut msg = PubrecMessage { msg_type: TypeKind::PUBREC, message_id, bytes: Vec::new() };
        msg.bytes = v3_packet::not_payload(msg.message_id, TypeKind::PUBREC);
        msg
    }
}

/// A PUBREL packet.
#[derive(Debug, Clone)]
pub struct PubrelMessage {
    pub msg_type: TypeKind,
    pub message_id: u16,
    pub bytes: Vec<u8>,
}

impl MqttMessage for PubrelMessage {
    fn get_message_type(&self) -> TypeKind {
        self.msg_type
    }
}

impl MqttBytesMessage for PubrelMessage {
    fn as_bytes(&self) -> &[u8] {
        self.bytes.as_slice()
    }
}

impl PubrelMessage {
    pub fn new(message_id: u16) -> (r: Self)
        ensures
            r.msg_type == TypeKind::PUBREL,
            r.message_id == message_id,
            r.bytes@ == v3_packet::spec_not_payload_bytes(message_id, TypeKind::PUBREL),
    {
        let mut msg = PubrelMessage { msg_type: TypeKind::PUBREL, message_id, bytes: Vec::new() };
        msg.bytes = v3_packet::not_payload(msg.message_id, TypeKind::PUBREL);
        msg
    }
}

/// A PUBCOMP packet.
#[derive(Debug, Clone)]
pub struct PubcompMessage {
    pub msg_type: TypeKind,
    pub message_id: u16,
    pub bytes: Vec<u8>,
}

impl MqttMessage for PubcompMessage {
    fn get_message_type(&self) -> TypeKind {
        self.msg_type
    }
}

impl MqttBytesMessage for PubcompMessage {
    fn as_bytes(&self) -> &[u8] {
        self.bytes.as_slice()
    }
}

impl PubcompMessage {
    pub fn new(message_id: u16) -> (r: Self)
        ensures
            r.msg_type == TypeKind::PUBCOMP,
            r.message_id == message_id,
            r.bytes@ == v3_packet::spec_not_payload_bytes(message_id, TypeKind::PUBCOMP),
    {
        let mut msg = PubcompMessage { msg_type: TypeKind::PUBCOMP, message_id, bytes: Vec::new() };
        msg.bytes = v3_packet::not_payload(msg.message_id, TypeKind::PUBCOMP);
        msg
    }
}

/// A v3 DISCONNECT packet: a bare fixed header.
#[derive(Debug, Clone)]
pub struct DisconnectMessage {
    pub msg_type: TypeKind,
    pub bytes: Vec<u8>,
}

impl MqttMessage for DisconnectMessage {
    fn get_message_type(&self) -> TypeKind {
        self.msg_type
    }
}

impl MqttBytesMessage for DisconnectMessage {
    fn as_bytes(&self) -> &[u8] {
        self.bytes.as_slice()
    }
}

impl Default for DisconnectMessage {
    fn default() -> (r: Self)
        ensures
            r.msg_type == TypeKind::DISCONNECT,
            r.bytes@ == spec_header_bytes(TypeKind::DISCONNECT, 0),
    {
        DisconnectMessage {
            msg_type: TypeKind::DISCONNECT,
            bytes: pack_header(TypeKind::DISCONNECT, 0),
        }
    }
}

} // verus!
