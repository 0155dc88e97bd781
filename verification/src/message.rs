use vstd::prelude::*;
use crate::hex::{PropertyItem, PropertyItemModel};
use crate::v3::MqttMessageV3;
use crate::v5::MqttMessageV5;
use crate::pack_tool::{pack_header, spec_header_bytes};
use crate::protocol::{MqttDup, MqttQos, MqttRetain, MqttProtocolLevel, spec_level_of_num};
use crate::types::{TypeKind, spec_kind_of_num};
use crate::un_pack_tool::{get_type, get_protocol_name_and_version, spec_remaining_data};
use vstd::utf8::{encode_utf8, valid_utf8};

verus! {

/// The view of an optional string: the characters, if the string is there.
pub open spec fn opt_view(o: Option<String>) -> Option<Seq<char>> {
    match o {
        Some(s) => Some(s@),
        None => None,
    }
}

/// The view of an optional property list.
pub open spec fn props_view(o: Option<Vec<PropertyItem>>) -> Option<Seq<PropertyItemModel>> {
    match o {
        Some(v) => Some(crate::hex::items_view(v@)),
        None => None,
    }
}

/// What a parsed or built packet answers about itself.
pub trait MqttMessage {
    fn get_message_type(&self) -> TypeKind;
}

/// A packet that carries its own serialized bytes.
pub trait MqttBytesMessage: MqttMessage {
    fn as_bytes(&self) -> &[u8];
}

/// A raw inbound packet: the fixed-header facts and the bytes as received.
#[derive(Debug, Clone)]
pub struct BaseMessage {
    pub msg_type: TypeKind,
    pub dup: Option<MqttDup>,
    pub qos: Option<MqttQos>,
    pub retain: Option<MqttRetain>,
    pub bytes: Vec<u8>,
}

impl MqttMessage for BaseMessage {
    fn get_message_type(&self) -> TypeKind {
        self.msg_type
    }
}

impl BaseMessage {
    /// Reads the packet kind, and on a PUBLISH its header flags, off the
    /// first byte; the bytes are kept whole for the packet codecs.
    pub fn from_bytes(data: Vec<u8>) -> (r: Option<BaseMessage>)
        ensures
            match r {
                Some(m) => {
                    &&& data@.len() >= 1
                    &&& Some(m.msg_type) == spec_kind_of_num(data@[0] / 16)
                    &&& m.bytes@ == data@
                    &&& if m.msg_type == TypeKind::PUBLISH {
                        &&& m.retain == Some(
                            if data@[0] % 2 == 1 {
                                MqttRetain::Enable
                            } else {
                                MqttRetain::Disable
                            },
                        )
                        &&& m.qos == crate::protocol::spec_qos_of_num((data@[0] / 2) % 4)
                        &&& m.dup == Some(
                            if (data@[0] / 8) % 2 == 1 {
                                MqttDup::Enable
                            } else {
                                MqttDup::Disable
                            },
                        )
                    } else {
                        m.retain is None && m.qos is None && m.dup is None
                    }
                },
                None => data@.len() == 0 || spec_kind_of_num(data@[0] / 16) is None,
            },
    {
        if data.len() == 0 {
            return None;
        }
        let (kind, retain, qos, dup, _rest) = get_type(data.as_slice());
        match kind {
            Some(k) => Some(BaseMessage { msg_type: k, dup, qos, retain, bytes: data }),
            None => None,
        }
    }
}

/// The protocol name and level a CONNECT opens with.
#[derive(Debug)]
pub struct BaseConnect {
    pub msg_type: TypeKind,
    pub protocol_name: String,
    pub protocol_level: MqttProtocolLevel,
}

impl BaseConnect {
    pub fn get_message_type(&self) -> (r: TypeKind)
        ensures
            r == self.msg_type,
    {
        self.msg_type
    }

    pub fn get_protocol_level(&self) -> (r: MqttProtocolLevel)
        ensures
            r == self.protocol_level,
    {
        self.protocol_level
    }

    pub fn get_protocol_name(&self) -> (r: String)
        ensures
            r@ == self.protocol_name@,
    {
        self.protocol_name.clone()
    }

    /// Reads the protocol name and level out of a raw CONNECT packet: the
    /// body behind the remaining length opens with the name, the level byte
    /// right behind it.
    pub fn from_base(data: &BaseMessage) -> (r: Option<BaseConnect>)
        ensures
            match spec_remaining_data(data.bytes@) {
                Some(body) => match crate::un_pack_tool::spec_parse_string(body) {
                    Some((name, c)) => if c < body.len() && spec_level_of_num(body[c]) is Some {
                        r matches Some(cn) && cn.msg_type == data.msg_type && cn.protocol_name@
                            == name && Some(cn.protocol_level) == spec_level_of_num(body[c])
                    } else {
                        r is None
                    },
                    None => r is None,
                },
                None => r is None,
            },
    {
        if data.bytes.len() < 1 {
            return None;
        }
        let body = match crate::un_pack_tool::try_get_remaining_data(data.bytes.as_slice()) {
            Some(d) => d,
            None => {
                return None;
            },
        };
        let (protocol_name, protocol_level) = get_protocol_name_and_version(body);
        match (protocol_name, protocol_level) {
            (Some(name), Some(level)) => Some(
                BaseConnect {
                    msg_type: data.msg_type,
                    protocol_name: name,
                    protocol_level: level,
                },
            ),
            _ => None,
        }
    }
}

/// The payload a CONNECT carries after its variable header.
#[derive(Debug, Clone)]
pub struct ConnectMessagePayload {
    pub client_id: String,
    pub will_topic: Option<String>,
    pub will_message: Option<String>,
    pub user_name: Option<String>,
    pub password: Option<String>,
    pub properties: Option<Vec<PropertyItem>>,
}

/// The mathematical shape of a CONNECT payload.
pub ghost struct ConnectPayloadModel {
    pub client_id: Seq<char>,
    pub will_topic: Option<Seq<char>>,
    pub will_message: Option<Seq<char>>,
    pub user_name: Option<Seq<char>>,
    pub password: Option<Seq<char>>,
    pub properties: Option<Seq<PropertyItemModel>>,
}

impl View for ConnectMessagePayload {
    type V = ConnectPayloadModel;

    open spec fn view(&self) -> ConnectPayloadModel {
        ConnectPayloadModel {
            client_id: self.client_id@,
            will_topic: opt_view(self.will_topic),
            will_message: opt_view(self.will_message),
            user_name: opt_view(self.user_name),
            password: opt_view(self.password),
            properties: props_view(self.properties),
        }
    }
}

/// A PINGREQ: a bare fixed header.
#[derive(Debug, Clone)]
pub struct PingreqMessage {
    pub msg_type: TypeKind,
    pub bytes: Vec<u8>,
}

impl MqttMessage for PingreqMessage {
    fn get_message_type(&self) -> TypeKind {
        self.msg_type
    }
}

impl MqttBytesMessage for PingreqMessage {
    fn as_bytes(&self) -> &[u8] {
        self.bytes.as_slice()
    }
}

impl Default for PingreqMessage {
    fn default() -> (r: Self)
        ensures
            r.msg_type == TypeKind::PINGREQ,
            r.bytes@ == spec_header_bytes(TypeKind::PINGREQ, 0),
    {
        PingreqMessage { msg_type: TypeKind::PINGREQ, bytes: pack_header(TypeKind::PINGREQ, 0) }
    }
}

/// A PINGRESP: a bare fixed header.
#[derive(Debug, Clone)]
pub struct PingrespMessage {
    pub msg_type: TypeKind,
    pub bytes: Vec<u8>,
}

impl MqttMessage for PingrespMessage {
    fn get_message_type(&self) -> TypeKind {
        self.msg_type
    }
}

impl MqttBytesMessage for PingrespMessage {
    fn as_bytes(&self) -> &[u8] {
        self.bytes.as_slice()
    }
}

impl Default for PingrespMessage {
    fn default() -> (r: Self)
        ensures
            r.msg_type == TypeKind::PINGRESP,
            r.bytes@ == spec_header_bytes(TypeKind::PINGRESP, 0),
    {
        PingrespMessage { msg_type: TypeKind::PINGRESP, bytes: pack_header(TypeKind::PINGRESP, 0) }
    }
}

/// Whether a byte sequence is exactly one whole packet: a first byte, a
/// sound remaining-length field, and exactly that many body bytes.
pub open spec fn spec_is_frame(b: Seq<u8>) -> bool {
    b.len() >= 2 && match crate::un_pack_tool::spec_varint_decode(b.skip(1)) {
        Some((v, c)) => b.len() == 1 + c + v,
        None => false,
    }
}

/// Whether a whole packet sits at the front of a byte sequence.
pub open spec fn spec_has_frame(b: Seq<u8>) -> bool {
    b.len() >= 2 && match crate::un_pack_tool::spec_varint_decode(b.skip(1)) {
        Some((v, c)) => b.len() >= 1 + c + v,
        None => false,
    }
}

/// The frames of a run, joined back into the byte stream they came from.
pub open spec fn spec_concat_frames(fs: Seq<Vec<u8>>) -> Seq<u8>
    decreases fs.len(),
{
    if fs.len() == 0 {
        Seq::empty()
    } else {
        fs[0]@ + spec_concat_frames(fs.skip(1))
    }
}

/// Appending one frame to a run appends its bytes to the joined stream.
proof fn lemma_concat_frames_push(fs: Seq<Vec<u8>>, x: Vec<u8>)
    ensures
        spec_concat_frames(fs.push(x)) == spec_concat_frames(fs) + x@,
    decreases fs.len(),
{
    if fs.len() == 0 {
        assert(fs.push(x)[0] == x);
        assert(fs.push(x).skip(1) =~= Seq::<Vec<u8>>::empty());
        assert(spec_concat_frames(Seq::<Vec<u8>>::empty()) == Seq::<u8>::empty());
        assert(spec_concat_frames(fs.push(x)) == x@ + Seq::<u8>::empty());
        assert(x@ + Seq::<u8>::empty() =~= x@);
        assert(spec_concat_frames(fs) + x@ =~= x@);
    } else {
        assert(fs.push(x)[0] == fs[0]);
        assert(fs.push(x).skip(1) =~= fs.skip(1).push(x));
        lemma_concat_frames_push(fs.skip(1), x);
        assert(spec_concat_frames(fs.push(x)) == fs[0]@ + spec_concat_frames(
            fs.skip(1).push(x),
        ));
        assert(spec_concat_frames(fs) == fs[0]@ + spec_concat_frames(fs.skip(1)));
        assert(fs[0]@ + (spec_concat_frames(fs.skip(1)) + x@) =~= (fs[0]@ + spec_concat_frames(
            fs.skip(1),
        )) + x@);
    }
}

/// Joins one socket read onto the connection's buffer and peels every whole
/// packet off the front, in arrival order; the buffer keeps exactly the
/// unconsumed tail, and no whole packet is left in it. A remaining-length
/// field that can never complete leaves its bytes in the buffer, where the
/// runtime's size bound catches them.
#[verifier::rlimit(100)]
pub fn feed(buf: &mut Vec<u8>, chunk: Vec<u8>) -> (frames: Vec<Vec<u8>>)
    ensures
        spec_concat_frames(frames@) + final(buf)@ == old(buf)@ + chunk@,
        forall|i: int| 0 <= i < frames@.len() ==> spec_is_frame((#[trigger] frames@[i])@),
        !spec_has_frame(final(buf)@),
{
    let mut chunk = chunk;
    buf.append(&mut chunk);
    let ghost total = buf@;
    let mut frames: Vec<Vec<u8>> = Vec::new();
    proof {
        assert(spec_concat_frames(frames@) =~= Seq::<u8>::empty());
        assert(spec_concat_frames(frames@) + buf@ =~= total);
    }
    loop
        invariant_except_break
            spec_concat_frames(frames@) + buf@ == total,
            forall|i: int| 0 <= i < frames@.len() ==> spec_is_frame((#[trigger] frames@[i])@),
        ensures
            spec_concat_frames(frames@) + buf@ == total,
            (forall|i: int| 0 <= i < frames@.len() ==> spec_is_frame((#[trigger] frames@[i])@)),
            !spec_has_frame(buf@),
        decreases buf@.len(),
    {
        if buf.len() < 2 {
            break;
        }
        proof {
            crate::un_pack_tool::lemma_varint_decode_max(buf@.skip(1));
        }
        match crate::un_pack_tool::get_remaining_length(buf.as_slice()) {
            Ok((v, c1)) => {
                if buf.len() - c1 >= v {
                    let flen = c1 + v;
                    let frame = vstd::slice::slice_to_vec(
                        vstd::slice::slice_subrange(buf.as_slice(), 0, flen),
                    );
                    let rest = vstd::slice::slice_to_vec(
                        vstd::slice::slice_subrange(buf.as_slice(), flen, buf.len()),
                    );
                    proof {
                        let (fv, fc) = crate::un_pack_tool::spec_varint_decode(
                            buf@.skip(1),
                        ).unwrap();
                        crate::un_pack_tool::lemma_varint_decode_rec_prefix(
                            buf@.skip(1),
                            4,
                            1,
                            0,
                            flen - 1,
                        );
                        assert(frame@.skip(1) =~= buf@.skip(1).take(flen - 1));
                        assert(spec_is_frame(frame@));
                        lemma_concat_frames_push(frames@, frame);
                        assert(frame@ + rest@ =~= buf@);
                        assert((spec_concat_frames(frames@) + frame@) + rest@
                            =~= spec_concat_frames(frames@) + (frame@ + rest@));
                    }
                    *buf = rest;
                    frames.push(frame);
                } else {
                    break;
                }
            },
            Err(_) => {
                break;
            },
        }
    }
    frames
}

/// What one step of a connection's loop hands back: a parsed request of
/// either version, serialized response bytes, or the bytes to write before
/// the connection closes.
#[derive(Debug)]
pub enum MqttMessageKind {
    Response(Vec<u8>),
    RequestV3(MqttMessageV3),
    RequestsV3(Vec<MqttMessageV3>),
    RequestV5(MqttMessageV5),
    RequestsV5(Vec<MqttMessageV5>),
    Exit(Vec<u8>),
}

/// Decodes a v3 SUBSCRIBE into the request list the dispatcher walks.
#[verifier::loop_isolation(false)]
fn v3_subscribe_requests(base_msg: BaseMessage) -> (r: Option<MqttMessageKind>)
    requires
        base_msg.msg_type == TypeKind::SUBSCRIBE,
    ensures
        match crate::v3_unpacket::spec_parse_subscribe(base_msg.bytes@) {
            Some((id, es)) => if forall|i: int| 0 <= i < es.len() ==> (#[trigger] es[i]).1 <= 2 {
                r matches Some(MqttMessageKind::RequestsV3(v)) && v@.len() == es.len() && (forall|
                    i: int,
                |
                    0 <= i < es.len() ==> ((#[trigger] v@[i]) matches MqttMessageV3::Subscribe(sm)
                        && sm.message_id == id && sm.topic@ == es[i].0 && Some(sm.qos)
                        == crate::protocol::spec_qos_of_num(es[i].1)))
            } else {
                r is None
            },
            None => r is None,
        },
{
    match crate::v3_unpacket::subscribe(base_msg) {
        Ok(mut subs) => {
            let ghost v0 = subs@;
            let mut res: Vec<MqttMessageV3> = Vec::new();
            while subs.len() > 0
                invariant
                    res@.len() + subs@.len() == v0.len(),
                    subs@ == v0.skip(res@.len() as int),
                    forall|j: int|
                        0 <= j < res@.len() ==> ((#[trigger] res@[j]) matches
                            MqttMessageV3::Subscribe(sm) && sm == v0[j]),
                decreases subs@.len(),
            {
                let ghost done = res@.len() as int;
                let m = subs.remove(0);
                proof {
                    assert(subs@ =~= v0.skip(done + 1));
                    assert(m == v0[done]);
                }
                res.push(MqttMessageV3::Subscribe(m));
            }
            Some(MqttMessageKind::RequestsV3(res))
        },
        Err(_) => None,
    }
}

/// Decodes a v3 UNSUBSCRIBE into the request list the dispatcher walks.
#[verifier::loop_isolation(false)]
fn v3_unsubscribe_requests(base_msg: BaseMessage) -> (r: Option<MqttMessageKind>)
    requires
        base_msg.msg_type == TypeKind::UNSUBSCRIBE,
    ensures
        match crate::v3_unpacket::spec_parse_unsubscribe(base_msg.bytes@) {
            Some((id, es)) => r matches Some(MqttMessageKind::RequestsV3(v)) && v@.len()
                == es.len() && (forall|i: int|
                0 <= i < es.len() ==> ((#[trigger] v@[i]) matches MqttMessageV3::Unsubscribe(um)
                    && um.message_id == id && um.topic@ == es[i])),
            None => r is None,
        },
{
    match crate::v3_unpacket::unsubscribe(base_msg) {
        Ok(mut subs) => {
            let ghost v0 = subs@;
            let mut res: Vec<MqttMessageV3> = Vec::new();
            while subs.len() > 0
                invariant
                    res@.len() + subs@.len() == v0.len(),
                    subs@ == v0.skip(res@.len() as int),
                    forall|j: int|
                        0 <= j < res@.len() ==> ((#[trigger] res@[j]) matches
                            MqttMessageV3::Unsubscribe(um) && um == v0[j]),
                decreases subs@.len(),
            {
                let ghost done = res@.len() as int;
                let m = subs.remove(0);
                proof {
                    assert(subs@ =~= v0.skip(done + 1));
                    assert(m == v0[done]);
                }
                res.push(MqttMessageV3::Unsubscribe(m));
            }
            Some(MqttMessageKind::RequestsV3(res))
        },
        Err(_) => None,
    }
}

impl MqttMessageKind {
    pub fn is_v3(&self) -> (r: bool)
        ensures
            r == (self matches MqttMessageKind::RequestV3(_)),
    {
        matches!(self, MqttMessageKind::RequestV3(_))
    }

    pub fn is_v3s(&self) -> (r: bool)
        ensures
            r == (self matches MqttMessageKind::RequestsV3(_)),
    {
        matches!(self, MqttMessageKind::RequestsV3(_))
    }

    pub fn is_v5(&self) -> (r: bool)
        ensures
            r == (self matches MqttMessageKind::RequestV5(_)),
    {
        matches!(self, MqttMessageKind::RequestV5(_))
    }

    pub fn is_v5s(&self) -> (r: bool)
        ensures
            r == (self matches MqttMessageKind::RequestsV5(_)),
    {
        matches!(self, MqttMessageKind::RequestsV5(_))
    }

    pub fn get_v3(&self) -> (r: Option<&MqttMessageV3>)
        ensures
            match *self {
                MqttMessageKind::RequestV3(ref m) => r matches Some(x) && x == m,
                _ => r is None,
            },
    {
        match self {
            MqttMessageKind::RequestV3(kind) => Some(kind),
            _ => None,
        }
    }

    pub fn get_v5(&self) -> (r: Option<&MqttMessageV5>)
        ensures
            match *self {
                MqttMessageKind::RequestV5(ref m) => r matches Some(x) && x == m,
                _ => r is None,
            },
    {
        match self {
            MqttMessageKind::RequestV5(kind) => Some(kind),
            _ => None,
        }
    }

    pub fn get_v3s(&self) -> (r: Option<&Vec<MqttMessageV3>>)
        ensures
            match *self {
                MqttMessageKind::RequestsV3(ref m) => r matches Some(x) && x == m,
                _ => r is None,
            },
    {
        match self {
            MqttMessageKind::RequestsV3(kind) => Some(kind),
            _ => None,
        }
    }

    pub fn get_v5s(&self) -> (r: Option<&Vec<MqttMessageV5>>)
        ensures
            match *self {
                MqttMessageKind::RequestsV5(ref m) => r matches Some(x) && x == m,
                _ => r is None,
            },
    {
        match self {
            MqttMessageKind::RequestsV5(kind) => Some(kind),
            _ => None,
        }
    }

    /// Parses a raw packet as MQTT 3.1.1; a kind the broker does not take,
    /// or a body the codec refuses, yields nothing.
    #[verifier::loop_isolation(false)]
    #[verifier::rlimit(100)]
    #[verifier::spinoff_prover]
    pub fn v3(base_msg: BaseMessage) -> (r: Option<MqttMessageKind>)
        ensures
            base_msg.msg_type == TypeKind::CONNECT ==> match crate::v3_unpacket::spec_parse_connect(
                base_msg.bytes@,
            ) {
                Some(model) => r matches Some(MqttMessageKind::RequestV3(MqttMessageV3::Connect(m)))
                    && m@ == model && m.bytes@ == base_msg.bytes@,
                None => r is None,
            },
            base_msg.msg_type == TypeKind::PUBLISH ==> match crate::v3_unpacket::spec_parse_publish(
                base_msg.bytes@,
                base_msg.qos,
            ) {
                Some((topic, id, body)) => r matches Some(
                    MqttMessageKind::RequestV3(MqttMessageV3::Publish(m)),
                ) && m.topic@ == topic && m.message_id == id && m.msg_body@ == body && m.qos == (
                match base_msg.qos {
                    Some(q) => q,
                    None => crate::protocol::MqttQos::Qos0,
                }) && m.bytes@ == base_msg.bytes@,
                None => r is None,
            },
            base_msg.msg_type == TypeKind::PINGREQ ==> (r matches Some(
                MqttMessageKind::RequestV3(MqttMessageV3::Pingresp(m)),
            ) && m.bytes@ == crate::pack_tool::spec_header_bytes(TypeKind::PINGRESP, 0)),
            base_msg.msg_type == TypeKind::DISCONNECT ==> (r matches Some(
                MqttMessageKind::RequestV3(MqttMessageV3::Disconnect(m)),
            ) && m.bytes@ == crate::pack_tool::spec_header_bytes(TypeKind::DISCONNECT, 0)),
            base_msg.msg_type == TypeKind::SUBSCRIBE
                ==> match crate::v3_unpacket::spec_parse_subscribe(base_msg.bytes@) {
                Some((id, es)) => if forall|i: int| 0 <= i < es.len() ==> (#[trigger] es[i]).1
                    <= 2 {
                    r matches Some(MqttMessageKind::RequestsV3(v)) && v@.len() == es.len() && (
                    forall|i: int|
                        0 <= i < es.len() ==> ((#[trigger] v@[i]) matches
                            MqttMessageV3::Subscribe(sm) && sm.message_id == id && sm.topic@
                            == es[i].0 && Some(sm.qos) == crate::protocol::spec_qos_of_num(
                            es[i].1,
                        )))
                } else {
                    r is None
                },
                None => r is None,
            },
            base_msg.msg_type == TypeKind::UNSUBSCRIBE
                ==> match crate::v3_unpacket::spec_parse_unsubscribe(base_msg.bytes@) {
                Some((id, es)) => r matches Some(MqttMessageKind::RequestsV3(v)) && v@.len()
                    == es.len() && (forall|i: int|
                    0 <= i < es.len() ==> ((#[trigger] v@[i]) matches MqttMessageV3::Unsubscribe(
                        um,
                    ) && um.message_id == id && um.topic@ == es[i])),
                None => r is None,
            },
            base_msg.msg_type == TypeKind::CONNACK
                ==> match crate::un_pack_tool::spec_remaining_data(base_msg.bytes@) {
                Some(body) => if body.len() >= 2 {
                    r matches Some(MqttMessageKind::RequestV3(MqttMessageV3::Connack(m)))
                        && m.return_code == body[1] && m.bytes@ == base_msg.bytes@
                } else {
                    r is None
                },
                None => r is None,
            },
            base_msg.msg_type == TypeKind::PUBACK
                ==> match crate::un_pack_tool::spec_remaining_data(base_msg.bytes@) {
                Some(body) => if body.len() >= 2 {
                    r matches Some(MqttMessageKind::RequestV3(MqttMessageV3::Puback(m)))
                        && m.message_id == crate::un_pack_tool::spec_be16(body) && m.bytes@
                        == base_msg.bytes@
                } else {
                    r is None
                },
                None => r is None,
            },
            base_msg.msg_type == TypeKind::PUBREC
                ==> match crate::un_pack_tool::spec_remaining_data(base_msg.bytes@) {
                Some(body) => if body.len() >= 2 {
                    r matches Some(MqttMessageKind::RequestV3(MqttMessageV3::Pubrec(m)))
                        && m.message_id == crate::un_pack_tool::spec_be16(body) && m.bytes@
                        == base_msg.bytes@
                } else {
                    r is None
                },
                None => r is None,
            },
            base_msg.msg_type == TypeKind::PUBREL
                ==> match crate::un_pack_tool::spec_remaining_data(base_msg.bytes@) {
                Some(body) => if body.len() >= 2 {
                    r matches Some(MqttMessageKind::RequestV3(MqttMessageV3::Pubrel(m)))
                        && m.message_id == crate::un_pack_tool::spec_be16(body) && m.bytes@
                        == base_msg.bytes@
                } else {
                    r is None
                },
                None => r is None,
            },
            base_msg.msg_type == TypeKind::PUBCOMP
                ==> match crate::un_pack_tool::spec_remaining_data(base_msg.bytes@) {
                Some(body) => if body.len() >= 2 {
                    r matches Some(MqttMessageKind::RequestV3(MqttMessageV3::Pubcomp(m)))
                        && m.message_id == crate::un_pack_tool::spec_be16(body) && m.bytes@
                        == base_msg.bytes@
                } else {
                    r is None
                },
                None => r is None,
            },
            base_msg.msg_type == TypeKind::UNSUBACK
                ==> match crate::un_pack_tool::spec_remaining_data(base_msg.bytes@) {
                Some(body) => if body.len() >= 2 {
                    r matches Some(MqttMessageKind::RequestV3(MqttMessageV3::Unsuback(m)))
                        && m.message_id == crate::un_pack_tool::spec_be16(body) && m.bytes@
                        == base_msg.bytes@
                } else {
                    r is None
                },
                None => r is None,
            },
            (base_msg.msg_type == TypeKind::SUBACK || base_msg.msg_type == TypeKind::PINGRESP
                || base_msg.msg_type == TypeKind::AUTH) ==> r is None,
            (r matches Some(MqttMessageKind::RequestV3(MqttMessageV3::Connect(_))))
                ==> base_msg.msg_type == TypeKind::CONNECT,
            match r {
                Some(MqttMessageKind::RequestV3(MqttMessageV3::Pingresp(m))) => m.bytes@
                    == crate::pack_tool::spec_header_bytes(TypeKind::PINGRESP, 0),
                Some(MqttMessageKind::RequestsV3(v)) => forall|i: int|
                    0 <= i < v@.len() ==> ((#[trigger] v@[i]) matches MqttMessageV3::Subscribe(_)
                        || v@[i] matches MqttMessageV3::Unsubscribe(_)),
                _ => true,
            },
    {
        match base_msg.msg_type {
            TypeKind::CONNECT => match crate::v3_unpacket::connect(base_msg) {
                Ok(m) => Some(MqttMessageKind::RequestV3(MqttMessageV3::Connect(m))),
                Err(_) => None,
            },
            TypeKind::CONNACK => match crate::v3_unpacket::connack(base_msg) {
                Ok(m) => Some(MqttMessageKind::RequestV3(MqttMessageV3::Connack(m))),
                Err(_) => None,
            },
            TypeKind::PUBLISH => match crate::v3_unpacket::publish(base_msg) {
                Ok(m) => Some(MqttMessageKind::RequestV3(MqttMessageV3::Publish(m))),
                Err(_) => None,
            },
            TypeKind::PUBACK => match crate::v3_unpacket::puback(base_msg) {
                Ok(m) => Some(MqttMessageKind::RequestV3(MqttMessageV3::Puback(m))),
                Err(_) => None,
            },
            TypeKind::PUBREC => match crate::v3_unpacket::pubrec(base_msg) {
                Ok(m) => Some(MqttMessageKind::RequestV3(MqttMessageV3::Pubrec(m))),
                Err(_) => None,
            },
            TypeKind::PUBREL => match crate::v3_unpacket::pubrel(base_msg) {
                Ok(m) => Some(MqttMessageKind::RequestV3(MqttMessageV3::Pubrel(m))),
                Err(_) => None,
            },
            TypeKind::PUBCOMP => match crate::v3_unpacket::pubcomp(base_msg) {
                Ok(m) => Some(MqttMessageKind::RequestV3(MqttMessageV3::Pubcomp(m))),
                Err(_) => None,
            },
            TypeKind::SUBSCRIBE => v3_subscribe_requests(base_msg),
            TypeKind::UNSUBSCRIBE => v3_unsubscribe_requests(base_msg),
            TypeKind::UNSUBACK => match crate::v3_unpacket::unsuback(base_msg) {
                Ok(m) => Some(MqttMessageKind::RequestV3(MqttMessageV3::Unsuback(m))),
                Err(_) => None,
            },
            TypeKind::PINGREQ => Some(
                MqttMessageKind::RequestV3(MqttMessageV3::Pingresp(PingrespMessage::default())),
            ),
            TypeKind::DISCONNECT => Some(
                MqttMessageKind::RequestV3(
                    MqttMessageV3::Disconnect(crate::v3::DisconnectMessage::default()),
                ),
            ),
            _ => None,
        }
    }

    /// Parses a raw packet as MQTT 5.0; a kind the broker does not take, or
    /// a body the codec refuses, yields nothing.
    #[verifier::loop_isolation(false)]
    #[verifier::rlimit(100)]
    pub fn v5(base_msg: BaseMessage) -> (r: Option<MqttMessageKind>)
        ensures
            base_msg.msg_type == TypeKind::PINGREQ ==> (r matches Some(
                MqttMessageKind::RequestV5(MqttMessageV5::Pingresp(m)),
            ) && m.bytes@ == crate::pack_tool::spec_header_bytes(TypeKind::PINGRESP, 0)),
            (base_msg.msg_type == TypeKind::CONNACK || base_msg.msg_type == TypeKind::SUBACK
                || base_msg.msg_type == TypeKind::UNSUBACK || base_msg.msg_type
                == TypeKind::PINGRESP) ==> r is None,
            base_msg.msg_type == TypeKind::CONNECT
                ==> match crate::v5_unpacket::spec_parse_connect(base_msg.bytes@) {
                Some((model, props)) => r matches Some(
                    MqttMessageKind::RequestV5(MqttMessageV5::Connect(m)),
                ) && {
                    &&& m.protocol_name@ == model.protocol_name
                    &&& m.protocol_level == model.protocol_level
                    &&& m.clean_session == model.clean_session
                    &&& m.will_flag == model.will_flag
                    &&& m.will_qos == model.will_qos
                    &&& m.will_retain == model.will_retain
                    &&& m.keep_alive == model.keep_alive
                    &&& m.payload@ == model.payload
                    &&& (m.properties matches Some(pv) && crate::hex::items_view(pv@) == props)
                    &&& m.bytes@ == base_msg.bytes@
                },
                None => r is None,
            },
            base_msg.msg_type == TypeKind::PUBLISH
                ==> match crate::v5_unpacket::spec_parse_publish(base_msg.bytes@, base_msg.qos) {
                Some((topic, id, ps, body)) => r matches Some(
                    MqttMessageKind::RequestV5(MqttMessageV5::Publish(m)),
                ) && {
                    &&& m.topic@ == topic
                    &&& m.message_id == id
                    &&& m.msg_body@ == body
                    &&& (m.properties matches Some(pv) && crate::hex::items_view(pv@) == ps)
                    &&& m.qos == (match base_msg.qos {
                        Some(q) => q,
                        None => crate::protocol::MqttQos::Qos0,
                    })
                    &&& m.bytes@ == base_msg.bytes@
                },
                None => r is None,
            },
            base_msg.msg_type == TypeKind::PUBACK
                ==> match crate::v5_unpacket::spec_parse_reason_code(base_msg.bytes@) {
                Some((id, code, ps)) => r matches Some(
                    MqttMessageKind::RequestV5(MqttMessageV5::Puback(m)),
                ) && m.message_id == id && m.code == code && (m.properties matches Some(pv)
                    && crate::hex::items_view(pv@) == ps) && m.bytes@ == base_msg.bytes@,
                None => r is None,
            },
            base_msg.msg_type == TypeKind::PUBREC
                ==> match crate::v5_unpacket::spec_parse_reason_code(base_msg.bytes@) {
                Some((id, code, ps)) => r matches Some(
                    MqttMessageKind::RequestV5(MqttMessageV5::Pubrec(m)),
                ) && m.message_id == id && m.code == code && (m.properties matches Some(pv)
                    && crate::hex::items_view(pv@) == ps) && m.bytes@ == base_msg.bytes@,
                None => r is None,
            },
            base_msg.msg_type == TypeKind::PUBREL
                ==> match crate::v5_unpacket::spec_parse_reason_code(base_msg.bytes@) {
                Some((id, code, ps)) => r matches Some(
                    MqttMessageKind::RequestV5(MqttMessageV5::Pubrel(m)),
                ) && m.message_id == id && m.code == code && (m.properties matches Some(pv)
                    && crate::hex::items_view(pv@) == ps) && m.bytes@ == base_msg.bytes@,
                None => r is None,
            },
            base_msg.msg_type == TypeKind::PUBCOMP
                ==> match crate::v5_unpacket::spec_parse_reason_code(base_msg.bytes@) {
                Some((id, code, ps)) => r matches Some(
                    MqttMessageKind::RequestV5(MqttMessageV5::Pubcomp(m)),
                ) && m.message_id == id && m.code == code && (m.properties matches Some(pv)
                    && crate::hex::items_view(pv@) == ps) && m.bytes@ == base_msg.bytes@,
                None => r is None,
            },
            base_msg.msg_type == TypeKind::SUBSCRIBE
                ==> match crate::v5_unpacket::spec_parse_subscribe(base_msg.bytes@) {
                Some((id, ps, es)) => r matches Some(MqttMessageKind::RequestsV5(v)) && v@.len()
                    == es.len() && (forall|i: int|
                    0 <= i < es.len() ==> ((#[trigger] v@[i]) matches MqttMessageV5::Subscribe(sm)
                        && sm.message_id == id && sm.topic@ == es[i].0 && sm.qos
                        == crate::protocol::spec_qos_of_num(es[i].1 % 4) && (sm.properties matches
                    Some(pv) && crate::hex::items_view(pv@) == ps))),
                None => r is None,
            },
            base_msg.msg_type == TypeKind::UNSUBSCRIBE
                ==> match crate::v5_unpacket::spec_parse_unsubscribe(base_msg.bytes@) {
                Some((id, ps, es)) => r matches Some(MqttMessageKind::RequestsV5(v)) && v@.len()
                    == es.len() && (forall|i: int|
                    0 <= i < es.len() ==> ((#[trigger] v@[i]) matches MqttMessageV5::Unsubscribe(
                        um,
                    ) && um.message_id == id && um.topic@ == es[i] && (um.properties matches Some(
                        pv,
                    ) && crate::hex::items_view(pv@) == ps))),
                None => r is None,
            },
            base_msg.msg_type == TypeKind::DISCONNECT ==> (r matches Some(
                MqttMessageKind::RequestV5(MqttMessageV5::Disconnect(m)),
            ) && m.code == crate::reason_code::spec_phrase_num(
                crate::reason_code::ReasonPhrases::Success,
            )),
            base_msg.msg_type == TypeKind::AUTH ==> (r matches Some(
                MqttMessageKind::RequestV5(MqttMessageV5::Auth(m)),
            ) && m.code == crate::reason_code::spec_phrase_num(
                crate::reason_code::ReasonPhrases::Success,
            )),
    {
        match base_msg.msg_type {
            TypeKind::CONNECT => match crate::v5_unpacket::connect(base_msg) {
                Ok(m) => Some(MqttMessageKind::RequestV5(MqttMessageV5::Connect(m))),
                Err(_) => None,
            },
            TypeKind::PUBLISH => match crate::v5_unpacket::publish(base_msg) {
                Ok(m) => Some(MqttMessageKind::RequestV5(MqttMessageV5::Publish(m))),
                Err(_) => None,
            },
            TypeKind::PUBACK => match crate::v5_unpacket::get_reason_code(base_msg) {
                Ok(m) => Some(MqttMessageKind::RequestV5(MqttMessageV5::Puback(m))),
                Err(_) => None,
            },
            TypeKind::PUBREC => match crate::v5_unpacket::get_reason_code(base_msg) {
                Ok(m) => Some(MqttMessageKind::RequestV5(MqttMessageV5::Pubrec(m))),
                Err(_) => None,
            },
            TypeKind::PUBREL => match crate::v5_unpacket::get_reason_code(base_msg) {
                Ok(m) => Some(MqttMessageKind::RequestV5(MqttMessageV5::Pubrel(m))),
                Err(_) => None,
            },
            TypeKind::PUBCOMP => match crate::v5_unpacket::get_reason_code(base_msg) {
                Ok(m) => Some(MqttMessageKind::RequestV5(MqttMessageV5::Pubcomp(m))),
                Err(_) => None,
            },
            TypeKind::SUBSCRIBE => match crate::v5_unpacket::subscribe(base_msg) {
                Ok(mut subs) => {
                    let ghost v0 = subs@;
                    let mut res: Vec<MqttMessageV5> = Vec::new();
                    while subs.len() > 0
                        invariant
                            res@.len() + subs@.len() == v0.len(),
                            subs@ == v0.skip(res@.len() as int),
                            forall|j: int|
                                0 <= j < res@.len() ==> ((#[trigger] res@[j]) matches
                                    MqttMessageV5::Subscribe(sm) && sm == v0[j]),
                        decreases subs@.len(),
                    {
                        let ghost done = res@.len() as int;
                        let m = subs.remove(0);
                        proof {
                            assert(subs@ =~= v0.skip(done + 1));
                            assert(m == v0[done]);
                        }
                        res.push(MqttMessageV5::Subscribe(m));
                    }
                    Some(MqttMessageKind::RequestsV5(res))
                },
                Err(_) => None,
            },
            TypeKind::UNSUBSCRIBE => match crate::v5_unpacket::unsubscribe(base_msg) {
                Ok(mut subs) => {
                    let ghost v0 = subs@;
                    let mut res: Vec<MqttMessageV5> = Vec::new();
                    while subs.len() > 0
                        invariant
                            res@.len() + subs@.len() == v0.len(),
                            subs@ == v0.skip(res@.len() as int),
                            forall|j: int|
                                0 <= j < res@.len() ==> ((#[trigger] res@[j]) matches
                                    MqttMessageV5::Unsubscribe(um) && um == v0[j]),
                        decreases subs@.len(),
                    {
                        let ghost done = res@.len() as int;
                        let m = subs.remove(0);
                        proof {
                            assert(subs@ =~= v0.skip(done + 1));
                            assert(m == v0[done]);
                        }
                        res.push(MqttMessageV5::Unsubscribe(m));
                    }
                    Some(MqttMessageKind::RequestsV5(res))
                },
                Err(_) => None,
            },
            TypeKind::PINGREQ => Some(
                MqttMessageKind::RequestV5(MqttMessageV5::Pingresp(PingrespMessage::default())),
            ),
            TypeKind::DISCONNECT => Some(
                MqttMessageKind::RequestV5(
                    MqttMessageV5::Disconnect(crate::v5::DisconnectMessage::default()),
                ),
            ),
            TypeKind::AUTH => Some(
                MqttMessageKind::RequestV5(MqttMessageV5::Auth(crate::v5::AuthMessage::default())),
            ),
            _ => None,
        }
    }
}

} // verus!
