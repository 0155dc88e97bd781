use vstd::prelude::*;
use vstd::string::{StrSliceExecFns, StringExecFns};
use crate::machine::{
    Machine, MachineID, MachineManager, MachineStatus, spec_has_machine, spec_machine_of,
    spec_machines_unique,
};
use crate::message::{BaseMessage, MqttMessageKind};
use crate::pack_tool::string_fits;
use crate::protocol::{MqttDup, MqttQos, MqttWillFlag, spec_qos_num, spec_qos_of_num};
use crate::subscript::{
    ClientID, Line, LineMessage, LineState, SenderHandle, Subscript, TopicMessage,
    spec_contains_topic, spec_has_client, spec_is_subscript, spec_line_wf, spec_message_of,
    spec_sender_of, spec_topic_at, spec_topics_wf,
};
use crate::types::TypeKind;
use crate::v3::{
    ConnackMessage, DisconnectMessage, MqttMessageV3, PubackMessage, PubcompMessage, PublishModel,
    PublishMessage, PubrecMessage, PubrelMessage, SubackMessage, SubackModel, SubscribeMessage,
    UnsubackMessage, UnsubscribeMessage,
};
use crate::v3_packet::{spec_not_payload_bytes, spec_publish_bytes, spec_suback_bytes};

verus! {

/// The topic a device's own server-initiated events go to.
pub open spec fn spec_device_topic(cid: Seq<char>) -> Seq<char> {
    cid + "-topic"@
}

/// Whether a registered device has a QR code stored for it.
pub open spec fn spec_has_stored_qrcode(ms: Seq<(MachineID, Machine)>, cid: Seq<char>) -> bool {
    spec_has_machine(ms, cid) && spec_machine_of(ms, cid).qrcode_url@.len() > 0
}

/// The serialized bytes of the will publish a line declared.
pub open spec fn spec_will_publish_bytes(l: Line) -> Seq<u8> {
    spec_publish_bytes(
        PublishModel {
            message_id: 0,
            topic: l.will_topic.unwrap()@,
            dup: MqttDup::Disable,
            qos: l.will_qos.unwrap(),
            retain: l.will_retain.unwrap(),
            msg_body: l.will_message.unwrap()@,
        },
    )
}

/// The deliveries a broadcast on the topic owes: one envelope per subscriber
/// in registry order, each carrying the originator and the payload bytes.
pub open spec fn spec_broadcast_deliveries(
    topics: Seq<crate::subscript::Topic>,
    topic: Seq<char>,
    originator: Option<Seq<char>>,
    payload: Seq<u8>,
    r: Seq<(SenderHandle, LineMessage)>,
) -> bool {
    &&& (spec_contains_topic(topics, topic) ==> r.len() == spec_topic_at(topics, topic).len() && (
    forall|i: int|
        0 <= i < r.len() ==> ((#[trigger] r[i]).0.0 == spec_topic_at(topics, topic)[i].1 && (r[i].1
            matches LineMessage::SubscriptionMessage(env) && spec_message_of(env) == (
        originator,
        payload,
        )))))
    &&& (!spec_contains_topic(topics, topic) ==> r.len() == 0)
}

/// The response bytes a run of SUBSCRIBE topic entries earns: one SUBACK per
/// entry, each granting the requested QoS.
pub open spec fn spec_suback_run(id: u16, es: Seq<(Seq<char>, u8)>) -> Seq<u8>
    decreases es.len(),
{
    if es.len() == 0 {
        Seq::empty()
    } else {
        spec_suback_bytes(SubackModel { message_id: id, codes: seq![es[0].1] }) + spec_suback_run(
            id,
            es.skip(1),
        )
    }
}

/// The response bytes a run of UNSUBSCRIBE topics earns: one UNSUBACK per
/// topic.
pub open spec fn spec_unsuback_run(id: u16, count: nat) -> Seq<u8>
    decreases count,
{
    if count == 0 {
        Seq::empty()
    } else {
        spec_not_payload_bytes(id, TypeKind::UNSUBACK) + spec_unsuback_run(
            id,
            (count - 1) as nat,
        )
    }
}

/// Handles one parsed v3 packet: the reply to serialize, if any, and the
/// deliveries the runtime must put on other connections' channels.
#[verifier::rlimit(100)]
#[verifier::spinoff_prover]
pub fn handle_v3(
    line: &mut Line,
    subscript: &mut Subscript,
    machines: &mut MachineManager,
    kind_opt: Option<&MqttMessageV3>,
) -> (r: (Option<MqttMessageV3>, Vec<(SenderHandle, LineMessage)>))
    requires
        spec_line_wf(*old(line)),
        spec_topics_wf(old(subscript).container@),
        spec_machines_unique(old(machines).map@),
        match kind_opt {
            Some(MqttMessageV3::Pingresp(m)) => old(line).state == LineState::Connected
                && m.bytes@ == crate::pack_tool::spec_header_bytes(TypeKind::PINGRESP, 0),
            Some(MqttMessageV3::Connect(m)) => {
                &&& old(line).state == LineState::AwaitingConnect
                &&& crate::pack_tool::spec_opt_fits(
                    crate::message::opt_view(m.payload.will_topic),
                )
                &&& crate::pack_tool::spec_opt_fits(
                    crate::message::opt_view(m.payload.will_message),
                )
                &&& (m.will_flag == MqttWillFlag::Enable ==> m.payload.will_topic is Some
                    && m.payload.will_message is Some)
                &&& m.will_qos != MqttQos::Failure
            },
            Some(_) => old(line).state == LineState::Connected,
            None => true,
        },
    ensures
        spec_line_wf(*final(line)),
        spec_topics_wf(final(subscript).container@),
        spec_machines_unique(final(machines).map@),
        final(line).sender == old(line).sender,
        match kind_opt {
            Some(MqttMessageV3::Connect(_)) => true,
            Some(MqttMessageV3::Disconnect(_)) => true,
            _ => *final(line) == *old(line),
        },
        match kind_opt {
            Some(MqttMessageV3::Connect(m)) => {
                &&& r.0 matches Some(MqttMessageV3::Connack(a)) && a.bytes@
                    == crate::v3_packet::spec_connack_bytes(
                    crate::protocol::MqttSessionPresent::Disable,
                    crate::reason_code::ReasonCodeV3::ConnectionAccepted,
                )
                &&& final(line).state == LineState::Connected
                &&& final(line).client_id matches Some(c) && c@ == m.payload.client_id@
                &&& spec_has_machine(final(machines).map@, m.payload.client_id@)
                &&& spec_machine_of(final(machines).map@, m.payload.client_id@).status
                    == MachineStatus::Online
                &&& final(subscript).container@ == old(subscript).container@
                &&& (!spec_has_stored_qrcode(old(machines).map@, m.payload.client_id@)
                    ==> r.1@.len() == 0)
                &&& (spec_has_stored_qrcode(old(machines).map@, m.payload.client_id@)
                    && vstd::utf8::encode_utf8(
                    spec_device_topic(m.payload.client_id@),
                ).len() <= 65535 && vstd::utf8::encode_utf8(
                    spec_machine_of(old(machines).map@, m.payload.client_id@).qrcode_url@,
                ).len() <= 65535 ==> spec_broadcast_deliveries(
                    old(subscript).container@,
                    spec_device_topic(m.payload.client_id@),
                    Some("idreamspace-server"@),
                    spec_publish_bytes(
                        PublishModel {
                            message_id: 0,
                            topic: spec_device_topic(m.payload.client_id@),
                            dup: MqttDup::Disable,
                            qos: MqttQos::Qos1,
                            retain: crate::protocol::MqttRetain::Disable,
                            msg_body: spec_machine_of(
                                old(machines).map@,
                                m.payload.client_id@,
                            ).qrcode_url@,
                        },
                    ),
                    r.1@,
                ))
            },
            Some(MqttMessageV3::Pingresp(_)) => r.0 matches Some(MqttMessageV3::Pingresp(p))
                && p.bytes@ == crate::pack_tool::spec_header_bytes(TypeKind::PINGRESP, 0) && r.1@.len()
                == 0 && final(line).state == LineState::Connected,
            Some(MqttMessageV3::Publish(m)) => {
                &&& (m.qos == MqttQos::Qos1 ==> (r.0 matches Some(MqttMessageV3::Puback(p))
                    && p.bytes@ == spec_not_payload_bytes(m.message_id, TypeKind::PUBACK)))
                &&& (m.qos == MqttQos::Qos2 ==> (r.0 matches Some(MqttMessageV3::Pubrec(p))
                    && p.bytes@ == spec_not_payload_bytes(m.message_id, TypeKind::PUBREC)))
                &&& (m.qos == MqttQos::Qos0 ==> r.0 is None)
                &&& spec_broadcast_deliveries(
                    old(subscript).container@,
                    m.topic@,
                    Some(old(line).client_id.unwrap()@),
                    m.bytes@,
                    r.1@,
                )
                &&& final(line).state == LineState::Connected
                &&& final(subscript).container@ == old(subscript).container@
            },
            Some(MqttMessageV3::Pubrec(m)) => r.0 matches Some(MqttMessageV3::Pubrel(p))
                && p.bytes@ == spec_not_payload_bytes(m.message_id, TypeKind::PUBREL) && r.1@.len()
                == 0 && final(line).state == LineState::Connected,
            Some(MqttMessageV3::Pubrel(m)) => r.0 matches Some(MqttMessageV3::Pubcomp(p))
                && p.bytes@ == spec_not_payload_bytes(m.message_id, TypeKind::PUBCOMP) && r.1@.len()
                == 0 && final(line).state == LineState::Connected,
            Some(MqttMessageV3::Subscribe(m)) => {
                &&& r.0 matches Some(MqttMessageV3::Suback(a)) && a.bytes@ == spec_suback_bytes(a@)
                    && a.message_id == m.message_id && a.codes@ == seq![spec_qos_num(m.qos)]
                &&& (m.qos != MqttQos::Failure ==> {
                    &&& spec_is_subscript(
                        final(subscript).container@,
                        m.topic@,
                        old(line).client_id.unwrap()@,
                    )
                    &&& spec_sender_of(
                        spec_topic_at(final(subscript).container@, m.topic@),
                        old(line).client_id.unwrap()@,
                    ) == old(line).sender.0
                    &&& (forall|c2: Seq<char>|
                        c2 != old(line).client_id.unwrap()@ ==> #[trigger] spec_is_subscript(
                            final(subscript).container@,
                            m.topic@,
                            c2,
                        ) == spec_is_subscript(old(subscript).container@, m.topic@, c2))
                })
                &&& (m.qos == MqttQos::Failure ==> final(subscript).container@ == old(
                    subscript,
                ).container@)
                &&& (forall|n2: Seq<char>|
                    n2 != m.topic@ ==> #[trigger] spec_contains_topic(
                        final(subscript).container@,
                        n2,
                    ) == spec_contains_topic(old(subscript).container@, n2))
                &&& (forall|n2: Seq<char>|
                    n2 != m.topic@ && spec_contains_topic(old(subscript).container@, n2)
                        ==> #[trigger] spec_topic_at(final(subscript).container@, n2)
                        == spec_topic_at(old(subscript).container@, n2))
                &&& r.1@.len() == 0
                &&& final(line).state == LineState::Connected
            },
            Some(MqttMessageV3::Unsubscribe(m)) => {
                &&& r.0 matches Some(MqttMessageV3::Unsuback(a)) && a.bytes@
                    == spec_not_payload_bytes(m.message_id, TypeKind::UNSUBACK)
                &&& !spec_is_subscript(
                    final(subscript).container@,
                    m.topic@,
                    old(line).client_id.unwrap()@,
                )
                &&& (!spec_is_subscript(
                    old(subscript).container@,
                    m.topic@,
                    old(line).client_id.unwrap()@,
                ) ==> final(subscript).container@ == old(subscript).container@)
                &&& (forall|n2: Seq<char>|
                    #[trigger] spec_contains_topic(final(subscript).container@, n2)
                        == spec_contains_topic(old(subscript).container@, n2))
                &&& (forall|n2: Seq<char>|
                    n2 != m.topic@ && spec_contains_topic(old(subscript).container@, n2)
                        ==> #[trigger] spec_topic_at(final(subscript).container@, n2)
                        == spec_topic_at(old(subscript).container@, n2))
                &&& (forall|c2: Seq<char>|
                    c2 != old(line).client_id.unwrap()@ ==> #[trigger] spec_is_subscript(
                        final(subscript).container@,
                        m.topic@,
                        c2,
                    ) == spec_is_subscript(old(subscript).container@, m.topic@, c2))
                &&& r.1@.len() == 0
                &&& final(line).state == LineState::Connected
            },
            Some(MqttMessageV3::Disconnect(_)) => {
                &&& r.0 matches Some(MqttMessageV3::Disconnect(d)) && d.bytes@
                    == crate::pack_tool::spec_header_bytes(TypeKind::DISCONNECT, 0)
                &&& final(line).state == LineState::Terminated
                &&& (forall|t: Seq<char>|
                    !spec_is_subscript(
                        final(subscript).container@,
                        t,
                        old(line).client_id.unwrap()@,
                    ))
                &&& (old(line).will_flag != Some(MqttWillFlag::Enable) ==> r.1@.len() == 0)
                &&& (old(line).will_flag == Some(MqttWillFlag::Enable)
                    ==> spec_broadcast_deliveries(
                    old(subscript).container@,
                    old(line).will_topic.unwrap()@,
                    Some(old(line).client_id.unwrap()@),
                    spec_will_publish_bytes(*old(line)),
                    r.1@,
                ))
            },
            _ => r.0 is None && r.1@.len() == 0,
        },
{
    let empty: Vec<(SenderHandle, LineMessage)> = Vec::new();
    if let Some(kind) = kind_opt {
        match kind {
            MqttMessageV3::Connect(msg) => {
                let stored = machines.get_qrcode(&MachineID(msg.payload.client_id.clone()));
                machines.append(
                    MachineID(msg.payload.client_id.clone()),
                    Machine {
                        id: msg.payload.client_id.clone(),
                        qrcode_url: String::new(),
                        status: MachineStatus::Online,
                    },
                );
                line.init_v3(msg);
                line.state = LineState::Connected;
                let deliveries = match stored {
                    Some(url) => {
                        if url.as_str().unicode_len() > 0 {
                            let mut topic = msg.payload.client_id.clone();
                            topic.append("-topic");
                            if string_fits(&topic) && string_fits(&url) {
                                let pm = PublishMessage::simple_new_msg(topic.clone(), 0, url);
                                let envelope = TopicMessage::ContentV3(
                                    ClientID(String::from_str("idreamspace-server")),
                                    pm,
                                );
                                subscript.broadcast(&topic, &envelope)
                            } else {
                                Vec::new()
                            }
                        } else {
                            Vec::new()
                        }
                    },
                    None => Vec::new(),
                };
                (Some(MqttMessageV3::Connack(ConnackMessage::default())), deliveries)
            },
            MqttMessageV3::Subscribe(msg) => handle_v3_subscribe(line, subscript, msg),
            MqttMessageV3::Unsubscribe(msg) => handle_v3_unsubscribe(line, subscript, msg),
            MqttMessageV3::Publish(msg) => handle_v3_publish(line, subscript, msg),
            MqttMessageV3::Pingresp(msg) => {
                (
                    Some(
                        MqttMessageV3::Pingresp(
                            crate::message::PingrespMessage {
                                msg_type: msg.msg_type,
                                bytes: vstd::slice::slice_to_vec(msg.bytes.as_slice()),
                            },
                        ),
                    ),
                    empty,
                )
            },
            MqttMessageV3::Pubrec(msg) => {
                (Some(MqttMessageV3::Pubrel(PubrelMessage::new(msg.message_id))), empty)
            },
            MqttMessageV3::Pubrel(msg) => {
                (Some(MqttMessageV3::Pubcomp(PubcompMessage::new(msg.message_id))), empty)
            },
            MqttMessageV3::Disconnect(_) => handle_v3_disconnect(line, subscript, machines),
            _ => (None, empty),
        }
    } else {
        (None, empty)
    }
}

/// Fans the publish out to the topic's subscribers and picks the reply the
/// QoS asks for.
fn handle_v3_publish(
    line: &mut Line,
    subscript: &mut Subscript,
    msg: &PublishMessage,
) -> (r: (Option<MqttMessageV3>, Vec<(SenderHandle, LineMessage)>))
    requires
        spec_line_wf(*old(line)),
        old(line).state == LineState::Connected,
        spec_topics_wf(old(subscript).container@),
    ensures
        spec_line_wf(*final(line)),
        *final(line) == *old(line),
        spec_topics_wf(final(subscript).container@),
        final(subscript).container@ == old(subscript).container@,
        (msg.qos == MqttQos::Qos1 ==> (r.0 matches Some(MqttMessageV3::Puback(p)) && p.bytes@
            == spec_not_payload_bytes(msg.message_id, TypeKind::PUBACK))),
        (msg.qos == MqttQos::Qos2 ==> (r.0 matches Some(MqttMessageV3::Pubrec(p)) && p.bytes@
            == spec_not_payload_bytes(msg.message_id, TypeKind::PUBREC))),
        (msg.qos == MqttQos::Qos0 ==> r.0 is None),
        spec_broadcast_deliveries(
            old(subscript).container@,
            msg.topic@,
            Some(old(line).client_id.unwrap()@),
            msg.bytes@,
            r.1@,
        ),
{
    let topic_msg = TopicMessage::ContentV3(
        ClientID(line.get_client_id().0.clone()),
        crate::subscript::clone_publish_v3(msg),
    );
    let deliveries = subscript.broadcast(&msg.topic, &topic_msg);
    let reply = if msg.qos == MqttQos::Qos1 {
        Some(MqttMessageV3::Puback(PubackMessage::new(msg.message_id)))
    } else if msg.qos == MqttQos::Qos2 {
        Some(MqttMessageV3::Pubrec(PubrecMessage::new(msg.message_id)))
    } else {
        None
    };
    (reply, deliveries)
}

/// Registers the subscription when the requested QoS is one the broker
/// grants, replacing the handle the client held on the topic, and answers a
/// SUBACK either way; a refused request leaves the registry untouched.
fn handle_v3_subscribe(
    line: &mut Line,
    subscript: &mut Subscript,
    msg: &SubscribeMessage,
) -> (r: (Option<MqttMessageV3>, Vec<(SenderHandle, LineMessage)>))
    requires
        spec_line_wf(*old(line)),
        old(line).state == LineState::Connected,
        spec_topics_wf(old(subscript).container@),
    ensures
        spec_line_wf(*final(line)),
        *final(line) == *old(line),
        spec_topics_wf(final(subscript).container@),
        r.0 matches Some(MqttMessageV3::Suback(a)) && a.bytes@ == spec_suback_bytes(a@)
            && a.message_id == msg.message_id && a.codes@ == seq![spec_qos_num(msg.qos)],
        msg.qos != MqttQos::Failure ==> {
            &&& spec_is_subscript(
                final(subscript).container@,
                msg.topic@,
                old(line).client_id.unwrap()@,
            )
            &&& spec_sender_of(
                spec_topic_at(final(subscript).container@, msg.topic@),
                old(line).client_id.unwrap()@,
            ) == old(line).sender.0
            &&& (forall|c2: Seq<char>|
                c2 != old(line).client_id.unwrap()@ ==> #[trigger] spec_is_subscript(
                    final(subscript).container@,
                    msg.topic@,
                    c2,
                ) == spec_is_subscript(old(subscript).container@, msg.topic@, c2))
        },
        msg.qos == MqttQos::Failure ==> final(subscript).container@ == old(subscript).container@,
        forall|n2: Seq<char>|
            n2 != msg.topic@ ==> #[trigger] spec_contains_topic(final(subscript).container@, n2)
                == spec_contains_topic(old(subscript).container@, n2),
        forall|n2: Seq<char>|
            n2 != msg.topic@ && spec_contains_topic(old(subscript).container@, n2)
                ==> #[trigger] spec_topic_at(final(subscript).container@, n2) == spec_topic_at(
                old(subscript).container@,
                n2,
            ),
        r.1@.len() == 0,
{
    if !matches!(msg.qos, MqttQos::Failure) {
        let topic = &msg.topic;
        if subscript.contain(topic) {
            subscript.subscript(
                topic,
                ClientID(line.get_client_id().0.clone()),
                line.get_sender(),
            );
            proof {
                assert forall|c2: Seq<char>|
                    c2 != line.client_id.unwrap()@ implies #[trigger] spec_is_subscript(
                    subscript.container@,
                    msg.topic@,
                    c2,
                ) == spec_is_subscript(old(subscript).container@, msg.topic@, c2) by {}
            }
        } else {
            subscript.new_subscript(
                topic.clone(),
                ClientID(line.get_client_id().0.clone()),
                line.get_sender(),
            );
            proof {
                let t = spec_topic_at(subscript.container@, msg.topic@);
                crate::subscript::Topic::lemma_sender_unique(t, line.client_id.unwrap()@, 0);
                assert forall|c2: Seq<char>|
                    c2 != line.client_id.unwrap()@ implies #[trigger] spec_is_subscript(
                    subscript.container@,
                    msg.topic@,
                    c2,
                ) == spec_is_subscript(old(subscript).container@, msg.topic@, c2) by {
                    if spec_has_client(t, c2) {
                        assert(t[0].0 == line.client_id.unwrap()@);
                        let j = choose|j: int| 0 <= j < t.len() && (#[trigger] t[j]).0 == c2;
                        assert(false);
                    }
                }
            }
        }
    }
    let sm = SubackMessage::from_subscribe(msg);
    (Some(MqttMessageV3::Suback(sm)), Vec::new())
}

/// Takes the client off the topic when it was subscribed, and answers an
/// UNSUBACK either way.
fn handle_v3_unsubscribe(
    line: &mut Line,
    subscript: &mut Subscript,
    msg: &UnsubscribeMessage,
) -> (r: (Option<MqttMessageV3>, Vec<(SenderHandle, LineMessage)>))
    requires
        spec_line_wf(*old(line)),
        old(line).state == LineState::Connected,
        spec_topics_wf(old(subscript).container@),
    ensures
        spec_line_wf(*final(line)),
        *final(line) == *old(line),
        spec_topics_wf(final(subscript).container@),
        r.0 matches Some(MqttMessageV3::Unsuback(a)) && a.bytes@ == spec_not_payload_bytes(
            msg.message_id,
            TypeKind::UNSUBACK,
        ),
        !spec_is_subscript(final(subscript).container@, msg.topic@, old(line).client_id.unwrap()@),
        !spec_is_subscript(old(subscript).container@, msg.topic@, old(line).client_id.unwrap()@)
            ==> final(subscript).container@ == old(subscript).container@,
        forall|n2: Seq<char>|
            #[trigger] spec_contains_topic(final(subscript).container@, n2) == spec_contains_topic(
                old(subscript).container@,
                n2,
            ),
        forall|n2: Seq<char>|
            n2 != msg.topic@ && spec_contains_topic(old(subscript).container@, n2)
                ==> #[trigger] spec_topic_at(final(subscript).container@, n2) == spec_topic_at(
                old(subscript).container@,
                n2,
            ),
        forall|c2: Seq<char>|
            c2 != old(line).client_id.unwrap()@ ==> #[trigger] spec_is_subscript(
                final(subscript).container@,
                msg.topic@,
                c2,
            ) == spec_is_subscript(old(subscript).container@, msg.topic@, c2),
        r.1@.len() == 0,
{
    let cid = ClientID(line.get_client_id().0.clone());
    if subscript.contain(&msg.topic) {
        if subscript.is_subscript(&msg.topic, &cid) {
            subscript.unsubscript(&msg.topic, &cid);
        }
    }
    (Some(MqttMessageV3::Unsuback(UnsubackMessage::new(msg.message_id))), Vec::new())
}

/// Publishes the will when one was declared, takes the client off every
/// topic, marks its device offline, and closes.
fn handle_v3_disconnect(
    line: &mut Line,
    subscript: &mut Subscript,
    machines: &mut MachineManager,
) -> (r: (Option<MqttMessageV3>, Vec<(SenderHandle, LineMessage)>))
    requires
        spec_line_wf(*old(line)),
        old(line).state == LineState::Connected,
        spec_topics_wf(old(subscript).container@),
        spec_machines_unique(old(machines).map@),
    ensures
        spec_line_wf(*final(line)),
        final(line).state == LineState::Terminated,
        final(line).sender == old(line).sender,
        spec_topics_wf(final(subscript).container@),
        spec_machines_unique(final(machines).map@),
        r.0 matches Some(MqttMessageV3::Disconnect(d)) && d.bytes@
            == crate::pack_tool::spec_header_bytes(TypeKind::DISCONNECT, 0),
        forall|t: Seq<char>|
            !spec_is_subscript(final(subscript).container@, t, old(line).client_id.unwrap()@),
        old(line).will_flag != Some(MqttWillFlag::Enable) ==> r.1@.len() == 0,
        old(line).will_flag == Some(MqttWillFlag::Enable) ==> spec_broadcast_deliveries(
            old(subscript).container@,
            old(line).will_topic.unwrap()@,
            Some(old(line).client_id.unwrap()@),
            spec_will_publish_bytes(*old(line)),
            r.1@,
        ),
{
    let deliveries = if line.is_will_flag() {
        let topic_msg = line.get_v3_topic_message();
        let will_topic = line.get_will_topic().clone();
        subscript.broadcast(&will_topic, &topic_msg)
    } else {
        Vec::new()
    };
    let cid = ClientID(line.get_client_id().0.clone());
    subscript.exit(&cid);
    let id = MachineID(line.get_client_id().0.clone());
    machines.remove(&id);
    line.state = LineState::Terminated;
    (Some(MqttMessageV3::Disconnect(DisconnectMessage::default())), deliveries)
}

/// Closes a connection whose socket went away without a DISCONNECT: the
/// will, when one was declared, is published all the same, the client leaves
/// every topic, and its device is marked offline.
pub fn handle_unclean_close(
    line: &mut Line,
    subscript: &mut Subscript,
    machines: &mut MachineManager,
) -> (r: Vec<(SenderHandle, LineMessage)>)
    requires
        spec_line_wf(*old(line)),
        old(line).state == LineState::Connected,
        spec_topics_wf(old(subscript).container@),
        spec_machines_unique(old(machines).map@),
    ensures
        spec_line_wf(*final(line)),
        final(line).state == LineState::Terminated,
        spec_topics_wf(final(subscript).container@),
        spec_machines_unique(final(machines).map@),
        forall|t: Seq<char>|
            !spec_is_subscript(final(subscript).container@, t, old(line).client_id.unwrap()@),
        old(line).will_flag != Some(MqttWillFlag::Enable) ==> r@.len() == 0,
        old(line).will_flag == Some(MqttWillFlag::Enable) ==> spec_broadcast_deliveries(
            old(subscript).container@,
            old(line).will_topic.unwrap()@,
            Some(old(line).client_id.unwrap()@),
            spec_will_publish_bytes(*old(line)),
            r@,
        ),
{
    let (_, deliveries) = handle_v3_disconnect(line, subscript, machines);
    deliveries
}

/// Handles one raw v3 packet: parses it, dispatches it, and serializes the
/// replies; a DISCONNECT's reply closes the connection.
#[verifier::rlimit(100)]
#[verifier::spinoff_prover]
#[verifier::loop_isolation(false)]
pub fn match_v3_data(
    line: &mut Line,
    subscript: &mut Subscript,
    machines: &mut MachineManager,
    base_msg: BaseMessage,
) -> (r: (Option<MqttMessageKind>, Vec<(SenderHandle, LineMessage)>))
    requires
        spec_line_wf(*old(line)),
        spec_topics_wf(old(subscript).container@),
        spec_machines_unique(old(machines).map@),
        base_msg.msg_type == TypeKind::CONNECT ==> old(line).state == LineState::AwaitingConnect,
        base_msg.msg_type != TypeKind::CONNECT ==> old(line).state == LineState::Connected,
    ensures
        spec_line_wf(*final(line)),
        spec_topics_wf(final(subscript).container@),
        spec_machines_unique(final(machines).map@),
        final(line).sender == old(line).sender,
        base_msg.msg_type == TypeKind::CONNECT ==> match crate::v3_unpacket::spec_parse_connect(
            base_msg.bytes@,
        ) {
            Some(model) => {
                &&& r.0 matches Some(MqttMessageKind::Response(b)) && b@
                    == crate::v3_packet::spec_connack_bytes(
                    crate::protocol::MqttSessionPresent::Disable,
                    crate::reason_code::ReasonCodeV3::ConnectionAccepted,
                )
                &&& final(line).state == LineState::Connected
                &&& final(line).client_id matches Some(c) && c@ == model.payload.client_id
                &&& spec_has_machine(final(machines).map@, model.payload.client_id)
                &&& spec_machine_of(final(machines).map@, model.payload.client_id).status
                    == MachineStatus::Online
            },
            None => r.0 is None && final(line).state == old(line).state && r.1@.len() == 0,
        },
        base_msg.msg_type == TypeKind::PINGREQ ==> (r.0 matches Some(
            MqttMessageKind::Response(b),
        ) && b@ == crate::pack_tool::spec_header_bytes(TypeKind::PINGRESP, 0) && final(line).state
            == LineState::Connected),
        base_msg.msg_type == TypeKind::DISCONNECT ==> (r.0 matches Some(MqttMessageKind::Exit(b))
            && b@ == crate::pack_tool::spec_header_bytes(TypeKind::DISCONNECT, 0)
            && final(line).state == LineState::Terminated && (forall|t: Seq<char>|
            !spec_is_subscript(final(subscript).container@, t, old(line).client_id.unwrap()@)) && (
        old(line).will_flag != Some(MqttWillFlag::Enable) ==> r.1@.len() == 0) && (old(
            line,
        ).will_flag == Some(MqttWillFlag::Enable) ==> spec_broadcast_deliveries(
            old(subscript).container@,
            old(line).will_topic.unwrap()@,
            Some(old(line).client_id.unwrap()@),
            spec_will_publish_bytes(*old(line)),
            r.1@,
        ))),
        base_msg.msg_type == TypeKind::PUBLISH ==> match crate::v3_unpacket::spec_parse_publish(
            base_msg.bytes@,
            base_msg.qos,
        ) {
            Some((topic, id, _body)) => {
                &&& ((match base_msg.qos {
                    Some(q) => q,
                    None => MqttQos::Qos0,
                }) == MqttQos::Qos1 ==> (r.0 matches Some(MqttMessageKind::Response(b)) && b@
                    == spec_not_payload_bytes(id, TypeKind::PUBACK)))
                &&& ((match base_msg.qos {
                    Some(q) => q,
                    None => MqttQos::Qos0,
                }) == MqttQos::Qos2 ==> (r.0 matches Some(MqttMessageKind::Response(b)) && b@
                    == spec_not_payload_bytes(id, TypeKind::PUBREC)))
                &&& spec_broadcast_deliveries(
                    old(subscript).container@,
                    topic,
                    Some(old(line).client_id.unwrap()@),
                    base_msg.bytes@,
                    r.1@,
                )
                &&& final(line).state == LineState::Connected
                &&& final(subscript).container@ == old(subscript).container@
            },
            None => r.0 is None && r.1@.len() == 0,
        },
        base_msg.msg_type == TypeKind::PUBREC ==> match crate::un_pack_tool::spec_remaining_data(
            base_msg.bytes@,
        ) {
            Some(body) => if body.len() >= 2 {
                r.0 matches Some(MqttMessageKind::Response(b)) && b@ == spec_not_payload_bytes(
                    crate::un_pack_tool::spec_be16(body),
                    TypeKind::PUBREL,
                ) && final(line).state == LineState::Connected && r.1@.len() == 0
            } else {
                r.0 is None && r.1@.len() == 0
            },
            None => r.0 is None && r.1@.len() == 0,
        },
        base_msg.msg_type == TypeKind::PUBREL ==> match crate::un_pack_tool::spec_remaining_data(
            base_msg.bytes@,
        ) {
            Some(body) => if body.len() >= 2 {
                r.0 matches Some(MqttMessageKind::Response(b)) && b@ == spec_not_payload_bytes(
                    crate::un_pack_tool::spec_be16(body),
                    TypeKind::PUBCOMP,
                ) && final(line).state == LineState::Connected && r.1@.len() == 0
            } else {
                r.0 is None && r.1@.len() == 0
            },
            None => r.0 is None && r.1@.len() == 0,
        },
        base_msg.msg_type == TypeKind::SUBSCRIBE
            ==> match crate::v3_unpacket::spec_parse_subscribe(base_msg.bytes@) {
            Some((id, es)) => if forall|i: int| 0 <= i < es.len() ==> (#[trigger] es[i]).1 <= 2 {
                &&& r.0 matches Some(MqttMessageKind::Response(b)) && b@ == spec_suback_run(id, es)
                &&& (forall|i: int|
                    0 <= i < es.len() ==> #[trigger] spec_is_subscript(
                        final(subscript).container@,
                        es[i].0,
                        old(line).client_id.unwrap()@,
                    ) && spec_sender_of(
                        spec_topic_at(final(subscript).container@, es[i].0),
                        old(line).client_id.unwrap()@,
                    ) == old(line).sender.0)
                &&& r.1@.len() == 0
                &&& final(line).state == LineState::Connected
            } else {
                r.0 is None && r.1@.len() == 0
            },
            None => r.0 is None && r.1@.len() == 0,
        },
        base_msg.msg_type == TypeKind::UNSUBSCRIBE
            ==> match crate::v3_unpacket::spec_parse_unsubscribe(base_msg.bytes@) {
            Some((id, es)) => {
                &&& r.0 matches Some(MqttMessageKind::Response(b)) && b@ == spec_unsuback_run(
                    id,
                    es.len(),
                )
                &&& (forall|i: int|
                    0 <= i < es.len() ==> !spec_is_subscript(
                        final(subscript).container@,
                        #[trigger] es[i],
                        old(line).client_id.unwrap()@,
                    ))
                &&& r.1@.len() == 0
                &&& final(line).state == LineState::Connected
            },
            None => r.0 is None && r.1@.len() == 0,
        },
{
    let ghost bb = base_msg.bytes@;
    let ghost mt = base_msg.msg_type;
    let ghost bq = base_msg.qos;
    let parsed = MqttMessageKind::v3(base_msg);
    proof {
        if mt == TypeKind::CONNECT && crate::v3_unpacket::spec_parse_connect(bb) is Some {
            crate::v3_unpacket::lemma_parse_connect_fits(bb);
        }
    }
    match parsed {
        Some(MqttMessageKind::RequestV3(v3msg)) => {
            let (res_msg, deliveries) = handle_v3(line, subscript, machines, Some(&v3msg));
            match res_msg {
                Some(res) => {
                    if res.is_disconnect() {
                        (
                            Some(
                                MqttMessageKind::Exit(
                                    vstd::slice::slice_to_vec(res.as_bytes()),
                                ),
                            ),
                            deliveries,
                        )
                    } else {
                        (
                            Some(
                                MqttMessageKind::Response(
                                    vstd::slice::slice_to_vec(res.as_bytes()),
                                ),
                            ),
                            deliveries,
                        )
                    }
                },
                None => (None, deliveries),
            }
        },
        Some(MqttMessageKind::RequestsV3(items)) => {
            let ghost subscribed = mt == TypeKind::SUBSCRIBE;
            let ghost id_es_sub = crate::v3_unpacket::spec_parse_subscribe(bb);
            let ghost id_es_unsub = crate::v3_unpacket::spec_parse_unsubscribe(bb);
            proof {
                assert(mt == TypeKind::SUBSCRIBE || mt == TypeKind::UNSUBSCRIBE);
                if subscribed {
                    let (id, es) = id_es_sub.unwrap();
                    assert(es.skip(0) =~= es);
                    assert(Seq::<u8>::empty() + spec_suback_run(id, es) =~= spec_suback_run(
                        id,
                        es,
                    ));
                } else {
                    let (id, es) = id_es_unsub.unwrap();
                    assert(Seq::<u8>::empty() + spec_unsuback_run(id, es.len())
                        =~= spec_unsuback_run(id, es.len()));
                }
            }
            let mut res: Vec<u8> = Vec::new();
            let mut deliveries: Vec<(SenderHandle, LineMessage)> = Vec::new();
            let mut i: usize = 0;
            while i < items.len()
                invariant
                    spec_line_wf(*line),
                    line.state == LineState::Connected,
                    line.sender == old(line).sender,
                    line.client_id == old(line).client_id,
                    spec_topics_wf(subscript.container@),
                    spec_machines_unique(machines.map@),
                    i <= items@.len(),
                    deliveries@.len() == 0,
                    forall|j: int|
                        0 <= j < items@.len() ==> ((#[trigger] items@[j]) matches
                            MqttMessageV3::Subscribe(_) || items@[j] matches
                            MqttMessageV3::Unsubscribe(_)),
                    subscribed ==> id_es_sub is Some && items@.len()
                        == id_es_sub.unwrap().1.len(),
                    subscribed ==> (forall|j: int|
                        0 <= j < id_es_sub.unwrap().1.len() ==> ((#[trigger] items@[j]) matches
                            MqttMessageV3::Subscribe(sm) && sm.message_id == id_es_sub.unwrap().0
                            && sm.topic@ == id_es_sub.unwrap().1[j].0 && Some(sm.qos)
                            == spec_qos_of_num(id_es_sub.unwrap().1[j].1)
                            && id_es_sub.unwrap().1[j].1 <= 2)),
                    subscribed ==> res@ + spec_suback_run(
                        id_es_sub.unwrap().0,
                        id_es_sub.unwrap().1.skip(i as int),
                    ) == spec_suback_run(id_es_sub.unwrap().0, id_es_sub.unwrap().1),
                    subscribed ==> (forall|j: int|
                        0 <= j < i ==> #[trigger] spec_is_subscript(
                            subscript.container@,
                            id_es_sub.unwrap().1[j].0,
                            old(line).client_id.unwrap()@,
                        ) && spec_sender_of(
                            spec_topic_at(subscript.container@, id_es_sub.unwrap().1[j].0),
                            old(line).client_id.unwrap()@,
                        ) == old(line).sender.0),
                    !subscribed ==> ({
                        let (id, es) = id_es_unsub.unwrap();
                        &&& mt == TypeKind::UNSUBSCRIBE
                        &&& id_es_unsub is Some
                        &&& items@.len() == es.len()
                        &&& (forall|j: int|
                            0 <= j < es.len() ==> ((#[trigger] items@[j]) matches
                                MqttMessageV3::Unsubscribe(um) && um.message_id == id && um.topic@
                                == es[j]))
                        &&& res@ + spec_unsuback_run(id, (es.len() - i) as nat)
                            == spec_unsuback_run(id, es.len())
                        &&& (forall|j: int|
                            0 <= j < i ==> !spec_is_subscript(
                                subscript.container@,
                                #[trigger] es[j],
                                old(line).client_id.unwrap()@,
                            ))
                    }),
                decreases items@.len() - i,
            {
                let ghost res_before = res@;
                let ghost old_sub_loop = subscript.container@;
                let (res_msg, mut more) = handle_v3(line, subscript, machines, Some(&items[i]));
                if let Some(res_one) = res_msg {
                    let mut bytes = vstd::slice::slice_to_vec(res_one.as_bytes());
                    res.append(&mut bytes);
                }
                deliveries.append(&mut more);
                proof {
                    if subscribed {
                        let (id, es) = id_es_sub.unwrap();
                        assert(es.skip(i as int).skip(1) =~= es.skip(i + 1));
                        assert(es.skip(i as int)[0] == es[i as int]);
                        assert(seq![es[i as int].1] =~= seq![
                            spec_qos_num(
                                spec_qos_of_num(es[i as int].1).unwrap(),
                            ),
                        ]);
                        let sb = spec_suback_bytes(
                            SubackModel { message_id: id, codes: seq![es[i as int].1] },
                        );
                        assert(spec_suback_run(id, es.skip(i as int)) == sb + spec_suback_run(
                            id,
                            es.skip(i + 1),
                        ));
                        assert(res@ =~= res_before + sb);
                        assert((res_before + sb) + spec_suback_run(id, es.skip(i + 1))
                            =~= res_before + (sb + spec_suback_run(id, es.skip(i + 1))));
                        assert(spec_qos_of_num(es[i as int].1).unwrap() != MqttQos::Failure);
                        assert(res@ + spec_suback_run(id, es.skip(i + 1)) == spec_suback_run(
                            id,
                            es,
                        ));
                        assert(spec_is_subscript(
                            subscript.container@,
                            es[i as int].0,
                            old(line).client_id.unwrap()@,
                        ));
                        assert(spec_sender_of(
                            spec_topic_at(subscript.container@, es[i as int].0),
                            old(line).client_id.unwrap()@,
                        ) == old(line).sender.0);
                        assert(items@[i as int] matches MqttMessageV3::Subscribe(sm)
                            && sm.topic@ == es[i as int].0);
                        assert forall|j: int| 0 <= j < i implies #[trigger] spec_is_subscript(
                            subscript.container@,
                            es[j].0,
                            old(line).client_id.unwrap()@,
                        ) && spec_sender_of(
                            spec_topic_at(subscript.container@, es[j].0),
                            old(line).client_id.unwrap()@,
                        ) == old(line).sender.0 by {
                            assert(spec_is_subscript(
                                old_sub_loop,
                                es[j].0,
                                old(line).client_id.unwrap()@,
                            ));
                            assert(spec_contains_topic(old_sub_loop, es[j].0));
                            if es[j].0 != es[i as int].0 {
                                assert(spec_contains_topic(subscript.container@, es[j].0));
                                assert(spec_topic_at(subscript.container@, es[j].0)
                                    == spec_topic_at(old_sub_loop, es[j].0));
                            }
                        }
                    } else {
                        let (id, es) = id_es_unsub.unwrap();
                        let ub = spec_not_payload_bytes(id, TypeKind::UNSUBACK);
                        assert(spec_unsuback_run(id, (es.len() - i) as nat) == ub
                            + spec_unsuback_run(id, (es.len() - i - 1) as nat));
                        assert(res@ =~= res_before + ub);
                        assert((res_before + ub) + spec_unsuback_run(id, (es.len() - i - 1) as nat)
                            =~= res_before + (ub + spec_unsuback_run(
                            id,
                            (es.len() - i - 1) as nat,
                        )));
                    }
                }
                i = i + 1;
                proof {
                    if subscribed {
                        let (id, es) = id_es_sub.unwrap();
                        assert forall|j: int| 0 <= j < i implies #[trigger] spec_is_subscript(
                            subscript.container@,
                            es[j].0,
                            old(line).client_id.unwrap()@,
                        ) && spec_sender_of(
                            spec_topic_at(subscript.container@, es[j].0),
                            old(line).client_id.unwrap()@,
                        ) == old(line).sender.0 by {
                            if j == i - 1 {
                                assert(es[j] == es[i - 1]);
                            }
                        }
                    }
                }
            }
            proof {
                if subscribed {
                    let (id, es) = id_es_sub.unwrap();
                    assert(es.skip(es.len() as int) =~= Seq::<(Seq<char>, u8)>::empty());
                    assert(res@ + Seq::<u8>::empty() =~= res@);
                } else {
                    let (id, es) = id_es_unsub.unwrap();
                    assert(res@ + Seq::<u8>::empty() =~= res@);
                }
            }
            (Some(MqttMessageKind::Response(res)), deliveries)
        },
        _ => (None, Vec::new()),
    }
}

} // verus!
