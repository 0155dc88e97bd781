use vstd::prelude::*;
use vstd::string::StrSliceExecFns;
use vstd::utf8::encode_utf8;
use crate::hex::{
    PropertyFilter, PropertyItem, PropertyItemModel, items_view, pack_property,
    spec_opt_props_fit, spec_property_block_bytes, spec_property_value_fits,
};
use crate::message::props_view;
use crate::pack_tool::{
    pack_client_id, pack_connect_flags, pack_header, pack_message_short_id, pack_publish_header,
    pack_short_int, pack_string, spec_connect_flags, spec_header_bytes, spec_opt_fits,
    spec_publish_flags_byte, spec_short, spec_string_bytes, spec_varint,
};
use crate::protocol::{
    MqttDup, MqttNoLocal, MqttQos, MqttRetainAsPublished, MqttSessionPresent, MqttWillFlag,
    spec_level_num, spec_qos_num,
};
use crate::reason_code::{ReasonCodeV5, ReasonPhrases, spec_phrase_num, spec_v5_code_num};
use crate::types::TypeKind;
use crate::v5::{ConnectMessage, DisconnectMessage, AuthMessage, PublishMessage, SubackMessage,
    SubscribeMessage, UnsubackMessage};

verus! {

/// The bytes of an optional property block; nothing at all when absent.
pub open spec fn spec_opt_block(ps: Option<Seq<PropertyItemModel>>, f: PropertyFilter) -> Seq<u8> {
    match ps {
        Some(s) => spec_property_block_bytes(s, f),
        None => Seq::empty(),
    }
}

/// The view of an optional borrowed property list.
pub open spec fn props_ref_view(o: Option<&Vec<PropertyItem>>) -> Option<Seq<PropertyItemModel>> {
    match o {
        Some(v) => Some(items_view(v@)),
        None => None,
    }
}


/// The body of a v5 CONNECT: as in v3, with the connect property block after
/// the keep-alive and the will property block opening the will part.
pub open spec fn spec_connect_body(m: ConnectMessage) -> Seq<u8> {
    spec_string_bytes(m.protocol_name@) + seq![spec_level_num(m.protocol_level)] + seq![
        spec_connect_flags(
            m.clean_session,
            m.will_flag,
            m.will_qos,
            m.will_retain,
            m.payload.user_name is Some,
            m.payload.password is Some,
        ),
    ] + spec_short(m.keep_alive) + spec_opt_block(props_view(m.properties), PropertyFilter::Connect)
        + spec_string_bytes(m.payload.client_id@) + (if m.will_flag == MqttWillFlag::Enable {
        spec_opt_block(props_view(m.payload.properties), PropertyFilter::Will) + (match m
            .payload
            .will_topic {
            Some(t) => spec_string_bytes(t@),
            None => Seq::empty(),
        }) + (match m.payload.will_message {
            Some(t) => spec_string_bytes(t@),
            None => Seq::empty(),
        })
    } else {
        Seq::empty()
    }) + (match m.payload.user_name {
        Some(u) => spec_string_bytes(u@),
        None => Seq::empty(),
    }) + (match m.payload.password {
        Some(p) => spec_string_bytes(p@),
        None => Seq::empty(),
    })
}

/// A whole v5 CONNECT packet.
pub open spec fn spec_connect_bytes(m: ConnectMessage) -> Seq<u8> {
    spec_header_bytes(TypeKind::CONNECT, spec_connect_body(m).len()) + spec_connect_body(m)
}

/// What a v5 CONNECT must hold to stand on the wire.
pub open spec fn spec_connect_v5_wf(m: ConnectMessage) -> bool {
    &&& encode_utf8(m.protocol_name@).len() <= 65535
    &&& encode_utf8(m.payload.client_id@).len() <= 65535
    &&& spec_opt_fits(crate::message::opt_view(m.payload.will_topic))
    &&& spec_opt_fits(crate::message::opt_view(m.payload.will_message))
    &&& spec_opt_fits(crate::message::opt_view(m.payload.user_name))
    &&& spec_opt_fits(crate::message::opt_view(m.payload.password))
    &&& (m.will_flag == MqttWillFlag::Enable ==> m.will_qos != MqttQos::Failure)
    &&& spec_opt_props_fit(props_view(m.properties))
    &&& spec_opt_props_fit(props_view(m.payload.properties))
}

/// Serializes the tail of a v5 CONNECT body: the will part when the will
/// flag is set, then user name and password when present.
fn connect_payload_tail(msg: &ConnectMessage, body: &mut Vec<u8>)
    requires
        spec_connect_v5_wf(*msg),
    ensures
        final(body)@ == old(body)@ + (if msg.will_flag == MqttWillFlag::Enable {
            spec_opt_block(props_view(msg.payload.properties), PropertyFilter::Will) + (match msg
                .payload
                .will_topic {
                Some(t) => spec_string_bytes(t@),
                None => Seq::empty(),
            }) + (match msg.payload.will_message {
                Some(t) => spec_string_bytes(t@),
                None => Seq::empty(),
            })
        } else {
            Seq::empty()
        }) + (match msg.payload.user_name {
            Some(u) => spec_string_bytes(u@),
            None => Seq::empty(),
        }) + (match msg.payload.password {
            Some(p) => spec_string_bytes(p@),
            None => Seq::empty(),
        }),
{
    if msg.will_flag == MqttWillFlag::Enable {
        if let Some(props) = msg.payload.properties.as_ref() {
            proof {
                assert(props_view(msg.payload.properties) == Some(items_view(props@)));
                crate::hex::lemma_items_view_fits(props@);
            }
            let mut block = pack_property::will_properties(props);
            body.append(&mut block);
        }
        if let Some(will_topic) = msg.payload.will_topic.as_ref() {
            let mut wt = pack_string(will_topic);
            body.append(&mut wt);
        }
        if let Some(will_message) = msg.payload.will_message.as_ref() {
            let mut wm = pack_string(will_message);
            body.append(&mut wm);
        }
    }

    if let Some(user_name) = msg.payload.user_name.as_ref() {
        let mut un = pack_string(user_name);
        body.append(&mut un);
    }

    if let Some(password) = msg.payload.password.as_ref() {
        let mut pw = pack_string(password);
        body.append(&mut pw);
    }

    assert(final(body)@ =~= old(body)@ + (if msg.will_flag == MqttWillFlag::Enable {
        spec_opt_block(props_view(msg.payload.properties), PropertyFilter::Will) + (match msg
            .payload
            .will_topic {
            Some(t) => spec_string_bytes(t@),
            None => Seq::empty(),
        }) + (match msg.payload.will_message {
            Some(t) => spec_string_bytes(t@),
            None => Seq::empty(),
        })
    } else {
        Seq::empty()
    }) + (match msg.payload.user_name {
        Some(u) => spec_string_bytes(u@),
        None => Seq::empty(),
    }) + (match msg.payload.password {
        Some(p) => spec_string_bytes(p@),
        None => Seq::empty(),
    }));
}

/// Serializes a v5 CONNECT.
pub fn connect(msg: &ConnectMessage) -> (r: Vec<u8>)
    requires
        msg.msg_type == TypeKind::CONNECT,
        spec_connect_v5_wf(*msg),
    ensures
        r@ == spec_connect_bytes(*msg),
{
    let mut body: Vec<u8> = pack_string(&msg.protocol_name);

    body.push(msg.protocol_level.as_num());

    let flags = match pack_connect_flags(
        msg.clean_session,
        msg.will_flag,
        msg.will_qos,
        msg.will_retain,
        msg.payload.user_name.as_ref(),
        msg.payload.password.as_ref(),
    ) {
        Ok(f) => f,
        Err(_) => {
            proof {
                assert(false);
            }
            0
        },
    };
    body.push(flags);

    let mut keep_alive = pack_short_int(msg.keep_alive);
    body.append(&mut keep_alive);

    if let Some(props) = msg.properties.as_ref() {
        proof {
            assert(props_view(msg.properties) == Some(items_view(props@)));
            crate::hex::lemma_items_view_fits(props@);
        }
        let mut block = pack_property::connect(props);
        body.append(&mut block);
    }

    let mut client_id = pack_client_id(&msg.payload.client_id);
    body.append(&mut client_id);

    assert(body@ =~= spec_string_bytes(msg.protocol_name@) + seq![
        spec_level_num(msg.protocol_level),
    ] + seq![
        spec_connect_flags(
            msg.clean_session,
            msg.will_flag,
            msg.will_qos,
            msg.will_retain,
            msg.payload.user_name is Some,
            msg.payload.password is Some,
        ),
    ] + spec_short(msg.keep_alive) + spec_opt_block(
        props_view(msg.properties),
        PropertyFilter::Connect,
    ) + spec_string_bytes(msg.payload.client_id@));

    connect_payload_tail(msg, &mut body);

    assert(body@ =~= spec_connect_body(*msg));

    let mut package = pack_header(TypeKind::CONNECT, body.len());
    package.append(&mut body);
    assert(package@ =~= spec_connect_bytes(*msg));
    package
}

/// A whole v5 CONNACK packet: session-present byte, reason code, properties.
pub open spec fn spec_connack_bytes(
    session_present: MqttSessionPresent,
    code: u8,
    props: Option<Seq<PropertyItemModel>>,
) -> Seq<u8> {
    let body = seq![
        if session_present == MqttSessionPresent::Enable {
            1u8
        } else {
            0u8
        },
        code,
    ] + spec_opt_block(props, PropertyFilter::Connack);
    spec_header_bytes(TypeKind::CONNACK, body.len()) + body
}

/// Serializes a v5 CONNACK.
pub fn connack(
    session_present: MqttSessionPresent,
    return_code: ReasonCodeV5,
    properties: Option<&Vec<PropertyItem>>,
) -> (r: Vec<u8>)
    requires
        spec_opt_props_fit(props_ref_view(properties)),
    ensures
        r@ == spec_connack_bytes(
            session_present,
            spec_v5_code_num(return_code),
            props_ref_view(properties),
        ),
{
    let sp: u8 = if session_present == MqttSessionPresent::Enable {
        1
    } else {
        0
    };
    let mut body: Vec<u8> = Vec::new();
    body.push(sp);
    body.push(return_code.as_byte());

    if let Some(props) = properties {
        proof {
            assert(props_ref_view(properties) == Some(items_view(props@)));
            assert(spec_opt_props_fit(Some(items_view(props@))));
            crate::hex::lemma_items_view_fits(props@);
        }
        let mut block = pack_property::connack(props);
        body.append(&mut block);
    }

    assert(body@ =~= seq![sp, spec_v5_code_num(return_code)] + spec_opt_block(
        props_ref_view(properties),
        PropertyFilter::Connack,
    ));

    let mut package = pack_header(TypeKind::CONNACK, body.len());
    package.append(&mut body);
    assert(package@ =~= spec_connack_bytes(
        session_present,
        spec_v5_code_num(return_code),
        props_ref_view(properties),
    ));
    package
}

/// The body of a v5 PUBLISH: topic, identifier when the QoS asks for one,
/// property block, then the application bytes.
pub open spec fn spec_publish_body(m: PublishMessage) -> Seq<u8> {
    spec_string_bytes(m.topic@) + (if m.qos != MqttQos::Qos0 {
        spec_short(m.message_id)
    } else {
        Seq::empty()
    }) + spec_opt_block(props_view(m.properties), PropertyFilter::Publish) + encode_utf8(
        m.msg_body@,
    )
}

/// A whole v5 PUBLISH packet.
pub open spec fn spec_publish_bytes(m: PublishMessage) -> Seq<u8> {
    seq![
        spec_publish_flags_byte(TypeKind::PUBLISH, Some(m.qos), Some(m.dup), Some(m.retain)),
    ] + spec_varint(spec_publish_body(m).len()) + spec_publish_body(m)
}

/// Serializes a v5 PUBLISH.
pub fn publish(msg: &PublishMessage) -> (r: Vec<u8>)
    requires
        encode_utf8(msg.topic@).len() <= 65535,
        msg.qos != MqttQos::Failure,
        spec_opt_props_fit(props_view(msg.properties)),
    ensures
        r@ == spec_publish_bytes(*msg),
{
    let mut body = pack_string(&msg.topic);

    if !matches!(msg.qos, MqttQos::Qos0) {
        let mut id = pack_message_short_id(msg.message_id);
        body.append(&mut id);
    }

    if let Some(props) = msg.properties.as_ref() {
        proof {
            assert(props_view(msg.properties) == Some(items_view(props@)));
            assert(spec_opt_props_fit(Some(items_view(props@))));
            crate::hex::lemma_items_view_fits(props@);
        }
        let mut block = pack_property::publish(props);
        body.append(&mut block);
    }

    let mut payload = msg.msg_body.as_str().as_bytes_vec();
    body.append(&mut payload);

    assert(body@ =~= spec_publish_body(*msg));

    let mut package = pack_publish_header(
        TypeKind::PUBLISH,
        body.len(),
        Some(msg.qos),
        Some(msg.dup),
        Some(msg.retain),
    );
    package.append(&mut body);
    assert(package@ =~= spec_publish_bytes(*msg));
    package
}

/// The subscription options byte of a v5 SUBSCRIBE entry.
pub open spec fn spec_sub_options(m: SubscribeMessage) -> u8 {
    ((match m.qos {
        Some(q) => spec_qos_num(q) as int,
        None => 0int,
    }) + (if m.no_local == Some(MqttNoLocal::Enable) {
        4int
    } else {
        0int
    }) + (if m.retain_as_published == Some(MqttRetainAsPublished::Enable) {
        8int
    } else {
        0int
    }) + (match m.retain_handling {
        Some(rh) => rh * 16,
        None => 0int,
    })) as u8
}

/// One v5 SUBSCRIBE packet for one subscription.
pub open spec fn spec_subscribe_one_bytes(m: SubscribeMessage) -> Seq<u8> {
    let body = spec_short(m.message_id) + spec_opt_block(
        props_view(m.properties),
        PropertyFilter::Subscribe,
    ) + spec_string_bytes(m.topic@) + seq![spec_sub_options(m)];
    spec_header_bytes(TypeKind::SUBSCRIBE, body.len()) + body
}

/// The packets of a run of v5 subscriptions, back to back.
pub open spec fn spec_subscribe_list_bytes(s: Seq<SubscribeMessage>) -> Seq<u8>
    decreases s.len(),
{
    if s.len() == 0 {
        Seq::empty()
    } else {
        spec_subscribe_one_bytes(s[0]) + spec_subscribe_list_bytes(s.skip(1))
    }
}

/// What a v5 SUBSCRIBE must hold to stand on the wire.
pub open spec fn spec_subscribe_v5_wf(m: SubscribeMessage) -> bool {
    &&& encode_utf8(m.topic@).len() <= 65535
    &&& spec_opt_props_fit(props_view(m.properties))
    &&& (m.retain_handling matches Some(rh) ==> rh <= 3)
}

/// Serializes a run of v5 subscriptions, one packet each.
#[verifier::loop_isolation(false)]
pub fn subscribe(data: Vec<SubscribeMessage>) -> (r: Vec<u8>)
    requires
        forall|i: int| 0 <= i < data@.len() ==> spec_subscribe_v5_wf(#[trigger] data@[i]),
    ensures
        r@ == spec_subscribe_list_bytes(data@),
{
    let mut out: Vec<u8> = Vec::new();
    let mut i: usize = 0;
    proof {
        assert(data@.skip(0) =~= data@);
    }
    while i < data.len()
        invariant
            i <= data@.len(),
            out@ + spec_subscribe_list_bytes(data@.skip(i as int)) == spec_subscribe_list_bytes(
                data@,
            ),
        decreases data@.len() - i,
    {
        let msg = &data[i];
        let mut body = pack_message_short_id(msg.message_id);

        if let Some(props) = msg.properties.as_ref() {
            proof {
                crate::hex::lemma_items_view_fits(props@);
            }
            let mut block = pack_property::subscribe(props);
            body.append(&mut block);
        }

        let mut topic = pack_string(&msg.topic);
        body.append(&mut topic);

        let mut option: u8 = 0;
        if let Some(qos) = msg.qos {
            option = option + qos.as_byte();
        }
        if let Some(nl) = msg.no_local {
            if nl == MqttNoLocal::Enable {
                option = option + 4;
            }
        }
        if let Some(rap) = msg.retain_as_published {
            if rap == MqttRetainAsPublished::Enable {
                option = option + 8;
            }
        }
        if let Some(rh) = msg.retain_handling {
            option = option + rh * 16;
        }
        body.push(option);

        let mut package = pack_header(TypeKind::SUBSCRIBE, body.len());
        package.append(&mut body);
        assert(package@ =~= spec_subscribe_one_bytes(data@[i as int]));

        out.append(&mut package);
        proof {
            assert(data@.skip(i as int).skip(1) =~= data@.skip(i + 1));
            assert(out@ + spec_subscribe_list_bytes(data@.skip(i + 1)) =~=
                spec_subscribe_list_bytes(data@));
        }
        i = i + 1;
    }
    proof {
        assert(data@.skip(data@.len() as int) =~= Seq::<SubscribeMessage>::empty());
        assert(out@ =~= spec_subscribe_list_bytes(data@));
    }
    out
}

/// A whole v5 SUBACK packet: identifier, property block, one code per topic.
pub open spec fn spec_suback_bytes(
    message_id: u16,
    props: Option<Seq<PropertyItemModel>>,
    codes: Seq<u8>,
) -> Seq<u8> {
    let body = spec_short(message_id) + spec_opt_block(props, PropertyFilter::PubAndSub) + codes;
    spec_header_bytes(TypeKind::SUBACK, body.len()) + body
}

/// Serializes a v5 SUBACK.
pub fn suback(msg: &SubackMessage) -> (r: Vec<u8>)
    requires
        spec_opt_props_fit(props_view(msg.properties)),
    ensures
        r@ == spec_suback_bytes(msg.message_id, props_view(msg.properties), msg.codes@),
{
    let mut body = pack_message_short_id(msg.message_id);

    if let Some(props) = msg.properties.as_ref() {
        proof {
            assert(props_view(msg.properties) == Some(items_view(props@)));
            assert(spec_opt_props_fit(Some(items_view(props@))));
            crate::hex::lemma_items_view_fits(props@);
        }
        let mut block = pack_property::suback(props);
        body.append(&mut block);
    }

    let mut codes = vstd::slice::slice_to_vec(msg.codes.as_slice());
    body.append(&mut codes);

    assert(body@ =~= spec_short(msg.message_id) + spec_opt_block(
        props_view(msg.properties),
        PropertyFilter::PubAndSub,
    ) + msg.codes@);

    let mut package = pack_header(TypeKind::SUBACK, body.len());
    package.append(&mut body);
    assert(package@ =~= spec_suback_bytes(msg.message_id, props_view(msg.properties), msg.codes@));
    package
}

/// A whole v5 UNSUBACK packet.
pub open spec fn spec_unsuback_bytes(
    message_id: u16,
    props: Option<Seq<PropertyItemModel>>,
    codes: Seq<u8>,
) -> Seq<u8> {
    let body = spec_short(message_id) + spec_opt_block(props, PropertyFilter::PubAndSub) + codes;
    spec_header_bytes(TypeKind::UNSUBACK, body.len()) + body
}

/// Serializes a v5 UNSUBACK.
pub fn unsuback(msg: &UnsubackMessage) -> (r: Vec<u8>)
    requires
        spec_opt_props_fit(props_view(msg.properties)),
    ensures
        r@ == spec_unsuback_bytes(msg.message_id, props_view(msg.properties), msg.codes@),
{
    let mut body = pack_message_short_id(msg.message_id);

    if let Some(props) = msg.properties.as_ref() {
        proof {
            assert(props_view(msg.properties) == Some(items_view(props@)));
            assert(spec_opt_props_fit(Some(items_view(props@))));
            crate::hex::lemma_items_view_fits(props@);
        }
        let mut block = pack_property::suback(props);
        body.append(&mut block);
    }

    let mut codes = vstd::slice::slice_to_vec(msg.codes.as_slice());
    body.append(&mut codes);

    assert(body@ =~= spec_short(msg.message_id) + spec_opt_block(
        props_view(msg.properties),
        PropertyFilter::PubAndSub,
    ) + msg.codes@);

    let mut package = pack_header(TypeKind::UNSUBACK, body.len());
    package.append(&mut body);
    assert(package@ =~= spec_unsuback_bytes(
        msg.message_id,
        props_view(msg.properties),
        msg.codes@,
    ));
    package
}

/// A whole v5 DISCONNECT packet.
pub open spec fn spec_disconnect_bytes(code: u8, props: Option<Seq<PropertyItemModel>>) -> Seq<
    u8,
> {
    let body = seq![code] + spec_opt_block(props, PropertyFilter::Disconnect);
    spec_header_bytes(TypeKind::DISCONNECT, body.len()) + body
}

/// Serializes a v5 DISCONNECT.
pub fn disconnect(msg: &DisconnectMessage) -> (r: Vec<u8>)
    requires
        spec_opt_props_fit(props_view(msg.properties)),
    ensures
        r@ == spec_disconnect_bytes(msg.code, props_view(msg.properties)),
{
    let mut body: Vec<u8> = Vec::new();
    body.push(msg.code);

    if let Some(props) = msg.properties.as_ref() {
        proof {
            assert(props_view(msg.properties) == Some(items_view(props@)));
            assert(spec_opt_props_fit(Some(items_view(props@))));
            crate::hex::lemma_items_view_fits(props@);
        }
        let mut block = pack_property::disconnect(props);
        body.append(&mut block);
    }

    assert(body@ =~= seq![msg.code] + spec_opt_block(
        props_view(msg.properties),
        PropertyFilter::Disconnect,
    ));

    let mut package = pack_header(TypeKind::DISCONNECT, body.len());
    package.append(&mut body);
    assert(package@ =~= spec_disconnect_bytes(msg.code, props_view(msg.properties)));
    package
}

/// A whole v5 AUTH packet.
pub open spec fn spec_auth_bytes(code: u8, props: Option<Seq<PropertyItemModel>>) -> Seq<u8> {
    let body = seq![code] + spec_opt_block(props, PropertyFilter::Auth);
    spec_header_bytes(TypeKind::AUTH, body.len()) + body
}

/// Serializes a v5 AUTH.
pub fn auth(msg: &AuthMessage) -> (r: Vec<u8>)
    requires
        spec_opt_props_fit(props_view(msg.properties)),
    ensures
        r@ == spec_auth_bytes(msg.code, props_view(msg.properties)),
{
    let mut body: Vec<u8> = Vec::new();
    body.push(msg.code);

    if let Some(props) = msg.properties.as_ref() {
        proof {
            assert(props_view(msg.properties) == Some(items_view(props@)));
            assert(spec_opt_props_fit(Some(items_view(props@))));
            crate::hex::lemma_items_view_fits(props@);
        }
        let mut block = pack_property::auth(props);
        body.append(&mut block);
    }

    assert(body@ =~= seq![msg.code] + spec_opt_block(
        props_view(msg.properties),
        PropertyFilter::Auth,
    ));

    let mut package = pack_header(TypeKind::AUTH, body.len());
    package.append(&mut body);
    assert(package@ =~= spec_auth_bytes(msg.code, props_view(msg.properties)));
    package
}

/// A whole v5 acknowledgment packet; PUBREL carries the flag bits the
/// protocol fixes for it.
pub open spec fn spec_common_bytes(
    message_id: u16,
    code: ReasonPhrases,
    props: Option<Seq<PropertyItemModel>>,
    kind: TypeKind,
) -> Seq<u8> {
    let body = spec_short(message_id) + seq![spec_phrase_num(code)] + spec_opt_block(
        props,
        PropertyFilter::PubAndSub,
    );
    (if kind == TypeKind::PUBREL {
        seq![
            spec_publish_flags_byte(kind, Some(MqttQos::Qos1), Some(MqttDup::Disable), None),
        ] + spec_varint(body.len())
    } else {
        spec_header_bytes(kind, body.len())
    }) + body
}

/// Serializes a v5 acknowledgment packet.
pub fn common(
    message_id: u16,
    code: ReasonPhrases,
    properties: Option<&Vec<PropertyItem>>,
    kind: TypeKind,
) -> (r: Vec<u8>)
    requires
        spec_opt_props_fit(props_ref_view(properties)),
    ensures
        r@ == spec_common_bytes(message_id, code, props_ref_view(properties), kind),
{
    let mut body = pack_message_short_id(message_id);

    body.push(code.as_byte());

    if let Some(props) = properties {
        proof {
            assert(props_ref_view(properties) == Some(items_view(props@)));
            assert(spec_opt_props_fit(Some(items_view(props@))));
            crate::hex::lemma_items_view_fits(props@);
        }
        let mut block = pack_property::suback(props);
        body.append(&mut block);
    }

    assert(body@ =~= spec_short(message_id) + seq![spec_phrase_num(code)] + spec_opt_block(
        props_ref_view(properties),
        PropertyFilter::PubAndSub,
    ));

    let mut package = if kind.is_pubrel() {
        pack_publish_header(kind, body.len(), Some(MqttQos::Qos1), Some(MqttDup::Disable), None)
    } else {
        pack_header(kind, body.len())
    };
    package.append(&mut body);
    assert(package@ =~= spec_common_bytes(message_id, code, props_ref_view(properties), kind));
    package
}

} // verus!
