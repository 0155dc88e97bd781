use vstd::prelude::*;
use vstd::string::StrSliceExecFns;
use vstd::utf8::encode_utf8;
use crate::protocol::{MqttCleanSession, MqttDup, MqttQos, MqttRetain, MqttWillFlag, spec_qos_num};
use crate::types::{TypeKind, spec_kind_num};

verus! {

/// Big-endian bytes of a 16-bit integer.
pub open spec fn spec_short(v: u16) -> Seq<u8> {
    seq![(v / 256) as u8, (v % 256) as u8]
}

/// Big-endian bytes of a 32-bit integer.
pub open spec fn spec_long(v: u32) -> Seq<u8> {
    seq![
        (v / 0x1000000) as u8,
        ((v / 0x10000) % 256) as u8,
        ((v / 256) % 256) as u8,
        (v % 256) as u8,
    ]
}

/// Variable byte integer: each byte carries seven bits, least significant
/// group first; the high bit of a byte says that another byte follows.
pub open spec fn spec_varint(n: nat) -> Seq<u8>
    decreases n,
{
    if n < 128 {
        seq![n as u8]
    } else {
        seq![(n % 128 + 128) as u8] + spec_varint(n / 128)
    }
}

pub proof fn lemma_spec_varint_len(n: nat)
    ensures
        1 <= spec_varint(n).len(),
        n < 128 ==> spec_varint(n).len() == 1,
        n < 16384 ==> spec_varint(n).len() <= 2,
        n < 2097152 ==> spec_varint(n).len() <= 3,
        n <= crate::varint_max() ==> spec_varint(n).len() <= 4,
    decreases n,
{
    if n >= 128 {
        lemma_spec_varint_len(n / 128);
    }
}

/// One byte, as on the wire.
pub fn pack_byte(data: u8) -> (r: Vec<u8>)
    ensures
        r@ == seq![data],
{
    let mut content: Vec<u8> = Vec::new();
    content.push(data);
    content
}

/// Two bytes, big endian.
pub fn pack_short_int(data: u16) -> (r: Vec<u8>)
    ensures
        r@ == spec_short(data),
{
    let mut content: Vec<u8> = Vec::new();
    content.push((data / 256) as u8);
    content.push((data % 256) as u8);
    content
}

/// Four bytes, big endian.
pub fn pack_long_int(data: u32) -> (r: Vec<u8>)
    ensures
        r@ == spec_long(data),
{
    let mut content: Vec<u8> = Vec::new();
    content.push((data / 0x1000000) as u8);
    content.push(((data / 0x10000) % 256) as u8);
    content.push(((data / 256) % 256) as u8);
    content.push((data % 256) as u8);
    content
}

/// A packet identifier is a two byte integer.
pub fn pack_message_short_id(message_id: u16) -> (r: Vec<u8>)
    ensures
        r@ == spec_short(message_id),
{
    pack_short_int(message_id)
}

/// The remaining-length field of a fixed header: a variable byte integer.
pub fn pack_remaining_length(length: usize) -> (r: Vec<u8>)
    ensures
        r@ == spec_varint(length as nat),
{
    let mut remaining: Vec<u8> = Vec::new();
    let mut length = length;
    let ghost orig: nat = length as nat;
    loop
        invariant_except_break
            spec_varint(orig) == remaining@ + spec_varint(length as nat),
        ensures
            remaining@ == spec_varint(orig),
        decreases length,
    {
        let digit: usize = length % 128;
        length = length / 128;
        if length > 0 {
            remaining.push((digit + 128) as u8);
        } else {
            remaining.push(digit as u8);
            break;
        }
    }
    remaining
}

/// A variable byte integer outside a fixed header (v5 properties).
pub fn pack_var_int(len: usize) -> (r: Vec<u8>)
    ensures
        r@ == spec_varint(len as nat),
{
    pack_remaining_length(len)
}

/// The wire bytes of a string: a two byte big-endian length, then the UTF-8
/// encoding of the characters.
pub open spec fn spec_string_bytes(s: Seq<char>) -> Seq<u8> {
    spec_short(encode_utf8(s).len() as u16) + encode_utf8(s)
}

/// A length-prefixed UTF-8 string, as it stands in a packet body.
pub fn pack_string(str: &String) -> (r: Vec<u8>)
    requires
        encode_utf8(str@).len() <= 65535,
    ensures
        r@ == spec_string_bytes(str@),
{
    let mut bytes = str.as_str().as_bytes_vec();
    let mut content = pack_short_int(bytes.len() as u16);
    content.append(&mut bytes);
    content
}

/// Whether a string fits behind a two byte length prefix.
pub fn string_fits(str: &String) -> (r: bool)
    ensures
        r == (encode_utf8(str@).len() <= 65535),
{
    let bytes = str.as_str().as_bytes_vec();
    bytes.len() <= 65535
}

/// The fixed header of a packet without flags: the kind in the high nibble,
/// then the body length as a variable byte integer.
pub open spec fn spec_header_bytes(k: TypeKind, body_length: nat) -> Seq<u8> {
    seq![(spec_kind_num(k) * 16) as u8] + spec_varint(body_length)
}

/// A fixed header with clear flag bits.
pub fn pack_header(header_type: TypeKind, body_length: usize) -> (r: Vec<u8>)
    ensures
        r@ == spec_header_bytes(header_type, body_length as nat),
{
    let mut header: Vec<u8> = Vec::new();
    header.push(header_type.as_header_byte());
    let mut rest = pack_remaining_length(body_length);
    header.append(&mut rest);
    header
}

/// The first byte of a PUBLISH fixed header: the kind in the high nibble, the
/// DUP bit, two QoS bits, and the RETAIN bit below it.
pub open spec fn spec_publish_flags_byte(
    k: TypeKind,
    qos: Option<MqttQos>,
    dup: Option<MqttDup>,
    retain: Option<MqttRetain>,
) -> u8 {
    (spec_kind_num(k) * 16 + (if dup == Some(MqttDup::Enable) {
        8int
    } else {
        0int
    }) + (match qos {
        Some(q) => spec_qos_num(q) * 2,
        None => 0int,
    }) + (if retain == Some(MqttRetain::Enable) {
        1int
    } else {
        0int
    })) as u8
}

/// A fixed header carrying the PUBLISH flags.
pub fn pack_publish_header(
    header_type: TypeKind,
    body_length: usize,
    qos: Option<MqttQos>,
    dup: Option<MqttDup>,
    retain: Option<MqttRetain>,
) -> (r: Vec<u8>)
    requires
        !(qos == Some(MqttQos::Failure)),
    ensures
        r@ == seq![spec_publish_flags_byte(header_type, qos, dup, retain)] + spec_varint(
            body_length as nat,
        ),
{
    let mut first = header_type.as_header_byte();
    if let Some(d) = dup {
        if d == MqttDup::Enable {
            first = first + 8;
        }
    }
    if let Some(q) = qos {
        first = first + q.as_byte() * 2;
    }
    if let Some(re) = retain {
        if re == MqttRetain::Enable {
            first = first + 1;
        }
    }
    let mut header: Vec<u8> = Vec::new();
    header.push(first);
    let mut rest = pack_remaining_length(body_length);
    header.append(&mut rest);
    header
}

/// The protocol name, as a length-prefixed string.
pub fn pack_protocol_name(name_str: &String) -> (r: Vec<u8>)
    requires
        encode_utf8(name_str@).len() <= 65535,
    ensures
        r@ == spec_string_bytes(name_str@),
{
    pack_string(name_str)
}

/// The client identifier, as a length-prefixed string.
pub fn pack_client_id(client_id: &String) -> (r: Vec<u8>)
    requires
        encode_utf8(client_id@).len() <= 65535,
    ensures
        r@ == spec_string_bytes(client_id@),
{
    pack_string(client_id)
}

/// The connect-flags byte: clean-session, will, will QoS, will retain,
/// password and user-name bits, low to high.
pub open spec fn spec_connect_flags(
    clean_session: MqttCleanSession,
    will_flag: MqttWillFlag,
    will_qos: MqttQos,
    will_retain: MqttRetain,
    has_username: bool,
    has_password: bool,
) -> u8 {
    ((if clean_session == MqttCleanSession::Enable {
        2int
    } else {
        0int
    }) + (if will_flag == MqttWillFlag::Enable {
        4 + spec_qos_num(will_qos) * 8 + (if will_retain == MqttRetain::Enable {
            32int
        } else {
            0int
        })
    } else {
        0int
    }) + (if has_password {
        64int
    } else {
        0int
    }) + (if has_username {
        128int
    } else {
        0int
    })) as u8
}

/// The connect-flags byte of a CONNECT packet; a will QoS above two is
/// refused.
pub fn pack_connect_flags(
    clean_session: MqttCleanSession,
    will_flag: MqttWillFlag,
    will_qos: MqttQos,
    will_retain: MqttRetain,
    username_flag: Option<&String>,
    password_flag: Option<&String>,
) -> (r: Result<u8, String>)
    ensures
        if will_flag == MqttWillFlag::Enable && will_qos == MqttQos::Failure {
            r is Err
        } else {
            r == Ok::<u8, String>(
                spec_connect_flags(
                    clean_session,
                    will_flag,
                    will_qos,
                    will_retain,
                    username_flag is Some,
                    password_flag is Some,
                ),
            )
        },
{
    let mut connect_flags: u8 = 0;
    if clean_session == MqttCleanSession::Enable {
        connect_flags = connect_flags + 2;
    }
    if will_flag == MqttWillFlag::Enable {
        if will_qos == MqttQos::Failure {
            return Err(String::from_str("will qos is not supported"));
        }
        connect_flags = connect_flags + 4;
        connect_flags = connect_flags + will_qos.as_byte() * 8;
        if will_retain == MqttRetain::Enable {
            connect_flags = connect_flags + 32;
        }
    }
    if password_flag.is_some() {
        connect_flags = connect_flags + 64;
    }
    if username_flag.is_some() {
        connect_flags = connect_flags + 128;
    }
    Ok(connect_flags)
}

/// Whether an optional string fits behind a two byte length prefix.
pub open spec fn spec_opt_fits(o: Option<Seq<char>>) -> bool {
    match o {
        Some(s) => encode_utf8(s).len() <= 65535,
        None => true,
    }
}

/// The will topic of a CONNECT, when one is set.
pub fn pack_will_topic(msg: &crate::v3::ConnectMessage) -> (r: Option<Vec<u8>>)
    requires
        spec_opt_fits(crate::message::opt_view(msg.payload.will_topic)),
    ensures
        match msg.payload.will_topic {
            Some(t) => r matches Some(v) && v@ == spec_string_bytes(t@),
            None => r is None,
        },
{
    match msg.payload.will_topic.as_ref() {
        Some(t) => Some(pack_string(t)),
        None => None,
    }
}

/// The will message of a CONNECT, when one is set.
pub fn pack_will_message(msg: &crate::v3::ConnectMessage) -> (r: Option<Vec<u8>>)
    requires
        spec_opt_fits(crate::message::opt_view(msg.payload.will_message)),
    ensures
        match msg.payload.will_message {
            Some(t) => r matches Some(v) && v@ == spec_string_bytes(t@),
            None => r is None,
        },
{
    match msg.payload.will_message.as_ref() {
        Some(t) => Some(pack_string(t)),
        None => None,
    }
}

/// The user name of a CONNECT payload, when one is set.
pub fn pack_username(msg: &crate::v3::ConnectMessage) -> (r: Option<Vec<u8>>)
    requires
        spec_opt_fits(crate::message::opt_view(msg.payload.user_name)),
    ensures
        match msg.payload.user_name {
            Some(t) => r matches Some(v) && v@ == spec_string_bytes(t@),
            None => r is None,
        },
{
    match msg.payload.user_name.as_ref() {
        Some(t) => Some(pack_string(t)),
        None => None,
    }
}

/// The password of a CONNECT payload, when one is set.
pub fn pack_password(msg: &crate::v3::ConnectMessage) -> (r: Option<Vec<u8>>)
    requires
        spec_opt_fits(crate::message::opt_view(msg.payload.password)),
    ensures
        match msg.payload.password {
            Some(t) => r matches Some(v) && v@ == spec_string_bytes(t@),
            None => r is None,
        },
{
    match msg.payload.password.as_ref() {
        Some(t) => Some(pack_string(t)),
        None => None,
    }
}

} // verus!
