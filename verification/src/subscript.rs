use vstd::prelude::*;
use crate::machine::MachineManager;
use crate::message::{BaseConnect, BaseMessage, MqttMessageKind, opt_view};
use crate::pack_tool::spec_opt_fits;
use crate::protocol::{MqttProtocolLevel, MqttQos, MqttRetain, MqttWillFlag};
use crate::reason_code::ReasonCodeV3;
use crate::types::TypeKind;
use crate::v3;
use crate::v5;

verus! {

/// The identifier a client connects under: the key of every subscription.
#[derive(Debug, Clone, Eq)]
pub struct ClientID(pub String);

impl View for ClientID {
    type V = Seq<char>;

    open spec fn view(&self) -> Seq<char> {
        self.0@
    }
}

impl ClientID {
    pub fn as_string(&self) -> (r: String)
        ensures
            r@ == self@,
    {
        self.0.clone()
    }
}

impl PartialEq for ClientID {
    fn eq(&self, other: &Self) -> (r: bool) {
        self.0 == other.0
    }
}

impl vstd::std_specs::cmp::PartialEqSpecImpl for ClientID {
    open spec fn obeys_eq_spec() -> bool {
        true
    }

    open spec fn eq_spec(&self, other: &Self) -> bool {
        self.0@ == other.0@
    }
}

/// The handle under which the runtime knows a connection's inbound channel;
/// the registry stores and hands out handles, the runtime delivers on them.
#[derive(Debug, Clone, Copy, PartialEq, Eq, Structural)]
pub struct SenderHandle(pub u64);

/// The envelope a broadcast delivers: who published, and the packet.
#[derive(Debug)]
pub enum TopicMessage {
    ContentV3(ClientID, v3::PublishMessage),
    ContentV5(ClientID, v5::PublishMessage),
    Will(v3::PublishMessage),
}

impl TopicMessage {
    pub fn get_topic(&self) -> (r: Option<&String>)
        ensures
            match *self {
                TopicMessage::ContentV3(_, m) => r matches Some(t) && t@ == m.topic@,
                TopicMessage::ContentV5(_, m) => r matches Some(t) && t@ == m.topic@,
                TopicMessage::Will(_) => r is None,
            },
    {
        match self {
            TopicMessage::ContentV3(_, msg) => Some(&msg.topic),
            TopicMessage::ContentV5(_, msg) => Some(&msg.topic),
            TopicMessage::Will(_) => None,
        }
    }
}

/// What a connection's driving loop receives: raw socket bytes, or an
/// envelope another client published.
#[derive(Debug)]
pub enum LineMessage {
    SocketMessage(Vec<u8>),
    SubscriptionMessage(TopicMessage),
}

/// What a delivery envelope means to the receiving connection: the
/// originator, when the envelope names one, and the serialized publish.
pub open spec fn spec_message_of(t: TopicMessage) -> (Option<Seq<char>>, Seq<u8>) {
    match t {
        TopicMessage::ContentV3(c, m) => (Some(c@), m.bytes@),
        TopicMessage::ContentV5(c, m) => (Some(c@), m.bytes@),
        TopicMessage::Will(m) => (None, m.bytes@),
    }
}

/// Copies a v3 publish, field by field.
pub(crate) fn clone_publish_v3(m: &v3::PublishMessage) -> (r: v3::PublishMessage)
    ensures
        r.msg_type == m.msg_type,
        r.message_id == m.message_id,
        r.topic@ == m.topic@,
        r.dup == m.dup,
        r.qos == m.qos,
        r.retain == m.retain,
        r.msg_body@ == m.msg_body@,
        r.bytes@ == m.bytes@,
{
    v3::PublishMessage {
        msg_type: m.msg_type,
        message_id: m.message_id,
        topic: m.topic.clone(),
        dup: m.dup,
        qos: m.qos,
        retain: m.retain,
        msg_body: m.msg_body.clone(),
        bytes: vstd::slice::slice_to_vec(m.bytes.as_slice()),
    }
}

/// Copies one property value, field by field.
fn clone_property_value(v: &crate::hex::PropertyValue) -> (r: crate::hex::PropertyValue)
    ensures
        r == *v,
{
    match v {
        crate::hex::PropertyValue::Long(x) => crate::hex::PropertyValue::Long(*x),
        crate::hex::PropertyValue::Short(x) => crate::hex::PropertyValue::Short(*x),
        crate::hex::PropertyValue::Byte(x) => crate::hex::PropertyValue::Byte(*x),
        crate::hex::PropertyValue::String(s) => crate::hex::PropertyValue::String(s.clone()),
        crate::hex::PropertyValue::Pair(k, w) => crate::hex::PropertyValue::Pair(
            k.clone(),
            w.clone(),
        ),
        crate::hex::PropertyValue::VarInt(x) => crate::hex::PropertyValue::VarInt(*x),
    }
}

/// Copies a property list, item by item.
pub(crate) fn clone_properties(v: &Vec<crate::hex::PropertyItem>) -> (r: Vec<crate::hex::PropertyItem>)
    ensures
        r@ == v@,
{
    let mut out: Vec<crate::hex::PropertyItem> = Vec::new();
    let mut i: usize = 0;
    while i < v.len()
        invariant
            i <= v@.len(),
            out@ =~= v@.take(i as int),
        decreases v@.len() - i,
    {
        let item = &v[i];
        out.push(crate::hex::PropertyItem(item.0, clone_property_value(&item.1)));
        proof {
            assert(out@ =~= v@.take(i + 1));
        }
        i = i + 1;
    }
    proof {
        assert(v@.take(v@.len() as int) =~= v@);
    }
    out
}

/// Copies a v5 publish, field by field.
fn clone_publish_v5(m: &v5::PublishMessage) -> (r: v5::PublishMessage)
    ensures
        r.bytes@ == m.bytes@,
        r.topic@ == m.topic@,
{
    let properties = match m.properties.as_ref() {
        Some(ps) => Some(clone_properties(ps)),
        None => None,
    };
    let r = v5::PublishMessage {
        msg_type: m.msg_type,
        message_id: m.message_id,
        topic: m.topic.clone(),
        dup: m.dup,
        qos: m.qos,
        retain: m.retain,
        msg_body: m.msg_body.clone(),
        properties,
        bytes: vstd::slice::slice_to_vec(m.bytes.as_slice()),
    };
    r
}

/// Copies a delivery envelope, field by field.
pub fn clone_topic_message(msg: &TopicMessage) -> (r: TopicMessage)
    ensures
        spec_message_of(r) == spec_message_of(*msg),
{
    match msg {
        TopicMessage::ContentV3(c, m) => TopicMessage::ContentV3(
            ClientID(c.0.clone()),
            clone_publish_v3(m),
        ),
        TopicMessage::ContentV5(c, m) => TopicMessage::ContentV5(
            ClientID(c.0.clone()),
            clone_publish_v5(m),
        ),
        TopicMessage::Will(m) => TopicMessage::Will(clone_publish_v3(m)),
    }
}

/// One topic's subscribers: each client at most once, with the handle its
/// deliveries go to.
#[derive(Debug)]
pub struct Topic {
    pub name: String,
    pub senders: Vec<(ClientID, SenderHandle)>,
}

impl View for Topic {
    type V = Seq<(Seq<char>, u64)>;

    open spec fn view(&self) -> Seq<(Seq<char>, u64)> {
        self.senders@.map(|i: int, p: (ClientID, SenderHandle)| (p.0@, p.1.0))
    }
}

/// Whether some entry of a subscriber list belongs to the client.
pub open spec fn spec_has_client(s: Seq<(Seq<char>, u64)>, c: Seq<char>) -> bool {
    exists|i: int| 0 <= i < s.len() && (#[trigger] s[i]).0 == c
}

/// The handle the client's entry carries.
pub open spec fn spec_sender_of(s: Seq<(Seq<char>, u64)>, c: Seq<char>) -> u64 {
    let i = choose|i: int| 0 <= i < s.len() && (#[trigger] s[i]).0 == c;
    s[i].1
}

/// Whether no client holds two entries.
pub open spec fn spec_clients_unique(s: Seq<(Seq<char>, u64)>) -> bool {
    forall|i: int, j: int| 0 <= i < j < s.len() ==> (#[trigger] s[i]).0 != (#[trigger] s[j]).0
}

impl Topic {
    /// Every entry of the client is the one entry `spec_sender_of` names.
    pub proof fn lemma_sender_unique(s: Seq<(Seq<char>, u64)>, c: Seq<char>, i: int)
        requires
            spec_clients_unique(s),
            0 <= i < s.len(),
            s[i].0 == c,
        ensures
            s[i].1 == spec_sender_of(s, c),
            spec_has_client(s, c),
    {
        let j = choose|j: int| 0 <= j < s.len() && (#[trigger] s[j]).0 == c;
        if i != j {
            assert(false);
        }
    }

    pub fn new(name: String) -> (r: Topic)
        ensures
            r.name@ == name@,
            r@ =~= Seq::<(Seq<char>, u64)>::empty(),
            spec_clients_unique(r@),
    {
        Topic { name, senders: Vec::new() }
    }

    /// The index of the client's entry, when it has one.
    fn find(&self, client_id: &ClientID) -> (r: Option<usize>)
        ensures
            match r {
                Some(i) => i < self@.len() && self@[i as int].0 == client_id@,
                None => !spec_has_client(self@, client_id@),
            },
    {
        let mut i: usize = 0;
        while i < self.senders.len()
            invariant
                i <= self@.len(),
                self@.len() == self.senders@.len(),
                forall|j: int| 0 <= j < i ==> (#[trigger] self@[j]).0 != client_id@,
            decreases self@.len() - i,
        {
            if self.senders[i].0.0 == client_id.0 {
                assert(self@[i as int].0 == client_id@);
                return Some(i);
            }
            proof {
                assert(self@[i as int].0 != client_id@);
            }
            i = i + 1;
        }
        None
    }

    /// Inserts the client with the handle, replacing the handle the client
    /// held before, if any.
    pub fn subscript(&mut self, client_id: ClientID, sender: SenderHandle)
        requires
            spec_clients_unique(old(self)@),
        ensures
            final(self).name@ == old(self).name@,
            spec_clients_unique(final(self)@),
            if spec_has_client(old(self)@, client_id@) {
                exists|i: int|
                    0 <= i < old(self)@.len() && old(self)@[i].0 == client_id@ && final(self)@
                        == old(self)@.update(i, (client_id@, sender.0))
            } else {
                final(self)@ == old(self)@.push((client_id@, sender.0))
            },
            spec_has_client(final(self)@, client_id@),
            spec_sender_of(final(self)@, client_id@) == sender.0,
    {
        let found = self.find(&client_id);
        match found {
            Some(i) => {
                let ghost oldview = self@;
                self.senders.set(i, (client_id, sender));
                proof {
                    assert(self@ =~= oldview.update(i as int, (oldview[i as int].0, sender.0)));
                    Topic::lemma_sender_unique(self@, self@[i as int].0, i as int);
                }
            },
            None => {
                let ghost oldview = self@;
                let ghost c = client_id@;
                self.senders.push((client_id, sender));
                proof {
                    assert(self@ =~= oldview.push((c, sender.0)));
                    assert(spec_clients_unique(self@));
                    Topic::lemma_sender_unique(self@, c, self@.len() - 1);
                }
            },
        }
    }

    /// Removes the client's entry, handing back the handle it held.
    pub fn unsubscript(&mut self, client_id: &ClientID) -> (r: Option<SenderHandle>)
        requires
            spec_clients_unique(old(self)@),
        ensures
            final(self).name@ == old(self).name@,
            spec_clients_unique(final(self)@),
            !spec_has_client(final(self)@, client_id@),
            if spec_has_client(old(self)@, client_id@) {
                exists|i: int|
                    0 <= i < old(self)@.len() && old(self)@[i].0 == client_id@ && final(self)@
                        == old(self)@.remove(i) && r == Some(SenderHandle(old(self)@[i].1))
            } else {
                final(self)@ == old(self)@ && r is None
            },
            forall|c2: Seq<char>|
                c2 != client_id@ ==> #[trigger] spec_has_client(final(self)@, c2)
                    == spec_has_client(old(self)@, c2),
            forall|c2: Seq<char>|
                c2 != client_id@ && spec_has_client(old(self)@, c2)
                    ==> #[trigger] spec_sender_of(final(self)@, c2) == spec_sender_of(
                    old(self)@,
                    c2,
                ),
    {
        let found = self.find(client_id);
        match found {
            Some(i) => {
                let ghost oldview = self@;
                let (_, handle) = self.senders.remove(i);
                proof {
                    assert(self@ =~= oldview.remove(i as int));
                    assert forall|c2: Seq<char>|
                        c2 != client_id@ && spec_has_client(oldview, c2) implies spec_has_client(
                        self@,
                        c2,
                    ) && spec_sender_of(self@, c2) == spec_sender_of(oldview, c2) by {
                        let j = choose|j: int| 0 <= j < oldview.len() && (#[trigger] oldview[j]).0
                            == c2;
                        let j2 = if j < i as int {
                            j
                        } else {
                            j - 1
                        };
                        assert(self@[j2] == oldview[j]);
                        Topic::lemma_sender_unique(self@, c2, j2);
                        Topic::lemma_sender_unique(oldview, c2, j);
                    }
                    assert forall|c2: Seq<char>| spec_has_client(self@, c2) implies c2
                        != client_id@ && spec_has_client(oldview, c2) by {
                        let j = choose|j: int| 0 <= j < self@.len() && (#[trigger] self@[j]).0
                            == c2;
                        let j2 = if j < i as int {
                            j
                        } else {
                            j + 1
                        };
                        assert(oldview[j2] == self@[j]);
                    }
                }
                Some(handle)
            },
            None => None,
        }
    }

    /// The clients subscribed, in registry order.
    pub fn client_id_list(&self) -> (r: Vec<ClientID>)
        ensures
            r@.len() == self@.len(),
            forall|i: int| 0 <= i < self@.len() ==> (#[trigger] r@[i])@ == self@[i].0,
    {
        let mut out: Vec<ClientID> = Vec::new();
        let mut i: usize = 0;
        while i < self.senders.len()
            invariant
                i <= self.senders@.len(),
                self@.len() == self.senders@.len(),
                out@.len() == i,
                forall|j: int| 0 <= j < i ==> (#[trigger] out@[j])@ == self@[j].0,
            decreases self.senders@.len() - i,
        {
            out.push(ClientID(self.senders[i].0.0.clone()));
            i = i + 1;
        }
        out
    }

    pub fn client_len(&self) -> (r: usize)
        ensures
            r == self@.len(),
    {
        self.senders.len()
    }

    /// One delivery of the envelope for every subscriber, in registry order;
    /// a subscribing originator is served like anyone else.
    pub fn broadcast(&self, msg: &TopicMessage) -> (r: Vec<(SenderHandle, LineMessage)>)
        ensures
            r@.len() == self@.len(),
            forall|i: int|
                0 <= i < self@.len() ==> ((#[trigger] r@[i]).0.0 == self@[i].1 && (r@[i].1
                    matches LineMessage::SubscriptionMessage(m) && spec_message_of(m)
                    == spec_message_of(*msg))),
    {
        let mut out: Vec<(SenderHandle, LineMessage)> = Vec::new();
        let mut i: usize = 0;
        while i < self.senders.len()
            invariant
                i <= self.senders@.len(),
                self@.len() == self.senders@.len(),
                out@.len() == i,
                forall|j: int|
                    0 <= j < i ==> ((#[trigger] out@[j]).0.0 == self@[j].1 && (out@[j].1
                        matches LineMessage::SubscriptionMessage(m) && spec_message_of(m)
                        == spec_message_of(*msg))),
            decreases self.senders@.len() - i,
        {
            let handle = self.senders[i].1;
            out.push((handle, LineMessage::SubscriptionMessage(clone_topic_message(msg))));
            i = i + 1;
        }
        out
    }

    pub fn contain(&self, client_id: &ClientID) -> (r: bool)
        ensures
            r == spec_has_client(self@, client_id@),
    {
        self.find(client_id).is_some()
    }
}

/// The broker-wide subscription registry: topics by name, each with its
/// subscribers.
#[derive(Debug)]
pub struct Subscript {
    pub container: Vec<Topic>,
}

/// Whether the registry is sound: topic names unique, and every topic's
/// subscriber list sound.
pub open spec fn spec_topics_wf(s: Seq<Topic>) -> bool {
    &&& forall|i: int, j: int|
        0 <= i < j < s.len() ==> (#[trigger] s[i]).name@ != (#[trigger] s[j]).name@
    &&& forall|i: int| 0 <= i < s.len() ==> spec_clients_unique((#[trigger] s[i])@)
}

/// Whether a topic of the name exists.
pub open spec fn spec_contains_topic(s: Seq<Topic>, name: Seq<char>) -> bool {
    exists|i: int| 0 <= i < s.len() && (#[trigger] s[i]).name@ == name
}

/// The subscriber list of the topic of the name.
pub open spec fn spec_topic_at(s: Seq<Topic>, name: Seq<char>) -> Seq<(Seq<char>, u64)> {
    let i = choose|i: int| 0 <= i < s.len() && (#[trigger] s[i]).name@ == name;
    s[i]@
}

/// Whether the client is subscribed to the topic of the name.
pub open spec fn spec_is_subscript(s: Seq<Topic>, name: Seq<char>, c: Seq<char>) -> bool {
    spec_contains_topic(s, name) && spec_has_client(spec_topic_at(s, name), c)
}

/// Every topic of the name is the one topic `spec_topic_at` reads.
pub proof fn lemma_topic_at_unique(s: Seq<Topic>, name: Seq<char>, i: int)
    requires
        spec_topics_wf(s),
        0 <= i < s.len(),
        s[i].name@ == name,
    ensures
        s[i]@ == spec_topic_at(s, name),
        spec_contains_topic(s, name),
{
    let j = choose|j: int| 0 <= j < s.len() && (#[trigger] s[j]).name@ == name;
    if i != j {
        assert(false);
    }
}

impl Subscript {
    pub fn new() -> (r: Subscript)
        ensures
            r.container@.len() == 0,
            spec_topics_wf(r.container@),
    {
        Subscript { container: Vec::new() }
    }

    /// The index of the topic of the name, when one exists.
    fn find_topic(&self, topic_name: &String) -> (r: Option<usize>)
        ensures
            match r {
                Some(i) => i < self.container@.len() && self.container@[i as int].name@
                    == topic_name@,
                None => !spec_contains_topic(self.container@, topic_name@),
            },
    {
        let mut i: usize = 0;
        while i < self.container.len()
            invariant
                i <= self.container@.len(),
                forall|j: int|
                    0 <= j < i ==> (#[trigger] self.container@[j]).name@ != topic_name@,
            decreases self.container@.len() - i,
        {
            if self.container[i].name == *topic_name {
                return Some(i);
            }
            i = i + 1;
        }
        None
    }

    pub fn contain(&self, topic_name: &String) -> (r: bool)
        ensures
            r == spec_contains_topic(self.container@, topic_name@),
    {
        self.find_topic(topic_name).is_some()
    }

    pub fn len(&self) -> (r: usize)
        ensures
            r == self.container@.len(),
    {
        self.container.len()
    }

    /// Puts the topic in under the name, handing back the topic that held
    /// the name before, if any.
    pub fn add(&mut self, topic_name: String, topic: Topic) -> (r: Option<Topic>)
        requires
            spec_topics_wf(old(self).container@),
            topic.name@ == topic_name@,
            spec_clients_unique(topic@),
        ensures
            spec_topics_wf(final(self).container@),
            spec_contains_topic(final(self).container@, topic_name@),
            spec_topic_at(final(self).container@, topic_name@) == topic@,
            r is Some <==> spec_contains_topic(old(self).container@, topic_name@),
            forall|n2: Seq<char>|
                n2 != topic_name@ ==> #[trigger] spec_contains_topic(final(self).container@, n2)
                    == spec_contains_topic(old(self).container@, n2),
            forall|n2: Seq<char>|
                n2 != topic_name@ && spec_contains_topic(old(self).container@, n2)
                    ==> #[trigger] spec_topic_at(final(self).container@, n2) == spec_topic_at(
                    old(self).container@,
                    n2,
                ),
    {
        let found = self.find_topic(&topic_name);
        match found {
            Some(i) => {
                let ghost oldc = self.container@;
                let old_topic = self.container.remove(i);
                self.container.insert(i, topic);
                proof {
                    assert(self.container@ =~= oldc.update(i as int, self.container@[i as int]));
                    lemma_topic_at_unique(self.container@, topic_name@, i as int);
                    assert forall|n2: Seq<char>| n2 != topic_name@ implies #[trigger]
                        spec_contains_topic(self.container@, n2) == spec_contains_topic(
                        oldc,
                        n2,
                    ) by {
                        if spec_contains_topic(oldc, n2) {
                            let j = choose|j: int| 0 <= j < oldc.len() && (#[trigger] oldc[j]).name@
                                == n2;
                            assert(self.container@[j].name@ == n2);
                        }
                        if spec_contains_topic(self.container@, n2) {
                            let j = choose|j: int|
                                0 <= j < self.container@.len() && (#[trigger] self.container@[j])
                                    .name@ == n2;
                            assert(oldc[j].name@ == n2);
                        }
                    }
                    assert forall|n2: Seq<char>|
                        n2 != topic_name@ && spec_contains_topic(oldc, n2) implies #[trigger]
                        spec_topic_at(self.container@, n2) == spec_topic_at(oldc, n2) by {
                        let j = choose|j: int| 0 <= j < oldc.len() && (#[trigger] oldc[j]).name@
                            == n2;
                        lemma_topic_at_unique(oldc, n2, j);
                        lemma_topic_at_unique(self.container@, n2, j);
                    }
                }
                Some(old_topic)
            },
            None => {
                let ghost oldc = self.container@;
                self.container.push(topic);
                proof {
                    assert(spec_topics_wf(self.container@));
                    lemma_topic_at_unique(
                        self.container@,
                        topic_name@,
                        self.container@.len() - 1,
                    );
                    assert forall|n2: Seq<char>| n2 != topic_name@ implies #[trigger]
                        spec_contains_topic(self.container@, n2) == spec_contains_topic(
                        oldc,
                        n2,
                    ) by {
                        if spec_contains_topic(oldc, n2) {
                            let j = choose|j: int| 0 <= j < oldc.len() && (#[trigger] oldc[j]).name@
                                == n2;
                            assert(self.container@[j].name@ == n2);
                        }
                        if spec_contains_topic(self.container@, n2) {
                            let j = choose|j: int|
                                0 <= j < self.container@.len() && (#[trigger] self.container@[j])
                                    .name@ == n2;
                            assert(oldc[j].name@ == n2);
                        }
                    }
                    assert forall|n2: Seq<char>|
                        n2 != topic_name@ && spec_contains_topic(oldc, n2) implies #[trigger]
                        spec_topic_at(self.container@, n2) == spec_topic_at(oldc, n2) by {
                        let j = choose|j: int| 0 <= j < oldc.len() && (#[trigger] oldc[j]).name@
                            == n2;
                        lemma_topic_at_unique(oldc, n2, j);
                        lemma_topic_at_unique(self.container@, n2, j);
                    }
                }
                None
            },
        }
    }

    /// Takes the topic of the name out, if one exists.
    pub fn remove(&mut self, topic_name: &String) -> (r: Option<Topic>)
        requires
            spec_topics_wf(old(self).container@),
        ensures
            spec_topics_wf(final(self).container@),
            !spec_contains_topic(final(self).container@, topic_name@),
            r is Some <==> spec_contains_topic(old(self).container@, topic_name@),
            forall|n2: Seq<char>|
                n2 != topic_name@ ==> #[trigger] spec_contains_topic(final(self).container@, n2)
                    == spec_contains_topic(old(self).container@, n2),
            forall|n2: Seq<char>|
                n2 != topic_name@ && spec_contains_topic(old(self).container@, n2)
                    ==> #[trigger] spec_topic_at(final(self).container@, n2) == spec_topic_at(
                    old(self).container@,
                    n2,
                ),
    {
        let found = self.find_topic(topic_name);
        match found {
            Some(i) => {
                let ghost oldc = self.container@;
                let old_topic = self.container.remove(i);
                proof {
                    assert forall|n2: Seq<char>| n2 != topic_name@ implies #[trigger]
                        spec_contains_topic(self.container@, n2) == spec_contains_topic(
                        oldc,
                        n2,
                    ) by {
                        if spec_contains_topic(oldc, n2) {
                            let j = choose|j: int| 0 <= j < oldc.len() && (#[trigger] oldc[j]).name@
                                == n2;
                            let j2 = if j < i as int {
                                j
                            } else {
                                j - 1
                            };
                            assert(self.container@[j2].name@ == n2);
                        }
                        if spec_contains_topic(self.container@, n2) {
                            let j = choose|j: int|
                                0 <= j < self.container@.len() && (#[trigger] self.container@[j])
                                    .name@ == n2;
                            let j2 = if j < i as int {
                                j
                            } else {
                                j + 1
                            };
                            assert(oldc[j2].name@ == n2);
                        }
                    }
                    assert(!spec_contains_topic(self.container@, topic_name@)) by {
                        if spec_contains_topic(self.container@, topic_name@) {
                            let j = choose|j: int|
                                0 <= j < self.container@.len() && (#[trigger] self.container@[j])
                                    .name@ == topic_name@;
                            let j2 = if j < i as int {
                                j
                            } else {
                                j + 1
                            };
                            assert(oldc[j2].name@ == topic_name@);
                            assert(false);
                        }
                    }
                    assert forall|n2: Seq<char>|
                        n2 != topic_name@ && spec_contains_topic(oldc, n2) implies #[trigger]
                        spec_topic_at(self.container@, n2) == spec_topic_at(oldc, n2) by {
                        let j = choose|j: int| 0 <= j < oldc.len() && (#[trigger] oldc[j]).name@
                            == n2;
                        let j2 = if j < i as int {
                            j
                        } else {
                            j - 1
                        };
                        assert(self.container@[j2].name@ == n2);
                        lemma_topic_at_unique(oldc, n2, j);
                        lemma_topic_at_unique(self.container@, n2, j2);
                    }
                }
                Some(old_topic)
            },
            None => None,
        }
    }

    pub fn is_subscript(&self, topic_name: &String, client_id: &ClientID) -> (r: bool)
        requires
            spec_topics_wf(self.container@),
        ensures
            r == spec_is_subscript(self.container@, topic_name@, client_id@),
    {
        match self.find_topic(topic_name) {
            Some(i) => {
                proof {
                    lemma_topic_at_unique(self.container@, topic_name@, i as int);
                }
                self.container[i].contain(client_id)
            },
            None => false,
        }
    }

    /// Opens the topic afresh with the client as its one subscriber; a
    /// subscriber list the name held before is dropped.
    pub fn new_subscript(
        &mut self,
        topic_name: String,
        client_id: ClientID,
        sender: SenderHandle,
    )
        requires
            spec_topics_wf(old(self).container@),
        ensures
            spec_topics_wf(final(self).container@),
            spec_contains_topic(final(self).container@, topic_name@),
            spec_topic_at(final(self).container@, topic_name@) =~= seq![
                (client_id@, sender.0),
            ],
            spec_is_subscript(final(self).container@, topic_name@, client_id@),
            forall|n2: Seq<char>|
                n2 != topic_name@ ==> #[trigger] spec_contains_topic(final(self).container@, n2)
                    == spec_contains_topic(old(self).container@, n2),
            forall|n2: Seq<char>|
                n2 != topic_name@ && spec_contains_topic(old(self).container@, n2)
                    ==> #[trigger] spec_topic_at(final(self).container@, n2) == spec_topic_at(
                    old(self).container@,
                    n2,
                ),
    {
        let name_copy = topic_name.clone();
        let mut top = Topic::new(topic_name);
        top.subscript(client_id, sender);
        self.add(name_copy, top);
    }

    /// Inserts the client into the topic of the name, replacing the handle
    /// the client held there; without the topic nothing changes.
    pub fn subscript(&mut self, topic_name: &String, client_id: ClientID, sender: SenderHandle)
        requires
            spec_topics_wf(old(self).container@),
        ensures
            spec_topics_wf(final(self).container@),
            forall|n2: Seq<char>|
                #[trigger] spec_contains_topic(final(self).container@, n2) == spec_contains_topic(
                    old(self).container@,
                    n2,
                ),
            forall|n2: Seq<char>|
                n2 != topic_name@ && spec_contains_topic(old(self).container@, n2)
                    ==> #[trigger] spec_topic_at(final(self).container@, n2) == spec_topic_at(
                    old(self).container@,
                    n2,
                ),
            spec_contains_topic(old(self).container@, topic_name@) ==> {
                &&& spec_is_subscript(final(self).container@, topic_name@, client_id@)
                &&& spec_sender_of(spec_topic_at(final(self).container@, topic_name@), client_id@)
                    == sender.0
                &&& (forall|c2: Seq<char>|
                    c2 != client_id@ ==> #[trigger] spec_has_client(
                        spec_topic_at(final(self).container@, topic_name@),
                        c2,
                    ) == spec_has_client(spec_topic_at(old(self).container@, topic_name@), c2))
                &&& (forall|c2: Seq<char>|
                    c2 != client_id@ && spec_has_client(
                        spec_topic_at(old(self).container@, topic_name@),
                        c2,
                    ) ==> #[trigger] spec_sender_of(
                        spec_topic_at(final(self).container@, topic_name@),
                        c2,
                    ) == spec_sender_of(spec_topic_at(old(self).container@, topic_name@), c2))
                &&& spec_topic_at(final(self).container@, topic_name@).len() == spec_topic_at(
                    old(self).container@,
                    topic_name@,
                ).len() + (if spec_has_client(
                    spec_topic_at(old(self).container@, topic_name@),
                    client_id@,
                ) {
                    0int
                } else {
                    1int
                })
            },
            !spec_contains_topic(old(self).container@, topic_name@) ==> final(self).container@ == old(self).container@,
    {
        let found = self.find_topic(topic_name);
        match found {
            Some(i) => {
                let ghost oldc = self.container@;
                let ghost oldt = self.container@[i as int]@;
                let ghost c = client_id@;
                proof {
                    lemma_topic_at_unique(oldc, topic_name@, i as int);
                }
                let t = &mut self.container[i];
                t.subscript(client_id, sender);
                proof {
                    assert(self.container@ =~= oldc.update(i as int, self.container@[i as int]));
                    assert(self.container@[i as int].name@ == topic_name@);
                    assert(spec_topics_wf(self.container@));
                    lemma_topic_at_unique(self.container@, topic_name@, i as int);
                    let newt = self.container@[i as int]@;
                    if spec_has_client(oldt, c) {
                        let k = choose|k: int| 0 <= k < oldt.len() && oldt[k].0 == c && newt
                            == oldt.update(k, (c, sender.0));
                        assert(newt.len() == oldt.len());
                        assert forall|c2: Seq<char>| c2 != c implies #[trigger] spec_has_client(
                            newt,
                            c2,
                        ) == spec_has_client(oldt, c2) by {
                            if spec_has_client(oldt, c2) {
                                let j = choose|j: int| 0 <= j < oldt.len() && (#[trigger] oldt[j]).0
                                    == c2;
                                assert(newt[j].0 == c2);
                            }
                            if spec_has_client(newt, c2) {
                                let j = choose|j: int| 0 <= j < newt.len() && (#[trigger] newt[j]).0
                                    == c2;
                                assert(oldt[j].0 == c2);
                            }
                        }
                        assert forall|c2: Seq<char>|
                            c2 != c && spec_has_client(oldt, c2) implies #[trigger] spec_sender_of(
                            newt,
                            c2,
                        ) == spec_sender_of(oldt, c2) by {
                            let j = choose|j: int| 0 <= j < oldt.len() && (#[trigger] oldt[j]).0
                                == c2;
                            assert(newt[j] == oldt[j]);
                            Topic::lemma_sender_unique(newt, c2, j);
                            Topic::lemma_sender_unique(oldt, c2, j);
                        }
                    } else {
                        assert(newt == oldt.push((c, sender.0)));
                        assert forall|c2: Seq<char>| c2 != c implies #[trigger] spec_has_client(
                            newt,
                            c2,
                        ) == spec_has_client(oldt, c2) by {
                            if spec_has_client(oldt, c2) {
                                let j = choose|j: int| 0 <= j < oldt.len() && (#[trigger] oldt[j]).0
                                    == c2;
                                assert(newt[j].0 == c2);
                            }
                            if spec_has_client(newt, c2) {
                                let j = choose|j: int| 0 <= j < newt.len() && (#[trigger] newt[j]).0
                                    == c2;
                                assert(oldt[j].0 == c2);
                            }
                        }
                        assert forall|c2: Seq<char>|
                            c2 != c && spec_has_client(oldt, c2) implies #[trigger] spec_sender_of(
                            newt,
                            c2,
                        ) == spec_sender_of(oldt, c2) by {
                            let j = choose|j: int| 0 <= j < oldt.len() && (#[trigger] oldt[j]).0
                                == c2;
                            assert(newt[j] == oldt[j]);
                            Topic::lemma_sender_unique(newt, c2, j);
                            Topic::lemma_sender_unique(oldt, c2, j);
                        }
                    }
                    assert forall|n2: Seq<char>| #[trigger] spec_contains_topic(
                        self.container@,
                        n2,
                    ) == spec_contains_topic(oldc, n2) by {
                        if spec_contains_topic(oldc, n2) {
                            let j = choose|j: int| 0 <= j < oldc.len() && (#[trigger] oldc[j]).name@
                                == n2;
                            assert(self.container@[j].name@ == n2);
                        }
                        if spec_contains_topic(self.container@, n2) {
                            let j = choose|j: int|
                                0 <= j < self.container@.len() && (#[trigger] self.container@[j])
                                    .name@ == n2;
                            assert(oldc[j].name@ == n2);
                        }
                    }
                    assert forall|n2: Seq<char>|
                        n2 != topic_name@ && spec_contains_topic(oldc, n2) implies #[trigger]
                        spec_topic_at(self.container@, n2) == spec_topic_at(oldc, n2) by {
                        let j = choose|j: int| 0 <= j < oldc.len() && (#[trigger] oldc[j]).name@
                            == n2;
                        lemma_topic_at_unique(oldc, n2, j);
                        lemma_topic_at_unique(self.container@, n2, j);
                    }
                }
            },
            None => {},
        }
    }

    /// Removes the client from the topic of the name; without the topic or
    /// the subscription nothing changes.
    pub fn unsubscript(&mut self, topic_name: &String, client_id: &ClientID)
        requires
            spec_topics_wf(old(self).container@),
        ensures
            spec_topics_wf(final(self).container@),
            !spec_is_subscript(final(self).container@, topic_name@, client_id@),
            forall|n2: Seq<char>|
                #[trigger] spec_contains_topic(final(self).container@, n2) == spec_contains_topic(
                    old(self).container@,
                    n2,
                ),
            forall|n2: Seq<char>|
                n2 != topic_name@ && spec_contains_topic(old(self).container@, n2)
                    ==> #[trigger] spec_topic_at(final(self).container@, n2) == spec_topic_at(
                    old(self).container@,
                    n2,
                ),
            spec_contains_topic(old(self).container@, topic_name@) ==> {
                &&& (forall|c2: Seq<char>|
                    c2 != client_id@ ==> #[trigger] spec_has_client(
                        spec_topic_at(final(self).container@, topic_name@),
                        c2,
                    ) == spec_has_client(spec_topic_at(old(self).container@, topic_name@), c2))
                &&& (forall|c2: Seq<char>|
                    c2 != client_id@ && spec_has_client(
                        spec_topic_at(old(self).container@, topic_name@),
                        c2,
                    ) ==> #[trigger] spec_sender_of(
                        spec_topic_at(final(self).container@, topic_name@),
                        c2,
                    ) == spec_sender_of(spec_topic_at(old(self).container@, topic_name@), c2))
                &&& spec_topic_at(final(self).container@, topic_name@).len() == spec_topic_at(
                    old(self).container@,
                    topic_name@,
                ).len() - (if spec_has_client(
                    spec_topic_at(old(self).container@, topic_name@),
                    client_id@,
                ) {
                    1int
                } else {
                    0int
                })
            },
            !spec_contains_topic(old(self).container@, topic_name@) ==> final(self).container@
                == old(self).container@,
    {
        let found = self.find_topic(topic_name);
        match found {
            Some(i) => {
                let ghost oldc = self.container@;
                let ghost oldt = self.container@[i as int]@;
                proof {
                    lemma_topic_at_unique(oldc, topic_name@, i as int);
                }
                let t = &mut self.container[i];
                t.unsubscript(client_id);
                proof {
                    assert(self.container@ =~= oldc.update(i as int, self.container@[i as int]));
                    assert(spec_topics_wf(self.container@));
                    lemma_topic_at_unique(self.container@, topic_name@, i as int);
                    assert forall|n2: Seq<char>| #[trigger] spec_contains_topic(
                        self.container@,
                        n2,
                    ) == spec_contains_topic(oldc, n2) by {
                        if spec_contains_topic(oldc, n2) {
                            let j = choose|j: int| 0 <= j < oldc.len() && (#[trigger] oldc[j]).name@
                                == n2;
                            assert(self.container@[j].name@ == n2);
                        }
                        if spec_contains_topic(self.container@, n2) {
                            let j = choose|j: int|
                                0 <= j < self.container@.len() && (#[trigger] self.container@[j])
                                    .name@ == n2;
                            assert(oldc[j].name@ == n2);
                        }
                    }
                    assert forall|n2: Seq<char>|
                        n2 != topic_name@ && spec_contains_topic(oldc, n2) implies #[trigger]
                        spec_topic_at(self.container@, n2) == spec_topic_at(oldc, n2) by {
                        let j = choose|j: int| 0 <= j < oldc.len() && (#[trigger] oldc[j]).name@
                            == n2;
                        lemma_topic_at_unique(oldc, n2, j);
                        lemma_topic_at_unique(self.container@, n2, j);
                    }
                }
            },
            None => {},
        }
    }

    /// Removes the client from every topic.
    pub fn exit(&mut self, client_id: &ClientID)
        requires
            spec_topics_wf(old(self).container@),
        ensures
            spec_topics_wf(final(self).container@),
            final(self).container@.len() == old(self).container@.len(),
            forall|n2: Seq<char>|
                #[trigger] spec_contains_topic(final(self).container@, n2) == spec_contains_topic(
                    old(self).container@,
                    n2,
                ),
            forall|n2: Seq<char>| !spec_is_subscript(final(self).container@, n2, client_id@),
            forall|n2: Seq<char>, c2: Seq<char>|
                c2 != client_id@ ==> #[trigger] spec_is_subscript(final(self).container@, n2, c2)
                    == spec_is_subscript(old(self).container@, n2, c2),
    {
        let ghost oldc = self.container@;
        let mut k: usize = 0;
        while k < self.container.len()
            invariant
                spec_topics_wf(old(self).container@),
                k <= self.container@.len(),
                self.container@.len() == oldc.len(),
                oldc == old(self).container@,
                spec_topics_wf(self.container@),
                forall|j: int|
                    0 <= j < oldc.len() ==> (#[trigger] self.container@[j]).name@ == oldc[j].name@,
                forall|j: int| k <= j < oldc.len() ==> #[trigger] self.container@[j]@ == oldc[j]@,
                forall|j: int|
                    0 <= j < k ==> !spec_has_client((#[trigger] self.container@[j])@, client_id@),
                forall|j: int, c2: Seq<char>|
                    0 <= j < k && c2 != client_id@ ==> #[trigger] spec_has_client(
                        self.container@[j]@,
                        c2,
                    ) == spec_has_client(oldc[j]@, c2),
            decreases self.container@.len() - k,
        {
            let ghost before = self.container@;
            let t = &mut self.container[k];
            t.unsubscript(client_id);
            proof {
                assert(self.container@ =~= before.update(k as int, self.container@[k as int]));
            }
            k = k + 1;
        }
        proof {
            assert forall|n2: Seq<char>| #[trigger] spec_contains_topic(self.container@, n2)
                == spec_contains_topic(oldc, n2) by {
                if spec_contains_topic(oldc, n2) {
                    let j = choose|j: int| 0 <= j < oldc.len() && (#[trigger] oldc[j]).name@ == n2;
                    assert(self.container@[j].name@ == n2);
                }
                if spec_contains_topic(self.container@, n2) {
                    let j = choose|j: int|
                        0 <= j < self.container@.len() && (#[trigger] self.container@[j]).name@
                            == n2;
                    assert(oldc[j].name@ == n2);
                }
            }
            assert forall|n2: Seq<char>| !spec_is_subscript(self.container@, n2, client_id@) by {
                if spec_contains_topic(self.container@, n2) {
                    let j = choose|j: int|
                        0 <= j < self.container@.len() && (#[trigger] self.container@[j]).name@
                            == n2;
                    lemma_topic_at_unique(self.container@, n2, j);
                }
            }
            assert forall|n2: Seq<char>, c2: Seq<char>| c2 != client_id@ implies #[trigger]
                spec_is_subscript(self.container@, n2, c2) == spec_is_subscript(
                oldc,
                n2,
                c2,
            ) by {
                if spec_contains_topic(oldc, n2) {
                    let j = choose|j: int| 0 <= j < oldc.len() && (#[trigger] oldc[j]).name@ == n2;
                    lemma_topic_at_unique(oldc, n2, j);
                    lemma_topic_at_unique(self.container@, n2, j);
                }
            }
        }
    }

    /// The topic names, in registry order.
    pub fn topics(&self) -> (r: Vec<String>)
        ensures
            r@.len() == self.container@.len(),
            forall|i: int|
                0 <= i < self.container@.len() ==> (#[trigger] r@[i])@
                    == self.container@[i].name@,
    {
        let mut out: Vec<String> = Vec::new();
        let mut i: usize = 0;
        while i < self.container.len()
            invariant
                i <= self.container@.len(),
                out@.len() == i,
                forall|j: int| 0 <= j < i ==> (#[trigger] out@[j])@ == self.container@[j].name@,
            decreases self.container@.len() - i,
        {
            out.push(self.container[i].name.clone());
            i = i + 1;
        }
        out
    }

    /// The clients of the topic of the name; nobody without the topic.
    pub fn clients(&self, topic_name: &String) -> (r: Vec<ClientID>)
        requires
            spec_topics_wf(self.container@),
        ensures
            spec_contains_topic(self.container@, topic_name@) ==> {
                &&& r@.len() == spec_topic_at(self.container@, topic_name@).len()
                &&& forall|i: int|
                    0 <= i < r@.len() ==> (#[trigger] r@[i])@ == spec_topic_at(
                        self.container@,
                        topic_name@,
                    )[i].0
            },
            !spec_contains_topic(self.container@, topic_name@) ==> r@.len() == 0,
    {
        match self.find_topic(topic_name) {
            Some(i) => {
                proof {
                    lemma_topic_at_unique(self.container@, topic_name@, i as int);
                }
                self.container[i].client_id_list()
            },
            None => Vec::new(),
        }
    }

    /// How many clients the topic of the name has; none without the topic.
    pub fn client_len(&self, topic_name: &String) -> (r: usize)
        requires
            spec_topics_wf(self.container@),
        ensures
            spec_contains_topic(self.container@, topic_name@) ==> r == spec_topic_at(
                self.container@,
                topic_name@,
            ).len(),
            !spec_contains_topic(self.container@, topic_name@) ==> r == 0,
    {
        match self.find_topic(topic_name) {
            Some(i) => {
                proof {
                    lemma_topic_at_unique(self.container@, topic_name@, i as int);
                }
                self.container[i].client_len()
            },
            None => 0,
        }
    }

    /// One delivery per subscriber of the topic of the name, the originator
    /// included; none without the topic.
    pub fn broadcast(&self, topic_name: &String, msg: &TopicMessage) -> (r: Vec<
        (SenderHandle, LineMessage),
    >)
        requires
            spec_topics_wf(self.container@),
        ensures
            spec_contains_topic(self.container@, topic_name@) ==> {
                &&& r@.len() == spec_topic_at(self.container@, topic_name@).len()
                &&& forall|i: int|
                    0 <= i < r@.len() ==> ((#[trigger] r@[i]).0.0 == spec_topic_at(
                        self.container@,
                        topic_name@,
                    )[i].1 && (r@[i].1 matches LineMessage::SubscriptionMessage(m)
                        && spec_message_of(m) == spec_message_of(*msg)))
            },
            !spec_contains_topic(self.container@, topic_name@) ==> r@.len() == 0,
    {
        match self.find_topic(topic_name) {
            Some(i) => {
                proof {
                    lemma_topic_at_unique(self.container@, topic_name@, i as int);
                }
                self.container[i].broadcast(msg)
            },
            None => Vec::new(),
        }
    }

    /// The handle the client holds on the topic of the name.
    pub fn get_client(&self, topic_name: &String, client_id: &ClientID) -> (r: SenderHandle)
        requires
            spec_topics_wf(self.container@),
            spec_is_subscript(self.container@, topic_name@, client_id@),
        ensures
            r.0 == spec_sender_of(spec_topic_at(self.container@, topic_name@), client_id@),
    {
        match self.find_topic(topic_name) {
            Some(i) => {
                proof {
                    lemma_topic_at_unique(self.container@, topic_name@, i as int);
                }
                let t = &self.container[i];
                match t.find(client_id) {
                    Some(j) => {
                        proof {
                            Topic::lemma_sender_unique(t@, client_id@, j as int);
                        }
                        t.senders[j].1
                    },
                    None => {
                        proof {
                            assert(false);
                        }
                        SenderHandle(0)
                    },
                }
            },
            None => {
                proof {
                    assert(false);
                }
                SenderHandle(0)
            },
        }
    }
}

/// Where a connection stands: waiting for its CONNECT, serving packets, or
/// done.
#[derive(Debug, Copy, Clone, PartialEq, Eq, Structural)]
pub enum LineState {
    AwaitingConnect,
    Connected,
    Terminated,
}

/// One connection's state: the handle of its channel, where it stands, and
/// what its CONNECT declared.
#[derive(Debug)]
pub struct Line {
    pub sender: SenderHandle,
    pub state: LineState,
    pub client_id: Option<ClientID>,
    pub protocol_name: Option<String>,
    pub protocol_level: Option<MqttProtocolLevel>,
    pub will_flag: Option<MqttWillFlag>,
    pub will_qos: Option<MqttQos>,
    pub will_retain: Option<MqttRetain>,
    pub will_topic: Option<String>,
    pub will_message: Option<String>,
}

/// What a connected line always holds: an identifier, legal will fields, and
/// will strings that fit behind their length prefixes.
pub open spec fn spec_line_wf(l: Line) -> bool {
    l.state == LineState::Connected ==> {
        &&& l.client_id is Some
        &&& l.will_flag is Some
        &&& l.will_qos is Some
        &&& l.will_qos != Some(MqttQos::Failure)
        &&& l.will_retain is Some
        &&& (l.will_flag == Some(MqttWillFlag::Enable) ==> l.will_topic is Some
            && l.will_message is Some)
        &&& spec_opt_fits(opt_view(l.will_topic))
        &&& spec_opt_fits(opt_view(l.will_message))
    }
}

impl Line {
    /// A fresh line on the given channel handle, waiting for its CONNECT.
    pub fn new(sender: SenderHandle) -> (r: Line)
        ensures
            r.sender == sender,
            r.state == LineState::AwaitingConnect,
            r.client_id is None,
            r.protocol_level is None,
            spec_line_wf(r),
    {
        Line {
            sender,
            state: LineState::AwaitingConnect,
            client_id: None,
            protocol_name: None,
            protocol_level: None,
            will_flag: None,
            will_qos: None,
            will_retain: None,
            will_topic: None,
            will_message: None,
        }
    }

    pub fn get_client_id(&self) -> (r: &ClientID)
        requires
            self.client_id is Some,
        ensures
            r == self.client_id.unwrap(),
    {
        self.client_id.as_ref().unwrap()
    }

    pub fn init_protocol(&mut self, protocol_name: String, protocol_level: MqttProtocolLevel)
        ensures
            final(self).protocol_name == Some(protocol_name),
            final(self).protocol_level == Some(protocol_level),
            final(self).sender == old(self).sender,
            final(self).state == old(self).state,
            final(self).client_id == old(self).client_id,
            final(self).will_flag == old(self).will_flag,
            final(self).will_qos == old(self).will_qos,
            final(self).will_retain == old(self).will_retain,
            final(self).will_topic == old(self).will_topic,
            final(self).will_message == old(self).will_message,
    {
        self.protocol_name = Some(protocol_name);
        self.protocol_level = Some(protocol_level);
    }

    pub fn is_will_flag(&self) -> (r: bool)
        requires
            self.will_flag is Some,
        ensures
            r == (self.will_flag == Some(MqttWillFlag::Enable)),
    {
        self.will_flag.as_ref().unwrap() == &MqttWillFlag::Enable
    }

    /// The will publish this line asked the broker to send on its behalf.
    pub fn get_v3_topic_message(&self) -> (r: TopicMessage)
        requires
            self.client_id is Some,
            self.will_qos is Some,
            self.will_qos != Some(MqttQos::Failure),
            self.will_retain is Some,
            self.will_topic is Some,
            self.will_message is Some,
            spec_opt_fits(opt_view(self.will_topic)),
        ensures
            r matches TopicMessage::ContentV3(c, m) && c@ == self.client_id.unwrap()@ && m.topic@
                == self.will_topic.unwrap()@ && m.msg_body@ == self.will_message.unwrap()@ && m.qos
                == self.will_qos.unwrap() && m.message_id == 0 && m.dup == crate::protocol::MqttDup::Disable
                && m.retain == self.will_retain.unwrap() && m.bytes@
                == crate::v3_packet::spec_publish_bytes(m@),
    {
        let msg = v3::PublishMessage::new(
            *self.will_qos.as_ref().unwrap(),
            crate::protocol::MqttDup::Disable,
            *self.will_retain.as_ref().unwrap(),
            self.will_topic.as_ref().unwrap().clone(),
            0,
            self.will_message.as_ref().unwrap().clone(),
        );
        TopicMessage::ContentV3(ClientID(self.client_id.as_ref().unwrap().0.clone()), msg)
    }

    pub fn get_will_topic(&self) -> (r: &String)
        requires
            self.will_topic is Some,
        ensures
            r == self.will_topic.unwrap(),
    {
        self.will_topic.as_ref().unwrap()
    }

    /// Takes this line's identity and will from a parsed v3 CONNECT.
    pub fn init_v3(&mut self, connect_msg: &v3::ConnectMessage)
        ensures
            final(self).client_id matches Some(c) && c@ == connect_msg.payload.client_id@,
            final(self).will_flag == Some(connect_msg.will_flag),
            final(self).will_qos == Some(connect_msg.will_qos),
            final(self).will_retain == Some(connect_msg.will_retain),
            opt_view(final(self).will_topic) == opt_view(connect_msg.payload.will_topic),
            opt_view(final(self).will_message) == opt_view(connect_msg.payload.will_message),
            final(self).sender == old(self).sender,
            final(self).state == old(self).state,
            final(self).protocol_name == old(self).protocol_name,
            final(self).protocol_level == old(self).protocol_level,
    {
        self.client_id = Some(ClientID(connect_msg.payload.client_id.clone()));
        self.will_flag = Some(connect_msg.will_flag);
        self.will_qos = Some(connect_msg.will_qos);
        self.will_retain = Some(connect_msg.will_retain);
        self.will_topic = match connect_msg.payload.will_topic.as_ref() {
            Some(t) => Some(t.clone()),
            None => None,
        };
        self.will_message = match connect_msg.payload.will_message.as_ref() {
            Some(t) => Some(t.clone()),
            None => None,
        };
    }

    /// Takes this line's identity and will from a parsed v5 CONNECT.
    pub fn init_v5(&mut self, connect_msg: &v5::ConnectMessage)
        ensures
            final(self).client_id matches Some(c) && c@ == connect_msg.payload.client_id@,
            final(self).will_flag == Some(connect_msg.will_flag),
            final(self).will_qos == Some(connect_msg.will_qos),
            final(self).will_retain == Some(connect_msg.will_retain),
            opt_view(final(self).will_topic) == opt_view(connect_msg.payload.will_topic),
            opt_view(final(self).will_message) == opt_view(connect_msg.payload.will_message),
            final(self).sender == old(self).sender,
            final(self).state == old(self).state,
            final(self).protocol_name == old(self).protocol_name,
            final(self).protocol_level == old(self).protocol_level,
    {
        self.client_id = Some(ClientID(connect_msg.payload.client_id.clone()));
        self.will_flag = Some(connect_msg.will_flag);
        self.will_qos = Some(connect_msg.will_qos);
        self.will_retain = Some(connect_msg.will_retain);
        self.will_topic = match connect_msg.payload.will_topic.as_ref() {
            Some(t) => Some(t.clone()),
            None => None,
        };
        self.will_message = match connect_msg.payload.will_message.as_ref() {
            Some(t) => Some(t.clone()),
            None => None,
        };
    }

    pub fn get_sender(&self) -> (r: SenderHandle)
        ensures
            r == self.sender,
    {
        self.sender
    }

    /// Turns a delivered envelope into response bytes: an envelope this line
    /// published itself is dropped, every other is forwarded as it stands.
    pub fn handle_subscription_message(&self, msg: TopicMessage) -> (r: Option<MqttMessageKind>)
        requires
            self.client_id is Some,
        ensures
            match spec_message_of(msg) {
                (Some(orig), bytes) => if orig == self.client_id.unwrap()@ {
                    r is None
                } else {
                    r matches Some(MqttMessageKind::Response(b)) && b@ == bytes
                },
                (None, bytes) => r matches Some(MqttMessageKind::Response(b)) && b@ == bytes,
            },
    {
        match msg {
            TopicMessage::ContentV3(from_id, content) => {
                if self.client_id.as_ref().unwrap() != &from_id {
                    Some(
                        MqttMessageKind::Response(
                            vstd::slice::slice_to_vec(content.bytes.as_slice()),
                        ),
                    )
                } else {
                    None
                }
            },
            TopicMessage::ContentV5(from_id, content) => {
                if self.client_id.as_ref().unwrap() != &from_id {
                    Some(
                        MqttMessageKind::Response(
                            vstd::slice::slice_to_vec(content.bytes.as_slice()),
                        ),
                    )
                } else {
                    None
                }
            },
            TopicMessage::Will(content) => Some(
                MqttMessageKind::Response(vstd::slice::slice_to_vec(content.bytes.as_slice())),
            ),
        }
    }
}

/// Whether a byte stream opens with a CONNECT the codec accepts.
pub open spec fn spec_valid_connect(b: Seq<u8>) -> bool {
    &&& b.len() >= 1
    &&& crate::types::spec_kind_of_num(b[0] / 16) == Some(TypeKind::CONNECT)
    &&& crate::v3_unpacket::spec_parse_connect(b) is Some
}

impl Line {
    /// Handles one chunk of socket bytes: before its CONNECT a line takes
    /// nothing else and closes silently on anything else; a CONNECT of an
    /// unsupported level is refused and the line closes; a connected line
    /// dispatches the packet and closes on a packet the codec refuses.
    pub fn handle_socket_message(
        &mut self,
        subscript: &mut Subscript,
        machines: &mut MachineManager,
        msg: Vec<u8>,
    ) -> (r: (Option<MqttMessageKind>, Vec<(SenderHandle, LineMessage)>))
        requires
            spec_line_wf(*old(self)),
            crate::subscript::spec_topics_wf(old(subscript).container@),
            crate::machine::spec_machines_unique(old(machines).map@),
        ensures
            spec_line_wf(*final(self)),
            crate::subscript::spec_topics_wf(final(subscript).container@),
            crate::machine::spec_machines_unique(final(machines).map@),
            final(self).sender == old(self).sender,
            old(self).state == LineState::Terminated ==> r.0 is None && r.1@.len() == 0
                && final(self).state == LineState::Terminated,
            old(self).state == LineState::AwaitingConnect && !spec_valid_connect(msg@)
                ==> (final(self).state == LineState::Terminated && (r.0 matches Some(
                MqttMessageKind::Exit(b),
            ) && b@.len() == 0) && r.1@.len() == 0),
            old(self).state == LineState::AwaitingConnect && spec_valid_connect(msg@)
                && crate::v3_unpacket::spec_parse_connect(msg@).unwrap().protocol_level
                == MqttProtocolLevel::Level3_1_1 ==> (r.0 matches Some(
                MqttMessageKind::Response(b),
            ) && b@ == crate::v3_packet::spec_connack_bytes(
                crate::protocol::MqttSessionPresent::Disable,
                ReasonCodeV3::ConnectionAccepted,
            ) && final(self).state == LineState::Connected),
            old(self).state == LineState::AwaitingConnect && spec_valid_connect(msg@)
                && crate::v3_unpacket::spec_parse_connect(msg@).unwrap().protocol_level
                != MqttProtocolLevel::Level3_1_1 ==> (r.0 matches Some(MqttMessageKind::Exit(b))
                && b@ == crate::v3_packet::spec_connack_bytes(
                crate::protocol::MqttSessionPresent::Disable,
                ReasonCodeV3::UnacceptableProtocolVersion,
            ) && final(self).state == LineState::Terminated),
            old(self).state == LineState::Connected && msg@.len() >= 1
                && crate::types::spec_kind_of_num(msg@[0] / 16) == Some(TypeKind::CONNECT) ==> (
            final(self).state == LineState::Terminated && (r.0 matches Some(
                MqttMessageKind::Exit(b),
            ) && b@.len() == 0)),
            old(self).state == LineState::Connected && old(self).protocol_level == Some(
                MqttProtocolLevel::Level3_1_1,
            ) && msg@.len() >= 1 && crate::types::spec_kind_of_num(msg@[0] / 16) == Some(
                TypeKind::PINGREQ,
            ) ==> (r.0 matches Some(MqttMessageKind::Response(b)) && b@
                == crate::pack_tool::spec_header_bytes(TypeKind::PINGRESP, 0)),
            old(self).state == LineState::Connected && old(self).protocol_level == Some(
                MqttProtocolLevel::Level3_1_1,
            ) && msg@.len() >= 1 && crate::types::spec_kind_of_num(msg@[0] / 16) == Some(
                TypeKind::PUBLISH,
            ) ==> match crate::v3_unpacket::spec_parse_publish(
                msg@,
                crate::protocol::spec_qos_of_num((msg@[0] / 2) % 4),
            ) {
                Some((topic, id, _body)) => {
                    &&& (crate::protocol::spec_qos_of_num((msg@[0] / 2) % 4) == Some(
                        crate::protocol::MqttQos::Qos1,
                    ) ==> (r.0 matches Some(MqttMessageKind::Response(b)) && b@
                        == crate::v3_packet::spec_not_payload_bytes(id, TypeKind::PUBACK)))
                    &&& (crate::protocol::spec_qos_of_num((msg@[0] / 2) % 4) == Some(
                        crate::protocol::MqttQos::Qos2,
                    ) ==> (r.0 matches Some(MqttMessageKind::Response(b)) && b@
                        == crate::v3_packet::spec_not_payload_bytes(id, TypeKind::PUBREC)))
                    &&& crate::v3_handle::spec_broadcast_deliveries(
                        old(subscript).container@,
                        topic,
                        Some(old(self).client_id.unwrap()@),
                        msg@,
                        r.1@,
                    )
                },
                None => r.0 is None && r.1@.len() == 0,
            },
            old(self).state == LineState::Connected && old(self).protocol_level == Some(
                MqttProtocolLevel::Level3_1_1,
            ) && msg@.len() >= 1 && crate::types::spec_kind_of_num(msg@[0] / 16) == Some(
                TypeKind::SUBSCRIBE,
            ) ==> match crate::v3_unpacket::spec_parse_subscribe(msg@) {
                Some((id, es)) => if forall|i: int|
                    0 <= i < es.len() ==> (#[trigger] es[i]).1 <= 2 {
                    &&& r.0 matches Some(MqttMessageKind::Response(b)) && b@
                        == crate::v3_handle::spec_suback_run(id, es)
                    &&& (forall|i: int|
                        0 <= i < es.len() ==> #[trigger] spec_is_subscript(
                            final(subscript).container@,
                            es[i].0,
                            old(self).client_id.unwrap()@,
                        ))
                } else {
                    r.0 is None
                },
                None => r.0 is None,
            },
            old(self).state == LineState::Connected && old(self).protocol_level == Some(
                MqttProtocolLevel::Level3_1_1,
            ) && msg@.len() >= 1 && crate::types::spec_kind_of_num(msg@[0] / 16) == Some(
                TypeKind::UNSUBSCRIBE,
            ) ==> match crate::v3_unpacket::spec_parse_unsubscribe(msg@) {
                Some((id, es)) => {
                    &&& r.0 matches Some(MqttMessageKind::Response(b)) && b@
                        == crate::v3_handle::spec_unsuback_run(id, es.len())
                    &&& (forall|i: int|
                        0 <= i < es.len() ==> !spec_is_subscript(
                            final(subscript).container@,
                            #[trigger] es[i],
                            old(self).client_id.unwrap()@,
                        ))
                },
                None => r.0 is None,
            },
            old(self).state == LineState::Connected && old(self).protocol_level == Some(
                MqttProtocolLevel::Level3_1_1,
            ) && msg@.len() >= 1 && crate::types::spec_kind_of_num(msg@[0] / 16) == Some(
                TypeKind::PUBREC,
            ) ==> match crate::un_pack_tool::spec_remaining_data(msg@) {
                Some(body) => if body.len() >= 2 {
                    r.0 matches Some(MqttMessageKind::Response(b)) && b@
                        == crate::v3_packet::spec_not_payload_bytes(
                        crate::un_pack_tool::spec_be16(body),
                        TypeKind::PUBREL,
                    )
                } else {
                    r.0 is None
                },
                None => r.0 is None,
            },
            old(self).state == LineState::Connected && old(self).protocol_level == Some(
                MqttProtocolLevel::Level3_1_1,
            ) && msg@.len() >= 1 && crate::types::spec_kind_of_num(msg@[0] / 16) == Some(
                TypeKind::PUBREL,
            ) ==> match crate::un_pack_tool::spec_remaining_data(msg@) {
                Some(body) => if body.len() >= 2 {
                    r.0 matches Some(MqttMessageKind::Response(b)) && b@
                        == crate::v3_packet::spec_not_payload_bytes(
                        crate::un_pack_tool::spec_be16(body),
                        TypeKind::PUBCOMP,
                    )
                } else {
                    r.0 is None
                },
                None => r.0 is None,
            },
            old(self).state == LineState::Connected && old(self).protocol_level == Some(
                MqttProtocolLevel::Level3_1_1,
            ) && msg@.len() >= 1 && crate::types::spec_kind_of_num(msg@[0] / 16) == Some(
                TypeKind::DISCONNECT,
            ) ==> (r.0 matches Some(MqttMessageKind::Exit(b)) && b@
                == crate::pack_tool::spec_header_bytes(TypeKind::DISCONNECT, 0)
                && final(self).state == LineState::Terminated && (forall|t: Seq<char>|
                !spec_is_subscript(
                    final(subscript).container@,
                    t,
                    old(self).client_id.unwrap()@,
                )) && (old(self).will_flag == Some(MqttWillFlag::Enable)
                ==> crate::v3_handle::spec_broadcast_deliveries(
                old(subscript).container@,
                old(self).will_topic.unwrap()@,
                Some(old(self).client_id.unwrap()@),
                crate::v3_handle::spec_will_publish_bytes(*old(self)),
                r.1@,
            ))),
    {
        if matches!(self.state, LineState::Terminated) {
            return (None, Vec::new());
        }
        let ghost mb = msg@;
        let base = match BaseMessage::from_bytes(msg) {
            Some(b) => b,
            None => {
                self.state = LineState::Terminated;
                return (Some(MqttMessageKind::Exit(Vec::new())), Vec::new());
            },
        };
        if base.msg_type == TypeKind::CONNECT {
            if !matches!(self.state, LineState::AwaitingConnect) {
                self.state = LineState::Terminated;
                return (Some(MqttMessageKind::Exit(Vec::new())), Vec::new());
            }
            let connect = match BaseConnect::from_base(&base) {
                Some(c) => c,
                None => {
                    self.state = LineState::Terminated;
                    return (Some(MqttMessageKind::Exit(Vec::new())), Vec::new());
                },
            };
            let level = connect.get_protocol_level();
            self.init_protocol(connect.get_protocol_name(), level);
            if level == MqttProtocolLevel::Level3_1_1 {
                let (resp, deliveries) = crate::v3_handle::match_v3_data(
                    self,
                    subscript,
                    machines,
                    base,
                );
                match resp {
                    Some(k) => (Some(k), deliveries),
                    None => {
                        self.state = LineState::Terminated;
                        (Some(MqttMessageKind::Exit(Vec::new())), deliveries)
                    },
                }
            } else {
                match crate::v3_unpacket::connect(base) {
                    Ok(_) => {
                        let ack = v3::ConnackMessage::new(
                            crate::protocol::MqttSessionPresent::Disable,
                            ReasonCodeV3::UnacceptableProtocolVersion,
                        );
                        self.state = LineState::Terminated;
                        (Some(MqttMessageKind::Exit(ack.bytes)), Vec::new())
                    },
                    Err(_) => {
                        self.state = LineState::Terminated;
                        (Some(MqttMessageKind::Exit(Vec::new())), Vec::new())
                    },
                }
            }
        } else {
            if matches!(self.state, LineState::AwaitingConnect) {
                self.state = LineState::Terminated;
                return (Some(MqttMessageKind::Exit(Vec::new())), Vec::new());
            }
            match self.protocol_level {
                Some(MqttProtocolLevel::Level3_1_1) => crate::v3_handle::match_v3_data(
                    self,
                    subscript,
                    machines,
                    base,
                ),
                _ => (None, Vec::new()),
            }
        }
    }
}

} // verus!
