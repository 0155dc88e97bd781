use mqtt_broker::machine::MachineManager;
use mqtt_broker::message::MqttMessageKind;
use mqtt_broker::subscript::{
    ClientID, Line, LineMessage, LineState, SenderHandle, Subscript, TopicMessage,
};
use mqtt_broker::v3_handle::handle_unclean_close;

fn connect_bytes(client_id: &str) -> Vec<u8> {
    let mut body: Vec<u8> = vec![0x00, 0x04];
    body.extend_from_slice(b"MQTT");
    body.push(0x04);
    body.push(0x02);
    body.extend_from_slice(&[0x00, 0x3C]);
    body.extend_from_slice(&[0x00, client_id.len() as u8]);
    body.extend_from_slice(client_id.as_bytes());
    let mut packet = vec![0x10, body.len() as u8];
    packet.extend_from_slice(body.as_slice());
    packet
}

fn connect_bytes_with_will(client_id: &str, will_topic: &str, will_message: &str) -> Vec<u8> {
    let mut body: Vec<u8> = vec![0x00, 0x04];
    body.extend_from_slice(b"MQTT");
    body.push(0x04);
    // clean session and will flag, will QoS zero, no retain
    body.push(0x06);
    body.extend_from_slice(&[0x00, 0x3C]);
    body.extend_from_slice(&[0x00, client_id.len() as u8]);
    body.extend_from_slice(client_id.as_bytes());
    body.extend_from_slice(&[0x00, will_topic.len() as u8]);
    body.extend_from_slice(will_topic.as_bytes());
    body.extend_from_slice(&[0x00, will_message.len() as u8]);
    body.extend_from_slice(will_message.as_bytes());
    let mut packet = vec![0x10, body.len() as u8];
    packet.extend_from_slice(body.as_slice());
    packet
}

fn response_bytes(r: Option<MqttMessageKind>) -> Vec<u8> {
    match r {
        Some(MqttMessageKind::Response(b)) => b,
        other => panic!("expected a response, got {:?}", other.is_some()),
    }
}

#[test]
fn clean_connect_handshake() {
    let mut subscript = Subscript::new();
    let mut machines = MachineManager::new();
    let mut line = Line::new(SenderHandle(1));
    let (resp, deliveries) =
        line.handle_socket_message(&mut subscript, &mut machines, connect_bytes("abcd"));
    assert_eq!(response_bytes(resp), vec![0x20, 0x02, 0x00, 0x00]);
    assert_eq!(deliveries.len(), 0);
    assert_eq!(line.state, LineState::Connected);
}

#[test]
fn subscribe_then_receive_publish() {
    let mut subscript = Subscript::new();
    let mut machines = MachineManager::new();

    let mut line_a = Line::new(SenderHandle(1));
    let (resp, _) = line_a.handle_socket_message(&mut subscript, &mut machines, connect_bytes("A"));
    assert!(resp.is_some());
    let subscribe = vec![0x82u8, 0x06, 0x00, 0x01, 0x00, 0x01, 0x74, 0x00];
    let (suback, _) = line_a.handle_socket_message(&mut subscript, &mut machines, subscribe);
    assert_eq!(response_bytes(suback), vec![0x90, 0x03, 0x00, 0x01, 0x00]);

    let mut line_b = Line::new(SenderHandle(2));
    let (resp, _) = line_b.handle_socket_message(&mut subscript, &mut machines, connect_bytes("B"));
    assert!(resp.is_some());
    let publish = vec![0x30u8, 0x05, 0x00, 0x01, 0x74, 0x68, 0x69];
    let (reply, deliveries) =
        line_b.handle_socket_message(&mut subscript, &mut machines, publish.clone());
    // a QoS zero publish earns no reply
    assert!(reply.is_none());
    // only the subscriber is served; the publisher is not subscribed
    assert_eq!(deliveries.len(), 1);
    let (handle, envelope) = deliveries.into_iter().next().unwrap();
    assert_eq!(handle, SenderHandle(1));
    let envelope = match envelope {
        LineMessage::SubscriptionMessage(m) => m,
        LineMessage::SocketMessage(_) => panic!("wrong channel message"),
    };
    let forwarded = line_a.handle_subscription_message(envelope);
    assert_eq!(response_bytes(forwarded), publish);
}

#[test]
fn publish_from_self_is_suppressed() {
    let mut subscript = Subscript::new();
    let mut machines = MachineManager::new();
    let mut line_a = Line::new(SenderHandle(1));
    line_a.handle_socket_message(&mut subscript, &mut machines, connect_bytes("A"));
    let subscribe = vec![0x82u8, 0x06, 0x00, 0x01, 0x00, 0x01, 0x74, 0x00];
    line_a.handle_socket_message(&mut subscript, &mut machines, subscribe);
    let publish = vec![0x30u8, 0x05, 0x00, 0x01, 0x74, 0x68, 0x69];
    let (_, deliveries) = line_a.handle_socket_message(&mut subscript, &mut machines, publish);
    // the registry serves the originator too
    assert_eq!(deliveries.len(), 1);
    let (_, envelope) = deliveries.into_iter().next().unwrap();
    let envelope = match envelope {
        LineMessage::SubscriptionMessage(m) => m,
        LineMessage::SocketMessage(_) => panic!("wrong channel message"),
    };
    // but the line drops its own envelope
    assert!(line_a.handle_subscription_message(envelope).is_none());
}

#[test]
fn qos_one_publish_elicits_puback() {
    let mut subscript = Subscript::new();
    let mut machines = MachineManager::new();
    let mut line = Line::new(SenderHandle(1));
    line.handle_socket_message(&mut subscript, &mut machines, connect_bytes("A"));
    let publish = vec![0x32u8, 0x07, 0x00, 0x01, 0x74, 0x00, 0x07, 0x68, 0x69];
    let (reply, _) = line.handle_socket_message(&mut subscript, &mut machines, publish);
    assert_eq!(response_bytes(reply), vec![0x40, 0x02, 0x00, 0x07]);
}

#[test]
fn pingreq_elicits_pingresp() {
    let mut subscript = Subscript::new();
    let mut machines = MachineManager::new();
    let mut line = Line::new(SenderHandle(1));
    line.handle_socket_message(&mut subscript, &mut machines, connect_bytes("A"));
    let (reply, _) = line.handle_socket_message(&mut subscript, &mut machines, vec![0xC0, 0x00]);
    assert_eq!(response_bytes(reply), vec![0xD0, 0x00]);
}

#[test]
fn disconnect_with_will() {
    let mut subscript = Subscript::new();
    let mut machines = MachineManager::new();

    let mut subscriber = Line::new(SenderHandle(1));
    subscriber.handle_socket_message(&mut subscript, &mut machines, connect_bytes("sub"));
    // subscribe to "bye"
    let subscribe = vec![0x82u8, 0x08, 0x00, 0x01, 0x00, 0x03, 0x62, 0x79, 0x65, 0x00];
    subscriber.handle_socket_message(&mut subscript, &mut machines, subscribe);

    let mut publisher = Line::new(SenderHandle(2));
    publisher.handle_socket_message(
        &mut subscript,
        &mut machines,
        connect_bytes_with_will("pub", "bye", "gone"),
    );
    // the publisher's socket dies without a DISCONNECT
    let deliveries = handle_unclean_close(&mut publisher, &mut subscript, &mut machines);
    assert_eq!(publisher.state, LineState::Terminated);
    assert_eq!(deliveries.len(), 1);
    let (handle, envelope) = deliveries.into_iter().next().unwrap();
    assert_eq!(handle, SenderHandle(1));
    let envelope = match envelope {
        LineMessage::SubscriptionMessage(m) => m,
        LineMessage::SocketMessage(_) => panic!("wrong channel message"),
    };
    let forwarded = response_bytes(subscriber.handle_subscription_message(envelope));
    // a PUBLISH on "bye" carrying "gone"
    assert_eq!(
        forwarded,
        vec![0x30, 0x09, 0x00, 0x03, 0x62, 0x79, 0x65, 0x67, 0x6F, 0x6E, 0x65]
    );
}

#[test]
fn duplicate_subscribe_replaces_sender() {
    let mut subscript = Subscript::new();
    let mut machines = MachineManager::new();

    let subscribe = vec![0x82u8, 0x06, 0x00, 0x01, 0x00, 0x01, 0x74, 0x00];
    let mut first = Line::new(SenderHandle(1));
    first.handle_socket_message(&mut subscript, &mut machines, connect_bytes("A"));
    first.handle_socket_message(&mut subscript, &mut machines, subscribe.clone());

    // the client comes back on a fresh socket with a fresh channel
    let mut second = Line::new(SenderHandle(2));
    second.handle_socket_message(&mut subscript, &mut machines, connect_bytes("A"));
    second.handle_socket_message(&mut subscript, &mut machines, subscribe);

    let mut publisher = Line::new(SenderHandle(3));
    publisher.handle_socket_message(&mut subscript, &mut machines, connect_bytes("B"));
    let publish = vec![0x30u8, 0x05, 0x00, 0x01, 0x74, 0x68, 0x69];
    let (_, deliveries) = publisher.handle_socket_message(&mut subscript, &mut machines, publish);
    // exactly one delivery, and it goes to the new channel
    assert_eq!(deliveries.len(), 1);
    assert_eq!(deliveries[0].0, SenderHandle(2));
}

#[test]
fn line_closes_without_connack_on_bad_opening() {
    let mut subscript = Subscript::new();
    let mut machines = MachineManager::new();

    // a PINGREQ before any CONNECT
    let mut line = Line::new(SenderHandle(1));
    let (resp, deliveries) =
        line.handle_socket_message(&mut subscript, &mut machines, vec![0xC0, 0x00]);
    match resp {
        Some(MqttMessageKind::Exit(b)) => assert_eq!(b.len(), 0),
        _ => panic!("expected the line to close"),
    }
    assert_eq!(deliveries.len(), 0);
    assert_eq!(line.state, LineState::Terminated);

    // garbage that is no packet at all
    let mut line = Line::new(SenderHandle(2));
    let (resp, _) = line.handle_socket_message(&mut subscript, &mut machines, vec![0x00, 0x00]);
    match resp {
        Some(MqttMessageKind::Exit(b)) => assert_eq!(b.len(), 0),
        _ => panic!("expected the line to close"),
    }
    assert_eq!(line.state, LineState::Terminated);

    // a CONNECT whose payload is cut short
    let mut line = Line::new(SenderHandle(3));
    let mut truncated = connect_bytes("abcd");
    truncated.truncate(13);
    truncated[1] = 11;
    let (resp, _) = line.handle_socket_message(&mut subscript, &mut machines, truncated);
    match resp {
        Some(MqttMessageKind::Exit(b)) => assert_eq!(b.len(), 0),
        _ => panic!("expected the line to close"),
    }
    assert_eq!(line.state, LineState::Terminated);
}

#[test]
fn unsupported_level_gets_refusal_connack() {
    let mut subscript = Subscript::new();
    let mut machines = MachineManager::new();
    let mut line = Line::new(SenderHandle(1));
    let mut connect = connect_bytes("abcd");
    // level five instead of four
    connect[8] = 0x05;
    let (resp, _) = line.handle_socket_message(&mut subscript, &mut machines, connect);
    match resp {
        Some(MqttMessageKind::Exit(b)) => assert_eq!(b, vec![0x20, 0x02, 0x00, 0x01]),
        _ => panic!("expected a refusal before closing"),
    }
    assert_eq!(line.state, LineState::Terminated);
}

#[test]
fn unsubscribe_of_unknown_topic_still_earns_unsuback() {
    let mut subscript = Subscript::new();
    let mut machines = MachineManager::new();
    let mut line = Line::new(SenderHandle(1));
    line.handle_socket_message(&mut subscript, &mut machines, connect_bytes("A"));
    // UNSUBSCRIBE(id=2) for "t", never subscribed
    let unsubscribe = vec![0xA2u8, 0x05, 0x00, 0x02, 0x00, 0x01, 0x74];
    let (reply, _) = line.handle_socket_message(&mut subscript, &mut machines, unsubscribe);
    assert_eq!(response_bytes(reply), vec![0xB0, 0x02, 0x00, 0x02]);
}

#[test]
fn stored_qrcode_is_republished_on_connect() {
    let mut subscript = Subscript::new();
    let mut machines = MachineManager::new();

    // the device connected once, the HTTP side stored a QR code, and the
    // device went away
    let mut first = Line::new(SenderHandle(1));
    first.handle_socket_message(&mut subscript, &mut machines, connect_bytes("dev"));
    machines.set_qrcode(
        &mqtt_broker::machine::MachineID(String::from("dev")),
        String::from("qr-payload"),
    );
    handle_unclean_close(&mut first, &mut subscript, &mut machines);

    // somebody listens on the device's own topic
    let mut listener = Line::new(SenderHandle(2));
    listener.handle_socket_message(&mut subscript, &mut machines, connect_bytes("ear"));
    // subscribe to "dev-topic"
    let subscribe = vec![
        0x82u8, 0x0E, 0x00, 0x01, 0x00, 0x09, 0x64, 0x65, 0x76, 0x2D, 0x74, 0x6F, 0x70, 0x69,
        0x63, 0x00,
    ];
    listener.handle_socket_message(&mut subscript, &mut machines, subscribe);

    // the device reconnects: the stored QR code goes out on its topic
    let mut second = Line::new(SenderHandle(3));
    let (resp, deliveries) =
        second.handle_socket_message(&mut subscript, &mut machines, connect_bytes("dev"));
    assert_eq!(response_bytes(resp), vec![0x20, 0x02, 0x00, 0x00]);
    assert_eq!(deliveries.len(), 1);
    let (handle, envelope) = deliveries.into_iter().next().unwrap();
    assert_eq!(handle, SenderHandle(2));
    let envelope = match envelope {
        LineMessage::SubscriptionMessage(m) => m,
        LineMessage::SocketMessage(_) => panic!("wrong channel message"),
    };
    let forwarded = response_bytes(listener.handle_subscription_message(envelope));
    // a QoS one publish on "dev-topic" carrying the stored payload
    assert_eq!(forwarded[0], 0x32);
    let topic_and_rest = &forwarded[2..];
    assert_eq!(&topic_and_rest[2..11], b"dev-topic");
    assert_eq!(&forwarded[forwarded.len() - 10..], b"qr-payload");
}

#[test]
fn unsubscript_after_subscript_clears_membership() {
    let mut subscript = Subscript::new();
    let topic = String::from("t");
    let client = ClientID(String::from("c"));
    subscript.new_subscript(topic.clone(), ClientID(String::from("c")), SenderHandle(1));
    assert!(subscript.is_subscript(&topic, &client));
    subscript.unsubscript(&topic, &client);
    assert!(!subscript.is_subscript(&topic, &client));
}

#[test]
fn exit_clears_every_topic() {
    let mut subscript = Subscript::new();
    let client = ClientID(String::from("c"));
    let t1 = String::from("alpha");
    let t2 = String::from("beta");
    subscript.new_subscript(t1.clone(), ClientID(String::from("c")), SenderHandle(1));
    subscript.new_subscript(t2.clone(), ClientID(String::from("c")), SenderHandle(1));
    subscript.exit(&client);
    assert!(!subscript.is_subscript(&t1, &client));
    assert!(!subscript.is_subscript(&t2, &client));
    // the topic entries themselves stay behind
    assert_eq!(subscript.len(), 2);
    assert_eq!(subscript.client_len(&t1), 0);
}

#[test]
fn broadcast_serves_every_subscriber_including_originator() {
    let mut subscript = Subscript::new();
    let topic = String::from("t");
    subscript.new_subscript(topic.clone(), ClientID(String::from("a")), SenderHandle(1));
    subscript.subscript(&topic, ClientID(String::from("b")), SenderHandle(2));
    assert_eq!(subscript.client_len(&topic), 2);
    let msg = TopicMessage::ContentV3(
        ClientID(String::from("a")),
        mqtt_broker::v3::PublishMessage::new(
            mqtt_broker::protocol::MqttQos::Qos0,
            mqtt_broker::protocol::MqttDup::Disable,
            mqtt_broker::protocol::MqttRetain::Disable,
            String::from("t"),
            0,
            String::from("x"),
        ),
    );
    let deliveries = subscript.broadcast(&topic, &msg);
    assert_eq!(deliveries.len(), 2);
    assert_eq!(deliveries[0].0, SenderHandle(1));
    assert_eq!(deliveries[1].0, SenderHandle(2));
}
