use mqtt_broker::config::ConfigBuilder;
use mqtt_broker::machine::{Machine, MachineID, MachineManager, MachineStatus};
use mqtt_broker::types::TypeKind;

#[test]
fn lib_test() {
    let mut manager = MachineManager::new();
    manager.append(
        MachineID::new(String::from("1")),
        Machine { id: String::from("1"), qrcode_url: "".to_string(), status: MachineStatus::Offline },
    );
    manager.append(
        MachineID::new(String::from("2")),
        Machine { id: String::from("2"), qrcode_url: "".to_string(), status: MachineStatus::Offline },
    );
}

#[test]
fn config_test() {
    println!("{:?}", ConfigBuilder::default());
}

#[test]
fn pack_tool_test() {
    let name = String::from("MQTT");
    let packed = mqtt_broker::pack_tool::pack_protocol_name(&name);
    println!("{:?}", packed);
}

#[test]
fn types_test() {
    let kind = TypeKind::from_num(1u8);
    if let Some(res) = kind {
        println!("{:?}", res);
    }
}

#[test]
fn test2() {
    let kind = TypeKind::PINGREQ;
    println!("{:?}", kind.as_header_byte());
}

#[test]
fn un_pack_tool_test() {
    let arr = [0, 0, 14, 16];
    let mut reversed: Vec<i32> = Vec::new();
    for v in arr.iter().rev() {
        reversed.push(*v);
    }
    println!("{:?}", reversed);
}
