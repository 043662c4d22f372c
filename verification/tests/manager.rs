use lora_comms::clock::Timestamp;
use lora_comms::device::discovery::PortDescription;
use lora_comms::device::serial::ConnectAction;
use lora_comms::device::{
    ConnectionStatus, DeviceConnection, DeviceError, DeviceInfo, DeviceType,
};
use lora_comms::protocol::{PayloadVariant, ProtocolError, BROADCAST_ADDR};
use lora_comms::{LoraCommsError, LoraCommsManager};

fn serial_info(path: &str) -> DeviceInfo {
    DeviceInfo::new(path.to_string(), path.to_string(), path.to_string(), DeviceType::Serial)
}

fn open(manager: &mut LoraCommsManager, id: &str) {
    let at = manager.find_device(id).unwrap();
    let device = manager.device_at_mut(at);
    match device.connect() {
        ConnectAction::Open { .. } => {
            assert_eq!(device.on_open_result(Ok(())), ConnectAction::Done(Ok(())));
        }
        other => panic!("unexpected action {:?}", other),
    }
}

#[test]
fn test_manager_creation() {
    let manager = LoraCommsManager::new();
    assert_eq!(manager.session_count(), 0);
}

#[test]
fn connecting_a_serial_device_makes_a_session() {
    let mut manager = LoraCommsManager::new();
    let id = manager.connect_device(&serial_info("/dev/ttyUSB0")).unwrap();
    assert_eq!(id.len(), 36);
    assert_eq!(manager.session_count(), 1);
    let at = manager.find_device(&id).unwrap();
    assert_eq!(manager.device_at(at).path(), "/dev/ttyUSB0");
    assert!(!manager.device_at(at).is_connected());
    let other = manager.connect_device(&serial_info("/dev/ttyUSB1")).unwrap();
    assert_ne!(id, other);
    assert_eq!(manager.session_count(), 2);
}

#[test]
fn other_transports_are_unsupported() {
    let mut manager = LoraCommsManager::new();
    let mut info = serial_info("AA:BB");
    info.device_type = DeviceType::Bluetooth;
    assert_eq!(
        manager.connect_device(&info),
        Err(LoraCommsError::Connection { message: "Bluetooth not yet implemented".to_string() })
    );
    info.device_type = DeviceType::Tcp;
    assert_eq!(
        manager.connect_device_as(&info, "s1".to_string()),
        Err(LoraCommsError::Connection { message: "TCP not yet implemented".to_string() })
    );
    assert_eq!(manager.session_count(), 0);
}

#[test]
fn session_under_a_given_id() {
    let mut manager = LoraCommsManager::new();
    assert_eq!(
        manager.connect_device_as(&serial_info("/dev/a"), "s1".to_string()),
        Ok("s1".to_string())
    );
    assert_eq!(
        manager.connect_device_as(&serial_info("/dev/b"), "s1".to_string()),
        Ok("s1".to_string())
    );
    assert_eq!(manager.session_count(), 1);
    let at = manager.find_device("s1").unwrap();
    assert_eq!(manager.device_at(at).path(), "/dev/b");
}

#[test]
fn unknown_session_is_not_found() {
    let mut manager = LoraCommsManager::new();
    let not_found = LoraCommsError::Connection { message: "Device not found".to_string() };
    assert_eq!(manager.send_message("nope", "hi", None), Err(not_found.clone()));
    assert_eq!(manager.get_nodes("nope"), Err(not_found.clone()));
    assert_eq!(manager.find_device("nope"), None);
    assert_eq!(manager.disconnect_device("nope"), Err(not_found));
    assert_eq!(manager.session_count(), 0);
}

#[test]
fn sending_through_a_session() {
    let mut manager = LoraCommsManager::new();
    manager.connect_device_as(&serial_info("/dev/a"), "s1".to_string()).unwrap();
    assert_eq!(
        manager.send_message("s1", "hi", None),
        Err(LoraCommsError::Device(DeviceError::ConnectionFailed {
            message: "Device not connected".to_string()
        }))
    );
    open(&mut manager, "s1");
    let sent_at = Timestamp::new(1_700_000_000, 0);
    let packet = manager.send_message_with("s1", "hi", None, sent_at, 55).unwrap();
    assert_eq!(packet.to, BROADCAST_ADDR);
    assert_eq!(packet.id, 55);
    assert_eq!(packet.rx_time, 1_700_000_000);
    assert_eq!(packet.payload, Some(PayloadVariant::Text("hi".to_string())));
    assert!(!packet.want_ack);
    let directed = manager.send_message("s1", "yo", Some("42")).unwrap();
    assert_eq!(directed.to, 42);
    assert_eq!(directed.payload, Some(PayloadVariant::Text("yo".to_string())));
    let nodes = manager.get_nodes("s1").unwrap();
    assert_eq!(nodes.len(), 1);
    assert_eq!(nodes[0].id, "broadcast");
    assert_eq!(nodes[0].name, "All Nodes");
    assert_eq!(nodes[0].short_name, "ALL");
    assert!(nodes[0].is_online);
}

#[test]
fn disconnecting_ends_the_session() {
    let mut manager = LoraCommsManager::new();
    manager.connect_device_as(&serial_info("/dev/a"), "s1".to_string()).unwrap();
    manager.connect_device_as(&serial_info("/dev/b"), "s2".to_string()).unwrap();
    assert_eq!(manager.disconnect_device("s1"), Ok(()));
    assert_eq!(manager.session_count(), 1);
    assert_eq!(manager.find_device("s1"), None);
    assert_eq!(manager.find_device("s2"), Some(0));
    assert_eq!(
        manager.disconnect_device("s1"),
        Err(LoraCommsError::Connection { message: "Device not found".to_string() })
    );
    assert_eq!(manager.session_count(), 1);
    assert_eq!(manager.find_device("s2"), Some(0));
}

#[test]
fn scan_classifies_the_listed_ports() {
    let manager = LoraCommsManager::new();
    let ports = vec![
        PortDescription { port_name: "/dev/ttyS0".to_string(), usb: None },
        PortDescription { port_name: "/dev/ttyUSB0".to_string(), usb: None },
    ];
    let devices = manager.scan_devices(&ports).unwrap();
    assert_eq!(devices, vec![serial_info("/dev/ttyUSB0")]);
}

#[test]
fn library_error_messages() {
    assert_eq!(
        LoraCommsError::Device(DeviceError::NotFound).message(),
        "Device error: Device not found"
    );
    assert_eq!(
        LoraCommsError::Protocol(ProtocolError::InvalidFormat).message(),
        "Protocol error: Invalid message format"
    );
    assert_eq!(LoraCommsError::Io("disk".to_string()).message(), "IO error: disk");
    assert_eq!(
        LoraCommsError::Serialization("eof".to_string()).message(),
        "Serialization error: eof"
    );
    assert_eq!(
        LoraCommsError::Connection { message: "down".to_string() }.message(),
        "Connection error: down"
    );
    assert_eq!(LoraCommsError::Timeout.message(), "Timeout error");
}

#[test]
fn device_error_messages() {
    assert_eq!(
        DeviceError::ConnectionFailed { message: "x".to_string() }.message(),
        "Connection failed: x"
    );
    assert_eq!(DeviceError::NotFound.message(), "Device not found");
    assert_eq!(DeviceError::PermissionDenied.message(), "Permission denied");
    assert_eq!(DeviceError::Io("y".to_string()).message(), "IO error: y");
    assert_eq!(DeviceError::Timeout.message(), "Timeout");
    assert_eq!(DeviceError::InvalidResponse.message(), "Invalid response");
    assert_eq!(
        DeviceError::connection_failed("Failed to write to serial port: ", "broken pipe"),
        DeviceError::ConnectionFailed {
            message: "Failed to write to serial port: broken pipe".to_string()
        }
    );
}

#[test]
fn connection_goes_through_its_states() {
    let mut connection = DeviceConnection::new(serial_info("/dev/a"));
    assert_eq!(connection.status, ConnectionStatus::Disconnected);
    assert_eq!((connection.connected_at, connection.last_activity), (None, None));
    connection.set_connecting();
    assert_eq!(connection.status, ConnectionStatus::Connecting);
    let t = Timestamp::new(100, 0);
    connection.set_connected_at(t);
    assert_eq!(connection.status, ConnectionStatus::Connected);
    assert_eq!((connection.connected_at, connection.last_activity), (Some(t), Some(t)));
    let later = Timestamp::new(200, 0);
    connection.update_activity_at(later);
    assert_eq!((connection.connected_at, connection.last_activity), (Some(t), Some(later)));
    connection.set_error("cable pulled".to_string());
    assert_eq!(connection.status, ConnectionStatus::Error("cable pulled".to_string()));
    connection.set_disconnected();
    assert_eq!(connection.status, ConnectionStatus::Disconnected);
    assert_eq!((connection.connected_at, connection.last_activity), (None, Some(later)));
    connection.set_connected();
    assert_eq!(connection.status, ConnectionStatus::Connected);
    assert!(connection.connected_at.is_some());
    assert_eq!(connection.connected_at, connection.last_activity);
    connection.update_activity();
    assert!(connection.last_activity.is_some());
}

#[test]
fn test_device_scanning() {
    let manager = LoraCommsManager::new();
    let ports = vec![
        PortDescription { port_name: "/dev/ttyACM0".to_string(), usb: None },
        PortDescription { port_name: "/dev/ttyS1".to_string(), usb: None },
    ];
    let devices = manager.scan_devices(&ports).unwrap();
    println!("Found {} devices:", devices.len());
    for device in &devices {
        println!("  - {} ({:?}): {}", device.name, device.device_type, device.path);
    }
    assert_eq!(devices.len(), 1);
}
