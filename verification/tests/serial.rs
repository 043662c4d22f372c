use bytes::BytesMut;
use lora_comms::clock::Timestamp;
use lora_comms::device::serial::{
    continue_after_forward, keep_decoded, on_read, ConnectAction, ListenAction, ReadEvent,
    IDLE_WAIT_MILLIS, OPEN_TIMEOUT_SECS,
};
use lora_comms::device::{DeviceError, SerialDevice};
use lora_comms::framing::frame_message;
use lora_comms::protocol::{
    Float32, MeshMessage, MeshPacket, MeshPacket_Priority, PayloadVariant, BROADCAST_ADDR,
};
use lora_comms::radio::{RadioConfig, RadioPreset};

fn device() -> SerialDevice {
    SerialDevice::new("/dev/ttyUSB0").unwrap()
}

/// Runs a connect against a port that opens only at the given rates.
fn connect(device: &mut SerialDevice, opens_at: &[u32]) -> (Vec<u32>, Result<(), DeviceError>) {
    let mut tried = Vec::new();
    let mut action = device.connect();
    loop {
        match action {
            ConnectAction::Open { baud_rate, timeout_secs } => {
                assert_eq!(timeout_secs, OPEN_TIMEOUT_SECS);
                assert!(device.is_probing());
                tried.push(baud_rate);
                let opened = if opens_at.contains(&baud_rate) {
                    Ok(())
                } else {
                    Err(format!("no answer at {}", baud_rate))
                };
                action = device.on_open_result(opened);
            }
            ConnectAction::Done(result) => return (tried, result),
        }
    }
}

fn connected() -> SerialDevice {
    let mut d = device();
    assert_eq!(connect(&mut d, &[115200]).1, Ok(()));
    d
}

fn message(to: &str, text: &str, want_ack: Option<bool>) -> MeshMessage {
    let mut m = MeshMessage::text_at(
        "local".to_string(),
        to.to_string(),
        text.to_string(),
        Timestamp::new(5, 0),
        1,
    );
    m.want_ack = want_ack;
    m
}

#[test]
fn new_device_is_idle() {
    let d = device();
    assert_eq!(d.path(), "/dev/ttyUSB0");
    assert!(!d.is_connected());
    assert!(!d.is_listening());
    assert!(!d.is_probing());
    assert_eq!(d.baud_rate(), None);
    assert!(d.failed_attempts().is_empty());
}

#[test]
fn third_candidate_opens_after_two_failures() {
    let mut d = device().with_baud_rates(vec![115200, 921600, 57600]);
    let (tried, result) = connect(&mut d, &[57600]);
    assert_eq!(result, Ok(()));
    assert_eq!(tried, vec![115200, 921600, 57600]);
    assert!(d.is_connected());
    assert_eq!(d.baud_rate(), Some(57600));
    assert_eq!(d.failed_attempts(), &vec![115200, 921600]);
    assert!(!d.is_probing());
}

#[test]
fn standard_rates_are_tried_in_order() {
    let mut d = device();
    let (tried, result) = connect(&mut d, &[]);
    assert_eq!(tried, vec![115200, 921600, 57600, 38400, 19200]);
    assert_eq!(
        result,
        Err(DeviceError::ConnectionFailed {
            message: "Failed to connect at any baud rate: Some(no answer at 19200)".to_string()
        })
    );
    assert!(!d.is_connected());
    assert_eq!(d.baud_rate(), None);
    assert_eq!(d.failed_attempts(), &vec![115200, 921600, 57600, 38400, 19200]);
}

#[test]
fn first_rate_that_opens_wins() {
    let mut d = device();
    let (tried, result) = connect(&mut d, &[921600, 57600]);
    assert_eq!(result, Ok(()));
    assert_eq!(tried, vec![115200, 921600]);
    assert_eq!(d.baud_rate(), Some(921600));
    assert_eq!(d.failed_attempts(), &vec![115200]);
}

#[test]
fn connect_without_candidates_fails_at_once() {
    let mut d = device().with_baud_rates(Vec::new());
    assert_eq!(
        d.connect(),
        ConnectAction::Done(Err(DeviceError::ConnectionFailed {
            message: "Failed to connect at any baud rate: None".to_string()
        }))
    );
    assert!(!d.is_probing());
}

#[test]
fn a_new_connect_forgets_old_failures() {
    let mut d = device().with_baud_rates(vec![1, 2]);
    assert!(connect(&mut d, &[]).1.is_err());
    assert_eq!(d.failed_attempts(), &vec![1, 2]);
    assert_eq!(connect(&mut d, &[1]).1, Ok(()));
    assert!(d.failed_attempts().is_empty());
}

#[test]
fn disconnect_is_idempotent() {
    let mut d = connected();
    d.start_listening().unwrap();
    d.process_incoming_data(&[0x94, 1, 2]).unwrap();
    assert_eq!(d.disconnect(), Ok(()));
    assert!(!d.is_connected());
    assert!(!d.is_listening());
    assert_eq!(d.baud_rate(), None);
    assert_eq!(d.disconnect(), Ok(()));
    assert!(!d.is_connected());
    assert!(!d.is_listening());
    // The buffer was emptied: the rest of the old frame means nothing now.
    assert_eq!(d.process_incoming_data(&frame_message(b"x")[1..]).unwrap(), Vec::<Vec<u8>>::new());
}

#[test]
fn disconnect_of_a_fresh_device_succeeds() {
    let mut d = device();
    assert_eq!(d.disconnect(), Ok(()));
    assert_eq!(d.disconnect(), Ok(()));
    assert!(!d.is_connected());
}

#[test]
fn listening_needs_a_connection() {
    let mut d = device();
    assert_eq!(
        d.start_listening(),
        Err(DeviceError::ConnectionFailed { message: "Device not connected".to_string() })
    );
    assert!(!d.is_listening());
    let mut d = connected();
    assert_eq!(d.start_listening(), Ok(()));
    assert!(d.is_listening());
    assert_eq!(d.stop_listening(), Ok(()));
    assert!(!d.is_listening());
    assert!(d.is_connected());
}

#[test]
fn sending_needs_a_connection() {
    let d = device();
    let not_connected =
        DeviceError::ConnectionFailed { message: "Device not connected".to_string() };
    assert_eq!(d.send_message(&message("1", "x", None)), Err(not_connected.clone()));
    assert_eq!(d.frame_outgoing(b"abc"), Err(not_connected.clone()));
    assert_eq!(d.configure_radio(&RadioConfig::default()), Err(not_connected));
}

#[test]
fn outgoing_packet_carries_the_message() {
    let d = connected().with_node_num(12);
    let packet = d.send_message_with(&message("42", "hello", Some(true)), 7, 8).unwrap();
    assert_eq!(
        packet,
        MeshPacket {
            from: 12,
            to: 42,
            id: 7,
            payload: Some(PayloadVariant::Text("hello".to_string())),
            hop_limit: 3,
            want_ack: true,
            priority: MeshPacket_Priority::DEFAULT,
            rx_time: 8,
            rx_snr: Float32 { bits: 0 },
            rx_rssi: 0,
            channel: 0,
        }
    );
    let to_all = d.send_message(&message("broadcast", "hi", None)).unwrap();
    assert_eq!(to_all.to, BROADCAST_ADDR);
    assert!(!to_all.want_ack);
    let unknown = d.send_message(&message("somebody", "hi", Some(false))).unwrap();
    assert_eq!(unknown.to, BROADCAST_ADDR);
}

#[test]
fn frame_outgoing_is_the_frame() {
    let d = connected();
    assert_eq!(d.frame_outgoing(b"abc"), Ok(frame_message(b"abc")));
    assert_eq!(d.frame_message(b"abc"), frame_message(b"abc"));
}

#[test]
fn configure_radio_addresses_the_device_itself() {
    let d = connected().with_node_num(5);
    let config = RadioConfig::default().with_preset(RadioPreset::LongSlow);
    let packet = d.configure_radio_at(&config, 99).unwrap();
    assert_eq!((packet.from, packet.to), (5, 5));
    assert_eq!(packet.hop_limit, 3);
    assert!(packet.want_ack);
    assert_eq!(packet.priority, MeshPacket_Priority::RELIABLE);
    assert_eq!(packet.rx_time, 99);
    assert_eq!(packet.payload, Some(PayloadVariant::Admin(config.to_admin_message())));
    assert_eq!(d.configure_radio(&config).unwrap().id, packet.id);
}

#[test]
fn device_reports_nodes_and_info() {
    let d = device();
    let nodes = d.get_nodes().unwrap();
    assert_eq!(nodes.len(), 1);
    assert_eq!(nodes[0].id, "broadcast");
    assert_eq!(nodes[0].name, "All Nodes");
    assert_eq!(nodes[0].short_name, "ALL");
    assert!(nodes[0].is_online);
    assert_eq!(d.get_device_info(), Ok("Serial device connected on /dev/ttyUSB0".to_string()));
}

#[test]
fn incoming_data_is_framed_across_reads() {
    let mut d = connected();
    let mut stream = frame_message(b"one");
    stream.extend_from_slice(&frame_message(b"two"));
    let (head, tail) = stream.split_at(4);
    assert_eq!(d.process_incoming_data(head), Ok(Vec::<Vec<u8>>::new()));
    assert_eq!(d.process_incoming_data(tail), Ok(vec![b"one".to_vec(), b"two".to_vec()]));
    assert_eq!(d.extract_frame(), None);
}

#[test]
fn reads_of_any_size_give_every_payload_in_order() {
    let sent: Vec<Vec<u8>> = vec![
        b"one".to_vec(),
        vec![0x94, 0x7E, 0x7D, 0x20],
        Vec::new(),
        vec![0x7D, 0x7D, 0x00, 0xFF],
    ];
    let mut stream: Vec<u8> = Vec::new();
    for payload in &sent {
        stream.extend_from_slice(&frame_message(payload));
    }
    let mut whole = connected();
    assert_eq!(whole.process_incoming_data(&stream), Ok(sent.clone()));
    assert_eq!(whole.extract_frame(), None);
    for size in 1..=stream.len() {
        let mut d = connected();
        let mut got: Vec<Vec<u8>> = Vec::new();
        for read in stream.chunks(size) {
            got.extend(d.process_incoming_data(read).unwrap());
        }
        assert_eq!(got, sent, "reads of {} bytes", size);
        assert_eq!(d.process_incoming_data(&[]), Ok(Vec::<Vec<u8>>::new()));
    }
}

#[test]
fn on_read_passes_over_a_bad_frame() {
    let mut bad = frame_message(b"bad");
    bad[1] ^= 0x01;
    let mut stream = frame_message(b"one");
    stream.extend_from_slice(&bad);
    stream.extend_from_slice(&frame_message(b"two"));
    let cut = stream.len() - 1;
    let mut buffer = BytesMut::new();
    assert_eq!(
        on_read(&mut buffer, ReadEvent::Data(stream[..cut].to_vec())),
        ListenAction::Forward(vec![b"one".to_vec()])
    );
    assert_eq!(
        on_read(&mut buffer, ReadEvent::Data(stream[cut..].to_vec())),
        ListenAction::Forward(vec![b"two".to_vec()])
    );
    assert_eq!(buffer.len(), 0);
}

#[test]
fn extract_frame_waits_for_the_end() {
    let mut d = connected();
    let framed = frame_message(b"abc");
    assert_eq!(d.process_incoming_data(&framed[..3]), Ok(Vec::<Vec<u8>>::new()));
    assert_eq!(d.extract_frame(), None);
    assert_eq!(d.process_incoming_data(&framed[3..]), Ok(vec![b"abc".to_vec()]));
}

#[test]
fn listening_task_decides_on_each_read() {
    let mut buffer = BytesMut::new();
    let framed = frame_message(b"abc");
    assert_eq!(
        on_read(&mut buffer, ReadEvent::Data(framed[..2].to_vec())),
        ListenAction::Forward(Vec::new())
    );
    assert_eq!(on_read(&mut buffer, ReadEvent::Empty), ListenAction::Wait(IDLE_WAIT_MILLIS));
    assert_eq!(&buffer[..], &framed[..2]);
    assert_eq!(
        on_read(&mut buffer, ReadEvent::Data(framed[2..].to_vec())),
        ListenAction::Forward(vec![b"abc".to_vec()])
    );
    assert_eq!(on_read(&mut buffer, ReadEvent::Failed), ListenAction::Stop);
    assert_eq!(IDLE_WAIT_MILLIS, 10);
    assert!(continue_after_forward(true));
    assert!(!continue_after_forward(false));
}

#[test]
fn keep_decoded_keeps_successes_in_order() {
    let a = MeshPacket::new_text_message(1, 2, "a");
    let b = MeshPacket::new_text_message(3, 4, "b");
    let results: Vec<Result<MeshPacket, String>> =
        vec![Ok(a.clone()), Err("bad".to_string()), Ok(b.clone()), Err("worse".to_string())];
    assert_eq!(keep_decoded(results), vec![a, b]);
    assert_eq!(keep_decoded(Vec::<Result<MeshPacket, String>>::new()), Vec::new());
}
