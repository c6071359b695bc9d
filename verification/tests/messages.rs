use sowm::messages::{ClientMessage, Config, ServerMessage, SowmError};

fn round_trip_client(m: ClientMessage) {
    let bytes = m.serialize().expect("serialization must succeed");
    let back = ClientMessage::deserialize(&bytes).expect("deserialization must succeed");
    assert_eq!(back, m);
}

#[test]
fn client_message_round_trip_every_variant() {
    round_trip_client(ClientMessage::Start);
    round_trip_client(ClientMessage::Stop);
    round_trip_client(ClientMessage::Next);
    round_trip_client(ClientMessage::Update(Config::new(
        120,
        false,
        b"/tmp/pictures".to_vec(),
        2,
    )));
    round_trip_client(ClientMessage::Update(Config::new(
        u64::MAX,
        true,
        Vec::new(),
        65535,
    )));
}

#[test]
fn server_message_round_trip_every_variant() {
    for m in [
        ServerMessage::Okay,
        ServerMessage::InvalidCommand,
        ServerMessage::DirNotFound,
        ServerMessage::NoImagesFound,
    ] {
        let bytes = m.serialize().expect("serialization must succeed");
        let back = ServerMessage::deserialize(&bytes).expect("deserialization must succeed");
        assert_eq!(back, m);
    }
}

#[test]
fn client_message_wire_bytes_are_exact() {
    assert_eq!(ClientMessage::Start.serialize().unwrap(), vec![0]);
    assert_eq!(ClientMessage::Stop.serialize().unwrap(), vec![1]);
    assert_eq!(ClientMessage::Next.serialize().unwrap(), vec![2]);

    let m = ClientMessage::Update(Config::new(5, true, b"/abc".to_vec(), 2));
    let bytes = m.serialize().unwrap();
    assert_eq!(
        bytes,
        vec![3, 5, 0, 0, 0, 0, 0, 0, 0, 1, 2, 0, 4, 0, 47, 97, 98, 99]
    );
}

#[test]
fn server_message_wire_bytes_are_exact() {
    assert_eq!(ServerMessage::Okay.serialize().unwrap(), vec![0]);
    assert_eq!(ServerMessage::InvalidCommand.serialize().unwrap(), vec![1]);
    assert_eq!(ServerMessage::DirNotFound.serialize().unwrap(), vec![2]);
    assert_eq!(ServerMessage::NoImagesFound.serialize().unwrap(), vec![3]);
}

#[test]
fn client_message_rejects_malformed_payloads() {
    let malformed: &[&[u8]] = &[
        &[],                // no tag
        &[9],               // unknown tag
        &[0, 0],            // trailing byte after Start
        &[3],               // update with no body
        &[3, 0, 0, 0, 0, 0, 0, 0, 0, 2, 0, 0, 0, 0],    // shuffle byte out of range
        &[3, 0, 0, 0, 0, 0, 0, 0, 0, 1, 0, 0, 5, 0],    // declared path longer than buffer
        &[3, 0, 0, 0, 0, 0, 0, 0, 0, 1, 0, 0, 0, 0, 47], // trailing byte past declared path
    ];
    for payload in malformed {
        assert!(matches!(
            ClientMessage::deserialize(payload),
            Err(SowmError::DeserializationFailed)
        ));
    }
}

#[test]
fn server_message_rejects_malformed_payloads() {
    for payload in [&[][..], &[4][..], &[0, 0][..], &[255][..]] {
        assert!(matches!(
            ServerMessage::deserialize(payload),
            Err(SowmError::DeserializationFailed)
        ));
    }
}

#[test]
fn update_with_oversized_path_cannot_be_encoded() {
    let m = ClientMessage::Update(Config::new(1, false, vec![97; 65536], 1));
    assert!(matches!(
        m.serialize(),
        Err(SowmError::SerializationFailed)
    ));
}

#[test]
fn update_with_oversized_monitor_count_cannot_be_encoded() {
    let m = ClientMessage::Update(Config::new(1, false, b"/a".to_vec(), 65536));
    assert!(matches!(
        m.serialize(),
        Err(SowmError::SerializationFailed)
    ));
}

#[test]
fn default_config_valid() {
    let c = Config::default();
    assert!(c.is_valid(), "Default config wasn't valid");
}

#[test]
fn config_accessors() {
    let c = Config::new(120, true, b"/tmp/pictures".to_vec(), 3);
    assert_eq!(c.switch_interval(), 120);
    assert!(c.shuffle());
    assert_eq!(c.image_dir(), b"/tmp/pictures");
    assert_eq!(c.num_monitors(), 3);
    assert!(c.is_valid());

    let empty_dir = Config::new(120, true, Vec::new(), 3);
    assert!(!empty_dir.is_valid());
    let no_monitors = Config::new(120, true, b"/tmp".to_vec(), 0);
    assert!(!no_monitors.is_valid());
}

#[test]
fn client_critical_only_for_unreachable_daemon() {
    assert!(SowmError::NoHomeDirectory.client_critical());
    assert!(SowmError::NoUserSocketDirectory(b"/run/user/7".to_vec()).client_critical());
    assert!(!SowmError::NoConfigDir(b"/home/x/.config".to_vec()).client_critical());
    assert!(!SowmError::SerializationFailed.client_critical());
    assert!(!SowmError::DeserializationFailed.client_critical());
    assert!(!SowmError::ConfigParseFail.client_critical());
}
