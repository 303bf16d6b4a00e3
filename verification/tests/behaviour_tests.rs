use smarthome::protocol::{
    encode_ack_reply, encode_err_reply, encode_query_request, encode_state_reply,
    encode_switch_request, parse_request, parse_state_reply, parse_switch_reply, Request,
    SocketState,
};
use smarthome::{
    parse_address, Device, Error, Home, Room, SmartSocket, SocketEndpoint, StateSnapshot,
    Thermometr, AMBIENT_DECIDEGREES, DEFAULT_POWER_DECIWATTS,
};

#[test]
fn switch_request_frame_is_exact() {
    assert_eq!(encode_switch_request(true), vec![0x01u8, 1, 0, 0, 0, 0]);
    assert_eq!(encode_switch_request(false), vec![0x01u8, 0, 0, 0, 0, 0]);
    assert_eq!(encode_query_request(), vec![0x02u8, 0, 0, 0, 0, 0]);
}

#[test]
fn state_reply_frame_carries_power_big_endian() {
    let s = SocketState { on: true, power_deciwatts: 0x01020304 };
    assert_eq!(encode_state_reply(&s), vec![0x20u8, 1, 1, 2, 3, 4]);
    let back = parse_state_reply(&encode_state_reply(&s)).expect("well-formed frame");
    assert_eq!(back, s);
}

#[test]
fn request_codec_round_trips() {
    assert_eq!(
        parse_request(&encode_switch_request(true)),
        Some(Request::Switch(true))
    );
    assert_eq!(
        parse_request(&encode_switch_request(false)),
        Some(Request::Switch(false))
    );
    assert_eq!(parse_request(&encode_query_request()), Some(Request::QueryState));
}

#[test]
fn malformed_frames_are_rejected() {
    // wrong length
    assert_eq!(parse_request(&vec![0x01u8, 1]), None);
    // unknown opcode
    assert_eq!(parse_request(&vec![0x77u8, 0, 0, 0, 0, 0]), None);
    // switch payload out of range
    assert_eq!(parse_request(&vec![0x01u8, 2, 0, 0, 0, 0]), None);
    // dirty padding
    assert_eq!(parse_request(&vec![0x02u8, 0, 0, 0, 0, 9]), None);
    // a reply that is not the acknowledgement fails the switch round trip
    assert_eq!(
        parse_switch_reply(&encode_err_reply()),
        Err(Error::CommunicationError)
    );
    // a reply that is not a state frame fails the query round trip
    assert_eq!(
        parse_state_reply(&encode_ack_reply()),
        Err(Error::CommunicationError)
    );
}

#[test]
fn endpoint_answers_each_request() {
    let mut endpoint = SocketEndpoint::new();
    let ack = endpoint.handle(&encode_switch_request(true));
    assert_eq!(ack, encode_ack_reply());
    assert!(endpoint.on);
    let state_frame = endpoint.handle(&encode_query_request());
    assert_eq!(
        parse_state_reply(&state_frame),
        Ok(SocketState { on: true, power_deciwatts: DEFAULT_POWER_DECIWATTS })
    );
    let err = endpoint.handle(&vec![0x77u8, 0, 0, 0, 0, 0]);
    assert_eq!(err, encode_err_reply());
    assert!(endpoint.on); // a malformed request changes nothing
}

#[test]
fn switch_then_query_reflects_on_state() {
    let mut socket = SmartSocket::connect(SocketEndpoint::new());

    socket.switch(true).expect("switch on over a live connection");
    let s = socket.state().expect("query over a live connection");
    assert!(s.on);
    assert_eq!(s.power_deciwatts, DEFAULT_POWER_DECIWATTS);

    socket.switch(false).expect("switch off over a live connection");
    let s = socket.state().expect("query over a live connection");
    assert!(!s.on);
    assert_eq!(s.power_deciwatts, 0); // no draw while off
}

#[test]
fn lost_connection_fails_every_round_trip() {
    let mut socket = SmartSocket::disconnected();
    assert_eq!(socket.switch(true), Err(Error::CommunicationError));
    assert_eq!(socket.state(), Err(Error::CommunicationError));
    let d: Device = socket.into();
    assert_eq!(d.state(), Err(Error::CommunicationError));
}

#[test]
fn thermometr_reports_its_reading() {
    let t = Thermometr::new();
    assert_eq!(t.temperature(), Ok(AMBIENT_DECIDEGREES));
    let d: Device = t.into();
    assert_eq!(d.state(), Ok(StateSnapshot::Temperature(AMBIENT_DECIDEGREES)));
}

#[test]
fn duplicate_room_leaves_home_unchanged() {
    let mut home = Home::new("my home".into());
    home.add_room("room1".into(), Room::default()).unwrap();
    let names_before = home.room_names();
    assert_eq!(
        home.add_room("room1".into(), Room::default()),
        Err(Error::DuplicateName)
    );
    assert_eq!(home.room_names(), names_before);
}

#[test]
fn deleting_absent_entries_is_not_found() {
    let mut home = Home::new("my home".into());
    assert_eq!(home.delete_room("nowhere"), Err(Error::NotFound));
    let mut room = Room::default();
    assert_eq!(room.delete_device("nothing"), Err(Error::NotFound));
}

#[test]
fn duplicate_device_errors_are_distinct() {
    let mut room = Room::default();
    room.add_device("thermo".into(), "hall thermometr".into(), Thermometr::new().into())
        .unwrap();
    // same name first, whatever the kind
    assert_eq!(
        room.add_device(
            "thermo".into(),
            "".into(),
            Device::SmartSocket(SmartSocket::connect(SocketEndpoint::new()))
        ),
        Err(Error::DuplicateName)
    );
    // fresh name but a kind already present
    assert_eq!(
        room.add_device("thermo2".into(), "".into(), Thermometr::new().into()),
        Err(Error::DuplicateType)
    );
    assert_eq!(room.device_names(), vec!["thermo".to_string()]);
}

#[test]
fn report_records_failures_per_device() {
    let mut home = Home::new("my home".into());

    let mut good = Room::default();
    good.add_device("thermo".into(), "".into(), Thermometr::new().into())
        .unwrap();
    let mut live = SmartSocket::connect(SocketEndpoint::new());
    live.switch(true).unwrap();
    good.add_device("socket".into(), "".into(), live.into()).unwrap();
    home.add_room("room1".into(), good).unwrap();

    let mut bad = Room::default();
    bad.add_device("socket".into(), "".into(), SmartSocket::disconnected().into())
        .unwrap();
    home.add_room("room2".into(), bad).unwrap();

    let report = home.state();
    let entries = report.entries();
    assert_eq!(entries.len(), 3);

    assert_eq!(entries[0].room_name, "room1");
    assert_eq!(entries[0].device_name, "thermo");
    assert_eq!(entries[0].state, Ok(StateSnapshot::Temperature(AMBIENT_DECIDEGREES)));

    assert_eq!(entries[1].room_name, "room1");
    assert_eq!(entries[1].device_name, "socket");
    assert_eq!(
        entries[1].state,
        Ok(StateSnapshot::Socket(SocketState { on: true, power_deciwatts: DEFAULT_POWER_DECIWATTS }))
    );

    // the dead socket is recorded, not propagated
    assert_eq!(entries[2].room_name, "room2");
    assert_eq!(entries[2].device_name, "socket");
    assert_eq!(entries[2].state, Err(Error::CommunicationError));
}

#[test]
fn addresses_parse_exactly() {
    let a = parse_address("127.0.0.1:55331").expect("well-formed address");
    assert_eq!(a.host, "127.0.0.1");
    assert_eq!(a.port, 55331);

    let b = parse_address("localhost:0").expect("well-formed address");
    assert_eq!(b.host, "localhost");
    assert_eq!(b.port, 0);

    // the host may itself contain colons; the port follows the last one
    let c = parse_address("a:b:5").expect("well-formed address");
    assert_eq!(c.host, "a:b");
    assert_eq!(c.port, 5);

    // leading zeros are digits like any others
    let d = parse_address("h:00080").expect("well-formed address");
    assert_eq!(d.port, 80);
}

#[test]
fn bad_addresses_are_connection_errors() {
    assert_eq!(parse_address("nocolon"), Err(Error::ConnectionError));
    assert_eq!(parse_address(""), Err(Error::ConnectionError));
    assert_eq!(parse_address(":55331"), Err(Error::ConnectionError));
    assert_eq!(parse_address("host:"), Err(Error::ConnectionError));
    assert_eq!(parse_address("host:12x3"), Err(Error::ConnectionError));
    assert_eq!(parse_address("host:65536"), Err(Error::ConnectionError));
    assert_eq!(parse_address("host:99999999999"), Err(Error::ConnectionError));
    assert_eq!(parse_address("host:65535").unwrap().port, 65535);
}

#[test]
fn switching_through_the_hierarchy() {
    let mut home = Home::new("my home".into());
    home.add_room("room1".into(), Room::default()).unwrap();
    home.room_mut("room1")
        .unwrap()
        .add_device("socket".into(), "".into(), connect_to_mock())
        .unwrap();

    if let Some(Device::SmartSocket(socket)) = home.room_mut("room1").unwrap().device_mut("socket")
    {
        socket.switch(true).unwrap();
    } else {
        panic!("no socket in room1");
    }

    let report = home.state();
    assert_eq!(
        report.entries()[0].state,
        Ok(StateSnapshot::Socket(SocketState { on: true, power_deciwatts: DEFAULT_POWER_DECIWATTS }))
    );
}

fn connect_to_mock() -> Device {
    SmartSocket::connect(SocketEndpoint::new()).into()
}

#[test]
fn errors_describe_themselves() {
    assert_eq!(Error::DuplicateName.describe(), "duplicate name");
    assert_eq!(Error::DuplicateType.describe(), "duplicate device type");
    assert_eq!(Error::NotFound.describe(), "not found");
    assert_eq!(Error::ConnectionError.describe(), "connection error");
    assert_eq!(Error::CommunicationError.describe(), "communication error");
}
