use smarthome::{Device, Home, Room, SmartSocket, SocketEndpoint, Thermometr};

fn connect_to_smartsocket_mock() -> Device {
    // the deterministic in-process endpoint stands in for the mock server
    SmartSocket::connect(SocketEndpoint::new()).into()
}

#[test]
// here we test that pub field `name` is correctly set with `Home::new()`
fn home_has_name() {
    let home_hame = String::from("my home");
    let home = Home::new(home_hame.clone());
    assert_eq!(home_hame, home.name);
}

#[test]
// here we test that home has as many rooms as we expect after adding and removing it
fn home_has_rooms() -> Result<(), String> {
    let mut home = Home::new("my home".into());

    // test we can add rooms
    home.add_room("room1".into(), Room::default()).map_err(|e| e.describe().to_string())?;
    home.add_room("room2".into(), Room::default()).map_err(|e| e.describe().to_string())?;
    home.add_room("room3".into(), Room::default()).map_err(|e| e.describe().to_string())?;

    // test that we have rooms we added
    let mut room_names: Vec<String> = home.room_names();
    room_names.sort_unstable(); // we don't have any order requirements so here we sort before checking result
    if room_names != vec!["room1".to_string(), "room2".to_string(), "room3".to_string()] {
        return Err(format!("expected [room1, room2, room3], got {:?}", room_names));
    }

    // test we can get rooms we added
    home.room("room1").ok_or("no room1")?;
    home.room("room2").ok_or("no room2")?;
    home.room("room3").ok_or("no room3")?;

    // test we can delete room
    home.delete_room("room2").map_err(|e| e.describe().to_string())?;

    // test that room was deleted
    let mut room_names: Vec<String> = home.room_names();
    room_names.sort_unstable();
    if room_names != vec!["room1".to_string(), "room3".to_string()] {
        return Err(format!("expected [room1, room3], got {:?}", room_names));
    }

    // test we can get rooms we didn't delete
    home.room("room1").ok_or("no room1")?;
    home.room("room3").ok_or("no room3")?;

    // test we can't get room we deleted
    if home.room("room2").is_some() {
        return Err("Expected home.room(\"room2\") to return Err".into());
    };

    Ok(())
}

#[test]
// here we test that home does not allow to add room with not unique name
fn home_room_non_unique_name_isnt_allowed() {
    let mut home = Home::new("my home".into());

    home.add_room("room1".into(), Room::default()).ok(); // ok() to ignore result

    // next add_room call with the same name should return err
    assert!(home.add_room("room1".into(), Room::default()).is_err());
}

#[test]
// here we test that room does not allow non-unique device names
fn room_device_non_unique_name_isnt_allowed() {
    let mut room = Room::default();

    room.add_device("device1".into(), "".into(), Thermometr::new().into())
        .ok(); // ok() to ignore result

    // next add_device call with the same name should return err
    assert!(room
        .add_device("device1".into(), "".into(), connect_to_smartsocket_mock())
        .is_err());
}

#[test]
// here we test that room does not allow non-unique device types
fn room_device_non_unique_type_isnt_allowed() {
    let mut room = Room::default();

    room.add_device("device1".into(), "".into(), Thermometr::new().into())
        .ok(); // ok() to ignore result

    // next add_device call with the same type should return err
    assert!(room
        .add_device("device2".into(), "".into(), Thermometr::new().into())
        .is_err());
}

#[test]
// here we test we have as expected number of devices in a room
fn room_has_devices() -> Result<(), String> {
    let mut room = Room::default();

    // test we can add devices
    room.add_device("thermo".into(), "".into(), Thermometr::new().into())
        .map_err(|e| e.describe().to_string())?;
    room.add_device("socket".into(), "".into(), connect_to_smartsocket_mock())
        .map_err(|e| e.describe().to_string())?;

    // test that we have devices we added
    let mut device_names: Vec<String> = room.device_names();
    device_names.sort_unstable(); // we don't have any order requirements so here we sort before checking result
    if device_names != vec!["socket".to_string(), "thermo".to_string()] {
        return Err(format!("expected [socket, thermo], got {:?}", device_names));
    }

    // test we can get devices we added
    room.device("thermo").ok_or("no thermo")?;
    room.device("socket").ok_or("no socket")?;

    // test we can delete device
    room.delete_device("thermo").map_err(|e| e.describe().to_string())?;

    // test that device was deleted
    let device_names: Vec<String> = room.device_names();
    if device_names != vec!["socket".to_string()] {
        return Err(format!("expected [socket], got {:?}", device_names));
    }

    // test we can get device we didn't delete
    room.device("socket").ok_or("no socket")?;

    // test we can't get device we deleted
    if room.device("thermo").is_some() {
        return Err("Expected room.device(\"thermo\") to return Err".into());
    };

    Ok(())
}

#[test]
//here we test we can create device with type thermometr
fn create_thermometr() -> Result<(), String> {
    let d: Device = Thermometr::new().into();
    match d {
        Device::Thermometr(_) => Ok(()),
        device => Err(format!("Expected thermometr, got {:?}", device)),
    }
}

#[test]
//here we test we can create device with type smartsocket
fn create_smartsocket() -> Result<(), String> {
    match connect_to_smartsocket_mock() {
        Device::SmartSocket(_) => Ok(()),
        device => Err(format!("Expected smartsocket, got {:?}", device)),
    }
}

#[test]
// here we just test that functions do not panic, cause we don't have requriements
fn thermometr_functions() {
    let d: Device = Thermometr::new().into();

    d.state().ok(); // shouldn't panic

    if let Device::Thermometr(t) = d {
        t.temperature().ok(); // shouldn't panic
    } else {
        unreachable!("d must be Device::Thermometr")
    };
}

#[test]
// here we just test that functions do not panic, cause we don't have requriements
fn smartsocket_functions() {
    let d: Device = connect_to_smartsocket_mock();

    d.state().ok(); // shouldn't panic

    if let Device::SmartSocket(mut s) = d {
        s.switch(true).ok(); // shouldn't panic
        s.switch(false).ok(); // shouldn't panic
        s.state().ok(); // shouldn't panic
    } else {
        unreachable!("d must be Device::SmartSocket")
    };
}

#[test]
// here we just test that functions do not panic, cause we don't have requriements
fn home_state_functions() {
    let mut home = Home::new("my home".into());
    let room_names = ["room1", "room2", "room3"];

    for rn in room_names {
        home.add_room(rn.into(), Room::default()).ok();

        home.room_mut(rn)
            .unwrap()
            .add_device("thermo".into(), "".into(), Thermometr::new().into())
            .ok();

        home.room_mut(rn)
            .unwrap()
            .add_device("socket".into(), "".into(), connect_to_smartsocket_mock())
            .ok();
    }

    home.state(); // shouldn't panic
}
