use lci_gateway::{
    Configuration, DeviceType, GetFailure, HvacError, HvacFanMode, HvacFanModeConversionError,
    HvacHighTemperatureFailure, HvacInsideTemperatureFailure, HvacLowTemperatureFailure,
    HvacMode, HvacModeConversionError, HvacOutsideTemperatureFailure, HvacStatus,
    HvacStatusConversionError, HvacStatusFailure, OnlineState, Request, SetError, Thing, HVAC,
};

fn thing(label: &str, uid: &str, device_type: Option<u32>) -> Thing {
    Thing::new(label.to_string(), uid.to_string(), Configuration::new(device_type))
}

fn hvac() -> HVAC {
    HVAC::new(thing("Bedroom HVAC", "idsmyrv:hvac-thing:0001", Some(16))).unwrap()
}

fn transport_error() -> reqwest::Error {
    reqwest::Client::new().get("no address").build().unwrap_err()
}

fn get(field: &str) -> Request {
    Request::Get { path: format!("{}_{}", ITEM, field) }
}

fn post(field: &str, body: &str) -> Request {
    Request::Post {
        path: format!("{}_{}", ITEM, field),
        accept: "application/json".to_string(),
        body: body.to_string(),
    }
}

const ITEM: &str = "/rest/items/idsmyrv_hvac_thing_0001";

const STATUSES: [(HvacStatus, &str, &str); 18] = [
    (HvacStatus::Off, "OFF", "Off"),
    (HvacStatus::Idle, "IDLE", "Idle"),
    (HvacStatus::Cooling, "COOLING", "Cooling"),
    (HvacStatus::HeatPump, "HEAT_PUMP", "Heat Pump"),
    (HvacStatus::ElectricFurnace, "ELEC_FURNACE", "Electric Furnace"),
    (HvacStatus::GasFurnace, "GAS_FURNACE", "Gas Furnace"),
    (HvacStatus::GasOverride, "GAS_OVERRIDE", "Gas Override"),
    (HvacStatus::DeadTime, "DEAD_TIME", "Dead Time"),
    (HvacStatus::LoadShedding, "LOAD_SHEDDING", "Load Shedding"),
    (HvacStatus::FailOff, "FAIL_OFF", "Load Off"),
    (HvacStatus::FailIdle, "FAIL_IDLE", "Load Idle"),
    (HvacStatus::FailCooling, "FAIL_COOLING", "Fail Cooling"),
    (HvacStatus::FailHeatPump, "FAIL_HEAT_PUMP", "Fail Heat Pump"),
    (HvacStatus::FailElectricFurnace, "FAIL_ELEC_FURNACE", "Fail Electric Furnace"),
    (HvacStatus::FailGasFurnace, "FAIL_GAS_FURNACE", "Fail Gas Furnace"),
    (HvacStatus::FailGasOverride, "FAIL_GAS_OVERRIDE", "Fail Gas Override"),
    (HvacStatus::FailDeadTime, "FAIL_DEAD_TIME", "Fail Dead Time"),
    (HvacStatus::FailShedding, "FAIL_SHEDDING", "Fail Shedding"),
];

#[test]
fn hvac_status_scenario() {
    let unit = hvac();
    assert_eq!(unit.status_request(), get("status"));
    let status = unit.status(Ok("FAIL_GAS_OVERRIDE".to_string())).unwrap();
    assert_eq!(status, HvacStatus::FailGasOverride);
    assert_eq!(status.to_string(), "Fail Gas Override");
}

#[test]
fn hvac_status_has_eighteen_words() {
    for (status, word, title) in STATUSES {
        assert_eq!(HvacStatus::from_string(word.to_string()).unwrap(), status);
        assert_eq!(HvacStatus::from_string(word.to_lowercase()).unwrap(), status);
        assert_eq!(status.serialize(), word);
        assert_eq!(status.to_string(), title);
        assert_eq!(HvacStatus::from_string(status.serialize()).unwrap(), status);
    }
}

#[test]
fn hvac_status_words_are_upper_case_and_names_title_case() {
    for (status, _, _) in STATUSES {
        let word = status.serialize();
        assert!(!word.chars().any(|c| c.is_ascii_lowercase()));
        let title = status.to_string();
        for name in title.split(' ') {
            assert!(name.chars().next().unwrap().is_ascii_uppercase());
            assert!(name.chars().skip(1).any(|c| c.is_ascii_lowercase()));
        }
    }
}

#[test]
fn hvac_modes_are_upper_case_words_and_title_case_names() {
    let pairs = [
        (HvacFanMode::Auto.serialize(), HvacFanMode::Auto.to_string()),
        (HvacFanMode::Low.serialize(), HvacFanMode::Low.to_string()),
        (HvacFanMode::High.serialize(), HvacFanMode::High.to_string()),
        (HvacMode::Off.serialize(), HvacMode::Off.to_string()),
        (HvacMode::Heat.serialize(), HvacMode::Heat.to_string()),
        (HvacMode::Cool.serialize(), HvacMode::Cool.to_string()),
        (HvacMode::HeatCool.serialize(), HvacMode::HeatCool.to_string()),
    ];
    for (word, title) in pairs {
        assert_eq!(word, word.to_uppercase());
        assert_eq!(word, title.to_uppercase());
        assert!(title.chars().next().unwrap().is_ascii_uppercase());
        assert_ne!(title, word);
    }
}

#[test]
fn hvac_status_hands_back_an_unknown_text() {
    let unknown =
        ["", "HEAT PUMP", "Heat Pump", "HEATPUMP", "FAIL", "FAIL_", "ELECTRIC_FURNACE", "ON"];
    for text in unknown {
        match HvacStatus::from_string(text.to_string()) {
            Err(HvacStatusConversionError::UnknownValue(value)) => assert_eq!(value, text),
            other => panic!("{:?} was read as {:?}", text, other),
        }
    }
}

#[test]
fn hvac_fan_mode_round_trip() {
    let modes = [
        (HvacFanMode::Auto, "AUTO", "Auto"),
        (HvacFanMode::Low, "LOW", "Low"),
        (HvacFanMode::High, "HIGH", "High"),
    ];
    for (mode, word, title) in modes {
        assert_eq!(mode.serialize(), word);
        assert_eq!(mode.to_string(), title);
        assert_eq!(HvacFanMode::from_string(mode.serialize()).unwrap(), mode);
        assert_eq!(HvacFanMode::from_string(title.to_string()).unwrap(), mode);
        assert_eq!(HvacFanMode::from_string(word.to_lowercase()).unwrap(), mode);
    }
    match HvacFanMode::from_string("MEDIUM".to_string()) {
        Err(HvacFanModeConversionError::UnknownValue(value)) => assert_eq!(value, "MEDIUM"),
        other => panic!("read as {:?}", other),
    }
}

#[test]
fn hvac_mode_round_trip() {
    let modes = [
        (HvacMode::Off, "OFF", "Off"),
        (HvacMode::Heat, "HEAT", "Heat"),
        (HvacMode::Cool, "COOL", "Cool"),
        (HvacMode::HeatCool, "HEATCOOL", "HeatCool"),
    ];
    for (mode, word, title) in modes {
        assert_eq!(mode.serialize(), word);
        assert_eq!(mode.to_string(), title);
        assert_eq!(HvacMode::from_string(mode.serialize()).unwrap(), mode);
        assert_eq!(HvacMode::from_string(title.to_string()).unwrap(), mode);
    }
    match HvacMode::from_string("HEAT_COOL".to_string()) {
        Err(HvacModeConversionError::UnknownValue(value)) => assert_eq!(value, "HEAT_COOL"),
        other => panic!("read as {:?}", other),
    }
}

#[test]
fn hvac_is_made_from_an_hvac_thing() {
    let unit = HVAC::new(thing("Bedroom HVAC", "hvac:1", Some(16))).unwrap();
    assert_eq!(unit.label(), "Bedroom HVAC");
}

#[test]
fn hvac_refuses_every_other_thing() {
    let others = [
        (None, Some(DeviceType::Gateway)),
        (Some(10), Some(DeviceType::Tank)),
        (Some(13), Some(DeviceType::RgbLights)),
        (Some(20), Some(DeviceType::Dimmer)),
        (Some(24), Some(DeviceType::Generator)),
        (Some(30), Some(DeviceType::Switch)),
        (Some(17), None),
    ];
    for (code, device_type) in others {
        match HVAC::new(thing("x", "x:1", code)) {
            Err(HvacError::InvalidDeviceType(found)) => assert_eq!(found, device_type),
            Ok(_) => panic!("a thing with the code {:?} was taken", code),
        }
    }
}

#[test]
fn hvac_read_requests_name_their_fields() {
    let unit = hvac();
    assert_eq!(unit.online_request(), get("online"));
    assert_eq!(unit.status_request(), get("status"));
    assert_eq!(unit.outside_temperature_request(), get("outside_temperature"));
    assert_eq!(unit.inside_temperature_request(), get("inside_temperature"));
    assert_eq!(unit.high_temperature_request(), get("high_temperature"));
    assert_eq!(unit.low_temperature_request(), get("low_temperature"));
    assert_eq!(unit.fan_request(), get("fan_mode"));
    assert_eq!(unit.mode_request(), get("hvac_mode"));
}

#[test]
fn hvac_write_requests_carry_the_value_in_upper_case() {
    let unit = hvac();
    assert_eq!(unit.set_fan_request(&HvacFanMode::Auto), post("fan_mode", "AUTO"));
    assert_eq!(unit.set_fan_request(&HvacFanMode::Low), post("fan_mode", "LOW"));
    assert_eq!(unit.set_fan_request(&HvacFanMode::High), post("fan_mode", "HIGH"));
    assert_eq!(unit.set_mode_request(&HvacMode::Off), post("hvac_mode", "OFF"));
    assert_eq!(unit.set_mode_request(&HvacMode::Heat), post("hvac_mode", "HEAT"));
    assert_eq!(unit.set_mode_request(&HvacMode::Cool), post("hvac_mode", "COOL"));
    assert_eq!(unit.set_mode_request(&HvacMode::HeatCool), post("hvac_mode", "HEATCOOL"));
}

#[test]
fn hvac_temperature_requests_carry_the_number() {
    let unit = hvac();
    assert_eq!(unit.set_high_temperature_request(78), post("high_temperature", "78"));
    assert_eq!(unit.set_low_temperature_request(65), post("low_temperature", "65"));
    assert_eq!(unit.set_low_temperature_request(0), post("low_temperature", "0"));
    assert_eq!(unit.set_low_temperature_request(-12), post("low_temperature", "-12"));
    assert_eq!(
        unit.set_high_temperature_request(isize::MIN),
        post("high_temperature", &isize::MIN.to_string())
    );
}

#[test]
fn hvac_reads_online_fan_and_mode() {
    let unit = hvac();
    assert_eq!(unit.online(Ok("ON".to_string())).unwrap(), OnlineState::Online);
    assert_eq!(unit.fan(Ok("LOW".to_string())).unwrap(), HvacFanMode::Low);
    assert_eq!(unit.mode(Ok("HEATCOOL".to_string())).unwrap(), HvacMode::HeatCool);
    match unit.fan(Ok("FAST".to_string())) {
        Err(HvacFanModeConversionError::UnknownValue(value)) => assert_eq!(value, "FAST"),
        other => panic!("read as {:?}", other),
    }
    match unit.mode(Ok("AUTO".to_string())) {
        Err(HvacModeConversionError::UnknownValue(value)) => assert_eq!(value, "AUTO"),
        other => panic!("read as {:?}", other),
    }
    match unit.status(Ok("BROKEN".to_string())) {
        Err(HvacStatusConversionError::UnknownValue(value)) => assert_eq!(value, "BROKEN"),
        other => panic!("read as {:?}", other),
    }
    assert!(matches!(
        unit.fan(Err(GetFailure::Request(transport_error()))),
        Err(HvacFanModeConversionError::GetFailure(GetFailure::Request(_)))
    ));
    assert!(matches!(
        unit.mode(Err(GetFailure::Text(transport_error()))),
        Err(HvacModeConversionError::GetFailure(GetFailure::Text(_)))
    ));
    assert!(matches!(
        unit.status(Err(GetFailure::Request(transport_error()))),
        Err(HvacStatusConversionError::GetFailure(GetFailure::Request(_)))
    ));
}

#[test]
fn hvac_temperatures_hand_on_the_text() {
    let unit = hvac();
    assert_eq!(unit.outside_temperature(Ok("91.5".to_string())).unwrap(), "91.5");
    assert_eq!(unit.inside_temperature(Ok("72".to_string())).unwrap(), "72");
    assert_eq!(unit.high_temperature(Ok("78.0".to_string())).unwrap(), "78.0");
    assert_eq!(unit.low_temperature(Ok("-3".to_string())).unwrap(), "-3");
    let read: f32 = unit.outside_temperature(Ok("91.5".to_string())).unwrap().parse().unwrap();
    assert_eq!(read, 91.5);
}

#[test]
fn hvac_temperatures_hand_on_a_failed_read() {
    let unit = hvac();
    assert!(matches!(
        unit.outside_temperature(Err(GetFailure::Request(transport_error()))),
        Err(HvacOutsideTemperatureFailure::GetFailure(GetFailure::Request(_)))
    ));
    assert!(matches!(
        unit.inside_temperature(Err(GetFailure::Request(transport_error()))),
        Err(HvacInsideTemperatureFailure::GetFailure(GetFailure::Request(_)))
    ));
    assert!(matches!(
        unit.high_temperature(Err(GetFailure::Text(transport_error()))),
        Err(HvacHighTemperatureFailure::GetFailure(GetFailure::Text(_)))
    ));
    assert!(matches!(
        unit.low_temperature(Err(GetFailure::Text(transport_error()))),
        Err(HvacLowTemperatureFailure::GetFailure(GetFailure::Text(_)))
    ));
}

#[test]
fn hvac_temperature_failures_hold_the_text_that_is_no_number() {
    let text = "warm".to_string();
    let reason = text.parse::<f32>().unwrap_err();
    let failure = HvacOutsideTemperatureFailure::Parse(text, reason.clone());
    assert!(matches!(failure, HvacOutsideTemperatureFailure::Parse(ref t, _) if t == "warm"));
    let failure = HvacStatusFailure::Parse("x".to_string(), reason);
    assert!(matches!(failure, HvacStatusFailure::Parse(ref t, _) if t == "x"));
}

#[test]
fn hvac_writes_judge_the_outcome() {
    let mut unit = hvac();
    assert!(unit.set_high_temperature(Ok(200)).is_ok());
    assert!(unit.set_low_temperature(Ok(200)).is_ok());
    assert!(unit.set_fan(Ok(200)).is_ok());
    assert!(unit.set_mode(Ok(299)).is_ok());
    assert!(matches!(unit.set_high_temperature(Ok(400)), Err(SetError::Status(400))));
    assert!(matches!(unit.set_low_temperature(Ok(500)), Err(SetError::Status(500))));
    assert!(matches!(unit.set_fan(Ok(199)), Err(SetError::Status(199))));
    assert!(matches!(unit.set_mode(Ok(300)), Err(SetError::Status(300))));
    assert!(matches!(unit.set_fan(Err(transport_error())), Err(SetError::Send(_))));
    assert!(matches!(unit.set_mode(Err(transport_error())), Err(SetError::Send(_))));
    assert_eq!(unit.label(), "Bedroom HVAC");
    assert_eq!(unit.status_request(), get("status"));
}

#[test]
fn hvac_errors_are_made_from_a_failed_read() {
    assert!(matches!(
        HvacStatusConversionError::from(GetFailure::Request(transport_error())),
        HvacStatusConversionError::GetFailure(_)
    ));
    assert!(matches!(
        HvacFanModeConversionError::from(GetFailure::Request(transport_error())),
        HvacFanModeConversionError::GetFailure(_)
    ));
    assert!(matches!(
        HvacModeConversionError::from(GetFailure::Request(transport_error())),
        HvacModeConversionError::GetFailure(_)
    ));
    assert!(matches!(
        HvacOutsideTemperatureFailure::from(GetFailure::Request(transport_error())),
        HvacOutsideTemperatureFailure::GetFailure(_)
    ));
    assert!(matches!(
        HvacInsideTemperatureFailure::from(GetFailure::Request(transport_error())),
        HvacInsideTemperatureFailure::GetFailure(_)
    ));
    assert!(matches!(
        HvacHighTemperatureFailure::from(GetFailure::Request(transport_error())),
        HvacHighTemperatureFailure::GetFailure(_)
    ));
    assert!(matches!(
        HvacLowTemperatureFailure::from(GetFailure::Request(transport_error())),
        HvacLowTemperatureFailure::GetFailure(_)
    ));
}
