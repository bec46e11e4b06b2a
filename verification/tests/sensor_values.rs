use spaceapi_dezentrale_server::sensors::{
    HumiditySensorTemplate, LocalisedSensorMetadata, PeopleNowPresentSensor,
    PeopleNowPresentSensorTemplate, PowerConsumptionSensorTemplate, SensorMetadata,
    TemperatureSensorTemplate,
};
use spaceapi_dezentrale_server::text::ParseError;

fn described(location: Option<&str>) -> SensorMetadata {
    SensorMetadata {
        name: Some("door".to_string()),
        location: location.map(str::to_string),
        description: Some("front".to_string()),
    }
}

#[test]
fn the_default_descriptions_say_nothing() {
    assert_eq!(
        SensorMetadata::default(),
        SensorMetadata { name: None, location: None, description: None }
    );
    assert_eq!(
        LocalisedSensorMetadata::default(),
        LocalisedSensorMetadata { name: None, location: String::new(), description: None }
    );
    assert_eq!(
        PeopleNowPresentSensor::default(),
        PeopleNowPresentSensor { metadata: SensorMetadata::default(), names: None, value: 0 }
    );
}

#[test]
fn a_description_with_a_location_localises() {
    let localised: Result<LocalisedSensorMetadata, &'static str> =
        described(Some("hall")).try_into();
    assert_eq!(
        localised,
        Ok(LocalisedSensorMetadata {
            name: Some("door".to_string()),
            location: "hall".to_string(),
            description: Some("front".to_string()),
        })
    );
}

#[test]
fn a_description_without_a_location_does_not_localise() {
    let localised: Result<LocalisedSensorMetadata, &'static str> = described(None).try_into();
    assert_eq!(localised, Err("No location specified when one is required"));
}

#[test]
fn a_duplicate_is_equal() {
    assert_eq!(described(Some("hall")).duplicate(), described(Some("hall")));
    assert_eq!(described(None).duplicate(), described(None));
    assert_eq!(SensorMetadata::default().duplicate(), SensorMetadata::default());
}

#[test]
fn a_people_template_becomes_a_sensor_that_counts_nobody() {
    let template = PeopleNowPresentSensorTemplate {
        metadata: described(None),
        names: Some(vec!["ada".to_string()]),
    };
    let sensor: PeopleNowPresentSensor = template.into();
    assert_eq!(sensor, PeopleNowPresentSensor { metadata: described(None), names: None, value: 0 });
}

#[test]
fn a_people_reading_is_added_at_the_end() {
    let template = PeopleNowPresentSensorTemplate { metadata: described(Some("hall")), names: None };
    let mut sensors = vec![PeopleNowPresentSensor::default()];
    assert_eq!(template.try_to_sensor("23", &mut sensors), Ok(()));
    assert_eq!(template.try_to_sensor("+4", &mut sensors), Ok(()));
    assert_eq!(
        sensors,
        vec![
            PeopleNowPresentSensor::default(),
            PeopleNowPresentSensor { metadata: described(Some("hall")), names: None, value: 23 },
            PeopleNowPresentSensor { metadata: described(Some("hall")), names: None, value: 4 },
        ]
    );
}

#[test]
fn a_people_reading_that_is_no_count_adds_nothing() {
    let template = PeopleNowPresentSensorTemplate { metadata: described(None), names: None };
    let mut sensors = Vec::new();
    assert_eq!(template.try_to_sensor("", &mut sensors), Err(ParseError::Empty));
    assert_eq!(template.try_to_sensor("many", &mut sensors), Err(ParseError::InvalidDigit));
    assert_eq!(template.try_to_sensor("-1", &mut sensors), Err(ParseError::InvalidDigit));
    assert_eq!(template.try_to_sensor("2.5", &mut sensors), Err(ParseError::InvalidDigit));
    assert_eq!(
        template.try_to_sensor("18446744073709551616", &mut sensors),
        Err(ParseError::PosOverflow)
    );
    assert!(sensors.is_empty());
}

#[test]
fn a_located_template_gives_its_description_and_unit() {
    let expected = Ok((
        LocalisedSensorMetadata {
            name: Some("door".to_string()),
            location: "roof".to_string(),
            description: Some("front".to_string()),
        },
        "unit".to_string(),
    ));
    let temperature =
        TemperatureSensorTemplate { metadata: described(Some("roof")), unit: "unit".to_string() };
    assert_eq!(temperature.into_parts(), expected);
    let humidity =
        HumiditySensorTemplate { metadata: described(Some("roof")), unit: "unit".to_string() };
    assert_eq!(humidity.into_parts(), expected);
    let power =
        PowerConsumptionSensorTemplate { metadata: described(Some("roof")), unit: "unit".to_string() };
    assert_eq!(power.into_parts(), expected);
}

#[test]
fn a_template_without_a_location_gives_no_located_sensor() {
    let refused = Err("No location specified when one is required");
    let temperature = TemperatureSensorTemplate { metadata: described(None), unit: "C".to_string() };
    assert_eq!(temperature.into_parts(), refused);
    let humidity = HumiditySensorTemplate { metadata: described(None), unit: "%".to_string() };
    assert_eq!(humidity.into_parts(), refused);
    let power = PowerConsumptionSensorTemplate { metadata: described(None), unit: "W".to_string() };
    assert_eq!(power.into_parts(), refused);
}
