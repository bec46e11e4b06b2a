//! The sensors a space can report: what describes a sensor, and the
//! templates that turn a reading given as text into a sensor value.

use vstd::prelude::*;
use crate::text::{parse_u64, parsed_u64, ParseError};

verus! {

/// What describes a sensor of any kind.
#[derive(Debug, Clone, PartialEq)]
pub struct SensorMetadata {
    pub name: Option<String>,
    pub location: Option<String>,
    pub description: Option<String>,
}

/// What describes a sensor that has to say where it is.
#[derive(Debug, Clone, PartialEq)]
pub struct LocalisedSensorMetadata {
    pub name: Option<String>,
    pub location: String,
    pub description: Option<String>,
}

impl Default for SensorMetadata {
    /// A description that says nothing.
    fn default() -> (metadata: SensorMetadata)
        ensures
            metadata.name is None,
            metadata.location is None,
            metadata.description is None,
    {
        SensorMetadata { name: None, location: None, description: None }
    }
}

impl Default for LocalisedSensorMetadata {
    /// A description that says nothing, with an empty location.
    fn default() -> (metadata: LocalisedSensorMetadata)
        ensures
            metadata.name is None,
            metadata.location@.len() == 0,
            metadata.description is None,
    {
        LocalisedSensorMetadata { name: None, location: String::new(), description: None }
    }
}

impl vstd::std_specs::convert::TryIntoSpecImpl<LocalisedSensorMetadata> for SensorMetadata {
    open spec fn obeys_try_into_spec() -> bool {
        true
    }

    open spec fn try_into_spec(self) -> Result<LocalisedSensorMetadata, &'static str> {
        match self.location {
            Some(location) => Ok(
                LocalisedSensorMetadata {
                    name: self.name,
                    location,
                    description: self.description,
                },
            ),
            None => Err("No location specified when one is required"),
        }
    }
}

impl TryInto<LocalisedSensorMetadata> for SensorMetadata {
    type Error = &'static str;

    /// The same description with its location required: it fails where
    /// there is none.
    fn try_into(self) -> (localised: Result<LocalisedSensorMetadata, &'static str>) {
        match self.location {
            Some(location) => Ok(
                LocalisedSensorMetadata {
                    name: self.name,
                    location,
                    description: self.description,
                },
            ),
            None => Err("No location specified when one is required"),
        }
    }
}

/// A copy of an optional text.
fn copy_of(text: &Option<String>) -> (copy: Option<String>)
    ensures
        copy == *text,
{
    match text {
        Some(t) => Some(t.clone()),
        None => None,
    }
}

impl SensorMetadata {
    /// A copy of the description.
    pub fn duplicate(&self) -> (copy: SensorMetadata)
        ensures
            copy == *self,
    {
        SensorMetadata {
            name: copy_of(&self.name),
            location: copy_of(&self.location),
            description: copy_of(&self.description),
        }
    }
}

/// A sensor that counts the people present.
#[derive(Debug, Clone, PartialEq)]
pub struct PeopleNowPresentSensor {
    pub metadata: SensorMetadata,
    pub names: Option<Vec<String>>,
    pub value: u64,
}

impl Default for PeopleNowPresentSensor {
    /// A sensor that says nothing and counts nobody.
    fn default() -> (sensor: PeopleNowPresentSensor)
        ensures
            sensor.metadata.name is None,
            sensor.metadata.location is None,
            sensor.metadata.description is None,
            sensor.names is None,
            sensor.value == 0,
    {
        PeopleNowPresentSensor { metadata: SensorMetadata::default(), names: None, value: 0 }
    }
}

/// A people counter without its reading.
#[derive(Debug, Clone)]
pub struct PeopleNowPresentSensorTemplate {
    pub metadata: SensorMetadata,
    pub names: Option<Vec<String>>,
}

impl PeopleNowPresentSensorTemplate {
    /// The sensor that the template gives for the reading `value`: the
    /// template's description, no names, and the reading.
    pub open spec fn sensor(self, value: u64) -> PeopleNowPresentSensor {
        PeopleNowPresentSensor { metadata: self.metadata, names: None, value }
    }

    /// Reads `value_str` as a count and adds the sensor with that count at
    /// the end of `sensors`. A text that is no count fails and adds nothing.
    pub fn try_to_sensor(&self, value_str: &str, sensors: &mut Vec<PeopleNowPresentSensor>) -> (done:
        Result<(), ParseError>)
        ensures
            match parsed_u64(value_str@) {
                Ok(value) => done is Ok && final(sensors)@ == old(sensors)@.push(self.sensor(value)),
                Err(error) => done == Err::<(), ParseError>(error) && final(sensors)@ == old(
                    sensors,
                )@,
            },
    {
        let template = PeopleNowPresentSensorTemplate { metadata: self.metadata.duplicate(), names: None };
        let mut sensor: PeopleNowPresentSensor = template.into();
        match parse_u64(value_str) {
            Ok(value) => {
                sensor.value = value;
                sensors.push(sensor);
                Ok(())
            },
            Err(error) => Err(error),
        }
    }
}

impl vstd::std_specs::convert::IntoSpecImpl<PeopleNowPresentSensor> for PeopleNowPresentSensorTemplate {
    open spec fn obeys_into_spec() -> bool {
        true
    }

    open spec fn into_spec(self) -> PeopleNowPresentSensor {
        self.sensor(0)
    }
}

impl Into<PeopleNowPresentSensor> for PeopleNowPresentSensorTemplate {
    /// The sensor of the template before any reading: the template's
    /// description, no names, nobody counted.
    fn into(self) -> (sensor: PeopleNowPresentSensor) {
        PeopleNowPresentSensor { metadata: self.metadata, names: None, value: 0 }
    }
}

/// Whether `parts` is what a template with the given description and unit
/// turns into: the description with its location required, and the unit.
pub open spec fn localised_parts(
    metadata: SensorMetadata,
    unit: String,
    parts: Result<(LocalisedSensorMetadata, String), &'static str>,
) -> bool {
    match metadata.location {
        Some(location) => parts == Ok::<(LocalisedSensorMetadata, String), &'static str>(
            (
                LocalisedSensorMetadata {
                    name: metadata.name,
                    location,
                    description: metadata.description,
                },
                unit,
            ),
        ),
        None => parts matches Err(message) && message@
            == "No location specified when one is required"@,
    }
}

/// The description of a located sensor and its unit, from a template's.
fn localise(metadata: SensorMetadata, unit: String) -> (parts: Result<
    (LocalisedSensorMetadata, String),
    &'static str,
>)
    ensures
        localised_parts(metadata, unit, parts),
{
    let localised: Result<LocalisedSensorMetadata, &'static str> = metadata.try_into();
    match localised {
        Ok(metadata) => Ok((metadata, unit)),
        Err(message) => Err(message),
    }
}

/// A thermometer without its reading.
#[derive(Debug, Clone)]
pub struct TemperatureSensorTemplate {
    pub metadata: SensorMetadata,
    pub unit: String,
}

impl TemperatureSensorTemplate {
    /// What the sensor takes from the template: the description, which has
    /// to name a location, and the unit.
    pub fn into_parts(self) -> (parts: Result<(LocalisedSensorMetadata, String), &'static str>)
        ensures
            localised_parts(self.metadata, self.unit, parts),
    {
        localise(self.metadata, self.unit)
    }
}

/// A hygrometer without its reading.
#[derive(Debug, Clone)]
pub struct HumiditySensorTemplate {
    pub metadata: SensorMetadata,
    pub unit: String,
}

impl HumiditySensorTemplate {
    /// What the sensor takes from the template: the description, which has
    /// to name a location, and the unit.
    pub fn into_parts(self) -> (parts: Result<(LocalisedSensorMetadata, String), &'static str>)
        ensures
            localised_parts(self.metadata, self.unit, parts),
    {
        localise(self.metadata, self.unit)
    }
}

/// A power meter without its reading.
#[derive(Debug, Clone)]
pub struct PowerConsumptionSensorTemplate {
    pub metadata: SensorMetadata,
    pub unit: String,
}

impl PowerConsumptionSensorTemplate {
    /// What the sensor takes from the template: the description, which has
    /// to name a location, and the unit.
    pub fn into_parts(self) -> (parts: Result<(LocalisedSensorMetadata, String), &'static str>)
        ensures
            localised_parts(self.metadata, self.unit, parts),
    {
        localise(self.metadata, self.unit)
    }
}

} // verus!
