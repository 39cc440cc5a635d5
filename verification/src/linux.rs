//! Linux hosts: temperatures from the texts of `hwmon` chips and thermal
//! zones. Nothing is read here: the texts come in as they were read.

use crate::text::{decimal_within, parse_u32, same, trim, trimmed};
use crate::{Celsius, Shown, TemperatureReading as TemperatureReadingTrait};
use vstd::prelude::*;
use vstd::string::*;

verus! {

/// The threshold assumed where a sensor tells none from which it counts as
/// high: 85 degrees, in thousandths.
pub const DEFAULT_HIGH: u32 = 85_000;

/// The threshold assumed where a sensor tells none from which it counts as
/// critical: 100 degrees, in thousandths.
pub const DEFAULT_CRITICAL: u32 = 100_000;

/// An error from the Linux side.
#[derive(Debug)]
pub enum LinuxError {
    /// Something could not be read; the text says what.
    IoError(String),
    /// Something was read that is not what it should be.
    InvalidData(String),
}

/// An error, with its text as characters.
pub enum LinuxFault {
    IoError(Seq<char>),
    InvalidData(Seq<char>),
}

impl View for LinuxError {
    type V = LinuxFault;

    open spec fn view(&self) -> LinuxFault {
        match self {
            LinuxError::IoError(text) => LinuxFault::IoError(text@),
            LinuxError::InvalidData(text) => LinuxFault::InvalidData(text@),
        }
    }
}

impl LinuxFault {
    /// What the error says.
    pub open spec fn text(self) -> Seq<char> {
        match self {
            LinuxFault::IoError(text) => "io error: "@ + text,
            LinuxFault::InvalidData(text) => "invalid data: "@ + text,
        }
    }
}

impl LinuxError {
    /// What the error says.
    pub fn message(&self) -> (s: String)
        ensures
            s@ == self@.text(),
    {
        match self {
            LinuxError::IoError(text) => {
                let mut s = String::from_str("io error: ");
                s.append(text.as_str());
                s
            },
            LinuxError::InvalidData(text) => {
                let mut s = String::from_str("invalid data: ");
                s.append(text.as_str());
                s
            },
        }
    }
}

/// The kind of sensor that a chip's `temp*_type` text names.
#[derive(Copy, Clone, Debug, PartialEq, Eq, Structural)]
pub enum HwmonSensorType {
    /// CPU embedded diode
    CpuDiode,
    /// 3904 transistor
    Transistor,
    /// Thermal diode
    ThermalDiode,
    /// Thermistor
    Thermistor,
    /// AMD AMDSI
    Amdsi,
    /// Intel PECI
    Peci,
}

impl HwmonSensorType {
    /// The kind that the text names: the numbers 1 to 6, white space around
    /// them aside.
    pub open spec fn named(s: Seq<char>) -> Option<HwmonSensorType> {
        let t = trimmed(s);
        if t == "1"@ {
            Some(HwmonSensorType::CpuDiode)
        } else if t == "2"@ {
            Some(HwmonSensorType::Transistor)
        } else if t == "3"@ {
            Some(HwmonSensorType::ThermalDiode)
        } else if t == "4"@ {
            Some(HwmonSensorType::Thermistor)
        } else if t == "5"@ {
            Some(HwmonSensorType::Amdsi)
        } else if t == "6"@ {
            Some(HwmonSensorType::Peci)
        } else {
            None
        }
    }

    /// The sensor type that the text names.
    pub fn from_str(s: &str) -> (r: Option<HwmonSensorType>)
        ensures
            r == HwmonSensorType::named(s@),
    {
        let t = trim(s);
        if same(t, "1") {
            Some(HwmonSensorType::CpuDiode)
        } else if same(t, "2") {
            Some(HwmonSensorType::Transistor)
        } else if same(t, "3") {
            Some(HwmonSensorType::ThermalDiode)
        } else if same(t, "4") {
            Some(HwmonSensorType::Thermistor)
        } else if same(t, "5") {
            Some(HwmonSensorType::Amdsi)
        } else if same(t, "6") {
            Some(HwmonSensorType::Peci)
        } else {
            None
        }
    }
}

/// One reading, in thousandths of a degree.
#[derive(Clone, Debug)]
pub struct TemperatureReading {
    pub name: String,
    pub temperature: u32,
    pub max: u32,
    pub high: u32,
    pub crit: u32,
}

/// A reading, with its name as characters.
pub struct Reading {
    pub name: Seq<char>,
    pub temperature: u32,
    pub max: u32,
    pub high: u32,
    pub crit: u32,
}

impl View for TemperatureReading {
    type V = Reading;

    open spec fn view(&self) -> Reading {
        Reading {
            name: self.name@,
            temperature: self.temperature,
            max: self.max,
            high: self.high,
            crit: self.crit,
        }
    }
}

/// The temperature of `milli` thousandths of a degree.
pub open spec fn millidegrees(milli: u32) -> Celsius {
    Celsius { units: milli as i64, per_degree: 1000 }
}

impl Reading {
    /// The reading as it is shown.
    pub open spec fn shown(self) -> Shown {
        Shown {
            label: self.name,
            temperature: millidegrees(self.temperature),
            max: millidegrees(self.max),
            high: millidegrees(self.high),
            critical: millidegrees(self.crit),
        }
    }
}

impl TemperatureReading {
    /// A reading like this one.
    pub fn copy(&self) -> (r: TemperatureReading)
        ensures
            r@ == self@,
    {
        TemperatureReading {
            name: self.name.clone(),
            temperature: self.temperature,
            max: self.max,
            high: self.high,
            crit: self.crit,
        }
    }
}

impl TemperatureReadingTrait for TemperatureReading {
    open spec fn shown(&self) -> Shown {
        self@.shown()
    }

    fn label(&self) -> (r: String) {
        self.name.clone()
    }

    fn temperature(&self) -> (r: Celsius) {
        Celsius { units: self.temperature as i64, per_degree: 1000 }
    }

    fn max(&self) -> (r: Celsius) {
        Celsius { units: self.max as i64, per_degree: 1000 }
    }

    fn high(&self) -> (r: Celsius) {
        Celsius { units: self.high as i64, per_degree: 1000 }
    }

    fn critical(&self) -> (r: Celsius) {
        Celsius { units: self.crit as i64, per_degree: 1000 }
    }
}

/// The number that a text writes, white space around it aside.
pub open spec fn number_in(content: Seq<char>) -> Option<u32> {
    match decimal_within(trimmed(content), u32::MAX as nat) {
        Some(n) => Some(n as u32),
        None => None,
    }
}

/// The temperature that a text writes, or the error that tells of the text.
pub open spec fn temperature_in(content: Seq<char>) -> Result<u32, LinuxFault> {
    match number_in(content) {
        Some(n) => Ok(n),
        None => Err(LinuxFault::InvalidData("read invalid temperature "@ + content)),
    }
}

/// The threshold that an optional text writes, or `default`.
pub open spec fn threshold_in(content: Option<Seq<char>>, default: u32) -> u32 {
    match content {
        Some(text) => match number_in(text) {
            Some(n) => n,
            None => default,
        },
        None => default,
    }
}

/// Whether `r` is the value, or an error with the text, that `want` names.
pub open spec fn gives<T>(r: Result<T, LinuxError>, want: Result<T, LinuxFault>) -> bool {
    match r {
        Ok(v) => want == Ok::<T, LinuxFault>(v),
        Err(e) => want == Err::<T, LinuxFault>(e@),
    }
}

/// The number that the text writes.
pub fn read_number(content: &str) -> (r: Option<u32>)
    ensures
        r == number_in(content@),
{
    parse_u32(trim(content))
}

/// The temperature that the text writes.
pub fn read_temperature(content: &str) -> (r: Result<u32, LinuxError>)
    ensures
        gives(r, temperature_in(content@)),
{
    match read_number(content) {
        Some(n) => Ok(n),
        None => {
            let mut text = String::from_str("read invalid temperature ");
            text.append(content);
            Err(LinuxError::InvalidData(text))
        },
    }
}

/// The threshold that the text writes, or `default` where there is no text
/// or no number in it.
pub fn read_threshold(content: &Option<String>, default: u32) -> (r: u32)
    ensures
        r == threshold_in(
            match content {
                Some(text) => Some(text@),
                None => None,
            },
            default,
        ),
{
    match content {
        Some(text) => match read_number(text.as_str()) {
            Some(n) => n,
            None => default,
        },
        None => default,
    }
}

/// `path` with `child` below it.
pub open spec fn joined(path: Seq<char>, child: Seq<char>) -> Seq<char> {
    if path.len() == 0 || path.last() == '/' {
        path + child
    } else {
        path + seq!['/'] + child
    }
}

/// `path` with `child` below it.
pub fn join(path: &str, child: &str) -> (r: String)
    ensures
        r@ == joined(path@, child@),
{
    let mut r = String::from_str(path);
    let n = path.unicode_len();
    if n > 0 && path.get_char(n - 1) != '/' {
        r.append("/");
        proof {
            reveal_strlit("/");
            assert("/"@ =~= seq!['/']);
        }
    }
    r.append(child);
    r
}

/// A thermal zone: its name, its last reading and its thresholds.
#[derive(Debug)]
pub struct ThermalZoneSensor {
    pub path: String,
    pub name: String,
    pub last_reading: Option<u32>,
    pub max: u32,
    pub high: u32,
    pub crit: u32,
}

impl ThermalZoneSensor {
    /// Whether reading the zone's temperature from `content` leads to `next`
    /// with the result `r`: the number in the text becomes the last reading,
    /// and nothing changes where the text could not be read or holds none.
    pub open spec fn read(
        self,
        content: Result<Seq<char>, Seq<char>>,
        next: ThermalZoneSensor,
        r: Result<(), LinuxError>,
    ) -> bool {
        match content {
            Ok(text) => match temperature_in(text) {
                Ok(n) => next == (ThermalZoneSensor { last_reading: Some(n), ..self }) && r is Ok,
                Err(fault) => next == self && (r matches Err(e) && e@ == fault),
            },
            Err(text) => next == self && (r matches Err(e) && e@ == LinuxFault::IoError(text)),
        }
    }

    /// Takes what was read of the zone's `temp`: its text, or why it could
    /// not be read.
    pub fn read_temperature(&mut self, content: Result<String, String>) -> (r: Result<
        (),
        LinuxError,
    >)
        ensures
            old(self).read(
                match content {
                    Ok(text) => Ok(text@),
                    Err(text) => Err(text@),
                },
                *final(self),
                r,
            ),
    {
        match content {
            Ok(text) => match read_temperature(text.as_str()) {
                Ok(n) => {
                    self.last_reading = Some(n);
                    Ok(())
                },
                Err(e) => Err(e),
            },
            Err(text) => Err(LinuxError::IoError(text)),
        }
    }
}

} // verus!
