//! Apple hosts: platforms, the sensors known by name, and the components that
//! are made of those the controller has.

use crate::smc::code::{code_of, key_code};
use crate::smc::exchange::Next;
use crate::smc::fixed::Fixed;
use crate::smc::report::message_of;
use crate::smc::scan::{is_temperature_key, Temperature, TemperaturePhase};
use crate::smc::{Smc, SmcError};
use crate::text::{chars_of, find_char, has_prefix, head_field, same, starts_with, tail_fields};
use crate::{
    Celsius, Component, ComponentType, Interface, Shown, SystemNames, TemperatureReading,
};
use vstd::prelude::*;
use vstd::string::*;

verus! {

/// Intel-based Macs.
pub const INTEL: u8 = 1;

/// The Apple M1.
pub const M1: u8 = 2;

/// The Apple M1 Pro.
pub const M1_PRO: u8 = 4;

/// The Apple M1 Max.
pub const M1_MAX: u8 = 8;

/// The Apple M1 Ultra.
pub const M1_ULTRA: u8 = 16;

/// The Apple M2.
pub const M2: u8 = 32;

/// All of the M1 series.
pub const ALL_M1: u8 = 30;

/// All Apple silicon.
pub const APPLE_SILICON: u8 = 62;

/// Every platform.
pub const ALL: u8 = 63;

/// A set of platforms, one bit each.
#[derive(Copy, Clone, Debug, PartialEq, Eq, Structural, Hash)]
pub struct Platform {
    pub bits: u8,
}

impl Platform {
    /// Whether every platform of `other` is in this set.
    pub open spec fn spec_contains(self, other: Platform) -> bool {
        self.bits & other.bits == other.bits
    }

    /// Whether some platform is in both sets.
    pub open spec fn spec_intersects(self, other: Platform) -> bool {
        self.bits & other.bits != 0
    }

    /// The set with the given bits, those that name no platform dropped.
    pub fn from_bits_truncate(bits: u8) -> (r: Platform)
        ensures
            r.bits == bits & ALL,
    {
        Platform { bits: bits & ALL }
    }

    /// Every platform.
    pub fn all() -> (r: Platform)
        ensures
            r.bits == ALL,
    {
        Platform { bits: ALL }
    }

    /// No platform.
    pub fn empty() -> (r: Platform)
        ensures
            r.bits == 0,
    {
        Platform { bits: 0 }
    }

    pub fn bits(&self) -> (r: u8)
        ensures
            r == self.bits,
    {
        self.bits
    }

    #[verifier::when_used_as_spec(spec_contains)]
    pub fn contains(self, other: Platform) -> (r: bool)
        ensures
            r == self.spec_contains(other),
    {
        self.bits & other.bits == other.bits
    }

    #[verifier::when_used_as_spec(spec_intersects)]
    pub fn intersects(self, other: Platform) -> (r: bool)
        ensures
            r == self.spec_intersects(other),
    {
        self.bits & other.bits != 0
    }
}

/// A set holds a single platform just where the two have that platform in
/// common. So a sensor for Intel alone is not one for the M1 Pro, and is one
/// for Intel.
pub proof fn law_single_platform(set: Platform, host: Platform)
    requires
        host.bits == INTEL || host.bits == M1 || host.bits == M1_PRO || host.bits == M1_MAX
            || host.bits == M1_ULTRA || host.bits == M2,
    ensures
        set.spec_contains(host) == set.spec_intersects(host),
        !(Platform { bits: INTEL }).spec_contains(Platform { bits: M1_PRO }),
        (Platform { bits: INTEL }).spec_contains(Platform { bits: INTEL }),
        (Platform { bits: ALL }).spec_contains(host),
{
    let s = set.bits;
    let h = host.bits;
    assert((h == 1 || h == 2 || h == 4 || h == 8 || h == 16 || h == 32) ==> ((s & h == h) == (s
        & h != 0)) && (63u8 & h == h)) by (bit_vector);
    assert(1u8 & 4u8 != 4u8 && 1u8 & 1u8 == 1u8) by (bit_vector);
}

/// Errors raised from the Apple side.
#[derive(Copy, Clone, Debug, PartialEq, Eq, Structural)]
pub enum AppleError {
    /// An error of the controller or of the driver.
    Smc(SmcError),
    /// The platform could not be read.
    Sysctl,
}

impl From<SmcError> for AppleError {
    fn from(err: SmcError) -> (r: AppleError) {
        AppleError::Smc(err)
    }
}

impl vstd::std_specs::convert::FromSpecImpl<SmcError> for AppleError {
    open spec fn obeys_from_spec() -> bool {
        true
    }

    open spec fn from_spec(err: SmcError) -> AppleError {
        AppleError::Smc(err)
    }
}

/// A common group of sensors.
#[derive(Copy, Clone, Debug, PartialEq, Eq, Structural)]
pub enum SensorGroup {
    /// A CPU sensor.
    Cpu,
    /// A GPU sensor.
    Gpu,
    /// A generic sensor.
    Sensor,
    /// A system sensor.
    System,
}

/// What a sensor measures.
#[derive(Copy, Clone, Debug, PartialEq, Eq, Structural)]
pub enum SensorKind {
    /// Measures thermal data.
    Temperature,
    /// Measures voltage.
    Voltage,
    /// Measures current.
    Current,
    /// Measures power.
    Power,
    /// Measures fan speed.
    Fan,
    /// Measures energy consumption.
    Energy,
}

/// A sensor known by name.
#[derive(Copy, Clone, Debug)]
pub struct Sensor {
    /// The sensor's key.
    pub key: &'static str,
    /// The friendly name of the sensor.
    pub name: &'static str,
    /// The sensor's group of hardware.
    pub group: SensorGroup,
    /// The type of data this sensor measures or provides.
    pub kind: SensorKind,
    /// The platforms this sensor is compatible with.
    pub platforms: Platform,
    /// Whether this sensor is calculated by an average of other sensors.
    pub average: bool,
    /// The component type of this sensor.
    pub component_type: ComponentType,
}

impl Sensor {
    /// A sensor of the group, with the component type that goes with the
    /// group, and not an average.
    pub open spec fn of_group(
        key: &'static str,
        name: &'static str,
        group: SensorGroup,
        kind: SensorKind,
        platforms: Platform,
    ) -> Sensor {
        Sensor {
            key,
            name,
            group,
            kind,
            platforms,
            average: false,
            component_type: match group {
                SensorGroup::Cpu => ComponentType::Cpu,
                SensorGroup::Gpu => ComponentType::Gpu,
                SensorGroup::Sensor => ComponentType::Sensor,
                SensorGroup::System => ComponentType::System,
            },
        }
    }

    pub fn cpu(key: &'static str, name: &'static str, kind: SensorKind, platforms: Platform) -> (r:
        Sensor)
        ensures
            r == Sensor::of_group(key, name, SensorGroup::Cpu, kind, platforms),
    {
        Sensor {
            key,
            name,
            group: SensorGroup::Cpu,
            kind,
            platforms,
            average: false,
            component_type: ComponentType::Cpu,
        }
    }

    pub fn gpu(key: &'static str, name: &'static str, kind: SensorKind, platforms: Platform) -> (r:
        Sensor)
        ensures
            r == Sensor::of_group(key, name, SensorGroup::Gpu, kind, platforms),
    {
        Sensor {
            key,
            name,
            group: SensorGroup::Gpu,
            kind,
            platforms,
            average: false,
            component_type: ComponentType::Gpu,
        }
    }

    pub fn sensor(
        key: &'static str,
        name: &'static str,
        kind: SensorKind,
        platforms: Platform,
    ) -> (r: Sensor)
        ensures
            r == Sensor::of_group(key, name, SensorGroup::Sensor, kind, platforms),
    {
        Sensor {
            key,
            name,
            group: SensorGroup::Sensor,
            kind,
            platforms,
            average: false,
            component_type: ComponentType::Sensor,
        }
    }

    pub fn system(
        key: &'static str,
        name: &'static str,
        kind: SensorKind,
        platforms: Platform,
    ) -> (r: Sensor)
        ensures
            r == Sensor::of_group(key, name, SensorGroup::System, kind, platforms),
    {
        Sensor {
            key,
            name,
            group: SensorGroup::System,
            kind,
            platforms,
            average: false,
            component_type: ComponentType::System,
        }
    }

    /// The sensor, marked as an average of others.
    pub fn average(self) -> (r: Sensor)
        ensures
            r == (Sensor { average: true, ..self }),
    {
        let mut s = self;
        s.average = true;
        s
    }

    /// The sensor, with the component type `kind`.
    pub fn component_type(self, kind: ComponentType) -> (r: Sensor)
        ensures
            r == (Sensor { component_type: kind, ..self }),
    {
        let mut s = self;
        s.component_type = kind;
        s
    }
}

/// The platform that a processor's name tells: the one of the series named
/// after `Apple M`, and Intel for every other name.
pub open spec fn platform_of(cpu_name: Seq<char>) -> Platform {
    let rest = cpu_name.skip("Apple M"@.len() as int);
    if !has_prefix(cpu_name, "Apple M"@) {
        Platform { bits: INTEL }
    } else if rest == "1"@ {
        Platform { bits: M1 }
    } else if rest == "1 Pro"@ {
        Platform { bits: M1_PRO }
    } else if rest == "1 Max"@ {
        Platform { bits: M1_MAX }
    } else if rest == "1 Ultra"@ {
        Platform { bits: M1_ULTRA }
    } else if rest == "2"@ {
        Platform { bits: M2 }
    } else {
        Platform { bits: INTEL }
    }
}

/// A processor of a series that is not known counts as Intel, whatever it is
/// named after `Apple M`, and so does every processor of another name.
pub proof fn law_unknown_processor_is_intel(cpu_name: Seq<char>)
    requires
        !has_prefix(cpu_name, "Apple M"@) || ({
            let rest = cpu_name.skip("Apple M"@.len() as int);
            rest != "1"@ && rest != "1 Pro"@ && rest != "1 Max"@ && rest != "1 Ultra"@ && rest
                != "2"@
        }),
    ensures
        platform_of(cpu_name) == (Platform { bits: INTEL }),
{
}

/// The platform that the processor's name tells.
pub fn read_platform(cpu_name: &str) -> (r: Platform)
    ensures
        r == platform_of(cpu_name@),
{
    if !starts_with(cpu_name, "Apple M") {
        return Platform { bits: INTEL };
    }
    let prefix: usize = "Apple M".unicode_len();
    let total: usize = cpu_name.unicode_len();
    let rest = cpu_name.substring_char(prefix, total);
    assert(rest@ =~= cpu_name@.skip("Apple M"@.len() as int));
    if same(rest, "1") {
        Platform { bits: M1 }
    } else if same(rest, "1 Pro") {
        Platform { bits: M1_PRO }
    } else if same(rest, "1 Max") {
        Platform { bits: M1_MAX }
    } else if same(rest, "1 Ultra") {
        Platform { bits: M1_ULTRA }
    } else if same(rest, "2") {
        Platform { bits: M2 }
    } else {
        Platform { bits: INTEL }
    }
}

/// The name under which a version of the system went, by its first number
/// and, for 10, its second.
pub open spec fn friendly_name_of(version: Seq<char>) -> Option<Seq<char>> {
    let major = head_field(version, '.');
    if major == "10"@ {
        match tail_fields(version, '.') {
            None => None,
            Some(rest) => {
                let minor = head_field(rest, '.');
                if minor == "0"@ {
                    Some("Cheetah"@)
                } else if minor == "1"@ {
                    Some("Puma"@)
                } else if minor == "2"@ {
                    Some("Jaguar"@)
                } else if minor == "3"@ {
                    Some("Panther"@)
                } else if minor == "4"@ {
                    Some("Tiger"@)
                } else if minor == "5"@ {
                    Some("Leopard"@)
                } else if minor == "6"@ {
                    Some("Snow Leopard"@)
                } else if minor == "7"@ {
                    Some("Lion"@)
                } else if minor == "8"@ {
                    Some("Mountain Lion"@)
                } else if minor == "9"@ {
                    Some("Mavericks"@)
                } else if minor == "10"@ {
                    Some("Yosemite"@)
                } else if minor == "11"@ {
                    Some("El Capitan"@)
                } else if minor == "12"@ {
                    Some("Sierra"@)
                } else if minor == "13"@ {
                    Some("High Sierra"@)
                } else if minor == "14"@ {
                    Some("Mojave"@)
                } else if minor == "15"@ {
                    Some("Catalina"@)
                } else {
                    None
                }
            },
        }
    } else if major == "11"@ {
        Some("Big Sur"@)
    } else if major == "12"@ {
        Some("Monterey"@)
    } else if major == "13"@ {
        Some("Ventura"@)
    } else {
        None
    }
}

/// Whether `r` is the text, or the lack of one, that `want` names.
pub open spec fn names(r: Option<&'static str>, want: Option<Seq<char>>) -> bool {
    match r {
        Some(s) => want == Some(s@),
        None => want is None,
    }
}

/// The name under which the version went.
pub fn friendly_name(version: &str) -> (r: Option<&'static str>)
    ensures
        names(r, friendly_name_of(version@)),
{
    let v = chars_of(version);
    let dot = find_char(&v, 0, '.');
    assert(v@.skip(0) =~= v@);
    let major = version.substring_char(0, dot);
    assert(major@ =~= head_field(version@, '.'));
    if same(major, "10") {
        if dot == v.len() {
            return None;
        }
        let dot2 = find_char(&v, dot + 1, '.');
        let minor = version.substring_char(dot + 1, dot2);
        proof {
            let rest = version@.skip(dot + 1);
            assert(tail_fields(version@, '.') == Some(rest));
            assert(minor@ =~= head_field(rest, '.'));
        }
        if same(minor, "0") {
            Some("Cheetah")
        } else if same(minor, "1") {
            Some("Puma")
        } else if same(minor, "2") {
            Some("Jaguar")
        } else if same(minor, "3") {
            Some("Panther")
        } else if same(minor, "4") {
            Some("Tiger")
        } else if same(minor, "5") {
            Some("Leopard")
        } else if same(minor, "6") {
            Some("Snow Leopard")
        } else if same(minor, "7") {
            Some("Lion")
        } else if same(minor, "8") {
            Some("Mountain Lion")
        } else if same(minor, "9") {
            Some("Mavericks")
        } else if same(minor, "10") {
            Some("Yosemite")
        } else if same(minor, "11") {
            Some("El Capitan")
        } else if same(minor, "12") {
            Some("Sierra")
        } else if same(minor, "13") {
            Some("High Sierra")
        } else if same(minor, "14") {
            Some("Mojave")
        } else if same(minor, "15") {
            Some("Catalina")
        } else {
            None
        }
    } else if same(major, "11") {
        Some("Big Sur")
    } else if same(major, "12") {
        Some("Monterey")
    } else if same(major, "13") {
        Some("Ventura")
    } else {
        None
    }
}

/// The name of the system: `macOS`, then the version where it is known, then
/// in brackets the name under which that version went where it has one.
pub open spec fn os_name_of(version: Option<Seq<char>>) -> Seq<char> {
    match version {
        None => "macOS <unknown>"@,
        Some(v) => match friendly_name_of(v) {
            None => "macOS "@ + v,
            Some(friendly) => "macOS "@ + v + " ("@ + friendly + ")"@,
        },
    }
}

/// The name of the system of the given version.
pub fn get_os_name(version: Option<&str>) -> (r: String)
    ensures
        r@ == os_name_of(
            match version {
                Some(v) => Some(v@),
                None => None,
            },
        ),
{
    match version {
        None => String::from_str("macOS <unknown>"),
        Some(v) => {
            let mut s = String::from_str("macOS ");
            s.append(v);
            match friendly_name(v) {
                None => s,
                Some(friendly) => {
                    s.append(" (");
                    s.append(friendly);
                    s.append(")");
                    s
                },
            }
        },
    }
}

/// The type of Mac.
#[derive(Copy, Clone, Debug, PartialEq, Eq, Structural)]
pub enum MacType {
    /// Mac Mini
    MacMini,
    /// iMac
    IMac,
    /// iMac Pro
    IMacPro,
    /// Mac Pro
    MacPro,
    /// MacBook
    MacBook,
    /// MacBook Air
    MacBookAir,
    /// MacBook Pro
    MacBookPro,
    /// Mac Studio
    MacStudio,
}

impl MacType {
    /// The name under which Apple lists the type.
    pub open spec fn listing(self) -> Seq<char> {
        match self {
            MacType::MacMini => "Mac mini"@,
            MacType::IMac => "iMac"@,
            MacType::IMacPro => "iMac Pro"@,
            MacType::MacPro => "Mac Pro"@,
            MacType::MacBook => "MacBook"@,
            MacType::MacBookAir => "MacBook Air"@,
            MacType::MacBookPro => "MacBook Pro"@,
            MacType::MacStudio => "Mac Studio"@,
        }
    }

    /// The name under which Apple lists the type.
    pub fn as_str(&self) -> (r: &'static str)
        ensures
            r@ == self.listing(),
    {
        match self {
            MacType::MacMini => "Mac mini",
            MacType::IMac => "iMac",
            MacType::IMacPro => "iMac Pro",
            MacType::MacPro => "Mac Pro",
            MacType::MacBook => "MacBook",
            MacType::MacBookAir => "MacBook Air",
            MacType::MacBookPro => "MacBook Pro",
            MacType::MacStudio => "Mac Studio",
        }
    }
}

/// The threshold from which a reading counts as high: 85 degrees.
pub const HIGH: i64 = 5_570_560;

/// The threshold from which a reading counts as critical: 100 degrees.
pub const CRITICAL: i64 = 6_553_600;

/// The temperature of `raw` units of 1/65536 degree.
pub open spec fn degrees(raw: i64) -> Celsius {
    Celsius { units: raw, per_degree: 65536 }
}

/// One reading of a sensor: its label, the reading and the highest seen.
pub struct AppleTemperatureReading(pub String, pub Fixed, pub Fixed);

impl TemperatureReading for AppleTemperatureReading {
    open spec fn shown(&self) -> Shown {
        Shown {
            label: self.0@,
            temperature: degrees(self.1.raw),
            max: degrees(self.2.raw),
            high: degrees(HIGH),
            critical: degrees(CRITICAL),
        }
    }

    fn label(&self) -> (r: String) {
        self.0.clone()
    }

    fn temperature(&self) -> (r: Celsius) {
        Celsius { units: self.1.raw, per_degree: 65536 }
    }

    fn max(&self) -> (r: Celsius) {
        Celsius { units: self.2.raw, per_degree: 65536 }
    }

    fn high(&self) -> (r: Celsius) {
        Celsius { units: HIGH, per_degree: 65536 }
    }

    fn critical(&self) -> (r: Celsius) {
        Celsius { units: CRITICAL, per_degree: 65536 }
    }
}

/// A sensor of the controller with its last reading and the highest since it
/// was found.
#[derive(Copy, Clone, Debug)]
pub struct XpuComponent {
    pub inner: Sensor,
    pub previous: Fixed,
    pub max: Fixed,
}

pub type AppleCpuComponent = XpuComponent;

pub type AppleGpuComponent = XpuComponent;

/// The larger of the two.
pub open spec fn larger(a: Fixed, b: Fixed) -> Fixed {
    if b.raw > a.raw {
        b
    } else {
        a
    }
}

impl XpuComponent {
    /// The component as found, before its first reading.
    pub open spec fn found(inner: Sensor) -> XpuComponent {
        XpuComponent { inner, previous: Fixed { raw: 0 }, max: Fixed { raw: 0 } }
    }

    /// The component after the reading `value`.
    pub open spec fn read(self, value: Fixed) -> XpuComponent {
        XpuComponent { inner: self.inner, previous: value, max: larger(self.max, value) }
    }

    /// What a refresh with `sample` gives: a reading is taken, and the highest
    /// seen raised to it; an error changes nothing and is handed on as text.
    pub open spec fn refreshed(
        self,
        sample: Result<Fixed, SmcError>,
        next: XpuComponent,
        r: Result<(), String>,
    ) -> bool {
        match sample {
            Ok(value) => next == self.read(value) && r is Ok,
            Err(e) => next == self && (r matches Err(text) && text@ == message_of(e)),
        }
    }

    pub fn new(inner: Sensor) -> (r: XpuComponent)
        ensures
            r == XpuComponent::found(inner),
    {
        XpuComponent { inner, previous: Fixed { raw: 0 }, max: Fixed { raw: 0 } }
    }

    pub fn label(&self) -> (r: String)
        ensures
            r@ == self.inner.name@,
    {
        String::from_str(self.inner.name)
    }

    pub fn temperatures(&self) -> (r: Vec<AppleTemperatureReading>)
        ensures
            r@.len() == 1,
            r@[0].0@ == self.inner.name@,
            r@[0].1 == self.previous,
            r@[0].2 == self.max,
    {
        let mut v: Vec<AppleTemperatureReading> = Vec::new();
        v.push(AppleTemperatureReading(self.label(), self.previous, self.max));
        v
    }

    pub fn component_type(&self) -> (r: ComponentType)
        ensures
            r == self.inner.component_type,
    {
        self.inner.component_type
    }

    pub fn refresh(&mut self, sample: Result<Fixed, SmcError>) -> (r: Result<(), String>)
        ensures
            old(self).refreshed(sample, *final(self), r),
    {
        match sample {
            Ok(value) => {
                self.previous = value;
                if value.raw > self.max.raw {
                    self.max = value;
                }
                Ok(())
            },
            Err(e) => Err(e.message()),
        }
    }
}

/// A component made of a sensor of the controller.
#[derive(Copy, Clone, Debug)]
pub enum AppleComponent {
    Cpu(AppleCpuComponent),
    Gpu(AppleGpuComponent),
}

impl AppleComponent {
    /// The sensor and the readings, whichever the variant.
    pub open spec fn gauge(self) -> XpuComponent {
        match self {
            AppleComponent::Cpu(c) => c,
            AppleComponent::Gpu(c) => c,
        }
    }

    /// The component with `gauge` in place of its own.
    pub open spec fn with_gauge(self, gauge: XpuComponent) -> AppleComponent {
        match self {
            AppleComponent::Cpu(_) => AppleComponent::Cpu(gauge),
            AppleComponent::Gpu(_) => AppleComponent::Gpu(gauge),
        }
    }
}

impl Component for AppleComponent {
    type TemperatureReading = AppleTemperatureReading;

    type Sample = Result<Fixed, SmcError>;

    open spec fn label_text(&self) -> Seq<char> {
        self.gauge().inner.name@
    }

    open spec fn kind(&self) -> ComponentType {
        self.gauge().inner.component_type
    }

    open spec fn readings(&self) -> Seq<Shown> {
        seq![
            Shown {
                label: self.gauge().inner.name@,
                temperature: degrees(self.gauge().previous.raw),
                max: degrees(self.gauge().max.raw),
                high: degrees(HIGH),
                critical: degrees(CRITICAL),
            },
        ]
    }

    open spec fn refreshed(
        &self,
        sample: Result<Fixed, SmcError>,
        next: AppleComponent,
        r: Result<(), String>,
    ) -> bool {
        next == self.with_gauge(next.gauge()) && self.gauge().refreshed(sample, next.gauge(), r)
    }

    fn label(&self) -> (r: String) {
        match self {
            AppleComponent::Cpu(c) => c.label(),
            AppleComponent::Gpu(c) => c.label(),
        }
    }

    fn temperatures(&self) -> (r: Vec<AppleTemperatureReading>) {
        match self {
            AppleComponent::Cpu(c) => c.temperatures(),
            AppleComponent::Gpu(c) => c.temperatures(),
        }
    }

    fn component_type(&self) -> (r: ComponentType) {
        match self {
            AppleComponent::Cpu(c) => c.component_type(),
            AppleComponent::Gpu(c) => c.component_type(),
        }
    }

    fn refresh(&mut self, sample: Result<Fixed, SmcError>) -> (r: Result<(), String>) {
        match self {
            AppleComponent::Cpu(c) => c.refresh(sample),
            AppleComponent::Gpu(c) => c.refresh(sample),
        }
    }
}

/// The components found on an Apple host.
pub struct AppleComponents {
    pub smc: Smc,
    pub sensors: Vec<(Sensor, AppleComponent)>,
    pub names: SystemNames,
}

/// The components of the sensors that measure a temperature, in order.
pub open spec fn thermal_of(sensors: Seq<(Sensor, AppleComponent)>) -> Seq<AppleComponent>
    decreases sensors.len(),
{
    if sensors.len() == 0 {
        Seq::empty()
    } else if sensors.last().0.kind == SensorKind::Temperature {
        thermal_of(sensors.drop_last()).push(sensors.last().1)
    } else {
        thermal_of(sensors.drop_last())
    }
}

/// The index of the first sensor at or after `from` that measures a
/// temperature, or the number of sensors where there is none.
pub open spec fn next_thermal_of(sensors: Seq<(Sensor, AppleComponent)>, from: int) -> int
    decreases sensors.len() - from,
{
    if from < 0 || from >= sensors.len() {
        sensors.len() as int
    } else if sensors[from].0.kind == SensorKind::Temperature {
        from
    } else {
        next_thermal_of(sensors, from + 1)
    }
}

fn is_thermal(sensor: &Sensor) -> (r: bool)
    ensures
        r == (sensor.kind == SensorKind::Temperature),
{
    match sensor.kind {
        SensorKind::Temperature => true,
        _ => false,
    }
}

impl AppleComponents {
    /// The index of the first sensor at or after `from` that is refreshed, if
    /// there is one.
    pub fn next_thermal(&self, from: usize) -> (r: Option<usize>)
        ensures
            match r {
                Some(at) => at == next_thermal_of(self.sensors@, from as int) && from <= at
                    < self.sensors@.len(),
                None => next_thermal_of(self.sensors@, from as int) == self.sensors@.len(),
            },
    {
        let mut i: usize = from;
        while i < self.sensors.len()
            invariant
                from <= i,
                next_thermal_of(self.sensors@, i as int) == next_thermal_of(
                    self.sensors@,
                    from as int,
                ),
            decreases self.sensors.len() - i,
        {
            if is_thermal(&self.sensors[i].0) {
                return Some(i);
            }
            i += 1;
        }
        None
    }

    /// Begins to read the sensor at `at`.
    pub fn temperature(&self, at: usize) -> (r: Next<Temperature, Result<Fixed, SmcError>>)
        requires
            at < self.sensors@.len(),
        ensures
            match code_of(self.sensors@[at as int].0.key@) {
                Ok(key) => if is_temperature_key(key) {
                    r matches Next::Call(m, p) && m == (Temperature {
                        key,
                        order: self.smc.order,
                        phase: TemperaturePhase::Check,
                    }) && m.asks(p)
                } else {
                    r == Next::<Temperature, Result<Fixed, SmcError>>::Done(
                        Err(SmcError::KeyNotFound(key)),
                    )
                },
                Err(fault) => r == Next::<Temperature, Result<Fixed, SmcError>>::Done(
                    Err(SmcError::Key(fault)),
                ),
            },
    {
        match key_code(self.sensors[at].0.key) {
            Ok(key) => self.smc.temperature(key),
            Err(fault) => Next::Done(Err(SmcError::Key(fault))),
        }
    }

    /// Whether refreshing the sensor at `at` with `sample` leads to `next`
    /// with the result `r`: the component takes the sample, nothing else
    /// changes, and the result is the index of the sensor to refresh after
    /// it, or the error that ends the pass.
    pub open spec fn refreshed(
        self,
        at: usize,
        sample: Result<Fixed, SmcError>,
        next: AppleComponents,
        r: Result<Option<usize>, String>,
    ) -> bool {
        let before = self.sensors@[at as int];
        let after = next.sensors@[at as int];
        &&& next.smc == self.smc
        &&& next.names == self.names
        &&& next.sensors@.len() == self.sensors@.len()
        &&& forall|i: int| 0 <= i < self.sensors@.len() && i != at ==> next.sensors@[i]
            == self.sensors@[i]
        &&& after.0 == before.0
        &&& match sample {
            Ok(value) => after.1 == before.1.with_gauge(before.1.gauge().read(value)) && match r {
                Ok(Some(then)) => then == next_thermal_of(next.sensors@, at + 1) && then
                    < next.sensors@.len(),
                Ok(None) => next_thermal_of(next.sensors@, at + 1) == next.sensors@.len(),
                Err(_) => false,
            },
            Err(e) => after.1 == before.1 && (r matches Err(text) && text@ == message_of(e)),
        }
    }
}

impl Interface for AppleComponents {
    type Component = AppleComponent;

    open spec fn thermal(&self) -> Seq<AppleComponent> {
        thermal_of(self.sensors@)
    }

    open spec fn places(&self) -> nat {
        self.sensors@.len()
    }

    open spec fn stepped(
        &self,
        at: usize,
        sample: Result<Fixed, SmcError>,
        next: AppleComponents,
        r: Result<Option<usize>, String>,
    ) -> bool {
        self.refreshed(at, sample, next, r)
    }

    /// Refreshes the sensor at `at` with what was read for it.
    fn refresh(&mut self, at: usize, sample: Result<Fixed, SmcError>) -> (r: Result<
        Option<usize>,
        String,
    >) {
        let (sensor, component) = self.sensors[at];
        let mut component = component;
        let done = component.refresh(sample);
        self.sensors.set(at, (sensor, component));
        assert(at < self.sensors.len());
        match done {
            Ok(_) => Ok(self.next_thermal(at + 1)),
            Err(text) => Err(text),
        }
    }

    fn thermal_components(&self) -> (r: Vec<&AppleComponent>) {
        let mut out: Vec<&AppleComponent> = Vec::new();
        let mut i: usize = 0;
        assert(crate::pointed(out@) =~= thermal_of(self.sensors@.take(0)));
        while i < self.sensors.len()
            invariant
                i <= self.sensors.len(),
                crate::pointed(out@) == thermal_of(self.sensors@.take(i as int)),
            decreases self.sensors.len() - i,
        {
            let ghost before = crate::pointed(out@);
            proof {
                let grown = self.sensors@.take(i + 1);
                assert(grown.drop_last() =~= self.sensors@.take(i as int));
                assert(grown.last() == self.sensors@[i as int]);
            }
            if is_thermal(&self.sensors[i].0) {
                out.push(&self.sensors[i].1);
                assert(crate::pointed(out@) =~= before.push(self.sensors@[i as int].1));
            }
            i += 1;
        }
        assert(self.sensors@.take(self.sensors.len() as int) =~= self.sensors@);
        out
    }

    open spec fn names(&self) -> SystemNames {
        self.names
    }

    fn os_name(&self) -> (r: String) {
        self.names.os_name.clone()
    }

    fn cpu_name(&self) -> (r: String) {
        self.names.cpu_name.clone()
    }

    fn device_model_name(&self) -> (r: String) {
        self.names.model_name.clone()
    }
}

} // verus!
