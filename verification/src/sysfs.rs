//! Finding the sensors of a Linux host from what was read of its `hwmon`
//! chips and thermal zones, and the components made of them.

use crate::hwmon::{done, listed, read_of, text_of, ChipText, HwmonSensor, Listing};
use crate::linux::{
    join, joined, read_temperature, temperature_in, HwmonSensorType, LinuxError, LinuxFault,
    Reading, TemperatureReading, ThermalZoneSensor, DEFAULT_CRITICAL, DEFAULT_HIGH,
};
use crate::text::{
    decimal_within, ends_with, has_prefix, has_suffix, parse_decimal, replace, replaced, same,
    starts_with, trim, trimmed,
};
use crate::{Component, ComponentType, Interface, Shown, SystemNames};
use vstd::prelude::*;
use vstd::string::*;

verus! {

/// What was read of one directory below `/sys/class/hwmon`. The three texts
/// are those of the files below the directory that `files_dir` names.
#[derive(Debug)]
pub struct HwmonDir {
    /// The directory.
    pub path: String,
    /// Whether the directory holds `temp1_input`.
    pub has_input: bool,
    /// Whether its `device` holds `temp1_input`.
    pub device_has_input: bool,
    /// The text of `name`, where it could be read.
    pub name: Option<String>,
    /// The text of `update_interval`, where it could be read.
    pub update_interval: Option<String>,
    /// The text of `temp1_type`, where it could be read.
    pub temp1_type: Option<String>,
}

/// A chip's directory, with its texts as characters.
pub struct DirText {
    pub path: Seq<char>,
    pub has_input: bool,
    pub device_has_input: bool,
    pub name: Option<Seq<char>>,
    pub update_interval: Option<Seq<char>>,
    pub temp1_type: Option<Seq<char>>,
}

impl View for HwmonDir {
    type V = DirText;

    open spec fn view(&self) -> DirText {
        DirText {
            path: self.path@,
            has_input: self.has_input,
            device_has_input: self.device_has_input,
            name: text_of(self.name),
            update_interval: text_of(self.update_interval),
            temp1_type: text_of(self.temp1_type),
        }
    }
}

/// The least time between two scans that the text tells, in milliseconds:
/// none where there is no text or no number in it.
pub open spec fn interval_in(text: Option<Seq<char>>) -> u64 {
    match text {
        Some(t) => match decimal_within(trimmed(t), u64::MAX as nat) {
            Some(n) => n as u64,
            None => 0,
        },
        None => 0,
    }
}

/// The kind of sensor that the text tells: a CPU diode where there is no text
/// or no kind in it.
pub open spec fn type_in(text: Option<Seq<char>>) -> HwmonSensorType {
    match text {
        Some(t) => match HwmonSensorType::named(t) {
            Some(kind) => kind,
            None => HwmonSensorType::CpuDiode,
        },
        None => HwmonSensorType::CpuDiode,
    }
}

impl DirText {
    /// The directory of the chip's files: the directory itself where it
    /// holds `temp1_input`, its `device` where that does, and none else.
    pub open spec fn files_dir(self) -> Option<Seq<char>> {
        if self.has_input {
            Some(self.path)
        } else if self.device_has_input {
            Some(joined(self.path, "device"@))
        } else {
            None
        }
    }

    /// The chip of the directory, made at `now`, where it has a temperature.
    pub open spec fn chip(self, now: u64) -> Option<ChipText> {
        match self.files_dir() {
            Some(path) => Some(
                ChipText {
                    path,
                    device_path: joined(self.path, "device"@),
                    name: self.name,
                    update_interval: interval_in(self.update_interval),
                    last_update: now,
                    readings: Seq::empty(),
                    sensor_type: type_in(self.temp1_type),
                    wait: false,
                },
            ),
            None => None,
        }
    }
}

/// The directory of a chip's files.
pub fn files_dir(path: &str, has_input: bool, device_has_input: bool) -> (r: Option<String>)
    ensures
        text_of(r) == (if has_input {
            Some(path@)
        } else if device_has_input {
            Some(joined(path@, "device"@))
        } else {
            None
        }),
{
    if has_input {
        Some(String::from_str(path))
    } else if device_has_input {
        Some(join(path, "device"))
    } else {
        None
    }
}

fn read_interval(text: &Option<String>) -> (r: u64)
    ensures
        r == interval_in(text_of(*text)),
{
    match text {
        Some(t) => match parse_decimal(trim(t.as_str()), u64::MAX) {
            Some(n) => n,
            None => 0,
        },
        None => 0,
    }
}

fn read_type(text: &Option<String>) -> (r: HwmonSensorType)
    ensures
        r == type_in(text_of(*text)),
{
    match text {
        Some(t) => match HwmonSensorType::from_str(t.as_str()) {
            Some(kind) => kind,
            None => HwmonSensorType::CpuDiode,
        },
        None => HwmonSensorType::CpuDiode,
    }
}

/// The chip of a directory, made at `now`, where it has a temperature.
pub fn hwmon_sensor(dir: &HwmonDir, now: u64) -> (r: Option<HwmonSensor>)
    ensures
        match r {
            Some(chip) => dir@.chip(now) == Some(chip@),
            None => dir@.chip(now) is None,
        },
{
    match files_dir(dir.path.as_str(), dir.has_input, dir.device_has_input) {
        Some(path) => Some(
            HwmonSensor::new(
                path,
                join(dir.path.as_str(), "device"),
                dir.name.clone(),
                read_interval(&dir.update_interval),
                read_type(&dir.temp1_type),
                now,
            ),
        ),
        None => None,
    }
}

/// The directories, with their texts as characters.
pub open spec fn dirs_of(dirs: Seq<Result<HwmonDir, String>>) -> Seq<Result<DirText, Seq<char>>> {
    Seq::new(
        dirs.len(),
        |i: int|
            match dirs[i] {
                Ok(dir) => Ok(dir@),
                Err(text) => Err(text@),
            },
    )
}

/// The chips, with their texts as characters.
pub open spec fn chips_text(chips: Seq<HwmonSensor>) -> Seq<ChipText> {
    Seq::new(chips.len(), |i: int| chips[i]@)
}

/// The chips of the directories, in order, those without a temperature left
/// out; or the error of the first directory that could not be had.
pub open spec fn chips_of(dirs: Seq<Result<DirText, Seq<char>>>, now: u64) -> Result<
    Seq<ChipText>,
    LinuxFault,
>
    decreases dirs.len(),
{
    if dirs.len() == 0 {
        Ok(Seq::empty())
    } else {
        match chips_of(dirs.drop_last(), now) {
            Err(fault) => Err(fault),
            Ok(chips) => match dirs.last() {
                Err(text) => Err(LinuxFault::IoError(text)),
                Ok(dir) => match dir.chip(now) {
                    Some(chip) => Ok(chips.push(chip)),
                    None => Ok(chips),
                },
            },
        }
    }
}

/// The chips of what was read below `/sys/class/hwmon`.
#[verifier::loop_isolation(false)]
pub fn get_sensors_from_hwmon(listing: &Result<Vec<Result<HwmonDir, String>>, String>, now: u64) -> (r:
    Result<Vec<HwmonSensor>, LinuxError>)
    ensures
        match *listing {
            Err(text) => r matches Err(e) && e@ == LinuxFault::IoError(text@),
            Ok(dirs) => match r {
                Ok(chips) => chips_of(dirs_of(dirs@), now) == Ok::<Seq<ChipText>, LinuxFault>(
                    chips_text(chips@),
                ),
                Err(e) => chips_of(dirs_of(dirs@), now) == Err::<Seq<ChipText>, LinuxFault>(e@),
            },
        },
{
    let dirs = match listing {
        Ok(dirs) => dirs,
        Err(text) => {
            return Err(LinuxError::IoError(text.clone()));
        },
    };
    let ghost all = dirs_of(dirs@);
    let mut sensors: Vec<HwmonSensor> = Vec::new();
    let mut i: usize = 0;
    assert(all.take(0) =~= Seq::empty());
    assert(chips_text(sensors@) =~= Seq::empty());
    while i < dirs.len()
        invariant
            i <= dirs.len(),
            chips_of(all.take(i as int), now) == Ok::<Seq<ChipText>, LinuxFault>(
                chips_text(sensors@),
            ),
        decreases dirs.len() - i,
    {
        let ghost before = chips_text(sensors@);
        proof {
            let grown = all.take(i + 1);
            assert(grown.drop_last() =~= all.take(i as int));
            assert(grown.last() == all[i as int]);
            if i + 1 < dirs.len() {
                lemma_chips_fail(all, i + 1, now);
            } else {
                assert(all.take(dirs.len() as int) =~= all);
            }
        }
        match &dirs[i] {
            Err(text) => {
                return Err(LinuxError::IoError(text.clone()));
            },
            Ok(dir) => match hwmon_sensor(dir, now) {
                Some(chip) => {
                    sensors.push(chip);
                    assert(chips_text(sensors@) =~= before.push(chip@));
                },
                None => {},
            },
        }
        i += 1;
    }
    assert(all.take(dirs.len() as int) =~= all);
    Ok(sensors)
}

/// An error among the first directories is the error of them all.
pub proof fn lemma_chips_fail(dirs: Seq<Result<DirText, Seq<char>>>, k: int, now: u64)
    requires
        0 <= k <= dirs.len(),
    ensures
        chips_of(dirs.take(k), now) matches Err(fault) ==> chips_of(dirs, now) == Err::<
            Seq<ChipText>,
            LinuxFault,
        >(fault),
    decreases dirs.len() - k,
{
    if k == dirs.len() {
        assert(dirs.take(k) =~= dirs);
    } else {
        lemma_chips_fail(dirs, k + 1, now);
        assert(dirs.take(k + 1).drop_last() =~= dirs.take(k));
    }
}

/// What was read of one entry of a thermal zone's directory. The two texts
/// count only where the name is that of a trip point's temperature.
#[derive(Debug)]
pub struct ZoneFile {
    /// The entry's name, where it is text.
    pub file_name: Option<String>,
    /// The text of the entry itself, or why it could not be read.
    pub temp: Result<String, String>,
    /// The text of the file that tells the trip point's kind, where it could
    /// be read.
    pub kind: Option<String>,
}

/// An entry of a zone's directory, with its texts as characters.
pub struct TripText {
    pub file_name: Option<Seq<char>>,
    pub temp: Result<Seq<char>, Seq<char>>,
    pub kind: Option<Seq<char>>,
}

impl View for ZoneFile {
    type V = TripText;

    open spec fn view(&self) -> TripText {
        TripText {
            file_name: text_of(self.file_name),
            temp: read_of(self.temp),
            kind: text_of(self.kind),
        }
    }
}

/// What was read of one entry below `/sys/class/thermal`.
#[derive(Debug)]
pub struct ZoneDir {
    /// The entry's name, where it is text.
    pub file_name: Option<String>,
    /// The directory.
    pub path: String,
    /// The text of the file `type`, or why it could not be read.
    pub kind: Result<String, String>,
    /// What was read of the directory's entries, or why they could not be had.
    pub files: Result<Vec<Result<ZoneFile, String>>, String>,
}

/// The entries of a zone's directory, with their texts as characters.
pub open spec fn trips_text(files: Seq<Result<ZoneFile, String>>) -> Seq<Result<TripText, Seq<char>>> {
    Seq::new(
        files.len(),
        |i: int|
            match files[i] {
                Ok(file) => Ok(file@),
                Err(text) => Err(text@),
            },
    )
}

/// A zone's directory, with its texts as characters.
pub struct ZoneDirText {
    pub file_name: Option<Seq<char>>,
    pub path: Seq<char>,
    pub kind: Result<Seq<char>, Seq<char>>,
    pub files: Result<Seq<Result<TripText, Seq<char>>>, Seq<char>>,
}

impl View for ZoneDir {
    type V = ZoneDirText;

    open spec fn view(&self) -> ZoneDirText {
        ZoneDirText {
            file_name: text_of(self.file_name),
            path: self.path@,
            kind: read_of(self.kind),
            files: match self.files {
                Ok(files) => Ok(trips_text(files@)),
                Err(text) => Err(text@),
            },
        }
    }
}

/// A thermal zone, with its texts as characters.
pub struct ZoneText {
    pub path: Seq<char>,
    pub name: Seq<char>,
    pub last_reading: Option<u32>,
    pub max: u32,
    pub high: u32,
    pub crit: u32,
}

impl View for ThermalZoneSensor {
    type V = ZoneText;

    open spec fn view(&self) -> ZoneText {
        ZoneText {
            path: self.path@,
            name: self.name@,
            last_reading: self.last_reading,
            max: self.max,
            high: self.high,
            crit: self.crit,
        }
    }
}

/// Whether a directory of this name is a thermal zone.
pub open spec fn is_zone(name: Seq<char>) -> bool {
    has_prefix(name, "thermal_zone"@)
}

/// Whether a directory of this name is a thermal zone.
pub fn is_thermal_zone(name: &str) -> (r: bool)
    ensures
        r == is_zone(name@),
{
    starts_with(name, "thermal_zone")
}

/// Whether a file of this name holds the temperature of a trip point.
pub open spec fn is_trip(name: Seq<char>) -> bool {
    has_prefix(name, "trip_point_"@) && has_suffix(name, "_temp"@)
}

/// Whether a file of this name holds the temperature of a trip point.
pub fn is_trip_point(name: &str) -> (r: bool)
    ensures
        r == is_trip(name@),
{
    starts_with(name, "trip_point_") && ends_with(name, "_temp")
}

/// The name of the file that tells the kind of the trip point whose
/// temperature is in the file `name`.
pub fn trip_kind_file(name: &str) -> (r: String)
    ensures
        r@ == replaced(name@, "_temp"@, "_type"@),
{
    replace(name, "_temp", "_type")
}

/// The thresholds `(high, critical)` after one more entry: a trip point of
/// the kind `critical` sets the second, one of the kind `hot` the first, and
/// nothing else sets anything.
pub open spec fn trip_applied(entry: TripText, thresholds: (u32, u32)) -> Result<
    (u32, u32),
    LinuxFault,
> {
    match entry.file_name {
        None => Err(
            LinuxFault::InvalidData("thermal zone sensor had a non-ascii device filename"@),
        ),
        Some(name) => if !is_trip(name) {
            Ok(thresholds)
        } else {
            match entry.temp {
                Err(text) => Err(LinuxFault::IoError(text)),
                Ok(content) => match temperature_in(content) {
                    Err(fault) => Err(fault),
                    Ok(temperature) => {
                        let kind = trimmed(
                            match entry.kind {
                                Some(text) => text,
                                None => Seq::empty(),
                            },
                        );
                        if kind == "critical"@ {
                            Ok((thresholds.0, temperature))
                        } else if kind == "hot"@ {
                            Ok((temperature, thresholds.1))
                        } else {
                            Ok(thresholds)
                        }
                    },
                },
            }
        },
    }
}

/// The thresholds `(high, critical)` that the entries of a zone tell, from
/// the defaults on, or the first error among them.
pub open spec fn trips_of(files: Seq<Result<TripText, Seq<char>>>) -> Result<(u32, u32), LinuxFault>
    decreases files.len(),
{
    if files.len() == 0 {
        Ok((DEFAULT_HIGH, DEFAULT_CRITICAL))
    } else {
        match trips_of(files.drop_last()) {
            Err(fault) => Err(fault),
            Ok(thresholds) => match files.last() {
                Err(text) => Err(LinuxFault::IoError(text)),
                Ok(entry) => trip_applied(entry, thresholds),
            },
        }
    }
}

/// An error among the first entries is the error of them all.
pub proof fn lemma_trips_fail(files: Seq<Result<TripText, Seq<char>>>, k: int)
    requires
        0 <= k <= files.len(),
    ensures
        trips_of(files.take(k)) matches Err(fault) ==> trips_of(files) == Err::<
            (u32, u32),
            LinuxFault,
        >(fault),
    decreases files.len() - k,
{
    if k == files.len() {
        assert(files.take(k) =~= files);
    } else {
        lemma_trips_fail(files, k + 1);
        assert(files.take(k + 1).drop_last() =~= files.take(k));
    }
}

/// The zone of a directory: none where the directory is not named as a
/// thermal zone is, and else the zone under the name that its `type` tells,
/// white space aside, with the thresholds of its trip points.
pub open spec fn zone_of(dir: ZoneDirText) -> Result<Option<ZoneText>, LinuxFault> {
    let named = match dir.file_name {
        Some(name) => is_zone(name),
        None => false,
    };
    if !named {
        Ok(None)
    } else {
        match dir.kind {
            Err(text) => Err(LinuxFault::IoError(text)),
            Ok(kind) => match dir.files {
                Err(text) => Err(LinuxFault::IoError(text)),
                Ok(files) => match trips_of(files) {
                    Err(fault) => Err(fault),
                    Ok((high, crit)) => Ok(
                        Some(
                            ZoneText {
                                path: dir.path,
                                name: trimmed(kind),
                                last_reading: None,
                                max: 0,
                                high,
                                crit,
                            },
                        ),
                    ),
                },
            },
        }
    }
}

fn apply_trip(entry: &ZoneFile, thresholds: (u32, u32)) -> (r: Result<(u32, u32), LinuxError>)
    ensures
        match r {
            Ok(t) => trip_applied(entry@, thresholds) == Ok::<(u32, u32), LinuxFault>(t),
            Err(e) => trip_applied(entry@, thresholds) == Err::<(u32, u32), LinuxFault>(e@),
        },
{
    let name = match &entry.file_name {
        Some(name) => name,
        None => {
            return Err(
                LinuxError::InvalidData(
                    String::from_str("thermal zone sensor had a non-ascii device filename"),
                ),
            );
        },
    };
    if !is_trip_point(name.as_str()) {
        return Ok(thresholds);
    }
    let content = match &entry.temp {
        Ok(content) => content,
        Err(text) => {
            return Err(LinuxError::IoError(text.clone()));
        },
    };
    let temperature = match read_temperature(content.as_str()) {
        Ok(t) => t,
        Err(e) => {
            return Err(e);
        },
    };
    let kind = match &entry.kind {
        Some(text) => trim(text.as_str()),
        None => trim(""),
    };
    proof {
        reveal_strlit("");
        assert(""@ =~= Seq::<char>::empty());
    }
    if same(kind, "critical") {
        Ok((thresholds.0, temperature))
    } else if same(kind, "hot") {
        Ok((temperature, thresholds.1))
    } else {
        Ok(thresholds)
    }
}

#[verifier::loop_isolation(false)]
fn read_trips(files: &Vec<Result<ZoneFile, String>>) -> (r: Result<(u32, u32), LinuxError>)
    ensures
        match r {
            Ok(t) => trips_of(trips_text(files@)) == Ok::<(u32, u32), LinuxFault>(t),
            Err(e) => trips_of(trips_text(files@)) == Err::<(u32, u32), LinuxFault>(e@),
        },
{
    let ghost all = trips_text(files@);
    let mut thresholds: (u32, u32) = (DEFAULT_HIGH, DEFAULT_CRITICAL);
    let mut i: usize = 0;
    assert(all.take(0) =~= Seq::empty());
    while i < files.len()
        invariant
            i <= files.len(),
            trips_of(all.take(i as int)) == Ok::<(u32, u32), LinuxFault>(thresholds),
        decreases files.len() - i,
    {
        proof {
            let grown = all.take(i + 1);
            assert(grown.drop_last() =~= all.take(i as int));
            assert(grown.last() == all[i as int]);
            lemma_trips_fail(all, i + 1);
        }
        match &files[i] {
            Err(text) => {
                return Err(LinuxError::IoError(text.clone()));
            },
            Ok(entry) => match apply_trip(entry, thresholds) {
                Ok(t) => {
                    thresholds = t;
                },
                Err(e) => {
                    return Err(e);
                },
            },
        }
        i += 1;
    }
    assert(all.take(files.len() as int) =~= all);
    Ok(thresholds)
}

/// The zone of what was read of one directory.
pub fn thermal_zone(dir: &ZoneDir) -> (r: Result<Option<ThermalZoneSensor>, LinuxError>)
    ensures
        match r {
            Ok(Some(zone)) => zone_of(dir@) == Ok::<Option<ZoneText>, LinuxFault>(Some(zone@)),
            Ok(None) => zone_of(dir@) == Ok::<Option<ZoneText>, LinuxFault>(None),
            Err(e) => zone_of(dir@) == Err::<Option<ZoneText>, LinuxFault>(e@),
        },
{
    let named = match &dir.file_name {
        Some(name) => is_thermal_zone(name.as_str()),
        None => false,
    };
    if !named {
        return Ok(None);
    }
    let kind = match &dir.kind {
        Ok(kind) => kind,
        Err(text) => {
            return Err(LinuxError::IoError(text.clone()));
        },
    };
    let files = match &dir.files {
        Ok(files) => files,
        Err(text) => {
            return Err(LinuxError::IoError(text.clone()));
        },
    };
    match read_trips(files) {
        Ok((high, crit)) => Ok(
            Some(
                ThermalZoneSensor {
                    path: dir.path.clone(),
                    name: trim(kind.as_str()).to_owned(),
                    last_reading: None,
                    max: 0,
                    high,
                    crit,
                },
            ),
        ),
        Err(e) => Err(e),
    }
}

/// The directories, with their texts as characters.
pub open spec fn zone_dirs_of(dirs: Seq<Result<ZoneDir, String>>) -> Seq<
    Result<ZoneDirText, Seq<char>>,
> {
    Seq::new(
        dirs.len(),
        |i: int|
            match dirs[i] {
                Ok(dir) => Ok(dir@),
                Err(text) => Err(text@),
            },
    )
}

/// The zones, with their texts as characters.
pub open spec fn zones_text(zones: Seq<ThermalZoneSensor>) -> Seq<ZoneText> {
    Seq::new(zones.len(), |i: int| zones[i]@)
}

/// The zones of the directories, in order, or the first error among them.
pub open spec fn zones_of(dirs: Seq<Result<ZoneDirText, Seq<char>>>) -> Result<
    Seq<ZoneText>,
    LinuxFault,
>
    decreases dirs.len(),
{
    if dirs.len() == 0 {
        Ok(Seq::empty())
    } else {
        match zones_of(dirs.drop_last()) {
            Err(fault) => Err(fault),
            Ok(zones) => match dirs.last() {
                Err(text) => Err(LinuxFault::IoError(text)),
                Ok(dir) => match zone_of(dir) {
                    Err(fault) => Err(fault),
                    Ok(Some(zone)) => Ok(zones.push(zone)),
                    Ok(None) => Ok(zones),
                },
            },
        }
    }
}

/// An error among the first directories is the error of them all.
pub proof fn lemma_zones_fail(dirs: Seq<Result<ZoneDirText, Seq<char>>>, k: int)
    requires
        0 <= k <= dirs.len(),
    ensures
        zones_of(dirs.take(k)) matches Err(fault) ==> zones_of(dirs) == Err::<
            Seq<ZoneText>,
            LinuxFault,
        >(fault),
    decreases dirs.len() - k,
{
    if k == dirs.len() {
        assert(dirs.take(k) =~= dirs);
    } else {
        lemma_zones_fail(dirs, k + 1);
        assert(dirs.take(k + 1).drop_last() =~= dirs.take(k));
    }
}

/// The zones of what was read below `/sys/class/thermal`.
#[verifier::loop_isolation(false)]
pub fn get_sensors_from_thermal_zone(listing: &Result<Vec<Result<ZoneDir, String>>, String>) -> (r:
    Result<Vec<ThermalZoneSensor>, LinuxError>)
    ensures
        match *listing {
            Err(text) => r matches Err(e) && e@ == LinuxFault::IoError(text@),
            Ok(dirs) => match r {
                Ok(zones) => zones_of(zone_dirs_of(dirs@)) == Ok::<Seq<ZoneText>, LinuxFault>(
                    zones_text(zones@),
                ),
                Err(e) => zones_of(zone_dirs_of(dirs@)) == Err::<Seq<ZoneText>, LinuxFault>(e@),
            },
        },
{
    let dirs = match listing {
        Ok(dirs) => dirs,
        Err(text) => {
            return Err(LinuxError::IoError(text.clone()));
        },
    };
    let ghost all = zone_dirs_of(dirs@);
    let mut sensors: Vec<ThermalZoneSensor> = Vec::new();
    let mut i: usize = 0;
    assert(all.take(0) =~= Seq::empty());
    assert(zones_text(sensors@) =~= Seq::empty());
    while i < dirs.len()
        invariant
            i <= dirs.len(),
            zones_of(all.take(i as int)) == Ok::<Seq<ZoneText>, LinuxFault>(zones_text(sensors@)),
        decreases dirs.len() - i,
    {
        let ghost before = zones_text(sensors@);
        proof {
            let grown = all.take(i + 1);
            assert(grown.drop_last() =~= all.take(i as int));
            assert(grown.last() == all[i as int]);
            lemma_zones_fail(all, i + 1);
        }
        match &dirs[i] {
            Err(text) => {
                return Err(LinuxError::IoError(text.clone()));
            },
            Ok(dir) => match thermal_zone(dir) {
                Ok(Some(zone)) => {
                    sensors.push(zone);
                    assert(zones_text(sensors@) =~= before.push(zone@));
                },
                Ok(None) => {},
                Err(e) => {
                    return Err(e);
                },
            },
        }
        i += 1;
    }
    assert(all.take(dirs.len() as int) =~= all);
    Ok(sensors)
}

/// A sensor of a Linux host.
#[derive(Debug)]
pub enum LinuxHardwareComponent {
    Hwmon(HwmonSensor),
    ThermalZone(ThermalZoneSensor),
}

/// What was read for one refresh of a sensor.
#[derive(Debug)]
pub enum LinuxSample {
    /// For a chip: the time, the text of the device's `power_state` where
    /// there is such a file, and what was read of the chip's directory.
    Chip { now: u64, power_state: Option<String>, listing: Result<Listing, String> },
    /// For a zone: the text of its `temp`, or why it could not be read.
    Zone(Result<String, String>),
}

/// Whether `r` is success, or the text of the error, that `want` names.
pub open spec fn told(r: Result<(), String>, want: Result<(), LinuxFault>) -> bool {
    match r {
        Ok(_) => want is Ok,
        Err(text) => want matches Err(fault) && text@ == fault.text(),
    }
}

impl ZoneText {
    /// The reading that the zone shows, where it has been read.
    pub open spec fn reading(self) -> Option<Reading> {
        match self.last_reading {
            Some(temperature) => Some(
                Reading {
                    name: self.name,
                    temperature,
                    max: self.max,
                    high: self.high,
                    crit: self.crit,
                },
            ),
            None => None,
        }
    }

    /// What reading the zone from `content` gives: the zone after it, and the
    /// error if there is one, which changes nothing.
    pub open spec fn taken(self, content: Result<Seq<char>, Seq<char>>) -> (
        ZoneText,
        Result<(), LinuxFault>,
    ) {
        match content {
            Ok(text) => match temperature_in(text) {
                Ok(n) => (ZoneText { last_reading: Some(n), ..self }, Ok(())),
                Err(fault) => (self, Err(fault)),
            },
            Err(text) => (self, Err(LinuxFault::IoError(text))),
        }
    }
}

/// The readings as they are shown.
pub open spec fn shown_all(readings: Seq<Reading>) -> Seq<Shown> {
    Seq::new(readings.len(), |i: int| readings[i].shown())
}

/// The text of a mismatch of sensor and sample.
pub open spec fn mismatch_text() -> Seq<char> {
    "the sample is of another kind of sensor"@
}

fn in_text(r: Result<(), LinuxError>) -> (out: Result<(), String>)
    ensures
        match r {
            Ok(_) => out is Ok,
            Err(e) => out matches Err(text) && text@ == e@.text(),
        },
{
    match r {
        Ok(_) => Ok(()),
        Err(e) => Err(e.message()),
    }
}

impl Component for LinuxHardwareComponent {
    type TemperatureReading = TemperatureReading;

    type Sample = LinuxSample;

    /// A chip without a name goes by `Unknown`.
    open spec fn label_text(&self) -> Seq<char> {
        match self {
            LinuxHardwareComponent::Hwmon(chip) => match chip.name {
                Some(name) => name@,
                None => "Unknown"@,
            },
            LinuxHardwareComponent::ThermalZone(zone) => zone.name@,
        }
    }

    open spec fn kind(&self) -> ComponentType {
        ComponentType::Cpu
    }

    open spec fn readings(&self) -> Seq<Shown> {
        match self {
            LinuxHardwareComponent::Hwmon(chip) => shown_all(chip@.readings),
            LinuxHardwareComponent::ThermalZone(zone) => match zone@.reading() {
                Some(reading) => seq![reading.shown()],
                None => Seq::empty(),
            },
        }
    }

    open spec fn refreshed(
        &self,
        sample: LinuxSample,
        next: LinuxHardwareComponent,
        r: Result<(), String>,
    ) -> bool {
        match (*self, sample) {
            (
                LinuxHardwareComponent::Hwmon(chip),
                LinuxSample::Chip { now, power_state, listing },
            ) => {
                let want = chip@.refreshed(
                    now,
                    text_of(power_state),
                    match listing {
                        Ok(entries) => Ok(listed(entries@)),
                        Err(text) => Err(text@),
                    },
                );
                next matches LinuxHardwareComponent::Hwmon(after) && after@ == want.0 && told(
                    r,
                    want.1,
                )
            },
            (LinuxHardwareComponent::ThermalZone(zone), LinuxSample::Zone(content)) => {
                let want = zone@.taken(read_of(content));
                next matches LinuxHardwareComponent::ThermalZone(after) && after@ == want.0
                    && told(r, want.1)
            },
            _ => next == *self && (r matches Err(text) && text@ == mismatch_text()),
        }
    }

    fn label(&self) -> (r: String) {
        match self {
            LinuxHardwareComponent::Hwmon(chip) => match &chip.name {
                Some(name) => name.clone(),
                None => String::from_str("Unknown"),
            },
            LinuxHardwareComponent::ThermalZone(zone) => zone.name.clone(),
        }
    }

    fn temperatures(&self) -> (r: Vec<TemperatureReading>) {
        let mut out: Vec<TemperatureReading> = Vec::new();
        match self {
            LinuxHardwareComponent::Hwmon(chip) => {
                let mut i: usize = 0;
                while i < chip.readings.len()
                    invariant
                        i <= chip.readings.len(),
                        out@.len() == i,
                        forall|j: int| 0 <= j < i ==> (#[trigger] out@[j])@ == chip.readings@[j]@,
                    decreases chip.readings.len() - i,
                {
                    out.push(chip.readings[i].copy());
                    i += 1;
                }
            },
            LinuxHardwareComponent::ThermalZone(zone) => match zone.last_reading {
                Some(temperature) => {
                    out.push(
                        TemperatureReading {
                            name: zone.name.clone(),
                            temperature,
                            max: zone.max,
                            high: zone.high,
                            crit: zone.crit,
                        },
                    );
                },
                None => {},
            },
        }
        out
    }

    fn component_type(&self) -> (r: ComponentType) {
        ComponentType::Cpu
    }

    fn refresh(&mut self, sample: LinuxSample) -> (r: Result<(), String>) {
        match self {
            LinuxHardwareComponent::Hwmon(chip) => match sample {
                LinuxSample::Chip { now, power_state, listing } => in_text(
                    chip.read_temperatures(now, &power_state, &listing),
                ),
                LinuxSample::Zone(_) => Err(
                    String::from_str("the sample is of another kind of sensor"),
                ),
            },
            LinuxHardwareComponent::ThermalZone(zone) => match sample {
                LinuxSample::Zone(content) => in_text(zone.read_temperature(content)),
                LinuxSample::Chip { .. } => Err(
                    String::from_str("the sample is of another kind of sensor"),
                ),
            },
        }
    }
}

/// The chips as components, in order.
pub open spec fn chips_as_components(chips: Seq<HwmonSensor>) -> Seq<LinuxHardwareComponent> {
    Seq::new(chips.len(), |i: int| LinuxHardwareComponent::Hwmon(chips[i]))
}

/// The zones as components, in order.
pub open spec fn zones_as_components(zones: Seq<ThermalZoneSensor>) -> Seq<LinuxHardwareComponent> {
    Seq::new(zones.len(), |i: int| LinuxHardwareComponent::ThermalZone(zones[i]))
}

/// The components of a host: its chips, and its thermal zones where it has
/// no chip.
pub open spec fn components_of(chips: Seq<HwmonSensor>, zones: Seq<ThermalZoneSensor>) -> Seq<
    LinuxHardwareComponent,
> {
    if chips.len() == 0 {
        zones_as_components(zones)
    } else {
        chips_as_components(chips)
    }
}

/// Whether the thermal zones are looked at: they are where there is no chip.
pub fn needs_thermal_zones(chips: &Vec<HwmonSensor>) -> (r: bool)
    ensures
        r == (chips@.len() == 0),
{
    chips.len() == 0
}

/// The components of a host with these chips and these thermal zones.
pub fn get_temperature_sensors(chips: Vec<HwmonSensor>, zones: Vec<ThermalZoneSensor>) -> (r: Vec<
    LinuxHardwareComponent,
>)
    ensures
        r@ == components_of(chips@, zones@),
{
    let mut out: Vec<LinuxHardwareComponent> = Vec::new();
    if chips.len() == 0 {
        let mut rest = zones;
        let mut back: Vec<ThermalZoneSensor> = Vec::new();
        while rest.len() > 0
            invariant
                rest@.len() + back@.len() == zones@.len(),
                forall|j: int| 0 <= j < rest@.len() ==> rest@[j] == zones@[j],
                forall|j: int|
                    0 <= j < back@.len() ==> back@[j] == zones@[zones@.len() - 1 - j],
            decreases rest.len(),
        {
            let zone = rest.pop().unwrap();
            back.push(zone);
        }
        while back.len() > 0
            invariant
                back@.len() + out@.len() == zones@.len(),
                forall|j: int|
                    0 <= j < back@.len() ==> back@[j] == zones@[zones@.len() - 1 - j],
                forall|j: int|
                    0 <= j < out@.len() ==> out@[j] == LinuxHardwareComponent::ThermalZone(
                        zones@[j],
                    ),
            decreases back.len(),
        {
            let zone = back.pop().unwrap();
            out.push(LinuxHardwareComponent::ThermalZone(zone));
        }
        assert(out@ =~= zones_as_components(zones@));
    } else {
        let mut rest = chips;
        let mut back: Vec<HwmonSensor> = Vec::new();
        while rest.len() > 0
            invariant
                rest@.len() + back@.len() == chips@.len(),
                forall|j: int| 0 <= j < rest@.len() ==> rest@[j] == chips@[j],
                forall|j: int|
                    0 <= j < back@.len() ==> back@[j] == chips@[chips@.len() - 1 - j],
            decreases rest.len(),
        {
            let chip = rest.pop().unwrap();
            back.push(chip);
        }
        while back.len() > 0
            invariant
                back@.len() + out@.len() == chips@.len(),
                forall|j: int|
                    0 <= j < back@.len() ==> back@[j] == chips@[chips@.len() - 1 - j],
                forall|j: int|
                    0 <= j < out@.len() ==> out@[j] == LinuxHardwareComponent::Hwmon(chips@[j]),
            decreases back.len(),
        {
            let chip = back.pop().unwrap();
            out.push(LinuxHardwareComponent::Hwmon(chip));
        }
        assert(out@ =~= chips_as_components(chips@));
    }
    out
}

/// The components of a Linux host.
#[derive(Debug)]
pub struct LinuxComponents {
    pub sensors: Vec<LinuxHardwareComponent>,
    pub names: SystemNames,
}

impl LinuxComponents {
    /// The components of a host with these chips and, for a host without a
    /// chip, these thermal zones.
    pub fn new(chips: Vec<HwmonSensor>, zones: Vec<ThermalZoneSensor>, names: SystemNames) -> (r:
        LinuxComponents)
        ensures
            r.sensors@ == components_of(chips@, zones@),
            r.names == names,
    {
        LinuxComponents { sensors: get_temperature_sensors(chips, zones), names }
    }

    /// Whether refreshing the sensor at `at` with `sample` leads to `next`
    /// with the result `r`: the sensor takes the sample, nothing else
    /// changes, and the result is the index of the sensor to refresh after
    /// it, or the error that ends the pass.
    pub open spec fn refreshed(
        self,
        at: usize,
        sample: LinuxSample,
        next: LinuxComponents,
        r: Result<Option<usize>, String>,
    ) -> bool {
        &&& next.names == self.names
        &&& next.sensors@.len() == self.sensors@.len()
        &&& forall|i: int|
            0 <= i < self.sensors@.len() && i != at ==> next.sensors@[i] == self.sensors@[i]
        &&& match r {
            Ok(then) => self.sensors@[at as int].refreshed(
                sample,
                next.sensors@[at as int],
                Ok(()),
            ) && then == (if at + 1 < self.sensors@.len() {
                Some((at + 1) as usize)
            } else {
                None
            }),
            Err(text) => self.sensors@[at as int].refreshed(
                sample,
                next.sensors@[at as int],
                Err(text),
            ),
        }
    }
}

impl Interface for LinuxComponents {
    type Component = LinuxHardwareComponent;

    open spec fn thermal(&self) -> Seq<LinuxHardwareComponent> {
        self.sensors@
    }

    open spec fn places(&self) -> nat {
        self.sensors@.len()
    }

    open spec fn stepped(
        &self,
        at: usize,
        sample: LinuxSample,
        next: LinuxComponents,
        r: Result<Option<usize>, String>,
    ) -> bool {
        self.refreshed(at, sample, next, r)
    }

    /// Refreshes the sensor at `at` with what was read for it.
    fn refresh(&mut self, at: usize, sample: LinuxSample) -> (r: Result<Option<usize>, String>) {
        let mut sensor = self.sensors.remove(at);
        let done = sensor.refresh(sample);
        self.sensors.insert(at, sensor);
        assert(at < self.sensors.len());
        match done {
            Ok(_) => {
                if at + 1 < self.sensors.len() {
                    Ok(Some(at + 1))
                } else {
                    Ok(None)
                }
            },
            Err(text) => Err(text),
        }
    }

    fn thermal_components(&self) -> (r: Vec<&LinuxHardwareComponent>) {
        let mut out: Vec<&LinuxHardwareComponent> = Vec::new();
        let mut i: usize = 0;
        while i < self.sensors.len()
            invariant
                i <= self.sensors.len(),
                out@.len() == i,
                forall|j: int| 0 <= j < i ==> *out@[j] == self.sensors@[j],
            decreases self.sensors.len() - i,
        {
            out.push(&self.sensors[i]);
            i += 1;
        }
        assert(crate::pointed(out@) =~= self.sensors@);
        out
    }

    open spec fn names(&self) -> SystemNames {
        self.names
    }

    fn os_name(&self) -> (r: String) {
        self.names.os_name.clone()
    }

    fn cpu_name(&self) -> (r: String) {
        self.names.cpu_name.clone()
    }

    fn device_model_name(&self) -> (r: String) {
        self.names.model_name.clone()
    }
}

} // verus!
