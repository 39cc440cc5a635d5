//! A `hwmon` chip: when it is read, and what a listing of its directory gives.

use crate::linux::{
    gives, read_temperature, read_threshold, temperature_in, threshold_in, HwmonSensorType,
    LinuxError, LinuxFault, Reading, TemperatureReading, DEFAULT_CRITICAL, DEFAULT_HIGH,
};
use crate::text::{
    ends_with, has_prefix, has_suffix, lemma_position, position, replace, replaced, same,
    starts_with, trim, trimmed,
};
use vstd::prelude::*;
use vstd::string::*;

verus! {

/// What was read of one entry of a chip's directory. The texts besides the
/// name count only where the name is that of a temperature input; they are
/// those of the files that `companion` names.
#[derive(Debug)]
pub struct HwmonEntry {
    /// The entry's name, where it is text.
    pub file_name: Option<String>,
    /// The text of the entry itself, or why it could not be read.
    pub input: Result<String, String>,
    /// The text of the file `label`, where it could be read.
    pub label: Option<String>,
    /// The text of the file `highest`, where it could be read.
    pub highest: Option<String>,
    /// The text of the file `max`, where it could be read.
    pub max: Option<String>,
    /// The text of the file `crit`, where it could be read.
    pub crit: Option<String>,
}

/// An optional text as characters.
pub open spec fn text_of(s: Option<String>) -> Option<Seq<char>> {
    match s {
        Some(text) => Some(text@),
        None => None,
    }
}

/// A text or an error's text as characters.
pub open spec fn read_of(s: Result<String, String>) -> Result<Seq<char>, Seq<char>> {
    match s {
        Ok(text) => Ok(text@),
        Err(text) => Err(text@),
    }
}

/// An entry, with its texts as characters.
pub struct EntryText {
    pub file_name: Option<Seq<char>>,
    pub input: Result<Seq<char>, Seq<char>>,
    pub label: Option<Seq<char>>,
    pub highest: Option<Seq<char>>,
    pub max: Option<Seq<char>>,
    pub crit: Option<Seq<char>>,
}

impl View for HwmonEntry {
    type V = EntryText;

    open spec fn view(&self) -> EntryText {
        EntryText {
            file_name: text_of(self.file_name),
            input: read_of(self.input),
            label: text_of(self.label),
            highest: text_of(self.highest),
            max: text_of(self.max),
            crit: text_of(self.crit),
        }
    }
}

/// The listing of a chip's directory: each entry, or why it could not be had.
pub type Listing = Vec<Result<HwmonEntry, String>>;

/// A listing, with its texts as characters.
pub open spec fn listed(listing: Seq<Result<HwmonEntry, String>>) -> Seq<Result<EntryText, Seq<char>>> {
    Seq::new(
        listing.len(),
        |i: int|
            match listing[i] {
                Ok(entry) => Ok(entry@),
                Err(text) => Err(text@),
            },
    )
}

/// Whether a file of this name holds a temperature.
pub open spec fn is_input(name: Seq<char>) -> bool {
    has_prefix(name, "temp"@) && has_suffix(name, "_input"@)
}

/// The name of the file that tells `field` of the input `name`.
pub open spec fn companion_of(name: Seq<char>, field: Seq<char>) -> Seq<char> {
    replaced(name, "_input"@, "_"@ + field)
}

/// Whether a file of this name holds a temperature.
pub fn is_temperature_input(name: &str) -> (r: bool)
    ensures
        r == is_input(name@),
{
    starts_with(name, "temp") && ends_with(name, "_input")
}

/// The name of the file that tells `field` of the input `name`.
pub fn companion(name: &str, field: &str) -> (r: String)
    ensures
        r@ == companion_of(name@, field@),
{
    let mut to = String::from_str("_");
    to.append(field);
    replace(name, "_input", to.as_str())
}

/// The label of a reading: the chip's name and the sensor's label with `: `
/// between them, the one of the two that there is, or `Unknown`.
pub open spec fn label_of(chip: Option<Seq<char>>, label: Option<Seq<char>>) -> Seq<char> {
    match (chip, label) {
        (Some(name), Some(text)) => name + ": "@ + text,
        (Some(name), None) => name,
        (None, Some(text)) => text,
        (None, None) => "Unknown"@,
    }
}

/// The label of a reading.
pub fn reading_label(chip: &Option<String>, label: &Option<String>) -> (r: String)
    ensures
        r@ == label_of(text_of(*chip), text_of(*label)),
{
    match chip {
        Some(name) => match label {
            Some(text) => {
                let mut r = name.clone();
                r.append(": ");
                r.append(text.as_str());
                r
            },
            None => name.clone(),
        },
        None => match label {
            Some(text) => text.clone(),
            None => String::from_str("Unknown"),
        },
    }
}

/// What an entry gives: nothing where it is no temperature input, a reading,
/// or the error that ends the scan.
pub open spec fn entry_reading(chip: Option<Seq<char>>, entry: EntryText) -> Result<
    Option<Reading>,
    LinuxFault,
> {
    match entry.file_name {
        None => Err(LinuxFault::InvalidData("hwmon sensor had a non-ascii device filename"@)),
        Some(name) => if !is_input(name) {
            Ok(None)
        } else {
            match entry.input {
                Err(text) => Err(LinuxFault::IoError(text)),
                Ok(content) => match temperature_in(content) {
                    Err(fault) => Err(fault),
                    Ok(temperature) => Ok(
                        Some(
                            Reading {
                                name: label_of(chip, entry.label),
                                temperature,
                                max: threshold_in(entry.highest, 0),
                                high: threshold_in(entry.max, DEFAULT_HIGH),
                                crit: threshold_in(entry.crit, DEFAULT_CRITICAL),
                            },
                        ),
                    ),
                },
            }
        },
    }
}

/// The names of the readings, in order.
pub open spec fn names_of(readings: Seq<Reading>) -> Seq<Seq<char>> {
    Seq::new(readings.len(), |i: int| readings[i].name)
}

/// `readings` with `reading` in the place of the first of its name, or at the
/// end where none has its name.
pub open spec fn upserted(readings: Seq<Reading>, reading: Reading) -> Seq<Reading> {
    let at = position(names_of(readings), reading.name);
    if at < readings.len() {
        readings.update(at as int, reading)
    } else {
        readings.push(reading)
    }
}

/// What going through a listing gives: the readings after it, each entry's
/// reading put in by its name, and the first error if there is one, at which
/// the scan stops with what it had put in before.
pub open spec fn scanned(
    readings: Seq<Reading>,
    chip: Option<Seq<char>>,
    listing: Seq<Result<EntryText, Seq<char>>>,
) -> (Seq<Reading>, Result<(), LinuxFault>)
    decreases listing.len(),
{
    if listing.len() == 0 {
        (readings, Ok(()))
    } else {
        match listing[0] {
            Err(text) => (readings, Err(LinuxFault::IoError(text))),
            Ok(entry) => match entry_reading(chip, entry) {
                Err(fault) => (readings, Err(fault)),
                Ok(None) => scanned(readings, chip, listing.skip(1)),
                Ok(Some(reading)) => scanned(upserted(readings, reading), chip, listing.skip(1)),
            },
        }
    }
}

/// The readings, with their names as characters.
pub open spec fn readings_of(readings: Seq<TemperatureReading>) -> Seq<Reading> {
    Seq::new(readings.len(), |i: int| readings[i]@)
}

/// A `hwmon` chip.
#[derive(Debug)]
pub struct HwmonSensor {
    /// The directory of the chip's files.
    pub path: String,
    /// The directory of the chip's device, where its power state is told.
    pub device_path: String,
    /// The chip's name, where it tells one.
    pub name: Option<String>,
    /// The least time between two scans, in milliseconds.
    pub update_interval: u64,
    /// When the chip was made or last scanned, in milliseconds of a clock
    /// that does not go back.
    pub last_update: u64,
    /// The readings of the last scans, one of each name.
    pub readings: Vec<TemperatureReading>,
    pub sensor_type: HwmonSensorType,
    /// Whether the chip has been scanned.
    pub wait: bool,
}

/// A chip, with its texts as characters.
pub struct ChipText {
    pub path: Seq<char>,
    pub device_path: Seq<char>,
    pub name: Option<Seq<char>>,
    pub update_interval: u64,
    pub last_update: u64,
    pub readings: Seq<Reading>,
    pub sensor_type: HwmonSensorType,
    pub wait: bool,
}

impl View for HwmonSensor {
    type V = ChipText;

    open spec fn view(&self) -> ChipText {
        ChipText {
            path: self.path@,
            device_path: self.device_path@,
            name: text_of(self.name),
            update_interval: self.update_interval,
            last_update: self.last_update,
            readings: readings_of(self.readings@),
            sensor_type: self.sensor_type,
            wait: self.wait,
        }
    }
}

/// Whether a device in the power state that the text tells is read: one in
/// `D0`, or in a state not known, white space aside. A device that tells no
/// power state is read.
pub open spec fn power_allows(power_state: Option<Seq<char>>) -> bool {
    match power_state {
        None => true,
        Some(text) => trimmed(text) == "D0"@ || trimmed(text) == "unknown"@,
    }
}

impl ChipText {
    /// The time gone by at `now` since the chip was made or last scanned:
    /// none where `now` lies before that.
    pub open spec fn elapsed(self, now: u64) -> u64 {
        if now >= self.last_update {
            (now - self.last_update) as u64
        } else {
            0
        }
    }

    /// Whether the chip was scanned, and less than its interval has gone by
    /// since.
    pub open spec fn rate_limited(self, now: u64) -> bool {
        self.wait && self.elapsed(now) < self.update_interval
    }

    /// Whether the chip is scanned at `now`.
    pub open spec fn should_read(self, now: u64, power_state: Option<Seq<char>>) -> bool {
        !self.rate_limited(now) && power_allows(power_state)
    }

    /// What reading the chip at `now` gives: the chip after it, and the error
    /// if there is one. A chip that is not to be read stays as it is. A
    /// listing gone through to its end marks the chip as scanned at `now`; an
    /// error leaves what was put in before it.
    pub open spec fn refreshed(
        self,
        now: u64,
        power_state: Option<Seq<char>>,
        listing: Result<Seq<Result<EntryText, Seq<char>>>, Seq<char>>,
    ) -> (ChipText, Result<(), LinuxFault>) {
        if !self.should_read(now, power_state) {
            (self, Ok(()))
        } else {
            match listing {
                Err(text) => (self, Err(LinuxFault::IoError(text))),
                Ok(entries) => {
                    let (readings, result) = scanned(self.readings, self.name, entries);
                    match result {
                        Ok(_) => (
                            ChipText { readings, last_update: now, wait: true, ..self },
                            Ok(()),
                        ),
                        Err(fault) => (ChipText { readings, ..self }, Err(fault)),
                    }
                },
            }
        }
    }
}

/// Whether `r` is success, or an error with the text, that `want` names.
pub open spec fn done(r: Result<(), LinuxError>, want: Result<(), LinuxFault>) -> bool {
    match r {
        Ok(_) => want is Ok,
        Err(e) => want == Err::<(), LinuxFault>(e@),
    }
}

impl HwmonSensor {
    /// A chip not yet scanned.
    pub fn new(
        path: String,
        device_path: String,
        name: Option<String>,
        update_interval: u64,
        sensor_type: HwmonSensorType,
        now: u64,
    ) -> (r: HwmonSensor)
        ensures
            r@ == (ChipText {
                path: path@,
                device_path: device_path@,
                name: text_of(name),
                update_interval,
                last_update: now,
                readings: Seq::empty(),
                sensor_type,
                wait: false,
            }),
    {
        let r = HwmonSensor {
            path,
            device_path,
            name,
            update_interval,
            sensor_type,
            last_update: now,
            wait: false,
            readings: Vec::new(),
        };
        assert(r@.readings =~= Seq::empty());
        r
    }

    /// Whether the chip was scanned less than its interval before `now`, so
    /// that nothing of it is to be read.
    pub fn rate_limited(&self, now: u64) -> (r: bool)
        ensures
            r == self@.rate_limited(now),
    {
        let elapsed: u64 = if now >= self.last_update {
            now - self.last_update
        } else {
            0
        };
        self.wait && elapsed < self.update_interval
    }

    /// Whether the chip is scanned at `now`, given the text of its device's
    /// `power_state` where there is such a file.
    pub fn should_read(&self, now: u64, power_state: &Option<String>) -> (r: bool)
        ensures
            r == self@.should_read(now, text_of(*power_state)),
    {
        if self.rate_limited(now) {
            return false;
        }
        match power_state {
            None => true,
            Some(text) => {
                let state = trim(text.as_str());
                same(state, "D0") || same(state, "unknown")
            },
        }
    }

    /// Puts `reading` in the place of the reading of its name, or at the end.
    fn upsert(&mut self, reading: TemperatureReading)
        ensures
            final(self)@ == (ChipText {
                readings: upserted(old(self)@.readings, reading@),
                ..old(self)@
            }),
    {
        let ghost before = self@.readings;
        let ghost names = names_of(before);
        let mut i: usize = 0;
        while i < self.readings.len()
            invariant
                i <= self.readings.len(),
                self@ == old(self)@,
                before == self@.readings,
                names == names_of(before),
                forall|j: int| 0 <= j < i ==> #[trigger] names[j] != reading@.name,
            decreases self.readings.len() - i,
        {
            if same(self.readings[i].name.as_str(), reading.name.as_str()) {
                proof {
                    assert(names[i as int] == reading@.name);
                    lemma_position(names, reading@.name, i as int);
                }
                self.readings.set(i, reading);
                assert(self@.readings =~= before.update(i as int, reading@));
                return ;
            }
            assert(names[i as int] == before[i as int].name);
            i += 1;
        }
        proof {
            lemma_position(names, reading@.name, names.len() as int);
        }
        self.readings.push(reading);
        assert(self@.readings =~= before.push(reading@));
    }

    /// What one entry gives.
    fn read_entry(chip: &Option<String>, entry: &HwmonEntry) -> (r: Result<
        Option<TemperatureReading>,
        LinuxError,
    >)
        ensures
            match r {
                Ok(Some(reading)) => entry_reading(text_of(*chip), entry@) == Ok::<
                    Option<Reading>,
                    LinuxFault,
                >(Some(reading@)),
                Ok(None) => entry_reading(text_of(*chip), entry@) == Ok::<
                    Option<Reading>,
                    LinuxFault,
                >(None),
                Err(e) => entry_reading(text_of(*chip), entry@) == Err::<
                    Option<Reading>,
                    LinuxFault,
                >(e@),
            },
    {
        let name = match &entry.file_name {
            Some(name) => name,
            None => {
                return Err(
                    LinuxError::InvalidData(
                        String::from_str("hwmon sensor had a non-ascii device filename"),
                    ),
                );
            },
        };
        if !is_temperature_input(name.as_str()) {
            return Ok(None);
        }
        let content = match &entry.input {
            Ok(content) => content,
            Err(text) => {
                return Err(LinuxError::IoError(text.clone()));
            },
        };
        let temperature = match read_temperature(content.as_str()) {
            Ok(t) => t,
            Err(e) => {
                return Err(e);
            },
        };
        Ok(
            Some(
                TemperatureReading {
                    name: reading_label(chip, &entry.label),
                    temperature,
                    max: read_threshold(&entry.highest, 0),
                    high: read_threshold(&entry.max, DEFAULT_HIGH),
                    crit: read_threshold(&entry.crit, DEFAULT_CRITICAL),
                },
            ),
        )
    }

    /// Reads the chip at `now`: `power_state` is the text of the device's
    /// `power_state` where there is such a file, `listing` what was read of
    /// the chip's directory.
    #[verifier::loop_isolation(false)]
    pub fn read_temperatures(
        &mut self,
        now: u64,
        power_state: &Option<String>,
        listing: &Result<Listing, String>,
    ) -> (r: Result<(), LinuxError>)
        ensures
            final(self)@ == old(self)@.refreshed(
                now,
                text_of(*power_state),
                match *listing {
                    Ok(entries) => Ok(listed(entries@)),
                    Err(text) => Err(text@),
                },
            ).0,
            done(
                r,
                old(self)@.refreshed(
                    now,
                    text_of(*power_state),
                    match *listing {
                        Ok(entries) => Ok(listed(entries@)),
                        Err(text) => Err(text@),
                    },
                ).1,
            ),
    {
        if !self.should_read(now, power_state) {
            return Ok(());
        }
        let entries = match listing {
            Ok(entries) => entries,
            Err(text) => {
                return Err(LinuxError::IoError(text.clone()));
            },
        };
        let ghost all = listed(entries@);
        let ghost chip = text_of(self.name);
        let ghost start = self@;
        let mut i: usize = 0;
        assert(all.skip(0) =~= all);
        while i < entries.len()
            invariant
                i <= entries.len(),
                all == listed(entries@),
                chip == text_of(self.name),
                self@ == (ChipText { readings: self@.readings, ..start }),
                scanned(self@.readings, chip, all.skip(i as int)) == scanned(
                    start.readings,
                    chip,
                    all,
                ),
            decreases entries.len() - i,
        {
            let ghost rest = all.skip(i as int);
            assert(rest[0] == all[i as int]);
            assert(rest.skip(1) =~= all.skip(i + 1));
            match &entries[i] {
                Err(text) => {
                    return Err(LinuxError::IoError(text.clone()));
                },
                Ok(entry) => match HwmonSensor::read_entry(&self.name, entry) {
                    Err(e) => {
                        return Err(e);
                    },
                    Ok(None) => {},
                    Ok(Some(reading)) => {
                        self.upsert(reading);
                    },
                },
            }
            i += 1;
        }
        self.last_update = now;
        self.wait = true;
        Ok(())
    }
}

/// A chip scanned at some time is not scanned again before its interval is
/// over: a reading within the interval, or at a time before the scan, leaves
/// the chip as it is, whatever is listed, and is no error.
pub proof fn law_rate_limit(
    chip: ChipText,
    now: u64,
    power_state: Option<Seq<char>>,
    listing: Result<Seq<Result<EntryText, Seq<char>>>, Seq<char>>,
)
    requires
        chip.wait,
        chip.elapsed(now) < chip.update_interval,
    ensures
        chip.refreshed(now, power_state, listing) == (chip, Ok::<(), LinuxFault>(())),
{
}

/// A listing gone through to its end leaves the chip scanned at that time.
pub proof fn law_scan_marks(
    chip: ChipText,
    now: u64,
    power_state: Option<Seq<char>>,
    listing: Result<Seq<Result<EntryText, Seq<char>>>, Seq<char>>,
)
    requires
        chip.should_read(now, power_state),
        chip.refreshed(now, power_state, listing).1 is Ok,
    ensures
        chip.refreshed(now, power_state, listing).0.wait,
        chip.refreshed(now, power_state, listing).0.last_update == now,
{
}

/// Whether no two of the readings have one name.
pub open spec fn distinct_names(readings: Seq<Reading>) -> bool {
    forall|i: int, j: int|
        0 <= i < j < readings.len() ==> (#[trigger] readings[i]).name != (
        #[trigger] readings[j]).name
}

/// Putting a reading in by its name leaves the names distinct, the readings
/// in their places, and adds at most one at the end.
pub proof fn law_upsert_keeps_names_distinct(readings: Seq<Reading>, reading: Reading)
    requires
        distinct_names(readings),
    ensures
        distinct_names(upserted(readings, reading)),
        readings.len() <= upserted(readings, reading).len() <= readings.len() + 1,
        forall|i: int|
            0 <= i < readings.len() ==> #[trigger] upserted(readings, reading)[i].name
                == readings[i].name,
        exists|i: int|
            0 <= i < upserted(readings, reading).len() && upserted(readings, reading)[i]
                == reading,
{
    let names = names_of(readings);
    let at = position(names, reading.name) as int;
    crate::text::lemma_position_shape(names, reading.name);
    let after = upserted(readings, reading);
    if at < readings.len() {
        assert(names[at] == readings[at].name);
        assert(after[at] == reading);
        assert forall|i: int, j: int| 0 <= i < j < after.len() implies (#[trigger] after[i]).name
            != (#[trigger] after[j]).name by {
            assert(after[i].name == readings[i].name);
            assert(after[j].name == readings[j].name);
        }
    } else {
        assert(after[readings.len() as int] == reading);
        assert forall|i: int, j: int| 0 <= i < j < after.len() implies (#[trigger] after[i]).name
            != (#[trigger] after[j]).name by {
            if j == readings.len() {
                assert(names[i] == readings[i].name);
            }
        }
    }
}

/// Going through a listing leaves the names of the readings distinct.
pub proof fn law_scan_keeps_names_distinct(
    readings: Seq<Reading>,
    chip: Option<Seq<char>>,
    listing: Seq<Result<EntryText, Seq<char>>>,
)
    requires
        distinct_names(readings),
    ensures
        distinct_names(scanned(readings, chip, listing).0),
    decreases listing.len(),
{
    if listing.len() > 0 {
        match listing[0] {
            Err(_) => {},
            Ok(entry) => match entry_reading(chip, entry) {
                Err(_) => {},
                Ok(None) => {
                    law_scan_keeps_names_distinct(readings, chip, listing.skip(1));
                },
                Ok(Some(reading)) => {
                    law_upsert_keeps_names_distinct(readings, reading);
                    law_scan_keeps_names_distinct(
                        upserted(readings, reading),
                        chip,
                        listing.skip(1),
                    );
                },
            },
        }
    }
}

/// A chip keeps one reading of each name, whatever it is refreshed with.
pub proof fn law_refresh_keeps_names_distinct(
    chip: ChipText,
    now: u64,
    power_state: Option<Seq<char>>,
    listing: Result<Seq<Result<EntryText, Seq<char>>>, Seq<char>>,
)
    requires
        distinct_names(chip.readings),
    ensures
        distinct_names(chip.refreshed(now, power_state, listing).0.readings),
{
    match listing {
        Ok(entries) => {
            law_scan_keeps_names_distinct(chip.readings, chip.name, entries);
        },
        Err(_) => {},
    }
}

} // verus!
