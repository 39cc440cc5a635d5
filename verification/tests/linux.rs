use tmt_core::hwmon::{companion, is_temperature_input, reading_label, HwmonEntry, HwmonSensor};
use tmt_core::linux::{
    join, read_number, read_temperature, read_threshold, HwmonSensorType, LinuxError,
    TemperatureReading, ThermalZoneSensor,
};
use tmt_core::sysfs::{
    files_dir, get_sensors_from_hwmon, get_sensors_from_thermal_zone, get_temperature_sensors,
    hwmon_sensor, is_thermal_zone, is_trip_point, needs_thermal_zones, thermal_zone,
    trip_kind_file, HwmonDir, LinuxComponents, LinuxHardwareComponent, LinuxSample, ZoneDir,
    ZoneFile,
};
use tmt_core::{Component, ComponentType, Interface, SystemNames, TemperatureReading as Shows};

fn text(s: &str) -> Option<String> {
    Some(s.to_string())
}

fn entry(name: &str, input: &str) -> HwmonEntry {
    HwmonEntry {
        file_name: text(name),
        input: Ok(input.to_string()),
        label: None,
        highest: None,
        max: None,
        crit: None,
    }
}

fn chip(name: Option<&str>, interval: u64) -> HwmonSensor {
    HwmonSensor::new(
        "/sys/class/hwmon/hwmon0".to_string(),
        "/sys/class/hwmon/hwmon0/device".to_string(),
        name.map(|n| n.to_string()),
        interval,
        HwmonSensorType::CpuDiode,
        1000,
    )
}

fn shown(r: &TemperatureReading) -> (&str, u32, u32, u32, u32) {
    (r.name.as_str(), r.temperature, r.max, r.high, r.crit)
}

fn message(e: LinuxError) -> String {
    e.message()
}

fn names() -> SystemNames {
    SystemNames {
        os_name: "Debian GNU/Linux 12 (bookworm)".to_string(),
        cpu_name: "AMD Ryzen 7".to_string(),
        model_name: "B550".to_string(),
    }
}

#[test]
fn sensor_types_are_read_from_their_numbers() {
    assert_eq!(HwmonSensorType::from_str("1"), Some(HwmonSensorType::CpuDiode));
    assert_eq!(HwmonSensorType::from_str("2\n"), Some(HwmonSensorType::Transistor));
    assert_eq!(HwmonSensorType::from_str(" 3 "), Some(HwmonSensorType::ThermalDiode));
    assert_eq!(HwmonSensorType::from_str("4"), Some(HwmonSensorType::Thermistor));
    assert_eq!(HwmonSensorType::from_str("5"), Some(HwmonSensorType::Amdsi));
    assert_eq!(HwmonSensorType::from_str("6"), Some(HwmonSensorType::Peci));
    assert_eq!(HwmonSensorType::from_str("0"), None);
    assert_eq!(HwmonSensorType::from_str("7"), None);
    assert_eq!(HwmonSensorType::from_str("01"), None);
    assert_eq!(HwmonSensorType::from_str(""), None);
}

#[test]
fn temperatures_are_numbers_in_texts() {
    assert_eq!(read_number("45000\n"), Some(45000));
    assert_eq!(read_number(" 0 "), Some(0));
    assert_eq!(read_number("-5"), None);
    assert_eq!(read_temperature("45000\n").ok(), Some(45000));
    assert_eq!(
        read_temperature("n/a\n").map_err(message),
        Err("invalid data: read invalid temperature n/a\n".to_string())
    );
    assert_eq!(
        read_temperature("").map_err(message),
        Err("invalid data: read invalid temperature ".to_string())
    );
    assert_eq!(read_threshold(&text("90000\n"), 85_000), 90_000);
    assert_eq!(read_threshold(&text("high"), 85_000), 85_000);
    assert_eq!(read_threshold(&None, 100_000), 100_000);
    assert_eq!(message(LinuxError::IoError("gone".to_string())), "io error: gone");
}

#[test]
fn file_names_are_sorted_and_derived() {
    assert!(is_temperature_input("temp1_input"));
    assert!(is_temperature_input("temp12_input"));
    assert!(!is_temperature_input("temp1_label"));
    assert!(!is_temperature_input("fan1_input"));
    assert!(!is_temperature_input("name"));
    assert_eq!(companion("temp1_input", "label"), "temp1_label");
    assert_eq!(companion("temp3_input", "highest"), "temp3_highest");
    assert_eq!(companion("temp3_input", "max"), "temp3_max");
    assert_eq!(companion("temp3_input", "crit"), "temp3_crit");
    assert!(is_thermal_zone("thermal_zone0"));
    assert!(is_thermal_zone("thermal_zone"));
    assert!(!is_thermal_zone("cooling_device0"));
    assert!(!is_thermal_zone("thermal"));
    assert!(is_trip_point("trip_point_0_temp"));
    assert!(!is_trip_point("trip_point_0_type"));
    assert!(!is_trip_point("temp"));
    assert_eq!(trip_kind_file("trip_point_0_temp"), "trip_point_0_type");
    assert_eq!(join("/sys/class/hwmon/hwmon0", "device"), "/sys/class/hwmon/hwmon0/device");
    assert_eq!(join("/sys/", "x"), "/sys/x");
    assert_eq!(join("", "x"), "x");
    assert_eq!(reading_label(&text("coretemp"), &text("Core 0")), "coretemp: Core 0");
    assert_eq!(reading_label(&text("coretemp"), &None), "coretemp");
    assert_eq!(reading_label(&None, &text("Core 0")), "Core 0");
    assert_eq!(reading_label(&None, &None), "Unknown");
}

#[test]
fn a_chip_is_scanned_once_within_its_interval() {
    let mut sensor = chip(Some("k10temp"), 500);
    assert!(!sensor.rate_limited(1000));
    assert!(sensor.should_read(1000, &None));
    let first = Ok(vec![Ok(entry("temp1_input", "41000\n"))]);
    assert!(sensor.read_temperatures(1100, &None, &first).is_ok());
    assert_eq!(sensor.readings.len(), 1);
    assert_eq!(shown(&sensor.readings[0]), ("k10temp", 41000, 0, 85_000, 100_000));
    assert!(sensor.wait);
    assert_eq!(sensor.last_update, 1100);
    assert!(sensor.rate_limited(1100));
    assert!(sensor.rate_limited(1599));
    assert!(!sensor.rate_limited(1600));
    assert!(sensor.rate_limited(1099));
    assert!(sensor.rate_limited(0));
    let second = Ok(vec![Ok(entry("temp1_input", "52000\n")), Ok(entry("temp2_input", "bad"))]);
    assert!(sensor.read_temperatures(1400, &None, &second).is_ok());
    assert_eq!(sensor.readings.len(), 1);
    assert_eq!(sensor.readings[0].temperature, 41000);
    assert_eq!(sensor.last_update, 1100);
    let failing: Result<Vec<Result<HwmonEntry, String>>, String> = Err("gone".to_string());
    assert!(sensor.read_temperatures(1400, &None, &failing).is_ok());
    let third = Ok(vec![Ok(entry("temp1_input", "52000\n"))]);
    assert!(sensor.read_temperatures(1600, &None, &third).is_ok());
    assert_eq!(sensor.readings[0].temperature, 52000);
    assert_eq!(sensor.last_update, 1600);
}

#[test]
fn a_chip_without_an_interval_is_always_scanned() {
    let mut sensor = chip(None, 0);
    for (now, value) in [(1000u64, "1\n"), (1000, "2\n"), (1001, "3\n")] {
        let listing = Ok(vec![Ok(entry("temp1_input", value))]);
        assert!(sensor.read_temperatures(now, &None, &listing).is_ok());
        assert_eq!(sensor.readings[0].temperature.to_string() + "\n", value);
    }
    assert_eq!(sensor.readings[0].name, "Unknown");
}

#[test]
fn a_chip_is_not_scanned_in_another_power_state() {
    let mut sensor = chip(None, 0);
    let listing = Ok(vec![Ok(entry("temp1_input", "41000"))]);
    for state in ["D3cold\n", "D3hot", "", "d0", "D1"] {
        assert!(!sensor.should_read(2000, &text(state)));
        assert!(sensor.read_temperatures(2000, &text(state), &listing).is_ok());
        assert!(sensor.readings.is_empty());
        assert!(!sensor.wait);
    }
    for state in ["D0\n", " D0 ", "unknown\n"] {
        assert!(sensor.should_read(2000, &text(state)));
    }
    assert!(sensor.read_temperatures(2000, &text("D0\n"), &listing).is_ok());
    assert_eq!(sensor.readings.len(), 1);
}

#[test]
fn readings_are_kept_by_label() {
    let mut sensor = chip(Some("coretemp\n"), 0);
    let with = |name: &str, input: &str, label: &str| HwmonEntry {
        label: text(label),
        highest: text("70000\n"),
        max: text("80000\n"),
        crit: text("x"),
        ..entry(name, input)
    };
    let listing = Ok(vec![
        Ok(entry("name", "ignored")),
        Ok(with("temp1_input", "40000\n", "Package\n")),
        Ok(with("temp2_input", "41000\n", "Core 0\n")),
        Ok(entry("temp2_max", "ignored")),
        Ok(with("temp3_input", "42000\n", "Core 0\n")),
        Ok(entry("temp4_input", "43000\n")),
    ]);
    assert!(sensor.read_temperatures(5, &None, &listing).is_ok());
    let got: Vec<_> = sensor.readings.iter().map(shown).collect();
    assert_eq!(
        got,
        vec![
            ("coretemp\n: Package\n", 40000, 70000, 80000, 100_000),
            ("coretemp\n: Core 0\n", 42000, 70000, 80000, 100_000),
            ("coretemp\n", 43000, 0, 85_000, 100_000),
        ]
    );
    let again = Ok(vec![Ok(with("temp9_input", "50000\n", "Package\n"))]);
    assert!(sensor.read_temperatures(6, &None, &again).is_ok());
    let got: Vec<_> = sensor.readings.iter().map(|r| r.temperature).collect();
    assert_eq!(got, vec![50000, 42000, 43000]);
}

#[test]
fn a_scan_stops_at_the_first_error_and_keeps_what_it_had() {
    let faults: Vec<(Result<HwmonEntry, String>, &str)> = vec![
        (Err("denied".to_string()), "io error: denied"),
        (
            Ok(HwmonEntry { file_name: None, ..entry("", "") }),
            "invalid data: hwmon sensor had a non-ascii device filename",
        ),
        (
            Ok(HwmonEntry { input: Err("unreadable".to_string()), ..entry("temp2_input", "") }),
            "io error: unreadable",
        ),
        (Ok(entry("temp2_input", "4x\n")), "invalid data: read invalid temperature 4x\n"),
    ];
    for (fault, want) in faults {
        let mut sensor = chip(None, 1000);
        let listing = Ok(vec![
            Ok(entry("temp1_input", "40000\n")),
            fault,
            Ok(entry("temp3_input", "41000\n")),
        ]);
        assert_eq!(sensor.read_temperatures(2000, &None, &listing).map_err(message), Err(want.to_string()));
        assert_eq!(sensor.readings.len(), 1);
        assert_eq!(sensor.readings[0].temperature, 40000);
        assert!(!sensor.wait);
        assert_eq!(sensor.last_update, 1000);
    }
    let mut sensor = chip(None, 1000);
    let gone: Result<Vec<Result<HwmonEntry, String>>, String> = Err("no such directory".to_string());
    assert_eq!(
        sensor.read_temperatures(2000, &None, &gone).map_err(message),
        Err("io error: no such directory".to_string())
    );
    let unread = Ok(vec![Ok(HwmonEntry { input: Err("unreadable".to_string()), ..entry("name", "") })]);
    assert!(sensor.read_temperatures(2000, &None, &unread).is_ok());
    assert!(sensor.wait);
}

fn dir(path: &str, has_input: bool, device_has_input: bool) -> HwmonDir {
    HwmonDir {
        path: path.to_string(),
        has_input,
        device_has_input,
        name: text("nvme\n"),
        update_interval: text("500\n"),
        temp1_type: text("4\n"),
    }
}

#[test]
fn chips_are_made_of_the_directories_with_a_temperature() {
    assert_eq!(files_dir("/h/hwmon0", true, true), text("/h/hwmon0"));
    assert_eq!(files_dir("/h/hwmon0", false, true), text("/h/hwmon0/device"));
    assert_eq!(files_dir("/h/hwmon0", false, false), None);
    let made = hwmon_sensor(&dir("/h/hwmon1", false, true), 77).unwrap();
    assert_eq!(made.path, "/h/hwmon1/device");
    assert_eq!(made.device_path, "/h/hwmon1/device");
    assert_eq!(made.name, text("nvme\n"));
    assert_eq!(made.update_interval, 500);
    assert_eq!(made.sensor_type, HwmonSensorType::Thermistor);
    assert_eq!(made.last_update, 77);
    assert!(!made.wait);
    assert!(made.readings.is_empty());
    assert!(hwmon_sensor(&dir("/h/hwmon2", false, false), 77).is_none());
    let plain = HwmonDir { name: None, update_interval: text("soon"), temp1_type: text("9"), ..dir("/h/hwmon3", true, false) };
    let made = hwmon_sensor(&plain, 0).unwrap();
    assert_eq!((made.path.as_str(), made.name.clone(), made.update_interval), ("/h/hwmon3", None, 0));
    assert_eq!(made.sensor_type, HwmonSensorType::CpuDiode);
    let bare = HwmonDir { update_interval: None, temp1_type: None, ..dir("/h/hwmon4", true, false) };
    let made = hwmon_sensor(&bare, 0).unwrap();
    assert_eq!((made.update_interval, made.sensor_type), (0, HwmonSensorType::CpuDiode));
    let listing = Ok(vec![Ok(dir("/h/hwmon0", true, false)), Ok(dir("/h/hwmon1", false, false)), Ok(dir("/h/hwmon2", false, true))]);
    let chips = get_sensors_from_hwmon(&listing, 5).unwrap();
    let paths: Vec<_> = chips.iter().map(|c| c.path.as_str()).collect();
    assert_eq!(paths, vec!["/h/hwmon0", "/h/hwmon2/device"]);
    let failing = Ok(vec![Ok(dir("/h/hwmon0", true, false)), Err("denied".to_string()), Err("later".to_string())]);
    assert_eq!(get_sensors_from_hwmon(&failing, 5).map_err(message).map(|c| c.len()), Err("io error: denied".to_string()));
    let gone: Result<Vec<Result<HwmonDir, String>>, String> = Err("gone".to_string());
    assert_eq!(get_sensors_from_hwmon(&gone, 5).map_err(message).map(|c| c.len()), Err("io error: gone".to_string()));
    let none = Ok(Vec::new());
    assert!(get_sensors_from_hwmon(&none, 5).unwrap().is_empty());
}

fn trip(name: &str, temp: &str, kind: Option<&str>) -> Result<ZoneFile, String> {
    Ok(ZoneFile { file_name: text(name), temp: Ok(temp.to_string()), kind: kind.map(|k| k.to_string()) })
}

fn zone(name: &str, files: Vec<Result<ZoneFile, String>>) -> ZoneDir {
    ZoneDir {
        file_name: text(name),
        path: format!("/sys/class/thermal/{}", name),
        kind: Ok("x86_pkg_temp\n".to_string()),
        files: Ok(files),
    }
}

#[test]
fn zones_take_their_thresholds_from_trip_points() {
    let plain = thermal_zone(&zone("thermal_zone0", vec![])).unwrap().unwrap();
    assert_eq!(plain.name, "x86_pkg_temp");
    assert_eq!(plain.path, "/sys/class/thermal/thermal_zone0");
    assert_eq!((plain.last_reading, plain.max, plain.high, plain.crit), (None, 0, 85_000, 100_000));
    let files = vec![
        trip("temp", "40000\n", None),
        trip("trip_point_0_temp", "95000\n", Some("critical\n")),
        trip("trip_point_0_type", "critical\n", None),
        trip("trip_point_1_temp", "80000\n", Some(" hot ")),
        trip("trip_point_2_temp", "70000\n", Some("passive\n")),
        trip("trip_point_3_temp", "60000\n", None),
        trip("trip_point_4_temp", "99000\n", Some("critical")),
    ];
    let made = thermal_zone(&zone("thermal_zone1", files)).unwrap().unwrap();
    assert_eq!((made.high, made.crit), (80_000, 99_000));
    assert!(thermal_zone(&zone("cooling_device0", vec![trip("trip_point_0_temp", "x", None)])).unwrap().is_none());
    let unnamed = ZoneDir { file_name: None, ..zone("thermal_zone0", vec![]) };
    assert!(thermal_zone(&unnamed).unwrap().is_none());
}

#[test]
fn zones_fail_on_what_cannot_be_read() {
    let fails = |dir: ZoneDir| thermal_zone(&dir).map_err(message).map(|z| z.is_some());
    let no_type = ZoneDir { kind: Err("no type".to_string()), ..zone("thermal_zone0", vec![]) };
    assert_eq!(fails(no_type), Err("io error: no type".to_string()));
    let no_files = ZoneDir { files: Err("no listing".to_string()), ..zone("thermal_zone0", vec![]) };
    assert_eq!(fails(no_files), Err("io error: no listing".to_string()));
    assert_eq!(
        fails(zone("thermal_zone0", vec![trip("trip_point_0_temp", "80000", Some("hot")), Err("denied".to_string())])),
        Err("io error: denied".to_string())
    );
    let odd = Ok(ZoneFile { file_name: None, temp: Ok(String::new()), kind: None });
    assert_eq!(
        fails(zone("thermal_zone0", vec![odd])),
        Err("invalid data: thermal zone sensor had a non-ascii device filename".to_string())
    );
    let unread = Ok(ZoneFile { file_name: text("trip_point_0_temp"), temp: Err("busy".to_string()), kind: None });
    assert_eq!(fails(zone("thermal_zone0", vec![unread])), Err("io error: busy".to_string()));
    assert_eq!(
        fails(zone("thermal_zone0", vec![trip("trip_point_0_temp", "hot", Some("hot"))])),
        Err("invalid data: read invalid temperature hot".to_string())
    );
    let skipped = Ok(ZoneFile { file_name: text("policy"), temp: Err("busy".to_string()), kind: None });
    assert_eq!(fails(zone("thermal_zone0", vec![skipped])), Ok(true));
    let listing = Ok(vec![
        Ok(zone("cooling_device0", vec![])),
        Ok(zone("thermal_zone0", vec![])),
        Ok(zone("thermal_zone1", vec![])),
    ]);
    let zones = get_sensors_from_thermal_zone(&listing).unwrap();
    assert_eq!(zones.len(), 2);
    assert_eq!(zones[1].path, "/sys/class/thermal/thermal_zone1");
    let failing = Ok(vec![Ok(zone("thermal_zone0", vec![])), Err("denied".to_string())]);
    assert_eq!(
        get_sensors_from_thermal_zone(&failing).map_err(message).map(|z| z.len()),
        Err("io error: denied".to_string())
    );
    let gone: Result<Vec<Result<ZoneDir, String>>, String> = Err("gone".to_string());
    assert_eq!(
        get_sensors_from_thermal_zone(&gone).map_err(message).map(|z| z.len()),
        Err("io error: gone".to_string())
    );
}

fn some_zone(name: &str) -> ThermalZoneSensor {
    ThermalZoneSensor {
        path: format!("/sys/class/thermal/{}", name),
        name: name.to_string(),
        last_reading: None,
        max: 0,
        high: 85_000,
        crit: 100_000,
    }
}

#[test]
fn a_zone_reads_one_temperature() {
    let mut zone = some_zone("acpitz");
    assert!(zone.read_temperature(Ok("47000\n".to_string())).is_ok());
    assert_eq!(zone.last_reading, Some(47000));
    assert_eq!(
        zone.read_temperature(Ok("hot\n".to_string())).map_err(message),
        Err("invalid data: read invalid temperature hot\n".to_string())
    );
    assert_eq!(
        zone.read_temperature(Err("gone".to_string())).map_err(message),
        Err("io error: gone".to_string())
    );
    assert_eq!(zone.last_reading, Some(47000));
}

#[test]
fn zones_stand_in_where_there_is_no_chip() {
    assert!(needs_thermal_zones(&Vec::new()));
    assert!(!needs_thermal_zones(&vec![chip(None, 0)]));
    let both = get_temperature_sensors(
        vec![chip(Some("a"), 0), chip(Some("b"), 0), chip(None, 0)],
        vec![some_zone("z")],
    );
    let labels: Vec<_> = both.iter().map(|c| c.label()).collect();
    assert_eq!(labels, vec!["a", "b", "Unknown"]);
    let only = get_temperature_sensors(Vec::new(), vec![some_zone("y"), some_zone("z")]);
    let labels: Vec<_> = only.iter().map(|c| c.label()).collect();
    assert_eq!(labels, vec!["y", "z"]);
    assert!(get_temperature_sensors(Vec::new(), Vec::new()).is_empty());
}

#[test]
fn components_are_refreshed_with_their_samples() {
    let mut host = LinuxComponents::new(vec![chip(Some("a"), 0), chip(Some("b"), 0)], Vec::new(), names());
    assert_eq!(host.thermal_components().len(), 2);
    assert_eq!(host.thermal_components_by_type(ComponentType::Cpu).len(), 2);
    assert_eq!(host.thermal_components_by_type(ComponentType::Gpu).len(), 0);
    assert_eq!(host.os_name(), "Debian GNU/Linux 12 (bookworm)");
    assert_eq!(host.cpu_name(), "AMD Ryzen 7");
    assert_eq!(host.device_model_name(), "B550");
    let sample = |value: &str| LinuxSample::Chip {
        now: 10,
        power_state: None,
        listing: Ok(vec![Ok(entry("temp1_input", value))]),
    };
    assert_eq!(host.refresh(0, sample("40000")), Ok(Some(1)));
    assert_eq!(host.refresh(1, sample("41000")), Ok(None));
    assert_eq!(host.refresh(1, sample("4 1")), Err("invalid data: read invalid temperature 4 1".to_string()));
    assert_eq!(
        host.refresh(0, LinuxSample::Zone(Ok("1".to_string()))),
        Err("the sample is of another kind of sensor".to_string())
    );
    let components = host.thermal_components();
    assert_eq!(components[0].component_type(), ComponentType::Cpu);
    let readings = components[1].temperatures();
    assert_eq!(readings.len(), 1);
    assert_eq!(readings[0].label(), "b");
    assert_eq!((readings[0].temperature().units, readings[0].temperature().per_degree), (41000, 1000));
    assert_eq!(readings[0].temperature().units as f64 / readings[0].temperature().per_degree as f64, 41.0);
    assert_eq!((readings[0].max().units, readings[0].high().units, readings[0].critical().units), (0, 85_000, 100_000));
    let mut zones = LinuxComponents::new(Vec::new(), vec![some_zone("acpitz")], names());
    assert!(zones.sensors[0].temperatures().is_empty());
    assert_eq!(zones.refresh(0, LinuxSample::Zone(Ok("47000\n".to_string()))), Ok(None));
    let readings = zones.sensors[0].temperatures();
    assert_eq!(readings.len(), 1);
    assert_eq!((readings[0].label(), readings[0].temperature().units), ("acpitz".to_string(), 47000));
    assert_eq!(zones.refresh(0, sample("1")), Err("the sample is of another kind of sensor".to_string()));
    match &zones.sensors[0] {
        LinuxHardwareComponent::ThermalZone(zone) => assert_eq!(zone.last_reading, Some(47000)),
        LinuxHardwareComponent::Hwmon(_) => panic!("a zone stays a zone"),
    }
    let copy = readings[0].copy();
    assert_eq!(copy.name, "acpitz");
}

#[test]
fn a_time_before_the_last_scan_counts_as_no_time_gone_by() {
    let mut limited = chip(None, 500);
    let listing = Ok(vec![Ok(entry("temp1_input", "41000"))]);
    assert!(!limited.rate_limited(0));
    assert!(limited.read_temperatures(2000, &None, &listing).is_ok());
    let later = Ok(vec![Ok(entry("temp1_input", "52000"))]);
    assert!(limited.read_temperatures(1500, &None, &later).is_ok());
    assert_eq!(limited.readings[0].temperature, 41000);
    assert_eq!(limited.last_update, 2000);
    let mut free = chip(None, 0);
    assert!(free.read_temperatures(2000, &None, &listing).is_ok());
    assert!(!free.rate_limited(1500));
    assert!(free.read_temperatures(1500, &None, &later).is_ok());
    assert_eq!(free.readings[0].temperature, 52000);
    assert_eq!(free.last_update, 1500);
}
