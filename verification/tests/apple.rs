use tmt_core::apple::{
    friendly_name, get_os_name, read_platform, MacType, Platform, Sensor, SensorGroup, SensorKind,
    ALL, ALL_M1, APPLE_SILICON, INTEL, M1, M1_MAX, M1_PRO, M1_ULTRA, M2,
};
use tmt_core::catalog::sensors;
use tmt_core::mac::{model_name, read_mac_model};
use tmt_core::smc::code::key_code;
use tmt_core::ComponentType;

#[test]
fn the_platform_is_told_by_the_processor() {
    assert_eq!(read_platform("Apple M1 Pro"), Platform { bits: M1_PRO });
    assert_eq!(read_platform("Apple M2"), Platform { bits: M2 });
    assert_eq!(read_platform("Apple M1"), Platform { bits: M1 });
    assert_eq!(read_platform("Apple M1 Max"), Platform { bits: M1_MAX });
    assert_eq!(read_platform("Apple M1 Ultra"), Platform { bits: M1_ULTRA });
    assert_eq!(read_platform("Intel(R) Core(TM) i9-9880H CPU @ 2.30GHz"), Platform { bits: INTEL });
    assert_eq!(read_platform("Apple M3"), Platform { bits: INTEL });
    assert_eq!(read_platform("Apple M2 Pro"), Platform { bits: INTEL });
    assert_eq!(read_platform("Apple M"), Platform { bits: INTEL });
    assert_eq!(read_platform("Apple M1 "), Platform { bits: INTEL });
    assert_eq!(read_platform("apple M1"), Platform { bits: INTEL });
    assert_eq!(read_platform(""), Platform { bits: INTEL });
    assert_eq!(read_platform("Unknown"), Platform { bits: INTEL });
}

#[test]
fn platforms_are_sets_of_bits() {
    assert_eq!(ALL_M1, M1 | M1_PRO | M1_MAX | M1_ULTRA);
    assert_eq!(APPLE_SILICON, ALL_M1 | M2);
    assert_eq!(ALL, APPLE_SILICON | INTEL);
    assert_eq!(Platform::all().bits(), ALL);
    assert_eq!(Platform::empty().bits(), 0);
    assert_eq!(Platform::from_bits_truncate(0xff), Platform::all());
    let intel = Platform { bits: INTEL };
    let pro = Platform { bits: M1_PRO };
    assert!(!intel.contains(pro));
    assert!(intel.contains(intel));
    assert!(Platform::all().contains(pro));
    assert!((Platform { bits: ALL_M1 }).contains(pro));
    assert!(!(Platform { bits: M2 }).contains(pro));
    assert!(!(Platform { bits: ALL_M1 }).contains(Platform { bits: APPLE_SILICON }));
    assert!((Platform { bits: ALL_M1 }).intersects(Platform { bits: APPLE_SILICON }));
    assert!(!intel.intersects(pro));
    assert!(pro.contains(Platform::empty()));
    assert!(!pro.intersects(Platform::empty()));
}

#[test]
fn versions_have_names() {
    assert_eq!(friendly_name("10.0"), Some("Cheetah"));
    assert_eq!(friendly_name("10.6.8"), Some("Snow Leopard"));
    assert_eq!(friendly_name("10.15.7"), Some("Catalina"));
    assert_eq!(friendly_name("10.10"), Some("Yosemite"));
    assert_eq!(friendly_name("10.16"), None);
    assert_eq!(friendly_name("10"), None);
    assert_eq!(friendly_name("10."), None);
    assert_eq!(friendly_name("11"), Some("Big Sur"));
    assert_eq!(friendly_name("11.6.1"), Some("Big Sur"));
    assert_eq!(friendly_name("12.0.1"), Some("Monterey"));
    assert_eq!(friendly_name("13.0"), Some("Ventura"));
    assert_eq!(friendly_name("14.0"), None);
    assert_eq!(friendly_name(""), None);
    assert_eq!(friendly_name(".10"), None);
    assert_eq!(get_os_name(None), "macOS <unknown>");
    assert_eq!(get_os_name(Some("12.6")), "macOS 12.6 (Monterey)");
    assert_eq!(get_os_name(Some("14.1")), "macOS 14.1");
}

#[test]
fn models_have_names() {
    assert_eq!(MacType::MacMini.as_str(), "Mac mini");
    assert_eq!(MacType::IMac.as_str(), "iMac");
    assert_eq!(MacType::IMacPro.as_str(), "iMac Pro");
    assert_eq!(MacType::MacPro.as_str(), "Mac Pro");
    assert_eq!(MacType::MacBook.as_str(), "MacBook");
    assert_eq!(MacType::MacBookAir.as_str(), "MacBook Air");
    assert_eq!(MacType::MacBookPro.as_str(), "MacBook Pro");
    assert_eq!(MacType::MacStudio.as_str(), "Mac Studio");
    assert_eq!(read_mac_model("Macmini9,1"), Some((MacType::MacMini, "M1, 2020")));
    assert_eq!(read_mac_model("Macmini6,1"), Some((MacType::MacMini, "Late 2012")));
    assert_eq!(read_mac_model("Macmini6,2"), Some((MacType::MacMini, "Late 2012")));
    assert_eq!(read_mac_model("iMacPro1,1"), Some((MacType::IMacPro, "2017")));
    assert_eq!(read_mac_model("iMac14,1"), Some((MacType::IMac, "21.5-inch, Late 2013")));
    assert_eq!(read_mac_model("MacBookPro18,3"), Some((MacType::MacBookPro, "14-inch, 2021 (M1 Pro)")));
    assert_eq!(read_mac_model("Mac14,2"), Some((MacType::MacBookAir, "13-inch, 2022 (M2)")));
    assert_eq!(read_mac_model("Mac13,2"), Some((MacType::MacStudio, "2022 (M1 Ultra)")));
    assert_eq!(read_mac_model("MacBookPro9,1"), Some((MacType::MacBookPro, "13-inch, 2012")));
    assert_eq!(read_mac_model("Mac99,9"), None);
    assert_eq!(read_mac_model(""), None);
    assert_eq!(model_name(Some("Mac13,1")), "Mac Studio (2022 (M1 Max))");
    assert_eq!(model_name(Some("PC")), "Unknown");
    assert_eq!(model_name(None), "Unknown");
}

#[test]
fn sensors_are_built_by_group() {
    let s = Sensor::cpu("TC0P", "CPU proximity", SensorKind::Temperature, Platform::all());
    assert_eq!((s.key, s.name, s.group, s.kind), ("TC0P", "CPU proximity", SensorGroup::Cpu, SensorKind::Temperature));
    assert_eq!((s.platforms, s.average, s.component_type), (Platform::all(), false, ComponentType::Cpu));
    let g = Sensor::gpu("TG0P", "g", SensorKind::Temperature, Platform::all());
    assert_eq!((g.group, g.component_type), (SensorGroup::Gpu, ComponentType::Gpu));
    let n = Sensor::sensor("TA0P", "n", SensorKind::Power, Platform::all());
    assert_eq!((n.group, n.component_type, n.kind), (SensorGroup::Sensor, ComponentType::Sensor, SensorKind::Power));
    let y = Sensor::system("TB1T", "y", SensorKind::Temperature, Platform { bits: INTEL });
    assert_eq!((y.group, y.component_type), (SensorGroup::System, ComponentType::System));
    assert!(s.average().average);
    assert_eq!(s.average().key, "TC0P");
    let b = y.component_type(ComponentType::Battery);
    assert_eq!((b.component_type, b.group, b.average), (ComponentType::Battery, SensorGroup::System, false));
}

#[test]
fn the_catalog_holds_the_known_sensors() {
    let all = sensors();
    assert_eq!(all.len(), 94);
    for s in &all {
        assert!(key_code(s.key).is_ok(), "{}", s.key);
    }
    assert_eq!((all[0].key, all[0].name, all[0].group), ("TA%P", "Ambient %", SensorGroup::Sensor));
    assert_eq!((all[7].key, all[7].name), ("TC0P", "CPU proximity"));
    assert!(all[9].average && all[10].average && !all[8].average);
    assert_eq!(all[17].platforms, Platform { bits: INTEL });
    assert_eq!((all[25].key, all[25].component_type), ("TN0D", ComponentType::Motherboard));
    assert_eq!((all[28].key, all[28].name, all[28].platforms.bits), ("Tp09", "CPU efficiency core 1", ALL_M1));
    assert_eq!((all[47].key, all[47].name, all[47].platforms.bits), ("Tp09", "CPU performance core 2", M2));
    assert_eq!((all[55].key, all[55].component_type, all[55].platforms.bits), ("TB1T", ComponentType::Battery, APPLE_SILICON));
    assert_eq!((all[58].key, all[58].kind), ("VCAC", SensorKind::Voltage));
    assert_eq!((all[73].key, all[73].kind), ("IC0R", SensorKind::Current));
    assert_eq!((all[91].key, all[91].component_type), ("PPBR", ComponentType::Battery));
    assert_eq!((all[93].key, all[93].name, all[93].kind), ("PSTR", "System Total", SensorKind::Power));
    let thermal = all.iter().filter(|s| s.kind == SensorKind::Temperature).count();
    assert_eq!(thermal, 58);
}
