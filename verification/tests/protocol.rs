use tmt_core::apple::{
    read_platform, AppleComponent, AppleError, Platform, Sensor, SensorKind, ALL, INTEL, M1_PRO,
};
use tmt_core::catalog::sensors;
use tmt_core::discovery::Discovery;
use tmt_core::smc::code::{key_code, KeyFault};
use tmt_core::smc::control::{MinSpeedSet, ModeSet, NumberRead, SpeedSet};
use tmt_core::smc::conv::{
    CodecError, TYPE_FAN, TYPE_FLAG, TYPE_FLT, TYPE_FPE2, TYPE_SP78, TYPE_U16, TYPE_U32, TYPE_U8,
};
use tmt_core::smc::exchange::{KeyRead, KeyWrite, Next, SmcValue};
use tmt_core::smc::fan::{fan_key, read_is_forced, write_managed, Fan, FanFacts, FanField};
use tmt_core::smc::fixed::{ByteOrder, Fixed};
use tmt_core::smc::probe::{FanList, FanOpen, FanProbe};
use tmt_core::smc::scan::{Count, KeyList, KeyTable, Temperature};
use tmt_core::smc::{
    call_outcome, index_request, info_request, key_information, key_information_at_index,
    read_request, write_request, DataType, FanMode, Probe, Reply, Smc, SmcBytes, SmcError,
    SmcKey, SmcKeyInfoData, SmcParam, SmcSelector, BLANK, IO_RETURN_NOT_PRIVILEGED, KEY_COUNT,
    KEY_FAN_FORCED,
};
use tmt_core::{
    matches_type, Component, ComponentType, Interface, SystemNames, TemperatureReading,
};

struct Entry {
    code: u32,
    info: DataType,
    bytes: [u8; 32],
    read_only: bool,
}

struct Mock {
    entries: Vec<Entry>,
    calls: Vec<(SmcSelector, u32)>,
    privileged: bool,
}

fn code(name: &str) -> u32 {
    key_code(name).unwrap()
}

fn fixed(value: f64) -> Fixed {
    Fixed { raw: (value * 65536.0) as i64 }
}

impl Mock {
    fn new() -> Mock {
        Mock { entries: Vec::new(), calls: Vec::new(), privileged: true }
    }

    fn with(mut self, name: &str, tag: u32, head: &[u8]) -> Mock {
        let mut bytes = [0u8; 32];
        bytes[..head.len()].copy_from_slice(head);
        let info = DataType { id: tag, size: head.len() as u32 };
        self.entries.push(Entry { code: code(name), info, bytes, read_only: false });
        self
    }

    fn read_only(mut self) -> Mock {
        self.entries.last_mut().unwrap().read_only = true;
        self
    }

    fn with_count(self) -> Mock {
        let n = self.entries.len() as u32 + 1;
        self.with("#KEY", TYPE_U32, &n.to_be_bytes())
    }

    fn value(&self, name: &str) -> &[u8; 32] {
        &self.entries.iter().find(|e| e.code == code(name)).unwrap().bytes
    }

    fn count(&self, selector: SmcSelector) -> usize {
        self.calls.iter().filter(|c| c.0 == selector).count()
    }

    fn call(&mut self, request: &SmcParam) -> Reply {
        self.calls.push((request.selector, request.key));
        let mut param = *request;
        let mut status = 0;
        param.result = 0;
        match request.selector {
            SmcSelector::GetKeyInfo => match self.entries.iter().find(|e| e.code == request.key) {
                Some(e) => {
                    param.key_info.data_type = e.info.id;
                    param.key_info.data_size = e.info.size;
                }
                None => param.result = 132,
            },
            SmcSelector::ReadKey => match self.entries.iter().find(|e| e.code == request.key) {
                Some(e) => {
                    assert_eq!(request.key_info.data_size, e.info.size);
                    param.bytes = SmcBytes(e.bytes);
                }
                None => param.result = 132,
            },
            SmcSelector::WriteKey => {
                if !self.privileged {
                    status = IO_RETURN_NOT_PRIVILEGED;
                } else {
                    match self.entries.iter_mut().find(|e| e.code == request.key) {
                        Some(e) if e.read_only => param.result = 133,
                        Some(e) => {
                            assert_eq!(request.key_info.data_size, e.info.size);
                            e.bytes = request.bytes.0;
                        }
                        None => param.result = 132,
                    }
                }
            }
            SmcSelector::GetKeyFromIndex => match self.entries.get(request.data32 as usize) {
                Some(e) => param.key = e.code,
                None => param.result = 132,
            },
            SmcSelector::Unknown => status = 7,
        }
        Reply { status, param }
    }
}

fn drive<M, T>(mock: &mut Mock, start: Next<M, T>, feed: impl Fn(M, &Reply) -> Next<M, T>) -> T {
    let mut step = start;
    loop {
        match step {
            Next::Done(out) => return out,
            Next::Call(machine, request) => {
                let reply = mock.call(&request);
                step = feed(machine, &reply);
            }
        }
    }
}

fn start<M, T>(begun: (M, SmcParam)) -> Next<M, T> {
    Next::Call(begun.0, begun.1)
}

fn session() -> Smc {
    Smc { order: ByteOrder::Little }
}

fn names() -> SystemNames {
    SystemNames {
        os_name: "macOS 13.0 (Ventura)".to_string(),
        cpu_name: "Apple M1 Pro".to_string(),
        model_name: "MacBook Pro (14-inch, 2021 (M1 Pro))".to_string(),
    }
}

#[test]
fn a_session_opens_where_the_service_opened() {
    assert!(Smc::new(Probe::Opened(0)).is_ok());
    assert_eq!(Smc::new(Probe::NoService).map(|_| ()), Err(SmcError::DriverNotFound));
    assert_eq!(Smc::new(Probe::Opened(5)).map(|_| ()), Err(SmcError::FailedToOpen));
    assert_eq!(Smc::new(Probe::Opened(-1)).map(|_| ()), Err(SmcError::FailedToOpen));
}

#[test]
fn replies_are_read_by_status_and_result() {
    let request = info_request(code("TC0P"));
    let mut param = request;
    param.result = 0;
    let ok = Reply { status: 0, param };
    assert!(call_outcome(code("TC0P"), &ok).is_ok());
    param.result = 132;
    let missing = Reply { status: 0, param };
    assert_eq!(
        call_outcome(code("TC0P"), &missing).map(|_| ()),
        Err(SmcError::KeyNotFound(code("TC0P")))
    );
    let refused = Reply { status: IO_RETURN_NOT_PRIVILEGED, param };
    assert_eq!(call_outcome(code("TC0P"), &refused).map(|_| ()), Err(SmcError::NotPrivileged));
    param.result = 7;
    let odd = Reply { status: 0, param };
    assert_eq!(call_outcome(code("TC0P"), &odd).map(|_| ()), Err(SmcError::Unknown(0, 7)));
    param.result = 0;
    let failed = Reply { status: 9, param };
    assert_eq!(call_outcome(code("TC0P"), &failed).map(|_| ()), Err(SmcError::Unknown(9, 0)));
    param.result = 132;
    let both = Reply { status: 9, param };
    assert_eq!(call_outcome(code("TC0P"), &both).map(|_| ()), Err(SmcError::Unknown(9, 132)));
    assert_eq!(IO_RETURN_NOT_PRIVILEGED, 0xe000_02c1u32 as i32);
}

#[test]
fn requests_carry_what_is_asked() {
    let info = info_request(7);
    assert_eq!((info.selector, info.key, info.data32), (SmcSelector::GetKeyInfo, 7, 0));
    assert_eq!(info.selector.number(), 9);
    assert_eq!(info.key_info, SmcKeyInfoData { data_size: 0, data_type: BLANK, data_attributes: 0 });
    let index = index_request(3);
    assert_eq!((index.selector, index.key, index.data32), (SmcSelector::GetKeyFromIndex, BLANK, 3));
    assert_eq!(index.selector.number(), 8);
    let key = SmcKey { code: 7, info: DataType { id: TYPE_U16, size: 2 } };
    let read = read_request(key);
    assert_eq!((read.selector, read.key, read.key_info.data_size), (SmcSelector::ReadKey, 7, 2));
    assert_eq!(read.selector.number(), 5);
    assert_eq!(read.bytes.0, [0u8; 32]);
    let mut bytes = [0u8; 32];
    bytes[0] = 1;
    let write = write_request(key, SmcBytes(bytes));
    assert_eq!((write.selector, write.key, write.key_info.data_size), (SmcSelector::WriteKey, 7, 2));
    assert_eq!(write.selector.number(), 6);
    assert_eq!(write.bytes.0, bytes);
    assert_eq!(SmcSelector::Unknown.number(), 0);
    assert_eq!(SmcSelector::default(), SmcSelector::Unknown);
    let blank = SmcParam::default();
    assert_eq!((blank.key, blank.result, blank.status, blank.data32), (BLANK, 0, 0, 0));
}

#[test]
fn reported_types_and_keys_are_read() {
    let mut mock = Mock::new().with("TC0P", TYPE_SP78, &[0x19, 0]);
    let reply = mock.call(&info_request(code("TC0P")));
    assert_eq!(key_information(code("TC0P"), &reply), Ok(DataType { id: TYPE_SP78, size: 2 }));
    let reply = mock.call(&info_request(code("TC1P")));
    assert_eq!(key_information(code("TC1P"), &reply), Err(SmcError::KeyNotFound(code("TC1P"))));
    let reply = mock.call(&index_request(0));
    assert_eq!(key_information_at_index(&reply), Ok(code("TC0P")));
    let reply = mock.call(&index_request(1));
    assert_eq!(key_information_at_index(&reply), Err(SmcError::KeyNotFound(BLANK)));
}

#[test]
fn a_key_is_read_in_two_calls() {
    let mut mock = Mock::new().with("TC0P", TYPE_SP78, &[0x19, 0x80]);
    let raw = drive(&mut mock, start(KeyRead::begin(code("TC0P"))), |m, r| m.feed(r)).unwrap();
    assert_eq!(raw.0, DataType { id: TYPE_SP78, size: 2 });
    assert_eq!(&raw.1 .0[..2], &[0x19, 0x80]);
    assert_eq!(
        mock.calls,
        vec![(SmcSelector::GetKeyInfo, code("TC0P")), (SmcSelector::ReadKey, code("TC0P"))]
    );
    let mut mock = Mock::new();
    let raw = drive(&mut mock, start(KeyRead::begin(code("TC0P"))), |m, r| m.feed(r));
    assert_eq!(raw.map(|_| ()), Err(SmcError::KeyNotFound(code("TC0P"))));
    assert_eq!(mock.calls.len(), 1);
}

#[test]
fn a_key_is_written_in_two_calls() {
    let mut mock = Mock::new().with("F0Md", TYPE_U8, &[0]);
    let begun = KeyWrite::begin(code("F0Md"), SmcValue::Mode(FanMode::Forced), ByteOrder::Little);
    assert_eq!(drive(&mut mock, start(begun), |m, r| m.feed(r)), Ok(()));
    assert_eq!(mock.value("F0Md")[0], 1);
    assert_eq!(mock.calls.len(), 2);
    let begun = KeyWrite::begin(code("F0Md"), SmcValue::U16(1), ByteOrder::Little);
    assert_eq!(
        drive(&mut mock, start(begun), |m, r| m.feed(r)),
        Err(SmcError::Codec(CodecError::TypeMismatch(TYPE_U8)))
    );
    assert_eq!(mock.calls.len(), 3);
    mock.privileged = false;
    let begun = KeyWrite::begin(code("F0Md"), SmcValue::U8(0), ByteOrder::Little);
    assert_eq!(drive(&mut mock, start(begun), |m, r| m.feed(r)), Err(SmcError::NotPrivileged));
    assert_eq!(mock.value("F0Md")[0], 1);
}

#[test]
fn counts_are_read() {
    let mut mock = Mock::new().with("FNum", TYPE_U8, &[2]).with_count();
    let smc = session();
    assert_eq!(drive(&mut mock, start(smc.keys_len()), |m: Count, r| m.feed(r)), Ok(2));
    assert_eq!(drive(&mut mock, start(smc.num_fans()), |m: Count, r| m.feed(r)), Ok(2));
    let mut mock = Mock::new().with("FNum", TYPE_U16, &[0, 2]);
    assert_eq!(
        drive(&mut mock, start(smc.num_fans()), |m: Count, r| m.feed(r)),
        Err(SmcError::Codec(CodecError::TypeMismatch(TYPE_U16)))
    );
    assert_eq!(
        drive(&mut mock, start(smc.keys_len()), |m: Count, r| m.feed(r)),
        Err(SmcError::KeyNotFound(KEY_COUNT))
    );
}

#[test]
fn keys_are_listed_by_index() {
    let mut mock = Mock::new()
        .with("TC0P", TYPE_SP78, &[0x19, 0])
        .with("FNum", TYPE_U8, &[2])
        .with_count();
    let smc = session();
    let keys = drive(&mut mock, start(smc.keys()), |m: KeyList, r| m.feed(r)).unwrap();
    assert_eq!(keys, vec![code("TC0P"), code("FNum"), code("#KEY")]);
    assert_eq!(mock.count(SmcSelector::GetKeyFromIndex), 3);
    assert_eq!(mock.count(SmcSelector::GetKeyInfo), 1);
    let table = drive(&mut mock, start(smc.smc_keys()), |m: KeyTable, r| m.feed(r)).unwrap();
    assert_eq!(
        table,
        vec![
            SmcKey { code: code("TC0P"), info: DataType { id: TYPE_SP78, size: 2 } },
            SmcKey { code: code("FNum"), info: DataType { id: TYPE_U8, size: 1 } },
            SmcKey { code: code("#KEY"), info: DataType { id: TYPE_U32, size: 4 } },
        ]
    );
}

#[test]
fn an_empty_list_asks_for_no_index() {
    let mut mock = Mock::new().with("#KEY", TYPE_U32, &[0, 0, 0, 0]);
    let keys = drive(&mut mock, start(session().keys()), |m: KeyList, r| m.feed(r)).unwrap();
    assert!(keys.is_empty());
    assert_eq!(mock.count(SmcSelector::GetKeyFromIndex), 0);
}

#[test]
fn a_list_ends_with_the_first_error() {
    let mut mock = Mock::new().with("TC0P", TYPE_SP78, &[0x19, 0]).with("#KEY", TYPE_U32, &[0, 0, 0, 5]);
    let keys = drive(&mut mock, start(session().keys()), |m: KeyList, r| m.feed(r));
    assert_eq!(keys, Err(SmcError::KeyNotFound(BLANK)));
    assert_eq!(mock.count(SmcSelector::GetKeyFromIndex), 3);
}

#[test]
fn a_temperature_is_asked_for_by_name_and_type() {
    let mut mock = Mock::new()
        .with("TC0P", TYPE_SP78, &[0x19, 0x80])
        .with("TC1P", TYPE_FLT, &45.25f32.to_le_bytes())
        .with("TC2P", TYPE_U16, &[0, 1])
        .with("FNum", TYPE_U8, &[2]);
    let smc = session();
    let feed = |m: Temperature, r: &Reply| m.feed(r);
    assert_eq!(drive(&mut mock, smc.temperature(code("TC0P")), feed), Ok(fixed(25.5)));
    assert_eq!(mock.count(SmcSelector::GetKeyInfo), 2);
    assert_eq!(mock.count(SmcSelector::ReadKey), 1);
    assert_eq!(drive(&mut mock, smc.temperature(code("TC1P")), feed), Ok(fixed(45.25)));
    assert_eq!(
        drive(&mut mock, smc.temperature(code("TC2P")), feed),
        Err(SmcError::KeyNotFound(code("TC2P")))
    );
    assert_eq!(
        drive(&mut mock, smc.temperature(code("TC9P")), feed),
        Err(SmcError::KeyNotFound(code("TC9P")))
    );
    let before = mock.calls.len();
    assert_eq!(
        drive(&mut mock, smc.temperature(code("FNum")), feed),
        Err(SmcError::KeyNotFound(code("FNum")))
    );
    assert_eq!(mock.calls.len(), before);
}

#[test]
fn fan_keys_are_named_by_number() {
    assert_eq!(fan_key(0, FanField::Min), Ok(code("F0Mn")));
    assert_eq!(fan_key(1, FanField::Max), Ok(code("F1Mx")));
    assert_eq!(fan_key(2, FanField::Actual), Ok(code("F2Ac")));
    assert_eq!(fan_key(3, FanField::Mode), Ok(code("F3Md")));
    assert_eq!(fan_key(9, FanField::Target), Ok(code("F9Tg")));
    assert_eq!(fan_key(4, FanField::Ident), Ok(code("F4ID")));
    assert_eq!(fan_key(10, FanField::Min), Err(SmcError::Key(KeyFault::TooLong)));
    assert_eq!(fan_key(u32::MAX, FanField::Min), Err(SmcError::Key(KeyFault::TooLong)));
}

fn fan_mock() -> Mock {
    let mut ident = vec![0u8; 16];
    ident[4..12].copy_from_slice(b"Exhaust\0");
    Mock::new()
        .with("FNum", TYPE_U8, &[2])
        .with("F0ID", TYPE_FAN, &ident)
        .with("F0Mn", TYPE_FPE2, &(1200u16 * 4).to_be_bytes())
        .with("F0Mx", TYPE_FPE2, &(5800u16 * 4).to_be_bytes())
        .with("F0Ac", TYPE_FPE2, &(3500u16 * 4).to_be_bytes())
        .with("F0Tg", TYPE_FPE2, &[0, 0])
        .with("F0Md", TYPE_U8, &[0])
        .with("F1Ac", TYPE_FLT, &2000.5f32.to_le_bytes())
        .with("F1Tg", TYPE_FLT, &[0, 0, 0, 0])
        .with("FS! ", TYPE_U16, &[0, 0b10])
}

#[test]
fn a_fan_is_opened_with_its_facts() {
    let mut mock = fan_mock();
    let smc = session();
    let fan = drive(&mut mock, smc.fan(0, None), |m: FanOpen, r| m.feed(r)).unwrap();
    assert_eq!(fan.id(), 0);
    assert_eq!(fan.name(), "Exhaust");
    assert_eq!(fan.min_speed(), fixed(1200.0));
    assert_eq!(fan.max_speed(), fixed(5800.0));
    assert_eq!(fan.mode, FanMode::Auto);
    let named = drive(&mut mock, smc.fan(0, Some("Mine".to_string())), |m: FanOpen, r| m.feed(r));
    assert_eq!(named.unwrap().name(), "Mine");
}

#[test]
fn a_fan_without_bounds_has_the_defaults_and_its_bit_as_mode() {
    let mut mock = fan_mock();
    let smc = session();
    let fan = drive(&mut mock, smc.fan(1, Some("Second".to_string())), |m: FanOpen, r| m.feed(r));
    let fan = fan.unwrap();
    assert_eq!(fan.min_speed(), fixed(2500.0));
    assert_eq!(fan.max_speed(), fixed(4000.0));
    assert_eq!(fan.mode, FanMode::Forced);
    let facts = drive(&mut mock, FanProbe::begin(2, ByteOrder::Little), |m, r| m.feed(r)).unwrap();
    assert_eq!(facts.mode, FanMode::Auto);
    let none = drive(&mut mock, smc.fan(1, None), |m: FanOpen, r| m.feed(r));
    assert_eq!(none.map(|f| f.id), Err(SmcError::KeyNotFound(code("F1ID"))));
    let too_many = drive(&mut mock, smc.fan(10, None), |m: FanOpen, r| m.feed(r));
    assert_eq!(too_many.map(|f| f.id), Err(SmcError::Key(KeyFault::TooLong)));
}

#[test]
fn a_fan_whose_mode_cannot_be_read_fails() {
    let mut mock = Mock::new().with("F0Mn", TYPE_FPE2, &[0, 4]);
    let fan = drive(&mut mock, session().fan(0, Some("x".to_string())), |m: FanOpen, r| m.feed(r));
    assert_eq!(fan.map(|f| f.id), Err(SmcError::KeyNotFound(KEY_FAN_FORCED)));
}

#[test]
fn fans_are_listed_with_fallback_names() {
    let mut mock = fan_mock();
    let fans = drive(&mut mock, start(session().fans()), |m: FanList, r| m.feed(r)).unwrap();
    assert_eq!(fans.len(), 2);
    assert_eq!(fans[0].name(), "Exhaust");
    assert_eq!(fans[1].name(), "Right Fan");
    assert_eq!(fans[1].id(), 1);
    assert_eq!(fans[1].mode, FanMode::Forced);
    let mut mock = Mock::new().with("FNum", TYPE_U8, &[3]).with("FS! ", TYPE_U16, &[0, 0]);
    let fans = drive(&mut mock, start(session().fans()), |m: FanList, r| m.feed(r)).unwrap();
    let names: Vec<&str> = fans.iter().map(|f| f.name()).collect();
    assert_eq!(names, vec!["Unnamed Fan 0", "Unnamed Fan 1", "Unnamed Fan 2"]);
    let mut mock = Mock::new().with("FNum", TYPE_U8, &[2]).with("FS! ", TYPE_U16, &[0, 0]);
    let fans = drive(&mut mock, start(session().fans()), |m: FanList, r| m.feed(r)).unwrap();
    let names: Vec<&str> = fans.iter().map(|f| f.name()).collect();
    assert_eq!(names, vec!["Left Fan", "Right Fan"]);
    let mut mock = Mock::new().with("FNum", TYPE_U8, &[0]);
    let fans = drive(&mut mock, start(session().fans()), |m: FanList, r| m.feed(r)).unwrap();
    assert!(fans.is_empty());
    assert_eq!(mock.calls.len(), 2);
}

#[test]
fn a_list_of_fans_fails_where_a_fan_cannot_be_opened_at_all() {
    let mut mock = Mock::new().with("FNum", TYPE_U8, &[2]);
    let fans = drive(&mut mock, start(session().fans()), |m: FanList, r| m.feed(r));
    assert_eq!(fans.map(|f| f.len()), Err(SmcError::KeyNotFound(KEY_FAN_FORCED)));
    let mut mock = Mock::new().with("FNum", TYPE_U8, &[12]).with("FS! ", TYPE_U16, &[0, 0]);
    let fans = drive(&mut mock, start(session().fans()), |m: FanList, r| m.feed(r));
    assert_eq!(fans.map(|f| f.len()), Err(SmcError::Key(KeyFault::TooLong)));
    let mut mock = Mock::new();
    let fans = drive(&mut mock, start(session().fans()), |m: FanList, r| m.feed(r));
    assert_eq!(fans.map(|f| f.len()), Err(SmcError::KeyNotFound(code("FNum"))));
}

fn open(mock: &mut Mock, id: u32) -> Fan {
    drive(mock, session().fan(id, Some(format!("Fan {}", id))), |m: FanOpen, r| m.feed(r)).unwrap()
}

#[test]
fn a_mode_is_set_under_the_fans_own_key() {
    let mut mock = fan_mock();
    let fan = open(&mut mock, 0);
    let (fan, done) = drive(&mut mock, fan.set_mode(FanMode::Forced), |m: ModeSet, r| m.feed(r));
    assert_eq!(done, Ok(()));
    assert_eq!(fan.mode, FanMode::Forced);
    assert_eq!(mock.value("F0Md")[0], 1);
    assert_eq!(&mock.value("FS! ")[..2], &[0, 0b10]);
}

#[test]
fn a_mode_is_set_through_the_mask_where_the_fan_has_no_key() {
    let mut mock = fan_mock();
    let fan = open(&mut mock, 1);
    assert_eq!(fan.mode, FanMode::Forced);
    let writes = mock.count(SmcSelector::WriteKey);
    let (fan, done) = drive(&mut mock, fan.set_mode(FanMode::Forced), |m: ModeSet, r| m.feed(r));
    assert_eq!(done, Ok(()));
    assert_eq!(mock.count(SmcSelector::WriteKey), writes);
    let (fan, done) = drive(&mut mock, fan.set_mode(FanMode::Auto), |m: ModeSet, r| m.feed(r));
    assert_eq!(done, Ok(()));
    assert_eq!(fan.mode, FanMode::Auto);
    assert_eq!(&mock.value("FS! ")[..2], &[0, 0]);
    assert_eq!(mock.count(SmcSelector::WriteKey), writes + 1);
    let (fan, done) = drive(&mut mock, fan.set_mode(FanMode::Forced), |m: ModeSet, r| m.feed(r));
    assert_eq!(done, Ok(()));
    assert_eq!(fan.mode, FanMode::Forced);
    assert_eq!(&mock.value("FS! ")[..2], &[0, 0b10]);
}

#[test]
fn a_mode_that_cannot_be_set_leaves_the_fan() {
    let mut mock = fan_mock();
    let fan = open(&mut mock, 1);
    mock.privileged = false;
    let (fan, done) = drive(&mut mock, fan.set_mode(FanMode::Auto), |m: ModeSet, r| m.feed(r));
    assert_eq!(done, Err(SmcError::NotPrivileged));
    assert_eq!(fan.mode, FanMode::Forced);
}

#[test]
fn a_speed_at_the_lowest_is_refused_and_one_at_the_highest_taken() {
    let mut mock = fan_mock();
    let fan = open(&mut mock, 0);
    let calls = mock.calls.len();
    let feed = |m: SpeedSet, r: &Reply| m.feed(r);
    let (fan, done) = drive(&mut mock, fan.set_current_speed(fixed(1200.0)), feed);
    assert_eq!(done, Err(SmcError::UnsafeFanSpeed));
    let (fan, done) = drive(&mut mock, fan.set_current_speed(fixed(5800.25)), feed);
    assert_eq!(done, Err(SmcError::UnsafeFanSpeed));
    let (fan, done) = drive(&mut mock, fan.set_current_speed(fixed(0.0)), feed);
    assert_eq!(done, Err(SmcError::UnsafeFanSpeed));
    assert_eq!(mock.calls.len(), calls);
    assert_eq!(fan.mode, FanMode::Auto);
    let (fan, done) = drive(&mut mock, fan.set_current_speed(fixed(5800.0)), feed);
    assert_eq!(done, Ok(()));
    assert_eq!(fan.mode, FanMode::Forced);
    assert_eq!(mock.value("F0Md")[0], 1);
    assert_eq!(&mock.value("F0Tg")[..2], &(5800u16 * 4).to_be_bytes());
    let (_, done) = drive(&mut mock, fan.set_current_speed(fixed(1200.25)), feed);
    assert_eq!(done, Ok(()));
    assert_eq!(&mock.value("F0Tg")[..2], &(1200u16 * 4 + 1).to_be_bytes());
}

#[test]
fn a_speed_is_written_as_a_float_where_the_key_is_one() {
    let mut mock = fan_mock();
    let fan = open(&mut mock, 1);
    let (_, done) = drive(&mut mock, fan.set_current_speed(fixed(3000.5)), |m: SpeedSet, r| m.feed(r));
    assert_eq!(done, Ok(()));
    assert_eq!(&mock.value("F1Tg")[..4], &3000.5f32.to_le_bytes());
}

#[test]
fn a_lowest_speed_is_set_within_bounds() {
    let mut mock = fan_mock();
    let fan = open(&mut mock, 0);
    let feed = |m: MinSpeedSet, r: &Reply| m.feed(r);
    let (fan, done) = drive(&mut mock, fan.set_min_speed(fixed(0.0)), feed);
    assert_eq!(done, Err(SmcError::UnsafeFanSpeed));
    let (fan, done) = drive(&mut mock, fan.set_min_speed(fixed(-5.0)), feed);
    assert_eq!(done, Err(SmcError::UnsafeFanSpeed));
    let (fan, done) = drive(&mut mock, fan.set_min_speed(fixed(5800.25)), feed);
    assert_eq!(done, Err(SmcError::UnsafeFanSpeed));
    assert_eq!(fan.min_speed(), fixed(1200.0));
    let (fan, done) = drive(&mut mock, fan.set_min_speed(fixed(5800.0)), feed);
    assert_eq!(done, Ok(()));
    assert_eq!(fan.min_speed(), fixed(5800.0));
    assert_eq!(&mock.value("F0Mn")[..2], &(5800u16 * 4).to_be_bytes());
    let fan = open(&mut mock, 1);
    let (fan, done) = drive(&mut mock, fan.set_min_speed(fixed(1000.0)), feed);
    assert_eq!(done, Err(SmcError::KeyNotFound(code("F1Mn"))));
    assert_eq!(fan.min_speed(), fixed(2500.0));
}

#[test]
fn the_speed_of_a_fan_is_read_and_placed() {
    let mut mock = fan_mock();
    let fan = open(&mut mock, 0);
    let feed = |m: NumberRead, r: &Reply| m.feed(r);
    let current = drive(&mut mock, fan.current_speed(), feed).unwrap();
    assert_eq!(current, fixed(3500.0));
    assert_eq!(fan.rpm(current), fixed(2300.0));
    assert_eq!(fan.percent(current), Some(fixed(50.0)));
    assert_eq!(fan.percent(fixed(1000.0)), Some(fixed(0.0)));
    assert_eq!(fan.rpm(fixed(1000.0)), fixed(0.0));
    assert_eq!(fan.percent(fixed(1200.0)), Some(fixed(0.0)));
    assert_eq!(fan.percent(fixed(5800.0)), Some(fixed(100.0)));
    assert_eq!(fan.percent(fixed(2350.0)), Some(fixed(25.0)));
    let second = open(&mut mock, 1);
    let current = drive(&mut mock, second.current_speed(), feed).unwrap();
    assert_eq!(current, fixed(2000.5));
    let third = open(&mut mock, 2);
    assert_eq!(
        drive(&mut mock, third.current_speed(), feed),
        Err(SmcError::KeyNotFound(code("F2Ac")))
    );
}

#[test]
fn percent_without_a_span_is_none() {
    let fan = Fan {
        id: 0,
        name: "x".to_string(),
        mode: FanMode::Auto,
        min_speed: fixed(2000.0),
        max_speed: fixed(2000.0),
        order: ByteOrder::Little,
    };
    assert_eq!(fan.percent(fixed(2000.0)), None);
    let upside = Fan { min_speed: fixed(3000.0), max_speed: fixed(2000.0), ..fan };
    assert_eq!(upside.percent(fixed(3500.0)), Some(fixed(-50.0)));
    assert_eq!(upside.percent(fixed(2500.0)), Some(fixed(0.0)));
}

fn discover(mock: &mut Mock, platform: Platform, catalog: Vec<Sensor>) -> Result<tmt_core::apple::AppleComponents, AppleError> {
    let begun = Discovery::begin(session(), names(), platform, catalog);
    drive(mock, start(begun), |m: Discovery, r| m.feed(r))
}

#[test]
fn discovery_finds_the_one_temperature() {
    let mut mock = Mock::new()
        .with("TC0P", TYPE_SP78, &[0x2d, 0x40])
        .with("FNum", TYPE_U8, &[2])
        .with_count();
    let platform = read_platform("Intel(R) Core(TM) i7-8750H CPU @ 2.20GHz");
    let found = discover(&mut mock, platform, sensors()).unwrap();
    let thermal = found.thermal_components();
    assert_eq!(thermal.len(), 1);
    assert_eq!(thermal[0].label(), "CPU proximity");
    assert_eq!(thermal[0].component_type(), ComponentType::Cpu);
    let readings = thermal[0].temperatures();
    assert_eq!(readings.len(), 1);
    assert_eq!(readings[0].label(), "CPU proximity");
    assert_eq!(readings[0].temperature().units, (45.25 * 65536.0) as i64);
    assert_eq!(readings[0].temperature().per_degree, 65536);
    assert_eq!(readings[0].max().units, (45.25 * 65536.0) as i64);
    assert_eq!(readings[0].high().units, 85 * 65536);
    assert_eq!(readings[0].critical().units, 100 * 65536);
    assert_eq!(found.thermal_components_by_type(ComponentType::Cpu).len(), 1);
    assert_eq!(found.thermal_components_by_type(ComponentType::Gpu).len(), 0);
    assert_eq!(found.os_name(), "macOS 13.0 (Ventura)");
    assert_eq!(found.cpu_name(), "Apple M1 Pro");
    assert_eq!(found.device_model_name(), "MacBook Pro (14-inch, 2021 (M1 Pro))");
}

#[test]
fn discovery_leaves_out_other_platforms_and_what_cannot_be_read() {
    let catalog = vec![
        Sensor::cpu("TC0P", "for Intel", SensorKind::Temperature, Platform { bits: INTEL }),
        Sensor::gpu("TG0P", "for all", SensorKind::Temperature, Platform { bits: ALL }),
        Sensor::cpu("TC1P", "not there", SensorKind::Temperature, Platform { bits: ALL }),
        Sensor::cpu("TC2P", "no temperature", SensorKind::Temperature, Platform { bits: ALL }),
        Sensor::system("TC0P", "system", SensorKind::Temperature, Platform { bits: ALL }),
        Sensor::cpu("VC0C", "voltage", SensorKind::Voltage, Platform { bits: ALL }),
        Sensor::cpu("TC%C", "pattern", SensorKind::Temperature, Platform { bits: ALL }),
        Sensor::cpu("TC0PX", "bad key", SensorKind::Temperature, Platform { bits: ALL }),
        Sensor::cpu("TC3P", "float", SensorKind::Temperature, Platform { bits: M1_PRO }),
    ];
    let mock = || {
        Mock::new()
            .with("TC0P", TYPE_SP78, &[0x19, 0])
            .with("TG0P", TYPE_SP78, &[0xff, 0])
            .with("TC2P", TYPE_FLAG, &[1])
            .with("VC0C", TYPE_SP78, &[1, 0])
            .with("TC3P", TYPE_FLT, &61.5f32.to_le_bytes())
            .with_count()
    };
    let labels = |found: &tmt_core::apple::AppleComponents| -> Vec<String> {
        found.sensors.iter().map(|(_, c)| c.label()).collect()
    };
    let on_pro = discover(&mut mock(), read_platform("Apple M1 Pro"), catalog.clone()).unwrap();
    assert_eq!(labels(&on_pro), vec!["for all", "float"]);
    match on_pro.sensors[0].1 {
        AppleComponent::Gpu(gauge) => {
            assert_eq!(gauge.previous, fixed(-1.0));
            assert_eq!(gauge.max, fixed(0.0));
        }
        AppleComponent::Cpu(_) => panic!("a GPU sensor makes a GPU component"),
    }
    match on_pro.sensors[1].1 {
        AppleComponent::Cpu(gauge) => assert_eq!(gauge.max, fixed(61.5)),
        AppleComponent::Gpu(_) => panic!("a CPU sensor makes a CPU component"),
    }
    let on_intel = discover(&mut mock(), read_platform("Intel(R) Core"), catalog.clone()).unwrap();
    assert_eq!(labels(&on_intel), vec!["for Intel", "for all"]);
    let on_m3 = discover(&mut mock(), read_platform("Apple M3"), catalog).unwrap();
    assert_eq!(labels(&on_m3), vec!["for Intel", "for all"]);
}

#[test]
fn discovery_fails_where_the_keys_cannot_be_listed() {
    let found = discover(&mut Mock::new(), Platform { bits: INTEL }, sensors());
    assert_eq!(found.map(|f| f.sensors.len()), Err(AppleError::Smc(SmcError::KeyNotFound(KEY_COUNT))));
    assert_eq!(AppleError::from(SmcError::NotPrivileged), AppleError::Smc(SmcError::NotPrivileged));
}

#[test]
fn a_pass_refreshes_the_thermal_sensors_in_order() {
    let catalog = vec![
        Sensor::cpu("TC0P", "first", SensorKind::Temperature, Platform { bits: ALL }),
        Sensor { kind: SensorKind::Power, ..Sensor::cpu("TC1P", "power", SensorKind::Temperature, Platform { bits: ALL }) },
        Sensor::gpu("TG0P", "second", SensorKind::Temperature, Platform { bits: ALL }),
    ];
    let mut mock = Mock::new()
        .with("TC0P", TYPE_SP78, &[0x19, 0])
        .with("TC1P", TYPE_SP78, &[0x20, 0])
        .with("TG0P", TYPE_SP78, &[0x30, 0])
        .with_count();
    let mut found = discover(&mut mock, Platform { bits: INTEL }, catalog).unwrap();
    assert_eq!(found.sensors.len(), 3);
    assert_eq!(found.thermal_components().len(), 2);
    mock.entries[0].bytes[0] = 0x10;
    mock.entries[2].bytes[0] = 0x40;
    let mut at = found.next_thermal(0);
    let mut seen = Vec::new();
    while let Some(i) = at {
        seen.push(i);
        let sample = drive(&mut mock, found.temperature(i), |m: Temperature, r| m.feed(r));
        at = found.refresh(i, sample).unwrap();
    }
    assert_eq!(seen, vec![0, 2]);
    let readings = |c: &AppleComponent| match c {
        AppleComponent::Cpu(g) | AppleComponent::Gpu(g) => (g.previous, g.max),
    };
    assert_eq!(readings(&found.sensors[0].1), (fixed(16.0), fixed(25.0)));
    assert_eq!(readings(&found.sensors[1].1), (fixed(32.0), fixed(32.0)));
    assert_eq!(readings(&found.sensors[2].1), (fixed(64.0), fixed(64.0)));
    mock.entries.remove(0);
    let sample = drive(&mut mock, found.temperature(0), |m: Temperature, r| m.feed(r));
    let failed = found.refresh(0, sample);
    assert_eq!(failed, Err("SMC Key FourCharCode(\"TC0P\") not found".to_string()));
    assert_eq!(readings(&found.sensors[0].1), (fixed(16.0), fixed(25.0)));
}

#[test]
fn errors_say_what_went_wrong() {
    assert_eq!(SmcError::DriverNotFound.message(), "Driver not found");
    assert_eq!(SmcError::FailedToOpen.message(), "Failed to open driver");
    assert_eq!(
        SmcError::NotPrivileged.message(),
        "Not enough privileges to perform this action, are you running on root?"
    );
    assert_eq!(SmcError::UnsafeFanSpeed.message(), "Unsafe fan speed");
    assert_eq!(
        SmcError::Unknown(-536870207, 132).message(),
        "Unknown error: IOKit terminated with code -536870207 and SMC result 132."
    );
    assert_eq!(SmcError::Unknown(i32::MIN, 0).message(), format!("Unknown error: IOKit terminated with code {} and SMC result 0.", i32::MIN));
    assert_eq!(SmcError::Sysctl(2).message(), "sysctl() call failed with errno 2");
    assert_eq!(SmcError::KeyNotFound(0xff00_0000).message(), "SMC Key 4278190080 not found");
    assert_eq!(
        SmcError::Codec(CodecError::TypeMismatch(TYPE_U8)).message(),
        "Cannot convert a value of type FourCharCode(\"ui8 \")"
    );
    assert_eq!(
        SmcError::Codec(CodecError::WriteNotSupported).message(),
        "You can't write a RawFan type"
    );
    assert_eq!(SmcError::Key(KeyFault::TooLong).message(), "four char code is too long");
    assert_eq!(SmcError::Key(KeyFault::TooShort).message(), "four char code is too short");
    assert_eq!(SmcError::Key(KeyFault::InvalidChar).message(), "invalid char in four char code");
    assert_eq!(SmcError::KeyNotFound(7).code(), Some(7));
    assert_eq!(SmcError::NotPrivileged.code(), None);
    assert_eq!(SmcError::Unknown(3, 4).io_result(), Some(3));
    assert_eq!(SmcError::Unknown(3, 4).smc_result(), Some(4));
    assert_eq!(SmcError::KeyNotFound(7).io_result(), None);
    assert_eq!(SmcError::KeyNotFound(7).smc_result(), None);
}

#[test]
fn the_mask_of_forced_fans_has_a_bit_for_each_fan() {
    assert!(read_is_forced(0b10, 1));
    assert!(!read_is_forced(0b10, 0));
    assert!(!read_is_forced(0xffff, 16));
    assert!(read_is_forced(0x8000, 15));
    assert_eq!(write_managed(0b10, 0, FanMode::Forced), 0b11);
    assert_eq!(write_managed(0b11, 0, FanMode::Forced), 0b11);
    assert_eq!(write_managed(0b11, 1, FanMode::Auto), 0b01);
    assert_eq!(write_managed(0b01, 1, FanMode::Auto), 0b01);
    assert_eq!(write_managed(0, 15, FanMode::Forced), 0x8000);
    assert_eq!(write_managed(0xffff, 16, FanMode::Auto), 0xffff);
    for id in 0..16 {
        for mask in [0u16, 0xffff, 0x5555, 0x1234] {
            for mode in [FanMode::Auto, FanMode::Forced] {
                let set = write_managed(mask, id, mode);
                assert_eq!(read_is_forced(set, id), mode == FanMode::Forced);
                assert_eq!(write_managed(set, id, mode), set);
                assert_eq!(set & !(1 << id), mask & !(1 << id));
            }
        }
    }
}

#[test]
fn the_search_among_the_known_sensors_goes_by_the_processor() {
    let mock = || {
        Mock::new()
            .with("TC0P", TYPE_SP78, &[0x19, 0])
            .with("Tp09", TYPE_FLT, &51.5f32.to_le_bytes())
            .with("Tg0f", TYPE_FLT, &40.0f32.to_le_bytes())
            .with("TB1T", TYPE_SP78, &[0x20, 0])
            .with_count()
    };
    let found = |cpu: &str| -> Vec<String> {
        let begun = tmt_core::apple::AppleComponents::new(session(), names(), cpu);
        let found = drive(&mut mock(), start(begun), |m: Discovery, r| m.feed(r)).unwrap();
        found.sensors.iter().map(|(_, c)| c.label()).collect()
    };
    assert_eq!(found("Intel(R) Core(TM) i5"), vec!["CPU proximity"]);
    assert_eq!(found("Apple M1"), vec!["CPU proximity", "CPU efficiency core 1"]);
    assert_eq!(found("Apple M2"), vec!["CPU proximity", "CPU performance core 2", "GPU Cluster 1"]);
}

#[test]
fn small_things_are_as_they_say() {
    assert!(matches_type(ComponentType::Cpu, ComponentType::Cpu));
    assert!(!matches_type(ComponentType::Cpu, ComponentType::Gpu));
    assert_eq!(DataType::default(), DataType { id: BLANK, size: 0 });
    assert_eq!(SmcKey::default(), SmcKey { code: BLANK, info: DataType::default() });
    let facts = FanFacts { mode: FanMode::Forced, min_speed: fixed(1.0), max_speed: fixed(2.0) };
    let fan = Fan::new(3, "x".to_string(), facts, ByteOrder::Big);
    assert_eq!((fan.id(), fan.name(), fan.mode, fan.order), (3, "x", FanMode::Forced, ByteOrder::Big));
    assert_eq!((fan.min_speed(), fan.max_speed()), (fixed(1.0), fixed(2.0)));
    let copy = fan.clone();
    assert_eq!((copy.id, copy.name.as_str()), (3, "x"));
}

#[test]
fn a_key_under_two_platforms_is_found_as_the_hosts() {
    let mock = || {
        Mock::new()
            .with("Tp0P", TYPE_FLT, &48.5f32.to_le_bytes())
            .with("Tp05", TYPE_FLT, &50.0f32.to_le_bytes())
            .with("TC0P", TYPE_SP78, &[0x19, 0])
            .with_count()
    };
    let found = |cpu: &str| -> Vec<(String, ComponentType)> {
        let begun = tmt_core::apple::AppleComponents::new(session(), names(), cpu);
        let found = drive(&mut mock(), start(begun), |m: Discovery, r| m.feed(r)).unwrap();
        found.sensors.iter().map(|(_, c)| (c.label(), c.component_type())).collect()
    };
    let cpu = |label: &str| (label.to_string(), ComponentType::Cpu);
    assert_eq!(
        found("Apple M1 Pro"),
        vec![cpu("CPU proximity"), cpu("CPU performance core 2"), cpu("CPU performance core 6")]
    );
    assert_eq!(found("Apple M2"), vec![cpu("CPU proximity"), cpu("CPU efficiency core 1")]);
    assert_eq!(found("Intel(R) Core(TM) i7"), vec![cpu("CPU proximity")]);
}

#[test]
fn a_search_begins_by_asking_for_the_type_of_the_count() {
    let (search, first) = tmt_core::apple::AppleComponents::new(session(), names(), "Apple M2");
    assert_eq!((first.selector, first.key), (SmcSelector::GetKeyInfo, KEY_COUNT));
    assert_eq!(search.at, 0);
    assert!(search.sensors.is_empty() && search.keys.is_empty());
    assert_eq!(search.catalog.len(), 94);
    let mut mock = Mock::new().with("TC0P", TYPE_SP78, &[0x19, 0]).with_count();
    let found = drive(&mut mock, Next::Call(search, first), |m: Discovery, r| m.feed(r)).unwrap();
    assert_eq!(found.sensors.len(), 1);
    assert_eq!(
        &mock.calls[..4],
        &[
            (SmcSelector::GetKeyInfo, KEY_COUNT),
            (SmcSelector::ReadKey, KEY_COUNT),
            (SmcSelector::GetKeyFromIndex, BLANK),
            (SmcSelector::GetKeyFromIndex, BLANK),
        ]
    );
}
