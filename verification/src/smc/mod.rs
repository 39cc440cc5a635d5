//! The controller's key protocol, without the driver: requests, replies and
//! what follows from them.

use self::code::KeyFault;
use self::conv::CodecError;
use self::exchange::{KeyRead, Next};
use self::fan::Fan;
use self::fixed::{host_order, ByteOrder, Fixed};
use self::probe::{FanList, FanOpen, ListPhase};
use self::scan::{
    is_temperature_key, Count, CountKind, KeyList, KeyTable, ScanPhase, Temperature,
    TemperaturePhase,
};
use vstd::prelude::*;

pub mod code;
pub mod control;
pub mod conv;
pub mod exchange;
pub mod fan;
pub mod fixed;
pub mod laws;
pub mod probe;
pub mod report;
pub mod scan;

verus! {

/// The 32 bytes that carry a key's value to and from the controller.
#[derive(Debug, Copy, Clone)]
pub struct SmcBytes(pub [u8; 32]);

impl View for SmcBytes {
    type V = Seq<u8>;

    open spec fn view(&self) -> Seq<u8> {
        self.0@
    }
}

impl SmcBytes {
    /// Thirty-two zero bytes.
    pub fn zeroed() -> (r: SmcBytes)
        ensures
            r@ == Seq::new(32, |i: int| 0u8),
    {
        let r = SmcBytes([0u8;32]);
        proof {
            vstd::array::axiom_spec_array_fill_for_copy_type::<u8, 32>(0u8);
        }
        assert(r@ =~= Seq::new(32, |i: int| 0u8));
        r
    }
}

impl Default for SmcBytes {
    fn default() -> (r: SmcBytes)
        ensures
            r@ == Seq::new(32, |i: int| 0u8),
    {
        SmcBytes::zeroed()
    }
}

/// How the bytes of a key's value are to be read: a type tag and the number
/// of bytes the controller declares.
#[derive(Debug, Copy, Clone, PartialEq, Eq, Structural)]
pub struct DataType {
    pub id: u32,
    pub size: u32,
}

impl Default for DataType {
    /// The type of a record in which none is set.
    fn default() -> (r: DataType)
        ensures
            r == (DataType { id: BLANK, size: 0 }),
    {
        DataType { id: BLANK, size: 0 }
    }
}

/// A key together with the type of its value.
#[derive(Debug, Copy, Clone, PartialEq, Eq, Structural)]
pub struct SmcKey {
    pub code: u32,
    pub info: DataType,
}

impl Default for SmcKey {
    /// A record in which neither key nor type is set.
    fn default() -> (r: SmcKey)
        ensures
            r == (SmcKey { code: BLANK, info: DataType { id: BLANK, size: 0 } }),
    {
        SmcKey { code: BLANK, info: DataType { id: BLANK, size: 0 } }
    }
}

/// The key `#KEY`, whose value is the number of keys.
pub const KEY_COUNT: u32 = 0x234b_4559;

/// The key `FNum`, whose value is the number of fans.
pub const KEY_FAN_COUNT: u32 = 0x464e_756d;

/// The key `FS! `, a bit mask of the fans whose speed is forced.
pub const KEY_FAN_FORCED: u32 = 0x4653_2120;

/// Four spaces: the key and the type of a record in which none is set.
pub const BLANK: u32 = 0x2020_2020;

/// The status with which a call of the driver succeeds.
pub const IO_RETURN_SUCCESS: i32 = 0;

/// The status with which the driver refuses a caller without privileges.
pub const IO_RETURN_NOT_PRIVILEGED: i32 = -536_870_207;

/// The result with which the controller says that it has no such key.
pub const RESULT_KEY_NOT_FOUND: u8 = 132;

/// What a request asks of the controller.
#[derive(Debug, Copy, Clone, PartialEq, Eq, Structural)]
pub enum SmcSelector {
    Unknown,
    ReadKey,
    WriteKey,
    GetKeyFromIndex,
    GetKeyInfo,
}

impl SmcSelector {
    /// The number that stands for the selector in the driver's record.
    pub open spec fn spec_number(self) -> u8 {
        match self {
            SmcSelector::Unknown => 0,
            SmcSelector::ReadKey => 5,
            SmcSelector::WriteKey => 6,
            SmcSelector::GetKeyFromIndex => 8,
            SmcSelector::GetKeyInfo => 9,
        }
    }

    #[verifier::when_used_as_spec(spec_number)]
    pub fn number(self) -> (n: u8)
        ensures
            n == self.spec_number(),
    {
        match self {
            SmcSelector::Unknown => 0,
            SmcSelector::ReadKey => 5,
            SmcSelector::WriteKey => 6,
            SmcSelector::GetKeyFromIndex => 8,
            SmcSelector::GetKeyInfo => 9,
        }
    }
}

impl Default for SmcSelector {
    fn default() -> (r: SmcSelector)
        ensures
            r == SmcSelector::Unknown,
    {
        SmcSelector::Unknown
    }
}

/// What the controller tells of a key's value.
#[derive(Debug, Copy, Clone, PartialEq, Eq, Structural)]
pub struct SmcKeyInfoData {
    pub data_size: u32,
    pub data_type: u32,
    pub data_attributes: u8,
}

/// The record that goes to the driver and the one that comes back, as far as
/// the protocol reads and fills them.
#[derive(Debug, Copy, Clone)]
pub struct SmcParam {
    pub key: u32,
    pub key_info: SmcKeyInfoData,
    pub result: u8,
    pub status: u8,
    pub selector: SmcSelector,
    pub data32: u32,
    pub bytes: SmcBytes,
}

/// What one call of the driver gave: the status of the call and the record
/// that the driver filled.
#[derive(Debug, Copy, Clone)]
pub struct Reply {
    pub status: i32,
    pub param: SmcParam,
}

/// Why the controller could not be asked, or what it refused.
#[derive(Debug, Copy, Clone, PartialEq, Eq, Structural)]
pub enum SmcError {
    DriverNotFound,
    FailedToOpen,
    KeyNotFound(u32),
    NotPrivileged,
    UnsafeFanSpeed,
    Unknown(i32, u8),
    Sysctl(i32),
    /// The value under a key could not be read or written as the type asked for.
    Codec(CodecError),
    /// No four-character key can be made for what was asked.
    Key(KeyFault),
}

impl SmcError {
    pub fn code(&self) -> (r: Option<u32>)
        ensures
            r == (match *self {
                SmcError::KeyNotFound(code) => Some(code),
                _ => None,
            }),
    {
        match self {
            SmcError::KeyNotFound(code) => Some(*code),
            _ => None,
        }
    }

    pub fn io_result(&self) -> (r: Option<i32>)
        ensures
            r == (match *self {
                SmcError::Unknown(io_res, _) => Some(io_res),
                _ => None,
            }),
    {
        match self {
            SmcError::Unknown(io_res, _) => Some(*io_res),
            _ => None,
        }
    }

    pub fn smc_result(&self) -> (r: Option<u8>)
        ensures
            r == (match *self {
                SmcError::Unknown(_, smc_res) => Some(smc_res),
                _ => None,
            }),
    {
        match self {
            SmcError::Unknown(_, smc_res) => Some(*smc_res),
            _ => None,
        }
    }
}

/// A record with nothing set.
pub open spec fn blank_record(p: SmcParam) -> bool {
    &&& p.key == BLANK
    &&& p.key_info == (SmcKeyInfoData { data_size: 0, data_type: BLANK, data_attributes: 0 })
    &&& p.result == 0
    &&& p.status == 0
    &&& p.selector == SmcSelector::Unknown
    &&& p.data32 == 0
    &&& p.bytes@ == Seq::new(32, |i: int| 0u8)
}

/// Whether `p` is the request with the given fields, everything else as in a
/// blank record.
pub open spec fn is_request(
    p: SmcParam,
    selector: SmcSelector,
    key: u32,
    data_size: u32,
    data32: u32,
    bytes: Seq<u8>,
) -> bool {
    &&& p.key == key
    &&& p.key_info == (SmcKeyInfoData { data_size, data_type: BLANK, data_attributes: 0 })
    &&& p.result == 0
    &&& p.status == 0
    &&& p.selector == selector
    &&& p.data32 == data32
    &&& p.bytes@ == bytes
}

impl Default for SmcParam {
    fn default() -> (r: SmcParam)
        ensures
            blank_record(r),
    {
        SmcParam {
            key: BLANK,
            key_info: SmcKeyInfoData { data_size: 0, data_type: BLANK, data_attributes: 0 },
            result: 0,
            status: 0,
            selector: SmcSelector::Unknown,
            data32: 0,
            bytes: SmcBytes::zeroed(),
        }
    }
}

/// What a reply to a request about `key` means: the filled record where both
/// the call and the controller report success, and else the error.
pub open spec fn outcome(key: u32, reply: Reply) -> Result<SmcParam, SmcError> {
    if reply.status == IO_RETURN_SUCCESS && reply.param.result == 0 {
        Ok(reply.param)
    } else if reply.status == IO_RETURN_SUCCESS && reply.param.result == RESULT_KEY_NOT_FOUND {
        Err(SmcError::KeyNotFound(key))
    } else if reply.status == IO_RETURN_NOT_PRIVILEGED {
        Err(SmcError::NotPrivileged)
    } else {
        Err(SmcError::Unknown(reply.status, reply.param.result))
    }
}

/// Reads the reply to a request about `key`.
pub fn call_outcome(key: u32, reply: &Reply) -> (r: Result<SmcParam, SmcError>)
    ensures
        r == outcome(key, *reply),
{
    if reply.status == IO_RETURN_SUCCESS && reply.param.result == 0 {
        Ok(reply.param)
    } else if reply.status == IO_RETURN_SUCCESS && reply.param.result == RESULT_KEY_NOT_FOUND {
        Err(SmcError::KeyNotFound(key))
    } else if reply.status == IO_RETURN_NOT_PRIVILEGED {
        Err(SmcError::NotPrivileged)
    } else {
        Err(SmcError::Unknown(reply.status, reply.param.result))
    }
}

/// The request for the type of the key `code`.
pub fn info_request(code: u32) -> (p: SmcParam)
    ensures
        is_request(p, SmcSelector::GetKeyInfo, code, 0, 0, Seq::new(32, |i: int| 0u8)),
{
    let mut p = SmcParam::default();
    p.key = code;
    p.selector = SmcSelector::GetKeyInfo;
    p
}

/// The request for the key at `index` of the controller's list.
pub fn index_request(index: u32) -> (p: SmcParam)
    ensures
        is_request(p, SmcSelector::GetKeyFromIndex, BLANK, 0, index, Seq::new(32, |i: int| 0u8)),
{
    let mut p = SmcParam::default();
    p.data32 = index;
    p.selector = SmcSelector::GetKeyFromIndex;
    p
}

/// The request for the value of `key`.
pub fn read_request(key: SmcKey) -> (p: SmcParam)
    ensures
        is_request(p, SmcSelector::ReadKey, key.code, key.info.size, 0, Seq::new(32, |i: int| 0u8)),
{
    let mut p = SmcParam::default();
    p.key = key.code;
    p.key_info.data_size = key.info.size;
    p.selector = SmcSelector::ReadKey;
    p
}

/// The request that sets the value of `key` to `bytes`.
pub fn write_request(key: SmcKey, bytes: SmcBytes) -> (p: SmcParam)
    ensures
        is_request(p, SmcSelector::WriteKey, key.code, key.info.size, 0, bytes@),
{
    let mut p = SmcParam::default();
    p.key = key.code;
    p.bytes = bytes;
    p.key_info.data_size = key.info.size;
    p.selector = SmcSelector::WriteKey;
    p
}

/// The type that a reply to `info_request(code)` reports.
pub open spec fn reported_type(code: u32, reply: Reply) -> Result<DataType, SmcError> {
    match outcome(code, reply) {
        Ok(out) => Ok(DataType { id: out.key_info.data_type, size: out.key_info.data_size }),
        Err(e) => Err(e),
    }
}

/// Reads the reply to `info_request(code)`.
pub fn key_information(code: u32, reply: &Reply) -> (r: Result<DataType, SmcError>)
    ensures
        r == reported_type(code, *reply),
{
    match call_outcome(code, reply) {
        Ok(out) => Ok(DataType { id: out.key_info.data_type, size: out.key_info.data_size }),
        Err(e) => Err(e),
    }
}

/// The key that a reply to an `index_request` reports.
pub open spec fn reported_key(reply: Reply) -> Result<u32, SmcError> {
    match outcome(BLANK, reply) {
        Ok(out) => Ok(out.key),
        Err(e) => Err(e),
    }
}

/// Reads the reply to an `index_request`.
pub fn key_information_at_index(reply: &Reply) -> (r: Result<u32, SmcError>)
    ensures
        r == reported_key(*reply),
{
    match call_outcome(BLANK, reply) {
        Ok(out) => Ok(out.key),
        Err(e) => Err(e),
    }
}

/// Whether a fan follows the controller or a speed that was set.
#[derive(Copy, Clone, Debug, PartialEq, Eq, Structural)]
pub enum FanMode {
    Auto,
    Forced,
}

impl View for FanMode {
    type V = FanMode;

    open spec fn view(&self) -> FanMode {
        *self
    }
}

impl FanMode {
    pub open spec fn spec_from_bool(b: bool) -> FanMode {
        if b {
            FanMode::Forced
        } else {
            FanMode::Auto
        }
    }

    /// `Forced` for true, `Auto` for false.
    #[verifier::when_used_as_spec(spec_from_bool)]
    pub fn from_bool(b: bool) -> (r: FanMode)
        ensures
            r == FanMode::spec_from_bool(b),
    {
        if b {
            FanMode::Forced
        } else {
            FanMode::Auto
        }
    }
}

/// What looking for the controller's service and opening it gave.
#[derive(Copy, Clone, Debug, PartialEq, Eq, Structural)]
pub enum Probe {
    /// There is no such service.
    NoService,
    /// The service was found, and opening it gave this status.
    Opened(i32),
}

/// An open session with the controller.
#[derive(Copy, Clone, Debug)]
pub struct Smc {
    pub order: ByteOrder,
}

impl Smc {
    /// The session that `probe` opened: there is one where the service was
    /// found and opened with success.
    pub fn new(probe: Probe) -> (r: Result<Smc, SmcError>)
        ensures
            match probe {
                Probe::NoService => r == Err::<Smc, SmcError>(SmcError::DriverNotFound),
                Probe::Opened(status) => if status == IO_RETURN_SUCCESS {
                    r is Ok
                } else {
                    r == Err::<Smc, SmcError>(SmcError::FailedToOpen)
                },
            },
    {
        match probe {
            Probe::NoService => Err(SmcError::DriverNotFound),
            Probe::Opened(status) => {
                if status == IO_RETURN_SUCCESS {
                    Ok(Smc { order: host_order() })
                } else {
                    Err(SmcError::FailedToOpen)
                }
            },
        }
    }

    /// Begins to read the number of keys.
    pub fn keys_len(&self) -> (r: (Count, SmcParam))
        ensures
            r.0 == (Count { kind: CountKind::Keys, inner: KeyRead { code: KEY_COUNT, info: None } }),
            r.0.asks(r.1),
    {
        Count::begin(CountKind::Keys)
    }

    /// Begins to list the keys.
    pub fn keys(&self) -> (r: (KeyList, SmcParam))
        ensures
            !r.0.inner.with_info,
            r.0.inner.phase == ScanPhase::Count(KeyRead { code: KEY_COUNT, info: None }),
            r.0.inner.total == 0,
            r.0.inner.found@.len() == 0,
            r.0.inner.sound(),
            r.0.asks(r.1),
    {
        KeyList::begin()
    }

    /// Begins to list the keys with their types.
    pub fn smc_keys(&self) -> (r: (KeyTable, SmcParam))
        ensures
            r.0.with_info,
            r.0.phase == ScanPhase::Count(KeyRead { code: KEY_COUNT, info: None }),
            r.0.total == 0,
            r.0.found@.len() == 0,
            r.0.sound(),
            r.0.asks(r.1),
    {
        KeyTable::begin(true)
    }

    /// Begins to read the number of fans.
    pub fn num_fans(&self) -> (r: (Count, SmcParam))
        ensures
            r.0 == (Count {
                kind: CountKind::Fans,
                inner: KeyRead { code: KEY_FAN_COUNT, info: None },
            }),
            r.0.asks(r.1),
    {
        Count::begin(CountKind::Fans)
    }

    /// Begins to open fan `id`, under `name` where one is given and else under
    /// the name in the fan's descriptor.
    pub fn fan(&self, id: u32, name: Option<String>) -> (r: Next<FanOpen, Result<Fan, SmcError>>)
        ensures
            FanOpen::begun(
                id,
                match name {
                    Some(s) => Some(s@),
                    None => None,
                },
                self.order,
                r,
            ),
    {
        FanOpen::begin(id, name, self.order)
    }

    /// Begins to list the fans.
    pub fn fans(&self) -> (r: (FanList, SmcParam))
        ensures
            r.0.order == self.order,
            r.0.total == 0,
            r.0.fans@.len() == 0,
            !r.0.fallback,
            r.0.phase matches ListPhase::Count(c) && c == (Count {
                kind: CountKind::Fans,
                inner: KeyRead { code: KEY_FAN_COUNT, info: None },
            }),
            r.0.asks(r.1),
    {
        FanList::begin(self.order)
    }

    /// Begins to read the temperature under `key`.
    pub fn temperature(&self, key: u32) -> (r: Next<Temperature, Result<Fixed, SmcError>>)
        ensures
            if is_temperature_key(key) {
                r matches Next::Call(m, p) && m == (Temperature {
                    key,
                    order: self.order,
                    phase: TemperaturePhase::Check,
                }) && m.asks(p)
            } else {
                r == Next::<Temperature, Result<Fixed, SmcError>>::Done(
                    Err(SmcError::KeyNotFound(key)),
                )
            },
    {
        Temperature::begin(key, self.order)
    }
}

} // verus!
