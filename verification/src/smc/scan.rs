//! What a session asks of the controller besides single keys: how many keys
//! and fans there are, the list of keys, and a temperature.

use super::conv::{TYPE_FLT, TYPE_SP78};
use super::exchange::{asks_type, fixed_of, read_as, read_number, typed, KeyRead, Next, RawValue};
use super::fixed::{ByteOrder, Fixed};
use super::{
    index_request, info_request, is_request, key_information, key_information_at_index,
    reported_key, reported_type, DataType, Reply, SmcError, SmcKey, SmcParam, SmcSelector, BLANK,
    KEY_COUNT, KEY_FAN_COUNT,
};
use vstd::prelude::*;

verus! {

/// What is counted.
#[derive(Copy, Clone, Debug, PartialEq, Eq, Structural)]
pub enum CountKind {
    /// The keys, under `#KEY`, a 32-bit number.
    Keys,
    /// The fans, under `FNum`, one byte.
    Fans,
}

/// The count that a raw value holds.
pub open spec fn count_of(kind: CountKind, raw: RawValue) -> Result<usize, SmcError> {
    match kind {
        CountKind::Keys => match typed::<u32>(raw) {
            Ok(n) => Ok(n as usize),
            Err(e) => Err(e),
        },
        CountKind::Fans => match typed::<u8>(raw) {
            Ok(n) => Ok(n as usize),
            Err(e) => Err(e),
        },
    }
}

/// Reads a raw value as a count.
pub fn read_count(kind: CountKind, raw: RawValue) -> (r: Result<usize, SmcError>)
    ensures
        r == count_of(kind, raw),
{
    match kind {
        CountKind::Keys => match read_as::<u32>(raw) {
            Ok(n) => Ok(n as usize),
            Err(e) => Err(e),
        },
        CountKind::Fans => match read_as::<u8>(raw) {
            Ok(n) => Ok(n as usize),
            Err(e) => Err(e),
        },
    }
}

/// The reading of a count.
#[derive(Copy, Clone, Debug, PartialEq, Eq, Structural)]
pub struct Count {
    pub kind: CountKind,
    pub inner: KeyRead,
}

impl Count {
    pub open spec fn asks(self, p: SmcParam) -> bool {
        self.inner.asks(p)
    }

    /// What the count comes to on `reply`, where the reading ends there.
    pub open spec fn ends(self, reply: Reply) -> Option<Result<usize, SmcError>> {
        match self.inner.ends(reply) {
            Some(raw) => Some(count_of(self.kind, raw)),
            None => None,
        }
    }

    pub open spec fn after(self, reply: Reply) -> Count {
        Count { kind: self.kind, inner: self.inner.after(reply) }
    }

    pub open spec fn fed(self, reply: Reply, r: Next<Count, Result<usize, SmcError>>) -> bool {
        match self.ends(reply) {
            Some(out) => r == Next::<Count, Result<usize, SmcError>>::Done(out),
            None => r matches Next::Call(m, p) && m == self.after(reply) && m.asks(p),
        }
    }

    pub fn begin(kind: CountKind) -> (r: (Count, SmcParam))
        ensures
            r.0 == (Count {
                kind,
                inner: KeyRead {
                    code: match kind {
                        CountKind::Keys => KEY_COUNT,
                        CountKind::Fans => KEY_FAN_COUNT,
                    },
                    info: None,
                },
            }),
            r.0.asks(r.1),
    {
        let code = match kind {
            CountKind::Keys => KEY_COUNT,
            CountKind::Fans => KEY_FAN_COUNT,
        };
        let (inner, p) = KeyRead::begin(code);
        (Count { kind, inner }, p)
    }

    pub fn feed(self, reply: &Reply) -> (r: Next<Count, Result<usize, SmcError>>)
        ensures
            self.fed(*reply, r),
    {
        match self.inner.feed(reply) {
            Next::Call(inner, p) => Next::Call(Count { kind: self.kind, inner }, p),
            Next::Done(raw) => Next::Done(read_count(self.kind, raw)),
        }
    }
}

/// Where a walk through the controller's keys stands.
#[derive(Copy, Clone, Debug, PartialEq, Eq, Structural)]
pub enum ScanPhase {
    /// The number of keys is being read.
    Count(KeyRead),
    /// The key at the next index has been asked for.
    Index,
    /// The type of this key, the one at the next index, has been asked for.
    Info(u32),
}

/// The walk through the controller's keys, index by index from 0, with each
/// key's type where `with_info` is set. `found` holds the keys of the indices
/// walked so far.
pub struct KeyTable {
    pub with_info: bool,
    pub phase: ScanPhase,
    pub total: u32,
    pub found: Vec<SmcKey>,
}

/// The type noted for a key whose type was not asked for.
pub open spec fn no_info() -> DataType {
    DataType { id: BLANK, size: 0 }
}

/// Whether `p` asks for the key at `index`.
pub open spec fn asks_index(p: SmcParam, index: int) -> bool {
    is_request(
        p,
        SmcSelector::GetKeyFromIndex,
        BLANK,
        0,
        index as u32,
        Seq::new(32, |i: int| 0u8),
    )
}

impl KeyTable {
    pub open spec fn asks(self, p: SmcParam) -> bool {
        match self.phase {
            ScanPhase::Count(k) => k.asks(p),
            ScanPhase::Index => asks_index(p, self.found@.len() as int),
            ScanPhase::Info(code) => asks_type(p, code),
        }
    }

    /// The key that `reply` completes, where it completes one.
    pub open spec fn gained(self, reply: Reply) -> Option<SmcKey> {
        match self.phase {
            ScanPhase::Count(_) => None,
            ScanPhase::Index => match reported_key(reply) {
                Ok(code) if !self.with_info => Some(SmcKey { code, info: no_info() }),
                _ => None,
            },
            ScanPhase::Info(code) => match reported_type(code, reply) {
                Ok(info) => Some(SmcKey { code, info }),
                Err(_) => None,
            },
        }
    }

    /// The keys found once `reply` is taken.
    pub open spec fn found_after(self, reply: Reply) -> Seq<SmcKey> {
        match self.gained(reply) {
            Some(key) => self.found@.push(key),
            None => self.found@,
        }
    }

    /// The number of keys to walk once `reply` is taken.
    pub open spec fn total_after(self, reply: Reply) -> u32 {
        match self.phase {
            ScanPhase::Count(k) => match k.ends(reply) {
                Some(raw) => match typed::<u32>(raw) {
                    Ok(n) => n,
                    Err(_) => self.total,
                },
                None => self.total,
            },
            _ => self.total,
        }
    }

    /// The error that `reply` brings, if it brings one: the walk ends with it.
    pub open spec fn fails(self, reply: Reply) -> Option<SmcError> {
        match self.phase {
            ScanPhase::Count(k) => match k.ends(reply) {
                Some(raw) => match typed::<u32>(raw) {
                    Ok(_) => None,
                    Err(e) => Some(e),
                },
                None => None,
            },
            ScanPhase::Index => match reported_key(reply) {
                Ok(_) => None,
                Err(e) => Some(e),
            },
            ScanPhase::Info(code) => match reported_type(code, reply) {
                Ok(_) => None,
                Err(e) => Some(e),
            },
        }
    }

    /// Where the walk stands once `reply` is taken, if it goes on.
    pub open spec fn phase_after(self, reply: Reply) -> ScanPhase {
        match self.phase {
            ScanPhase::Count(k) => match k.ends(reply) {
                Some(_) => ScanPhase::Index,
                None => ScanPhase::Count(k.after(reply)),
            },
            ScanPhase::Index => match reported_key(reply) {
                Ok(code) if self.with_info => ScanPhase::Info(code),
                _ => ScanPhase::Index,
            },
            ScanPhase::Info(_) => ScanPhase::Index,
        }
    }

    /// Whether the walk is through once `reply` is taken: the count is known
    /// and as many keys are found, and no type is still to be asked for.
    pub open spec fn complete(self, reply: Reply) -> bool {
        &&& self.phase_after(reply) == ScanPhase::Index
        &&& self.found_after(reply).len() >= self.total_after(reply)
    }

    /// What the walk comes to on `reply`, where it ends there.
    pub open spec fn ends(self, reply: Reply) -> Option<Result<Seq<SmcKey>, SmcError>> {
        match self.fails(reply) {
            Some(e) => Some(Err(e)),
            None => if self.complete(reply) {
                Some(Ok(self.found_after(reply)))
            } else {
                None
            },
        }
    }

    pub open spec fn fed(self, reply: Reply, r: Next<KeyTable, Result<Vec<SmcKey>, SmcError>>) -> bool {
        match self.ends(reply) {
            Some(Err(e)) => r == Next::<KeyTable, Result<Vec<SmcKey>, SmcError>>::Done(Err(e)),
            Some(Ok(keys)) => r matches Next::Done(Ok(v)) && v@ == keys,
            None => r matches Next::Call(m, p) && m.with_info == self.with_info && m.phase
                == self.phase_after(reply) && m.total == self.total_after(reply) && m.found@
                == self.found_after(reply) && m.asks(p),
        }
    }

    /// Begins the walk: the state, and the request to send first.
    pub fn begin(with_info: bool) -> (r: (KeyTable, SmcParam))
        ensures
            r.0.with_info == with_info,
            r.0.phase == ScanPhase::Count(KeyRead { code: KEY_COUNT, info: None }),
            r.0.total == 0,
            r.0.found@.len() == 0,
            r.0.sound(),
            r.0.asks(r.1),
    {
        let (k, p) = KeyRead::begin(KEY_COUNT);
        (KeyTable { with_info, phase: ScanPhase::Count(k), total: 0, found: Vec::new() }, p)
    }

    /// Goes on to the next index, or ends where all are walked.
    fn advance(self) -> (r: Next<KeyTable, Result<Vec<SmcKey>, SmcError>>)
        ensures
            if self.found@.len() >= self.total {
                r matches Next::Done(Ok(v)) && v@ == self.found@
            } else {
                r matches Next::Call(m, p) && m.with_info == self.with_info && m.phase
                    == ScanPhase::Index && m.total == self.total && m.found@ == self.found@
                    && m.asks(p)
            },
    {
        if self.found.len() >= self.total as usize {
            Next::Done(Ok(self.found))
        } else {
            let p = index_request(self.found.len() as u32);
            Next::Call(
                KeyTable {
                    with_info: self.with_info,
                    phase: ScanPhase::Index,
                    total: self.total,
                    found: self.found,
                },
                p,
            )
        }
    }

    /// Takes the reply to the request that is out.
    pub fn feed(self, reply: &Reply) -> (r: Next<KeyTable, Result<Vec<SmcKey>, SmcError>>)
        ensures
            self.fed(*reply, r),
    {
        let KeyTable { with_info, phase, total, found } = self;
        let mut found = found;
        match phase {
            ScanPhase::Count(k) => match k.feed(reply) {
                Next::Call(k2, p) => Next::Call(
                    KeyTable { with_info, phase: ScanPhase::Count(k2), total, found },
                    p,
                ),
                Next::Done(raw) => match read_as::<u32>(raw) {
                    Ok(n) => (KeyTable { with_info, phase: ScanPhase::Index, total: n, found })
                        .advance(),
                    Err(e) => Next::Done(Err(e)),
                },
            },
            ScanPhase::Index => match key_information_at_index(reply) {
                Ok(code) => {
                    if with_info {
                        Next::Call(
                            KeyTable { with_info, phase: ScanPhase::Info(code), total, found },
                            info_request(code),
                        )
                    } else {
                        found.push(SmcKey { code, info: DataType { id: BLANK, size: 0 } });
                        (KeyTable { with_info, phase: ScanPhase::Index, total, found }).advance()
                    }
                },
                Err(e) => Next::Done(Err(e)),
            },
            ScanPhase::Info(code) => match key_information(code, reply) {
                Ok(info) => {
                    found.push(SmcKey { code, info });
                    (KeyTable { with_info, phase: ScanPhase::Index, total, found }).advance()
                },
                Err(e) => Next::Done(Err(e)),
            },
        }
    }
}

impl KeyTable {
    /// Whether the walk stands as its steps leave it: nothing is found before
    /// the count is known, and after that less than the count.
    pub open spec fn sound(self) -> bool {
        match self.phase {
            ScanPhase::Count(_) => self.found@.len() == 0,
            _ => self.found@.len() < self.total,
        }
    }
}

/// Every step of a walk leaves it sound, and a walk that ends without an
/// error ends with as many keys as the controller counted.
pub proof fn law_walk_counts(
    walk: KeyTable,
    reply: Reply,
    r: Next<KeyTable, Result<Vec<SmcKey>, SmcError>>,
)
    requires
        walk.sound(),
        walk.fed(reply, r),
    ensures
        match r {
            Next::Call(m, _) => m.sound(),
            Next::Done(Ok(keys)) => keys@.len() == walk.total_after(reply),
            Next::Done(Err(_)) => true,
        },
{
}

/// The codes of `keys`, in order.
pub open spec fn codes_of(keys: Seq<SmcKey>) -> Seq<u32> {
    Seq::new(keys.len(), |i: int| keys[i].code)
}

fn codes(keys: &Vec<SmcKey>) -> (v: Vec<u32>)
    ensures
        v@ == codes_of(keys@),
{
    let mut v: Vec<u32> = Vec::new();
    let mut i: usize = 0;
    while i < keys.len()
        invariant
            i <= keys.len(),
            v@ == codes_of(keys@.take(i as int)),
        decreases keys.len() - i,
    {
        v.push(keys[i].code);
        i += 1;
        assert(codes_of(keys@.take(i as int)) =~= codes_of(keys@.take(i - 1)).push(
            keys@[i - 1].code,
        ));
    }
    assert(keys@.take(keys.len() as int) =~= keys@);
    v
}

/// The list of the controller's keys, by index from 0.
pub struct KeyList {
    pub inner: KeyTable,
}

impl KeyList {
    pub open spec fn asks(self, p: SmcParam) -> bool {
        self.inner.asks(p)
    }

    /// What the list comes to on `reply`, where it ends there.
    pub open spec fn ends(self, reply: Reply) -> Option<Result<Seq<u32>, SmcError>> {
        match self.inner.ends(reply) {
            Some(Ok(keys)) => Some(Ok(codes_of(keys))),
            Some(Err(e)) => Some(Err(e)),
            None => None,
        }
    }

    pub open spec fn fed(self, reply: Reply, r: Next<KeyList, Result<Vec<u32>, SmcError>>) -> bool {
        match self.ends(reply) {
            Some(Err(e)) => r == Next::<KeyList, Result<Vec<u32>, SmcError>>::Done(Err(e)),
            Some(Ok(list)) => r matches Next::Done(Ok(v)) && v@ == list,
            None => r matches Next::Call(m, p) && self.inner.fed(
                reply,
                Next::<KeyTable, Result<Vec<SmcKey>, SmcError>>::Call(m.inner, p),
            ),
        }
    }

    pub fn begin() -> (r: (KeyList, SmcParam))
        ensures
            !r.0.inner.with_info,
            r.0.inner.phase == ScanPhase::Count(KeyRead { code: KEY_COUNT, info: None }),
            r.0.inner.total == 0,
            r.0.inner.found@.len() == 0,
            r.0.inner.sound(),
            r.0.asks(r.1),
    {
        let (inner, p) = KeyTable::begin(false);
        (KeyList { inner }, p)
    }

    pub fn feed(self, reply: &Reply) -> (r: Next<KeyList, Result<Vec<u32>, SmcError>>)
        ensures
            self.fed(*reply, r),
    {
        match self.inner.feed(reply) {
            Next::Call(inner, p) => Next::Call(KeyList { inner }, p),
            Next::Done(Ok(keys)) => Next::Done(Ok(codes(&keys))),
            Next::Done(Err(e)) => Next::Done(Err(e)),
        }
    }
}

/// Whether the key's name begins with `T`, as the names of temperatures do.
pub open spec fn is_temperature_key(key: u32) -> bool {
    key / 0x100_0000 == 0x54
}

/// Whether a temperature is carried under the tag `id`.
pub open spec fn is_temperature_type(id: u32) -> bool {
    id == TYPE_SP78 || id == TYPE_FLT
}

/// Where the reading of a temperature stands.
#[derive(Copy, Clone, Debug, PartialEq, Eq, Structural)]
pub enum TemperaturePhase {
    /// The key's type has been asked for, to see whether it is a temperature.
    Check,
    /// The key is being read.
    Read(KeyRead),
}

/// The reading of the temperature under `key`.
#[derive(Copy, Clone, Debug, PartialEq, Eq, Structural)]
pub struct Temperature {
    pub key: u32,
    pub order: ByteOrder,
    pub phase: TemperaturePhase,
}

impl Temperature {
    pub open spec fn asks(self, p: SmcParam) -> bool {
        match self.phase {
            TemperaturePhase::Check => asks_type(p, self.key),
            TemperaturePhase::Read(k) => k.asks(p),
        }
    }

    /// What the reading comes to on `reply`, where it ends there. A key whose
    /// type is no temperature's counts as not found.
    pub open spec fn ends(self, reply: Reply) -> Option<Result<Fixed, SmcError>> {
        match self.phase {
            TemperaturePhase::Check => match reported_type(self.key, reply) {
                Ok(info) => if is_temperature_type(info.id) {
                    None
                } else {
                    Some(Err(SmcError::KeyNotFound(self.key)))
                },
                Err(e) => Some(Err(e)),
            },
            TemperaturePhase::Read(k) => match k.ends(reply) {
                Some(raw) => Some(fixed_of(raw, self.order)),
                None => None,
            },
        }
    }

    pub open spec fn after(self, reply: Reply) -> Temperature {
        match self.phase {
            TemperaturePhase::Check => Temperature {
                phase: TemperaturePhase::Read(KeyRead { code: self.key, info: None }),
                ..self
            },
            TemperaturePhase::Read(k) => Temperature {
                phase: TemperaturePhase::Read(k.after(reply)),
                ..self
            },
        }
    }

    pub open spec fn fed(self, reply: Reply, r: Next<Temperature, Result<Fixed, SmcError>>) -> bool {
        match self.ends(reply) {
            Some(out) => r == Next::<Temperature, Result<Fixed, SmcError>>::Done(out),
            None => r matches Next::Call(m, p) && m == self.after(reply) && m.asks(p),
        }
    }

    /// Begins to read the temperature under `key`. A key whose name does not
    /// begin with `T` is not asked for at all.
    pub fn begin(key: u32, order: ByteOrder) -> (r: Next<Temperature, Result<Fixed, SmcError>>)
        ensures
            if is_temperature_key(key) {
                r matches Next::Call(m, p) && m == (Temperature {
                    key,
                    order,
                    phase: TemperaturePhase::Check,
                }) && m.asks(p)
            } else {
                r == Next::<Temperature, Result<Fixed, SmcError>>::Done(
                    Err(SmcError::KeyNotFound(key)),
                )
            },
    {
        if key / 0x100_0000 == 0x54 {
            Next::Call(Temperature { key, order, phase: TemperaturePhase::Check }, info_request(key))
        } else {
            Next::Done(Err(SmcError::KeyNotFound(key)))
        }
    }

    /// Takes the reply to the request that is out.
    pub fn feed(self, reply: &Reply) -> (r: Next<Temperature, Result<Fixed, SmcError>>)
        ensures
            self.fed(*reply, r),
    {
        match self.phase {
            TemperaturePhase::Check => match key_information(self.key, reply) {
                Ok(info) => {
                    if info.id == TYPE_SP78 || info.id == TYPE_FLT {
                        let (k, p) = KeyRead::begin(self.key);
                        Next::Call(
                            Temperature {
                                key: self.key,
                                order: self.order,
                                phase: TemperaturePhase::Read(k),
                            },
                            p,
                        )
                    } else {
                        Next::Done(Err(SmcError::KeyNotFound(self.key)))
                    }
                },
                Err(e) => Next::Done(Err(e)),
            },
            TemperaturePhase::Read(k) => match k.feed(reply) {
                Next::Call(k2, p) => Next::Call(
                    Temperature {
                        key: self.key,
                        order: self.order,
                        phase: TemperaturePhase::Read(k2),
                    },
                    p,
                ),
                Next::Done(raw) => Next::Done(read_number(raw, self.order)),
            },
        }
    }
}

} // verus!
