//! Reading and writing one key: two calls of the driver each, the first for
//! the key's type. The driver is not called here: each step takes the reply
//! to the last request and gives the next request, or what came of it all.

use super::conv::{read, wrote, CodecError, SmcType};
use super::fixed::{ByteOrder, Fixed};
use super::{
    call_outcome, info_request, is_request, key_information, outcome, read_request,
    reported_type, write_request, DataType, FanMode, Reply, SmcBytes, SmcError, SmcKey, SmcParam,
    SmcSelector,
};
use vstd::prelude::*;

verus! {

/// What a step gives: the state to go on from with the request to send next,
/// or the end.
pub enum Next<M, T> {
    Call(M, SmcParam),
    Done(T),
}

/// What reading a key gives: the type that the controller reported and the
/// bytes it sent.
pub type RawValue = Result<(DataType, SmcBytes), SmcError>;

/// Whether `p` asks for the type of `code`.
pub open spec fn asks_type(p: SmcParam, code: u32) -> bool {
    is_request(p, SmcSelector::GetKeyInfo, code, 0, 0, Seq::new(32, |i: int| 0u8))
}

/// Whether `p` asks for the value of `code`, of `size` bytes.
pub open spec fn asks_value(p: SmcParam, code: u32, size: u32) -> bool {
    is_request(p, SmcSelector::ReadKey, code, size, 0, Seq::new(32, |i: int| 0u8))
}

/// Whether `p` asks to set the `size` bytes of `code` to `bytes`.
pub open spec fn asks_write(p: SmcParam, code: u32, size: u32, bytes: Seq<u8>) -> bool {
    is_request(p, SmcSelector::WriteKey, code, size, 0, bytes)
}

/// The reading of one key. `info` is the key's type once the controller has
/// reported it.
#[derive(Copy, Clone, Debug, PartialEq, Eq, Structural)]
pub struct KeyRead {
    pub code: u32,
    pub info: Option<DataType>,
}

impl KeyRead {
    /// Whether `p` is the request that this state waits to be answered.
    pub open spec fn asks(self, p: SmcParam) -> bool {
        match self.info {
            None => asks_type(p, self.code),
            Some(info) => asks_value(p, self.code, info.size),
        }
    }

    /// What the reading comes to on `reply`, where it ends there: an error of
    /// either call ends it, and so does the value.
    pub open spec fn ends(self, reply: Reply) -> Option<RawValue> {
        match self.info {
            None => match reported_type(self.code, reply) {
                Ok(_) => None,
                Err(e) => Some(Err(e)),
            },
            Some(info) => match outcome(self.code, reply) {
                Ok(out) => Some(Ok((info, out.bytes))),
                Err(e) => Some(Err(e)),
            },
        }
    }

    /// The state after `reply`, where the reading goes on.
    pub open spec fn after(self, reply: Reply) -> KeyRead {
        match reported_type(self.code, reply) {
            Ok(info) => KeyRead { code: self.code, info: Some(info) },
            Err(_) => self,
        }
    }

    /// Whether `r` is the step that `reply` leads to.
    pub open spec fn fed(self, reply: Reply, r: Next<KeyRead, RawValue>) -> bool {
        match self.ends(reply) {
            Some(out) => r == Next::<KeyRead, RawValue>::Done(out),
            None => r matches Next::Call(m, p) && m == self.after(reply) && m.asks(p),
        }
    }

    /// Begins to read `code`: the state, and the request to send first.
    pub fn begin(code: u32) -> (r: (KeyRead, SmcParam))
        ensures
            r.0 == (KeyRead { code, info: None }),
            r.0.asks(r.1),
    {
        (KeyRead { code, info: None }, info_request(code))
    }

    /// Takes the reply to the request that is out.
    pub fn feed(self, reply: &Reply) -> (r: Next<KeyRead, RawValue>)
        ensures
            self.fed(*reply, r),
    {
        match self.info {
            None => match key_information(self.code, reply) {
                Ok(info) => Next::Call(
                    KeyRead { code: self.code, info: Some(info) },
                    read_request(SmcKey { code: self.code, info }),
                ),
                Err(e) => Next::Done(Err(e)),
            },
            Some(info) => match call_outcome(self.code, reply) {
                Ok(out) => Next::Done(Ok((info, out.bytes))),
                Err(e) => Next::Done(Err(e)),
            },
        }
    }
}

/// A value to write under a key.
#[derive(Copy, Clone, Debug, PartialEq, Eq, Structural)]
pub enum SmcValue {
    Flag(bool),
    I8(i8),
    U8(u8),
    I16(i16),
    U16(u16),
    I32(i32),
    U32(u32),
    Number(Fixed),
    Mode(FanMode),
}

impl SmcValue {
    /// The buffer that carries the value under the tag of `data_type`.
    pub open spec fn wire(self, data_type: DataType, order: ByteOrder) -> Result<
        Seq<u8>,
        CodecError,
    > {
        match self {
            SmcValue::Flag(v) => <bool as SmcType>::wire(v, data_type),
            SmcValue::I8(v) => <i8 as SmcType>::wire(v, data_type),
            SmcValue::U8(v) => <u8 as SmcType>::wire(v, data_type),
            SmcValue::I16(v) => <i16 as SmcType>::wire(v, data_type),
            SmcValue::U16(v) => <u16 as SmcType>::wire(v, data_type),
            SmcValue::I32(v) => <i32 as SmcType>::wire(v, data_type),
            SmcValue::U32(v) => <u32 as SmcType>::wire(v, data_type),
            SmcValue::Number(v) => Fixed::wire(v.raw, data_type, order),
            SmcValue::Mode(v) => <FanMode as SmcType>::wire(v, data_type),
        }
    }

    pub fn to_smc(&self, data_type: DataType, order: ByteOrder) -> (r: Result<SmcBytes, CodecError>)
        ensures
            wrote(r, self.wire(data_type, order)),
    {
        match self {
            SmcValue::Flag(v) => v.to_smc(data_type),
            SmcValue::I8(v) => v.to_smc(data_type),
            SmcValue::U8(v) => v.to_smc(data_type),
            SmcValue::I16(v) => v.to_smc(data_type),
            SmcValue::U16(v) => v.to_smc(data_type),
            SmcValue::I32(v) => v.to_smc(data_type),
            SmcValue::U32(v) => v.to_smc(data_type),
            SmcValue::Number(v) => v.to_smc(data_type, order),
            SmcValue::Mode(v) => v.to_smc(data_type),
        }
    }
}

/// The writing of one key. `info` is the key's type once the controller has
/// reported it.
#[derive(Copy, Clone, Debug, PartialEq, Eq, Structural)]
pub struct KeyWrite {
    pub code: u32,
    pub value: SmcValue,
    pub order: ByteOrder,
    pub info: Option<DataType>,
}

impl KeyWrite {
    /// Whether `p` is the request that this state waits to be answered.
    pub open spec fn asks(self, p: SmcParam) -> bool {
        match self.info {
            None => asks_type(p, self.code),
            Some(info) => match self.value.wire(info, self.order) {
                Ok(bytes) => asks_write(p, self.code, info.size, bytes),
                Err(_) => false,
            },
        }
    }

    /// What the writing comes to on `reply`, where it ends there. It ends
    /// before the second call where the reported type does not carry the value.
    pub open spec fn ends(self, reply: Reply) -> Option<Result<(), SmcError>> {
        match self.info {
            None => match reported_type(self.code, reply) {
                Ok(info) => match self.value.wire(info, self.order) {
                    Ok(_) => None,
                    Err(e) => Some(Err(SmcError::Codec(e))),
                },
                Err(e) => Some(Err(e)),
            },
            Some(info) => match outcome(self.code, reply) {
                Ok(_) => Some(Ok(())),
                Err(e) => Some(Err(e)),
            },
        }
    }

    /// The state after `reply`, where the writing goes on.
    pub open spec fn after(self, reply: Reply) -> KeyWrite {
        match reported_type(self.code, reply) {
            Ok(info) => KeyWrite { info: Some(info), ..self },
            Err(_) => self,
        }
    }

    /// Whether `r` is the step that `reply` leads to.
    pub open spec fn fed(self, reply: Reply, r: Next<KeyWrite, Result<(), SmcError>>) -> bool {
        match self.ends(reply) {
            Some(out) => r == Next::<KeyWrite, Result<(), SmcError>>::Done(out),
            None => r matches Next::Call(m, p) && m == self.after(reply) && m.asks(p),
        }
    }

    /// Begins to write `value` under `code`: the state, and the request to
    /// send first.
    pub fn begin(code: u32, value: SmcValue, order: ByteOrder) -> (r: (KeyWrite, SmcParam))
        ensures
            r.0 == (KeyWrite { code, value, order, info: None }),
            r.0.asks(r.1),
    {
        (KeyWrite { code, value, order, info: None }, info_request(code))
    }

    /// Takes the reply to the request that is out.
    pub fn feed(self, reply: &Reply) -> (r: Next<KeyWrite, Result<(), SmcError>>)
        ensures
            self.fed(*reply, r),
    {
        match self.info {
            None => match key_information(self.code, reply) {
                Ok(info) => match self.value.to_smc(info, self.order) {
                    Ok(bytes) => Next::Call(
                        KeyWrite { code: self.code, value: self.value, order: self.order, info: Some(info) },
                        write_request(SmcKey { code: self.code, info }, bytes),
                    ),
                    Err(e) => Next::Done(Err(SmcError::Codec(e))),
                },
                Err(e) => Next::Done(Err(e)),
            },
            Some(info) => match call_outcome(self.code, reply) {
                Ok(_) => Next::Done(Ok(())),
                Err(e) => Next::Done(Err(e)),
            },
        }
    }
}

/// A key is read in two calls at most: after the first reply the reading has
/// ended, or it ends with the second, whatever the two replies are. The second
/// call asks for as many bytes as the first reply reported.
pub proof fn law_read_in_two(code: u32, first: Reply, second: Reply)
    ensures
        ({
            let begun = KeyRead { code, info: None };
            begun.ends(first) is Some || (begun.after(first).ends(second) is Some
                && begun.after(first).info == Some(reported_type(code, first)->Ok_0))
        }),
{
}

/// A key is written in two calls at most, and nothing is written where the
/// type that the first reply reported does not carry the value.
pub proof fn law_write_in_two(
    code: u32,
    value: SmcValue,
    order: ByteOrder,
    first: Reply,
    second: Reply,
)
    ensures
        ({
            let begun = KeyWrite { code, value, order, info: None };
            &&& begun.ends(first) is Some || begun.after(first).ends(second) is Some
            &&& match reported_type(code, first) {
                Ok(info) => value.wire(info, order) is Err ==> begun.ends(first) is Some,
                Err(_) => begun.ends(first) is Some,
            }
        }),
{
}

/// The value of type `T` that a raw value holds.
pub open spec fn typed<T: SmcType>(raw: RawValue) -> Result<T::V, SmcError> {
    match raw {
        Ok((info, bytes)) => match T::reading(info, bytes@) {
            Ok(v) => Ok(v),
            Err(e) => Err(SmcError::Codec(e)),
        },
        Err(e) => Err(e),
    }
}

/// Reads a raw value as a `T`.
pub fn read_as<T: SmcType>(raw: RawValue) -> (r: Result<T, SmcError>)
    ensures
        match r {
            Ok(v) => typed::<T>(raw) == Ok::<T::V, SmcError>(v@),
            Err(e) => typed::<T>(raw) == Err::<T::V, SmcError>(e),
        },
{
    match raw {
        Ok((info, bytes)) => match T::from_smc(info, bytes) {
            Ok(v) => Ok(v),
            Err(e) => Err(SmcError::Codec(e)),
        },
        Err(e) => Err(e),
    }
}

/// The number, in units of 1/65536, that a raw value holds.
pub open spec fn number(raw: RawValue, order: ByteOrder) -> Result<int, SmcError> {
    match raw {
        Ok((info, bytes)) => match Fixed::reading(info, bytes@, order) {
            Ok(v) => Ok(v),
            Err(e) => Err(SmcError::Codec(e)),
        },
        Err(e) => Err(e),
    }
}

/// The number that a raw value holds.
pub open spec fn fixed_of(raw: RawValue, order: ByteOrder) -> Result<Fixed, SmcError> {
    match number(raw, order) {
        Ok(n) => Ok(Fixed { raw: n as i64 }),
        Err(e) => Err(e),
    }
}

/// Reads a raw value as a number.
pub fn read_number(raw: RawValue, order: ByteOrder) -> (r: Result<Fixed, SmcError>)
    ensures
        r == fixed_of(raw, order),
{
    match raw {
        Ok((info, bytes)) => match Fixed::from_smc(info, bytes, order) {
            Ok(v) => Ok(v),
            Err(e) => Err(SmcError::Codec(e)),
        },
        Err(e) => Err(e),
    }
}

} // verus!
