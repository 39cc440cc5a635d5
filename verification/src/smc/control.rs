//! Setting a fan: its mode, its lowest speed and the speed to aim at; and
//! reading the speed at which it runs.

use super::exchange::{fixed_of, read_as, read_number, typed, KeyRead, KeyWrite, Next, SmcValue};
use super::fan::{
    fan_key, fan_key_of, mask_with, min_speed_is_safe, speed_is_safe, write_managed, Fan,
    FanField,
};
use super::fixed::{ByteOrder, Fixed};
use super::{FanMode, Reply, SmcError, SmcParam, KEY_FAN_FORCED};
use vstd::prelude::*;

verus! {

/// The reading of a number under a key.
#[derive(Copy, Clone, Debug, PartialEq, Eq, Structural)]
pub struct NumberRead {
    pub order: ByteOrder,
    pub inner: KeyRead,
}

impl NumberRead {
    pub open spec fn asks(self, p: SmcParam) -> bool {
        self.inner.asks(p)
    }

    /// What the reading comes to on `reply`, where it ends there.
    pub open spec fn ends(self, reply: Reply) -> Option<Result<Fixed, SmcError>> {
        match self.inner.ends(reply) {
            Some(raw) => Some(fixed_of(raw, self.order)),
            None => None,
        }
    }

    pub open spec fn after(self, reply: Reply) -> NumberRead {
        NumberRead { order: self.order, inner: self.inner.after(reply) }
    }

    pub open spec fn fed(self, reply: Reply, r: Next<NumberRead, Result<Fixed, SmcError>>) -> bool {
        match self.ends(reply) {
            Some(out) => r == Next::<NumberRead, Result<Fixed, SmcError>>::Done(out),
            None => r matches Next::Call(m, p) && m == self.after(reply) && m.asks(p),
        }
    }

    /// Begins to read the number under `code`.
    pub fn begin(code: u32, order: ByteOrder) -> (r: (NumberRead, SmcParam))
        ensures
            r.0 == (NumberRead { order, inner: KeyRead { code, info: None } }),
            r.0.asks(r.1),
    {
        let (inner, p) = KeyRead::begin(code);
        (NumberRead { order, inner }, p)
    }

    /// Takes the reply to the request that is out.
    pub fn feed(self, reply: &Reply) -> (r: Next<NumberRead, Result<Fixed, SmcError>>)
        ensures
            self.fed(*reply, r),
    {
        match self.inner.feed(reply) {
            Next::Call(inner, p) => Next::Call(NumberRead { order: self.order, inner }, p),
            Next::Done(raw) => Next::Done(read_number(raw, self.order)),
        }
    }
}

/// How the setting of a mode is tried.
#[derive(Copy, Clone, Debug, PartialEq, Eq, Structural)]
pub enum ModePhase {
    /// The mode is being written under the fan's own key.
    Direct(KeyWrite),
    /// The mask of forced fans is being read.
    MaskRead(KeyRead),
    /// The mask of forced fans is being written, with the fan's bit changed.
    MaskWrite(KeyWrite),
}

/// The setting of a fan's mode: under the fan's own key, and where that fails
/// through the fan's bit in the mask of forced fans, which is written only
/// where the bit has to change.
pub struct ModeSet {
    pub fan: Fan,
    pub mode: FanMode,
    pub phase: ModePhase,
}

/// `fan` in the mode `mode`.
pub open spec fn in_mode(fan: Fan, mode: FanMode) -> Fan {
    Fan { mode, ..fan }
}

/// What the setting of something on a fan gives: the fan as it then is, and
/// whether it was set.
pub type Outcome = (Fan, Result<(), SmcError>);

impl ModeSet {
    pub open spec fn asks(self, p: SmcParam) -> bool {
        match self.phase {
            ModePhase::Direct(w) => w.asks(p),
            ModePhase::MaskRead(k) => k.asks(p),
            ModePhase::MaskWrite(w) => w.asks(p),
        }
    }

    /// The fan in the mode asked for: what a setting that succeeds gives.
    pub open spec fn set(self) -> Outcome {
        (in_mode(self.fan, self.mode), Ok(()))
    }

    /// What the setting comes to on `reply`, where it ends there. An error
    /// leaves the fan as it was.
    pub open spec fn ends(self, reply: Reply) -> Option<Outcome> {
        match self.phase {
            ModePhase::Direct(w) => match w.ends(reply) {
                Some(Ok(_)) => Some(self.set()),
                _ => None,
            },
            ModePhase::MaskRead(k) => match k.ends(reply) {
                Some(raw) => match typed::<u16>(raw) {
                    Ok(mask) => if mask_with(mask, self.fan.id, self.mode) == mask {
                        Some(self.set())
                    } else {
                        None
                    },
                    Err(e) => Some((self.fan, Err(e))),
                },
                None => None,
            },
            ModePhase::MaskWrite(w) => match w.ends(reply) {
                Some(Ok(_)) => Some(self.set()),
                Some(Err(e)) => Some((self.fan, Err(e))),
                None => None,
            },
        }
    }

    /// How the setting is tried after `reply`, where it goes on.
    pub open spec fn phase_after(self, reply: Reply) -> ModePhase {
        match self.phase {
            ModePhase::Direct(w) => match w.ends(reply) {
                Some(_) => ModePhase::MaskRead(KeyRead { code: KEY_FAN_FORCED, info: None }),
                None => ModePhase::Direct(w.after(reply)),
            },
            ModePhase::MaskRead(k) => match k.ends(reply) {
                Some(raw) => match typed::<u16>(raw) {
                    Ok(mask) => ModePhase::MaskWrite(
                        KeyWrite {
                            code: KEY_FAN_FORCED,
                            value: SmcValue::U16(mask_with(mask, self.fan.id, self.mode)),
                            order: self.fan.order,
                            info: None,
                        },
                    ),
                    Err(_) => self.phase,
                },
                None => ModePhase::MaskRead(k.after(reply)),
            },
            ModePhase::MaskWrite(w) => ModePhase::MaskWrite(w.after(reply)),
        }
    }

    pub open spec fn fed(self, reply: Reply, r: Next<ModeSet, Outcome>) -> bool {
        match self.ends(reply) {
            Some(out) => r == Next::<ModeSet, Outcome>::Done(out),
            None => r matches Next::Call(m, p) && m.fan == self.fan && m.mode == self.mode
                && m.phase == self.phase_after(reply) && m.asks(p),
        }
    }

    /// Whether `r` is how the setting of `mode` on `fan` begins.
    pub open spec fn begun(fan: Fan, mode: FanMode, r: Next<ModeSet, Outcome>) -> bool {
        match fan_key_of(fan.id, FanField::Mode) {
            Ok(key) => r matches Next::Call(m, p) && m.fan == fan && m.mode == mode && m.phase
                == ModePhase::Direct(
                KeyWrite { code: key, value: SmcValue::Mode(mode), order: fan.order, info: None },
            ) && m.asks(p),
            Err(e) => r == Next::<ModeSet, Outcome>::Done((fan, Err(e))),
        }
    }

    /// Begins to set `mode` on `fan`.
    pub fn begin(fan: Fan, mode: FanMode) -> (r: Next<ModeSet, Outcome>)
        ensures
            ModeSet::begun(fan, mode, r),
    {
        match fan_key(fan.id, FanField::Mode) {
            Ok(key) => {
                let (w, p) = KeyWrite::begin(key, SmcValue::Mode(mode), fan.order);
                Next::Call(ModeSet { fan, mode, phase: ModePhase::Direct(w) }, p)
            },
            Err(e) => Next::Done((fan, Err(e))),
        }
    }

    fn finish(fan: Fan, mode: FanMode) -> (r: Next<ModeSet, Outcome>)
        ensures
            r == Next::<ModeSet, Outcome>::Done((in_mode(fan, mode), Ok(()))),
    {
        let mut fan = fan;
        fan.mode = mode;
        Next::Done((fan, Ok(())))
    }

    /// Takes the reply to the request that is out.
    pub fn feed(self, reply: &Reply) -> (r: Next<ModeSet, Outcome>)
        ensures
            self.fed(*reply, r),
    {
        let ModeSet { fan, mode, phase } = self;
        match phase {
            ModePhase::Direct(w) => match w.feed(reply) {
                Next::Call(w2, p) => Next::Call(
                    ModeSet { fan, mode, phase: ModePhase::Direct(w2) },
                    p,
                ),
                Next::Done(Ok(_)) => ModeSet::finish(fan, mode),
                Next::Done(Err(_)) => {
                    let (k, p) = KeyRead::begin(KEY_FAN_FORCED);
                    Next::Call(ModeSet { fan, mode, phase: ModePhase::MaskRead(k) }, p)
                },
            },
            ModePhase::MaskRead(k) => match k.feed(reply) {
                Next::Call(k2, p) => Next::Call(
                    ModeSet { fan, mode, phase: ModePhase::MaskRead(k2) },
                    p,
                ),
                Next::Done(raw) => match read_as::<u16>(raw) {
                    Ok(mask) => {
                        let changed = write_managed(mask, fan.id, mode);
                        if changed == mask {
                            ModeSet::finish(fan, mode)
                        } else {
                            let (w, p) = KeyWrite::begin(
                                KEY_FAN_FORCED,
                                SmcValue::U16(changed),
                                fan.order,
                            );
                            Next::Call(ModeSet { fan, mode, phase: ModePhase::MaskWrite(w) }, p)
                        }
                    },
                    Err(e) => Next::Done((fan, Err(e))),
                },
            },
            ModePhase::MaskWrite(w) => match w.feed(reply) {
                Next::Call(w2, p) => Next::Call(
                    ModeSet { fan, mode, phase: ModePhase::MaskWrite(w2) },
                    p,
                ),
                Next::Done(Ok(_)) => ModeSet::finish(fan, mode),
                Next::Done(Err(e)) => Next::Done((fan, Err(e))),
            },
        }
    }
}

/// The setting of a fan's lowest speed.
pub struct MinSpeedSet {
    pub fan: Fan,
    pub speed: Fixed,
    pub write: KeyWrite,
}

/// `fan` with the lowest speed `speed`.
pub open spec fn with_min_speed(fan: Fan, speed: Fixed) -> Fan {
    Fan { min_speed: speed, ..fan }
}

impl MinSpeedSet {
    pub open spec fn asks(self, p: SmcParam) -> bool {
        self.write.asks(p)
    }

    /// What the setting comes to on `reply`, where it ends there.
    pub open spec fn ends(self, reply: Reply) -> Option<Outcome> {
        match self.write.ends(reply) {
            Some(Ok(_)) => Some((with_min_speed(self.fan, self.speed), Ok(()))),
            Some(Err(e)) => Some((self.fan, Err(e))),
            None => None,
        }
    }

    pub open spec fn fed(self, reply: Reply, r: Next<MinSpeedSet, Outcome>) -> bool {
        match self.ends(reply) {
            Some(out) => r == Next::<MinSpeedSet, Outcome>::Done(out),
            None => r matches Next::Call(m, p) && m.fan == self.fan && m.speed == self.speed
                && m.write == self.write.after(reply) && m.asks(p),
        }
    }

    /// Whether `r` is how the setting of the lowest speed begins: it ends at
    /// once, and nothing is sent, where the speed is not safe.
    pub open spec fn begun(fan: Fan, speed: Fixed, r: Next<MinSpeedSet, Outcome>) -> bool {
        if !min_speed_is_safe(speed, fan.max_speed) {
            r == Next::<MinSpeedSet, Outcome>::Done((fan, Err(SmcError::UnsafeFanSpeed)))
        } else {
            match fan_key_of(fan.id, FanField::Min) {
                Ok(key) => r matches Next::Call(m, p) && m.fan == fan && m.speed == speed
                    && m.write == (KeyWrite {
                    code: key,
                    value: SmcValue::Number(speed),
                    order: fan.order,
                    info: None,
                }) && m.asks(p),
                Err(e) => r == Next::<MinSpeedSet, Outcome>::Done((fan, Err(e))),
            }
        }
    }

    /// Begins to set the lowest speed of `fan`.
    pub fn begin(fan: Fan, speed: Fixed) -> (r: Next<MinSpeedSet, Outcome>)
        ensures
            MinSpeedSet::begun(fan, speed, r),
    {
        if speed.raw <= 0 || speed.raw > fan.max_speed.raw {
            return Next::Done((fan, Err(SmcError::UnsafeFanSpeed)));
        }
        match fan_key(fan.id, FanField::Min) {
            Ok(key) => {
                let (write, p) = KeyWrite::begin(key, SmcValue::Number(speed), fan.order);
                Next::Call(MinSpeedSet { fan, speed, write }, p)
            },
            Err(e) => Next::Done((fan, Err(e))),
        }
    }

    /// Takes the reply to the request that is out.
    pub fn feed(self, reply: &Reply) -> (r: Next<MinSpeedSet, Outcome>)
        ensures
            self.fed(*reply, r),
    {
        let MinSpeedSet { fan, speed, write } = self;
        match write.feed(reply) {
            Next::Call(w2, p) => Next::Call(MinSpeedSet { fan, speed, write: w2 }, p),
            Next::Done(Ok(_)) => {
                let mut fan = fan;
                fan.min_speed = speed;
                Next::Done((fan, Ok(())))
            },
            Next::Done(Err(e)) => Next::Done((fan, Err(e))),
        }
    }
}

/// How far the setting of a speed has come.
pub enum SpeedPhase {
    /// The fan is being put into the mode `Forced`.
    Force(ModeSet),
    /// The speed to aim at is being written.
    Target(Fan, KeyWrite),
}

/// The setting of the speed a fan is to run at: the fan is forced first, then
/// the speed is written.
pub struct SpeedSet {
    pub speed: Fixed,
    pub phase: SpeedPhase,
}

impl SpeedSet {
    pub open spec fn asks(self, p: SmcParam) -> bool {
        match self.phase {
            SpeedPhase::Force(m) => m.asks(p),
            SpeedPhase::Target(_, w) => w.asks(p),
        }
    }

    /// Whether `r` is what follows once `fan` is forced: the writing of the
    /// speed, or the end where no key can be made for it.
    pub open spec fn aims(fan: Fan, speed: Fixed, r: Next<SpeedSet, Outcome>) -> bool {
        match fan_key_of(fan.id, FanField::Target) {
            Ok(key) => r matches Next::Call(m, p) && m.speed == speed && m.phase
                == SpeedPhase::Target(
                fan,
                KeyWrite { code: key, value: SmcValue::Number(speed), order: fan.order, info: None },
            ) && m.asks(p),
            Err(e) => r == Next::<SpeedSet, Outcome>::Done((fan, Err(e))),
        }
    }

    /// Whether `r` is the step that `reply` leads to.
    pub open spec fn fed(self, reply: Reply, r: Next<SpeedSet, Outcome>) -> bool {
        match self.phase {
            SpeedPhase::Force(m) => match m.ends(reply) {
                Some((fan, Ok(_))) => SpeedSet::aims(fan, self.speed, r),
                Some((fan, Err(e))) => r == Next::<SpeedSet, Outcome>::Done((fan, Err(e))),
                None => r matches Next::Call(n, p) && (n.phase matches SpeedPhase::Force(m2) && (
                n.speed == self.speed && m.fed(reply, Next::<ModeSet, Outcome>::Call(m2, p)))),
            },
            SpeedPhase::Target(fan, w) => match w.ends(reply) {
                Some(out) => r == Next::<SpeedSet, Outcome>::Done((fan, out)),
                None => r matches Next::Call(n, p) && n.speed == self.speed && n.phase
                    == SpeedPhase::Target(fan, w.after(reply)) && n.asks(p),
            },
        }
    }

    /// Whether `r` is how the setting of the speed begins: it ends at once,
    /// and nothing is sent, where the speed is not safe.
    pub open spec fn begun(fan: Fan, speed: Fixed, r: Next<SpeedSet, Outcome>) -> bool {
        if !speed_is_safe(speed, fan.min_speed, fan.max_speed) {
            r == Next::<SpeedSet, Outcome>::Done((fan, Err(SmcError::UnsafeFanSpeed)))
        } else {
            match fan_key_of(fan.id, FanField::Mode) {
                Ok(_) => r matches Next::Call(n, p) && (n.phase matches SpeedPhase::Force(m) && (
                n.speed == speed && ModeSet::begun(
                    fan,
                    FanMode::Forced,
                    Next::<ModeSet, Outcome>::Call(m, p),
                ))),
                Err(e) => r == Next::<SpeedSet, Outcome>::Done((fan, Err(e))),
            }
        }
    }

    /// Begins to set the speed of `fan`.
    pub fn begin(fan: Fan, speed: Fixed) -> (r: Next<SpeedSet, Outcome>)
        ensures
            SpeedSet::begun(fan, speed, r),
    {
        if speed.raw <= fan.min_speed.raw || speed.raw > fan.max_speed.raw {
            return Next::Done((fan, Err(SmcError::UnsafeFanSpeed)));
        }
        match ModeSet::begin(fan, FanMode::Forced) {
            Next::Call(m, p) => Next::Call(SpeedSet { speed, phase: SpeedPhase::Force(m) }, p),
            Next::Done(out) => Next::Done(out),
        }
    }

    fn aim(fan: Fan, speed: Fixed) -> (r: Next<SpeedSet, Outcome>)
        ensures
            SpeedSet::aims(fan, speed, r),
    {
        match fan_key(fan.id, FanField::Target) {
            Ok(key) => {
                let (w, p) = KeyWrite::begin(key, SmcValue::Number(speed), fan.order);
                Next::Call(SpeedSet { speed, phase: SpeedPhase::Target(fan, w) }, p)
            },
            Err(e) => Next::Done((fan, Err(e))),
        }
    }

    /// Takes the reply to the request that is out.
    pub fn feed(self, reply: &Reply) -> (r: Next<SpeedSet, Outcome>)
        ensures
            self.fed(*reply, r),
    {
        let SpeedSet { speed, phase } = self;
        match phase {
            SpeedPhase::Force(m) => match m.feed(reply) {
                Next::Call(m2, p) => Next::Call(SpeedSet { speed, phase: SpeedPhase::Force(m2) }, p),
                Next::Done((fan, Ok(_))) => SpeedSet::aim(fan, speed),
                Next::Done((fan, Err(e))) => Next::Done((fan, Err(e))),
            },
            SpeedPhase::Target(fan, w) => match w.feed(reply) {
                Next::Call(w2, p) => Next::Call(
                    SpeedSet { speed, phase: SpeedPhase::Target(fan, w2) },
                    p,
                ),
                Next::Done(out) => Next::Done((fan, out)),
            },
        }
    }
}

impl Fan {
    /// Begins to set the fan's mode.
    pub fn set_mode(self, mode: FanMode) -> (r: Next<ModeSet, Outcome>)
        ensures
            ModeSet::begun(self, mode, r),
    {
        ModeSet::begin(self, mode)
    }

    /// Begins to set the fan's lowest speed. A speed of zero or less, or above
    /// the highest, is refused and nothing is sent.
    pub fn set_min_speed(self, speed: Fixed) -> (r: Next<MinSpeedSet, Outcome>)
        ensures
            MinSpeedSet::begun(self, speed, r),
    {
        MinSpeedSet::begin(self, speed)
    }

    /// Begins to set the speed the fan is to run at. A speed at or below the
    /// lowest, or above the highest, is refused and nothing is sent.
    pub fn set_current_speed(self, speed: Fixed) -> (r: Next<SpeedSet, Outcome>)
        ensures
            SpeedSet::begun(self, speed, r),
    {
        SpeedSet::begin(self, speed)
    }

    /// Begins to read the speed at which the fan runs.
    pub fn current_speed(&self) -> (r: Next<NumberRead, Result<Fixed, SmcError>>)
        ensures
            match fan_key_of(self.id, FanField::Actual) {
                Ok(key) => r matches Next::Call(m, p) && m == (NumberRead {
                    order: self.order,
                    inner: KeyRead { code: key, info: None },
                }) && m.asks(p),
                Err(e) => r == Next::<NumberRead, Result<Fixed, SmcError>>::Done(Err(e)),
            },
    {
        match fan_key(self.id, FanField::Actual) {
            Ok(key) => {
                let (m, p) = NumberRead::begin(key, self.order);
                Next::Call(m, p)
            },
            Err(e) => Next::Done(Err(e)),
        }
    }
}

/// A speed at the lowest speed is refused, and one at the highest is taken.
pub proof fn law_speed_bounds(speed: Fixed, min_speed: Fixed, max_speed: Fixed)
    ensures
        speed == min_speed ==> !speed_is_safe(speed, min_speed, max_speed),
        speed == max_speed && min_speed.raw < max_speed.raw ==> speed_is_safe(
            speed,
            min_speed,
            max_speed,
        ),
        speed_is_safe(speed, min_speed, max_speed) <==> !(speed.raw <= min_speed.raw || speed.raw
            > max_speed.raw),
{
}

} // verus!
