//! Fans: their keys, the policy on speeds, and the exchanges that read and
//! set them.

use super::code::{be32, code_of, key_code, lemma_code_of_ascii, KeyFault};
use super::fixed::{ByteOrder, Fixed};
use super::{FanMode, SmcError};
use crate::text::{decimal, decimal_digits, push_char};
use vstd::prelude::*;

verus! {

/// The lowest speed assumed of a fan that does not tell its own: 2500.
pub const DEFAULT_MIN_SPEED: i64 = 163_840_000;

/// The highest speed assumed of a fan that does not tell its own: 4000.
pub const DEFAULT_MAX_SPEED: i64 = 262_144_000;

/// One hundred, in units of 1/65536.
pub const PERCENT_SCALE: i64 = 6_553_600;

/// What a fan's key is about.
#[derive(Copy, Clone, Debug, PartialEq, Eq, Structural)]
pub enum FanField {
    /// `Mn`: the lowest speed.
    Min,
    /// `Mx`: the highest speed.
    Max,
    /// `Ac`: the speed at present.
    Actual,
    /// `Md`: the mode.
    Mode,
    /// `Tg`: the speed aimed at.
    Target,
    /// `ID`: the descriptor.
    Ident,
}

impl FanField {
    /// The two characters that end the key's name.
    pub open spec fn suffix(self) -> Seq<char> {
        match self {
            FanField::Min => seq!['M', 'n'],
            FanField::Max => seq!['M', 'x'],
            FanField::Actual => seq!['A', 'c'],
            FanField::Mode => seq!['M', 'd'],
            FanField::Target => seq!['T', 'g'],
            FanField::Ident => seq!['I', 'D'],
        }
    }

    fn letters(self) -> (r: (char, char))
        ensures
            seq![r.0, r.1] == self.suffix(),
    {
        match self {
            FanField::Min => ('M', 'n'),
            FanField::Max => ('M', 'x'),
            FanField::Actual => ('A', 'c'),
            FanField::Mode => ('M', 'd'),
            FanField::Target => ('T', 'g'),
            FanField::Ident => ('I', 'D'),
        }
    }
}

/// The name of the key of fan `id` about `field`: `F`, the fan's number in
/// decimal, and the field's two characters.
pub open spec fn fan_key_name(id: u32, field: FanField) -> Seq<char> {
    seq!['F'] + decimal_digits(id as nat) + field.suffix()
}

/// The key of fan `id` about `field`, if its name is a four-character code.
pub open spec fn fan_key_of(id: u32, field: FanField) -> Result<u32, SmcError> {
    match code_of(fan_key_name(id, field)) {
        Ok(code) => Ok(code),
        Err(fault) => Err(SmcError::Key(fault)),
    }
}

/// The key of fan `id` about `field`.
pub fn fan_key(id: u32, field: FanField) -> (r: Result<u32, SmcError>)
    ensures
        r == fan_key_of(id, field),
{
    let mut name = String::new();
    push_char(&mut name, 'F');
    let digits = decimal(id);
    name.append(digits.as_str());
    let (a, b) = field.letters();
    push_char(&mut name, a);
    push_char(&mut name, b);
    assert(name@ =~= fan_key_name(id, field));
    match key_code(name.as_str()) {
        Ok(code) => Ok(code),
        Err(fault) => Err(SmcError::Key(fault)),
    }
}

/// The fans 0 to 9 have keys: `F`, the digit and the field's two characters.
/// No other fan has one.
pub proof fn law_fan_keys(id: u32, field: FanField)
    ensures
        id < 10 ==> fan_key_of(id, field) == Ok::<u32, SmcError>(
            be32(seq![0x46u8, (0x30 + id) as u8, field.suffix()[0] as u8, field.suffix()[1] as u8]),
        ),
        id >= 10 ==> fan_key_of(id, field) == Err::<u32, SmcError>(
            SmcError::Key(KeyFault::TooLong),
        ),
{
    let name = fan_key_name(id, field);
    let digits = decimal_digits(id as nat);
    if id < 10 {
        assert(digits =~= seq![crate::text::digit_char(id as nat)]);
        assert(name =~= seq!['F', digits[0], field.suffix()[0], field.suffix()[1]]);
        lemma_code_of_ascii(name);
    } else {
        crate::text::lemma_decimal_len(id as nat);
        crate::text::lemma_decimal_is_ascii(id as nat);
        assert(vstd::utf8::is_ascii_chars(name)) by {
            assert forall|i: int| 0 <= i < name.len() implies '\0' <= #[trigger] name[i]
                <= '\u{7f}' by {
                if 1 <= i < 1 + digits.len() {
                    assert(name[i] == digits[i - 1]);
                }
            }
        }
        vstd::utf8::is_ascii_chars_encode_utf8(name);
    }
}

/// Whether the bit of fan `id` is set in the mask of forced fans.
pub open spec fn forced_bit(mask: u16, id: u32) -> bool {
    id < 16 && mask & (1u16 << (id as u16)) != 0
}

/// The mask of forced fans with the bit of fan `id` set for `Forced` and
/// cleared for `Auto`.
pub open spec fn mask_with(mask: u16, id: u32, mode: FanMode) -> u16 {
    if id >= 16 {
        mask
    } else if mode == FanMode::Forced {
        mask | (1u16 << (id as u16))
    } else {
        mask & !(1u16 << (id as u16))
    }
}

/// Whether the bit of fan `id` is set in `mask`.
pub fn read_is_forced(mask: u16, id: u32) -> (r: bool)
    ensures
        r == forced_bit(mask, id),
{
    id < 16 && mask & (1u16 << (id as u16)) != 0
}

/// `mask` with the bit of fan `id` set as `mode` asks.
pub fn write_managed(mask: u16, id: u32, mode: FanMode) -> (r: u16)
    ensures
        r == mask_with(mask, id, mode),
{
    if id >= 16 {
        mask
    } else {
        match mode {
            FanMode::Forced => mask | (1u16 << (id as u16)),
            FanMode::Auto => mask & !(1u16 << (id as u16)),
        }
    }
}

/// Setting a fan's bit as a mode asks makes the bit read as that mode, and a
/// second setting changes nothing.
pub proof fn law_mask_round_trip(mask: u16, id: u32, mode: FanMode)
    requires
        id < 16,
    ensures
        forced_bit(mask_with(mask, id, mode), id) == (mode == FanMode::Forced),
        mask_with(mask_with(mask, id, mode), id, mode) == mask_with(mask, id, mode),
        forced_bit(mask, id) == (mode == FanMode::Forced) ==> mask_with(mask, id, mode) == mask,
{
    let k: u16 = id as u16;
    assert(k < 16 ==> (mask | (1u16 << k)) & (1u16 << k) != 0 && (mask & !(1u16 << k)) & (1u16
        << k) == 0 && (mask | (1u16 << k)) | (1u16 << k) == mask | (1u16 << k) && (mask & !(1u16
        << k)) & !(1u16 << k) == mask & !(1u16 << k) && (mask & (1u16 << k) != 0 ==> mask | (1u16
        << k) == mask) && (mask & (1u16 << k) == 0 ==> mask & !(1u16 << k) == mask))
        by (bit_vector);
}

/// What a fan tells of itself besides its name.
#[derive(Copy, Clone, Debug, PartialEq, Eq, Structural)]
pub struct FanFacts {
    pub mode: FanMode,
    pub min_speed: Fixed,
    pub max_speed: Fixed,
}

/// A fan.
#[derive(Clone, Debug)]
pub struct Fan {
    pub id: u32,
    pub name: String,
    pub mode: FanMode,
    pub min_speed: Fixed,
    pub max_speed: Fixed,
    pub order: ByteOrder,
}

/// A fan, with its name as text.
pub struct FanView {
    pub id: u32,
    pub name: Seq<char>,
    pub facts: FanFacts,
    pub order: ByteOrder,
}

impl View for Fan {
    type V = FanView;

    open spec fn view(&self) -> FanView {
        FanView {
            id: self.id,
            name: self.name@,
            facts: FanFacts {
                mode: self.mode,
                min_speed: self.min_speed,
                max_speed: self.max_speed,
            },
            order: self.order,
        }
    }
}

/// Whether `speed` may be set as the speed of a fan with these bounds: above
/// the lowest, and not above the highest.
pub open spec fn speed_is_safe(speed: Fixed, min_speed: Fixed, max_speed: Fixed) -> bool {
    min_speed.raw < speed.raw <= max_speed.raw
}

/// Whether `speed` may be set as the lowest speed of a fan with this highest
/// speed: above zero, and not above the highest.
pub open spec fn min_speed_is_safe(speed: Fixed, max_speed: Fixed) -> bool {
    0 < speed.raw <= max_speed.raw
}

/// How far `current` lies above `min_speed`, and zero where it lies below.
pub open spec fn rpm_of(current: Fixed, min_speed: Fixed) -> int {
    if current.raw > min_speed.raw {
        current.raw - min_speed.raw
    } else {
        0
    }
}

/// `a / b` cut off towards zero, for `b` other than zero.
pub open spec fn cut_quotient(a: int, b: int) -> int {
    if (a < 0) == (b < 0) {
        (vstd::math::abs(a) / vstd::math::abs(b)) as int
    } else {
        -((vstd::math::abs(a) / vstd::math::abs(b)) as int)
    }
}

/// `v` held within what 64 bits take.
pub open spec fn held(v: int) -> i64 {
    if v > i64::MAX {
        i64::MAX
    } else if v < i64::MIN {
        i64::MIN
    } else {
        v as i64
    }
}

/// Where `current` stands between the lowest and the highest speed, in
/// hundredths of the way, cut off towards zero; 0 at or below the lowest.
/// There is none where the two bounds are one.
pub open spec fn percent_of(current: Fixed, min_speed: Fixed, max_speed: Fixed) -> Option<Fixed> {
    if max_speed.raw == min_speed.raw {
        None
    } else {
        Some(
            Fixed {
                raw: held(
                    cut_quotient(
                        rpm_of(current, min_speed) * PERCENT_SCALE,
                        max_speed.raw - min_speed.raw,
                    ),
                ),
            },
        )
    }
}

impl Fan {
    pub fn id(&self) -> (r: u32)
        ensures
            r == self.id,
    {
        self.id
    }

    pub fn name(&self) -> (r: &str)
        ensures
            r@ == self.name@,
    {
        self.name.as_str()
    }

    pub fn min_speed(&self) -> (r: Fixed)
        ensures
            r == self.min_speed,
    {
        self.min_speed
    }

    pub fn max_speed(&self) -> (r: Fixed)
        ensures
            r == self.max_speed,
    {
        self.max_speed
    }

    /// A fan of the given number and name with what it told of itself.
    pub fn new(id: u32, name: String, facts: FanFacts, order: ByteOrder) -> (r: Fan)
        ensures
            r.id == id,
            r.name == name,
            r.mode == facts.mode,
            r.min_speed == facts.min_speed,
            r.max_speed == facts.max_speed,
            r.order == order,
    {
        Fan {
            id,
            name,
            mode: facts.mode,
            min_speed: facts.min_speed,
            max_speed: facts.max_speed,
            order,
        }
    }

    /// How far `current` lies above the lowest speed.
    pub fn rpm(&self, current: Fixed) -> (r: Fixed)
        ensures
            r.raw == held(rpm_of(current, self.min_speed)),
    {
        if current.raw > self.min_speed.raw {
            let d: i128 = current.raw as i128 - self.min_speed.raw as i128;
            if d > i64::MAX as i128 {
                Fixed { raw: i64::MAX }
            } else {
                Fixed { raw: d as i64 }
            }
        } else {
            Fixed { raw: 0 }
        }
    }

    /// Where `current` stands between the lowest and the highest speed.
    pub fn percent(&self, current: Fixed) -> (r: Option<Fixed>)
        ensures
            r == percent_of(current, self.min_speed, self.max_speed),
    {
        if self.max_speed.raw == self.min_speed.raw {
            return None;
        }
        let rpm: i128 = if current.raw > self.min_speed.raw {
            current.raw as i128 - self.min_speed.raw as i128
        } else {
            0
        };
        let span: i128 = self.max_speed.raw as i128 - self.min_speed.raw as i128;
        let top: i128 = rpm * (PERCENT_SCALE as i128);
        let below: i128 = if span < 0 {
            -span
        } else {
            span
        };
        let q: i128 = top / below;
        let signed: i128 = if span < 0 {
            -q
        } else {
            q
        };
        assert(signed == cut_quotient(rpm_of(current, self.min_speed) * PERCENT_SCALE, span as int));
        if signed > i64::MAX as i128 {
            Some(Fixed { raw: i64::MAX })
        } else if signed < i64::MIN as i128 {
            Some(Fixed { raw: i64::MIN })
        } else {
            Some(Fixed { raw: signed as i64 })
        }
    }
}

/// Below the lowest speed a fan stands at nought of the way, and at the
/// highest speed at a hundred.
pub proof fn law_percent_bounds(current: Fixed, min_speed: Fixed, max_speed: Fixed)
    requires
        min_speed.raw < max_speed.raw,
    ensures
        current.raw <= min_speed.raw ==> percent_of(current, min_speed, max_speed) == Some(
            Fixed { raw: 0 },
        ),
        current.raw == max_speed.raw ==> percent_of(current, min_speed, max_speed) == Some(
            Fixed { raw: PERCENT_SCALE },
        ),
{
    let span = max_speed.raw - min_speed.raw;
    assert(span * PERCENT_SCALE / span == PERCENT_SCALE) by (nonlinear_arith)
        requires
            span > 0,
    ;
    assert(0 * PERCENT_SCALE == 0);
    assert(0int / span == 0) by (nonlinear_arith)
        requires
            span > 0,
    ;
}

} // verus!
