//! Readings as fixed-point numbers, and the IEEE-754 single format read and
//! written with integer arithmetic.

use vstd::prelude::*;
use vstd::std_specs::bits::*;

verus! {

/// A number with sixteen fractional bits: `raw` counts units of 1/65536.
#[derive(Copy, Clone, Debug, PartialEq, Eq, Structural, Hash)]
pub struct Fixed {
    pub raw: i64,
}

/// The order in which a host lays out the bytes of a word.
#[derive(Copy, Clone, Debug, PartialEq, Eq, Structural)]
pub enum ByteOrder {
    /// Least significant byte first.
    Little,
    /// Most significant byte first.
    Big,
}

/// Units of `Fixed::raw` in one.
pub const ONE: i64 = 65536;

/// The largest magnitude a `Fixed` takes from a float.
pub const LIMIT: u64 = 0x7fff_ffff_ffff_ffff;

/// The word that four bytes write in the given order.
pub open spec fn word_of(b: Seq<u8>, order: ByteOrder) -> u32
    recommends
        b.len() >= 4,
{
    match order {
        ByteOrder::Big => (((b[0] as int * 256 + b[1] as int) * 256 + b[2] as int) * 256
            + b[3] as int) as u32,
        ByteOrder::Little => (((b[3] as int * 256 + b[2] as int) * 256 + b[1] as int) * 256
            + b[0] as int) as u32,
    }
}

/// The four bytes that write `w` in the given order.
pub open spec fn bytes_of(w: u32, order: ByteOrder) -> Seq<u8> {
    let b0 = (w / 0x100_0000) as u8;
    let b1 = (w / 0x1_0000 % 256) as u8;
    let b2 = (w / 0x100 % 256) as u8;
    let b3 = (w % 256) as u8;
    match order {
        ByteOrder::Big => seq![b0, b1, b2, b3],
        ByteOrder::Little => seq![b3, b2, b1, b0],
    }
}

/// The exponent field of an IEEE-754 single.
pub open spec fn exponent_field(bits: u32) -> u32 {
    (bits >> 23) & 0xff
}

/// The fraction field of an IEEE-754 single.
pub open spec fn fraction_field(bits: u32) -> u32 {
    bits & 0x7f_ffff
}

/// The magnitude of the single `bits`, in units of 1/65536 and cut off towards
/// zero. A normal single is `(2^23 + fraction) * 2^(exponent - 150)`, so in
/// these units `(2^23 + fraction) * 2^(exponent - 134)`. What lies at or above
/// 2^63, an infinity too, gives `LIMIT`; a NaN and a subnormal give 0.
pub open spec fn float_magnitude(bits: u32) -> u64 {
    let e = exponent_field(bits);
    let sig = (0x80_0000 | fraction_field(bits)) as u64;
    if e == 255 {
        if fraction_field(bits) == 0 {
            LIMIT
        } else {
            0
        }
    } else if e >= 174 {
        LIMIT
    } else if e >= 134 {
        sig << ((e - 134) as u64)
    } else if e >= 111 {
        sig >> ((134 - e) as u64)
    } else {
        0
    }
}

/// The single `bits` in units of 1/65536, cut off towards zero.
pub open spec fn float_to_raw(bits: u32) -> int {
    if bits >> 31 == 1 {
        -(float_magnitude(bits) as int)
    } else {
        float_magnitude(bits) as int
    }
}

/// The magnitude of `raw`.
pub open spec fn magnitude(raw: i64) -> u64 {
    if raw < 0 {
        (-(raw as int)) as u64
    } else {
        raw as u64
    }
}

/// The index of the highest set bit of a word that is not zero.
pub open spec fn top_bit(mag: u64) -> u32 {
    (63 - u64_leading_zeros(mag)) as u32
}

/// The 24 leading bits of `mag`, which has more than 24, rounded to the
/// nearest, a tie to the even one. The result may be 2^24.
pub open spec fn rounded_significand(mag: u64, shift: u64) -> u64 {
    let kept = mag >> shift;
    let rest = mag & (((1u64 << shift) - 1) as u64);
    let half = 1u64 << ((shift - 1) as u64);
    if rest > half || (rest == half && kept & 1 == 1) {
        (kept + 1) as u64
    } else {
        kept
    }
}

/// The IEEE-754 single nearest to `raw / 65536`, a tie going to the even
/// fraction. Zero is written with the sign bit clear.
pub open spec fn float_bits_of(raw: i64) -> u32 {
    let mag = magnitude(raw);
    let sign: u32 = if raw < 0 {
        0x8000_0000
    } else {
        0
    };
    if mag == 0 {
        0
    } else {
        let top = top_bit(mag);
        if top <= 23 {
            let sig = mag << ((23 - top) as u64);
            sign | ((top + 111) as u32) << 23 | (sig & 0x7f_ffff) as u32
        } else {
            let sig = rounded_significand(mag, (top - 23) as u64);
            if sig == 0x100_0000 {
                sign | ((top + 112) as u32) << 23
            } else {
                sign | ((top + 111) as u32) << 23 | (sig & 0x7f_ffff) as u32
            }
        }
    }
}

/// `u16::from_ne_bytes` of the bytes 1 and 0, in this order. What it gives
/// depends on the host, so nothing is claimed of it.
#[verifier::external_body]
fn host_word() -> u16 {
    u16::from_ne_bytes([1, 0])
}

/// The byte order of this host: that in which it writes the bytes 1 and 0.
pub fn host_order() -> ByteOrder {
    order_of_word(host_word())
}

/// The word that the bytes 1 and 0, in this order, write in the given order.
pub open spec fn probe_word(order: ByteOrder) -> u16 {
    match order {
        ByteOrder::Little => 1,
        ByteOrder::Big => 0x100,
    }
}

/// The order in which the bytes 1 and 0 write `word`: least significant first
/// where they write 1, and most significant first for every other word.
pub fn order_of_word(word: u16) -> (r: ByteOrder)
    ensures
        r == (if word == 1 {
            ByteOrder::Little
        } else {
            ByteOrder::Big
        }),
        word == 1 || word == 0x100 ==> probe_word(r) == word,
{
    if word == 1 {
        ByteOrder::Little
    } else {
        ByteOrder::Big
    }
}

impl Fixed {
    /// The whole number `n`.
    pub fn from_int(n: i32) -> (r: Fixed)
        ensures
            r.raw == n * 65536,
    {
        Fixed { raw: (n as i64) * 65536 }
    }

    /// The number that the IEEE-754 single `bits` writes, cut off towards zero
    /// at 1/65536 and held within `LIMIT`.
    pub fn from_float_bits(bits: u32) -> (r: Fixed)
        ensures
            r.raw == float_to_raw(bits),
    {
        let e: u32 = (bits >> 23) & 0xff;
        let frac: u32 = bits & 0x7f_ffff;
        let sig: u64 = (0x80_0000 | frac) as u64;
        assert(((bits >> 23) & 0xff) < 256) by (bit_vector);
        assert((0x80_0000u32 | (bits & 0x7f_ffffu32)) < 0x100_0000) by (bit_vector);
        let mag: u64 = if e == 255 {
            if frac == 0 {
                LIMIT
            } else {
                0
            }
        } else if e >= 174 {
            LIMIT
        } else if e >= 134 {
            let k: u64 = (e - 134) as u64;
            assert(sig < 0x100_0000 && k <= 39 ==> (sig << k) <= 0x7fff_ffff_ffff_ffffu64)
                by (bit_vector);
            sig << k
        } else if e >= 111 {
            let k: u64 = (134 - e) as u64;
            assert(sig < 0x100_0000 ==> (sig >> k) <= 0x7fff_ffff_ffff_ffffu64) by (bit_vector);
            sig >> k
        } else {
            0
        };
        if bits >> 31 == 1 {
            Fixed { raw: -(mag as i64) }
        } else {
            Fixed { raw: mag as i64 }
        }
    }

    /// The IEEE-754 single nearest to this number.
    pub fn to_float_bits(self) -> (bits: u32)
        ensures
            bits == float_bits_of(self.raw),
    {
        let mag: u64 = if self.raw < 0 {
            if self.raw == i64::MIN {
                0x8000_0000_0000_0000
            } else {
                (-self.raw) as u64
            }
        } else {
            self.raw as u64
        };
        let sign: u32 = if self.raw < 0 {
            0x8000_0000
        } else {
            0
        };
        if mag == 0 {
            return 0;
        }
        proof {
            axiom_u64_leading_zeros(mag);
        }
        let top: u32 = 63 - mag.leading_zeros();
        if top <= 23 {
            let sig: u64 = mag << ((23 - top) as u64);
            assert((sig & 0x7f_ffff) <= 0x7f_ffff) by (bit_vector);
            sign | (top + 111) << 23 | (sig & 0x7f_ffff) as u32
        } else {
            let shift: u64 = (top - 23) as u64;
            let kept: u64 = mag >> shift;
            assert(1 <= shift < 64 ==> (mag >> shift) <= 0x7fff_ffff_ffff_ffffu64) by (bit_vector);
            assert(1 <= shift < 64 ==> (1u64 << shift) >= 1) by (bit_vector);
            let rest: u64 = mag & ((1u64 << shift) - 1);
            let half: u64 = 1u64 << (shift - 1);
            let sig: u64 = if rest > half || (rest == half && kept & 1 == 1) {
                kept + 1
            } else {
                kept
            };
            if sig == 0x100_0000 {
                sign | (top + 112) << 23
            } else {
                assert((sig & 0x7f_ffff) <= 0x7f_ffff) by (bit_vector);
                sign | (top + 111) << 23 | (sig & 0x7f_ffff) as u32
            }
        }
    }
}

} // verus!
