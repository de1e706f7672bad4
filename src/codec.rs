use vstd::prelude::*;

use crate::usage::DataType;

verus! {

/// Why a chunk of raw bytes cannot be decoded into whole samples.
#[derive(Clone, Copy, Debug, PartialEq, Eq, Structural)]
pub enum DecodeError {
    /// The byte count is not a multiple of the bytes per complex sample.
    PartialSample,
}

/// The signed 16-bit value whose little-endian bytes are `lo`, `hi`.
pub open spec fn le_i16(lo: u8, hi: u8) -> int {
    let u = lo as int + 256 * hi as int;
    if u < 32768 {
        u
    } else {
        u - 65536
    }
}

/// The unsigned 32-bit value whose little-endian bytes are `b0` .. `b3`.
pub open spec fn le_u32(b0: u8, b1: u8, b2: u8, b3: u8) -> int {
    b0 as int + 256 * b1 as int + 65536 * b2 as int + 16777216 * b3 as int
}

/// Low byte of the two's-complement form of a signed 16-bit value.
pub open spec fn i16_low(v: i16) -> int {
    (if v < 0 { v as int + 65536 } else { v as int }) % 256
}

/// High byte of the two's-complement form of a signed 16-bit value.
pub open spec fn i16_high(v: i16) -> int {
    (if v < 0 { v as int + 65536 } else { v as int }) / 256
}

/// Byte `k` (0 is the least significant) of an unsigned 32-bit value.
pub open spec fn u32_byte(w: u32, k: int) -> int {
    if k == 0 {
        w as int % 256
    } else if k == 1 {
        (w as int / 256) % 256
    } else if k == 2 {
        (w as int / 65536) % 256
    } else {
        w as int / 16777216
    }
}

fn read_i16_le(b: &[u8], at: usize) -> (r: i16)
    requires
        at + 1 < b@.len(),
    ensures
        r as int == le_i16(b@[at as int], b@[at + 1]),
{
    let u: i32 = b[at] as i32 + 256 * (b[at + 1] as i32);
    if u < 32768 {
        u as i16
    } else {
        (u - 65536) as i16
    }
}

fn read_u32_le(b: &[u8], at: usize) -> (r: u32)
    requires
        at + 3 < b@.len(),
    ensures
        r as int == le_u32(b@[at as int], b@[at + 1], b@[at + 2], b@[at + 3]),
{
    b[at] as u32 + 256 * (b[at + 1] as u32) + 65536 * (b[at + 2] as u32) + 16777216 * (
    b[at + 3] as u32)
}

/// Decodes little-endian 16-bit integer I/Q pairs, four bytes per sample.
pub fn decode_i16_iq(bytes: &[u8]) -> (r: Result<Vec<(i16, i16)>, DecodeError>)
    ensures
        bytes@.len() % 4 != 0 <==> r.is_err(),
        match r {
            Ok(v) => {
                &&& v@.len() * 4 == bytes@.len()
                &&& forall|k: int|
                    0 <= k < v@.len() ==> {
                        &&& #[trigger] v@[k].0 as int == le_i16(bytes@[4 * k], bytes@[4 * k + 1])
                        &&& v@[k].1 as int == le_i16(bytes@[4 * k + 2], bytes@[4 * k + 3])
                    }
            },
            Err(e) => e == DecodeError::PartialSample,
        },
{
    if bytes.len() % 4 != 0 {
        return Err(DecodeError::PartialSample);
    }
    let n: usize = bytes.len() / 4;
    let mut out: Vec<(i16, i16)> = Vec::with_capacity(n);
    let mut k: usize = 0;
    while k < n
        invariant
            n * 4 == bytes@.len(),
            bytes@.len() <= usize::MAX,
            k <= n,
            out@.len() == k,
            forall|j: int|
                0 <= j < k ==> {
                    &&& #[trigger] out@[j].0 as int == le_i16(bytes@[4 * j], bytes@[4 * j + 1])
                    &&& out@[j].1 as int == le_i16(bytes@[4 * j + 2], bytes@[4 * j + 3])
                },
        decreases n - k,
    {
        assert(4 * k + 3 < bytes@.len()) by (nonlinear_arith)
            requires
                k < n,
                n * 4 == bytes@.len(),
        ;
        let i = read_i16_le(bytes, 4 * k);
        let q = read_i16_le(bytes, 4 * k + 2);
        out.push((i, q));
        k = k + 1;
    }
    Ok(out)
}

/// Decodes little-endian 32-bit I/Q pairs, eight bytes per sample, into the bit patterns
/// of the two floating-point components.
pub fn decode_f32_bits_iq(bytes: &[u8]) -> (r: Result<Vec<(u32, u32)>, DecodeError>)
    ensures
        bytes@.len() % 8 != 0 <==> r.is_err(),
        match r {
            Ok(v) => {
                &&& v@.len() * 8 == bytes@.len()
                &&& forall|k: int|
                    0 <= k < v@.len() ==> {
                        &&& #[trigger] v@[k].0 as int == le_u32(
                            bytes@[8 * k],
                            bytes@[8 * k + 1],
                            bytes@[8 * k + 2],
                            bytes@[8 * k + 3],
                        )
                        &&& v@[k].1 as int == le_u32(
                            bytes@[8 * k + 4],
                            bytes@[8 * k + 5],
                            bytes@[8 * k + 6],
                            bytes@[8 * k + 7],
                        )
                    }
            },
            Err(e) => e == DecodeError::PartialSample,
        },
{
    if bytes.len() % 8 != 0 {
        return Err(DecodeError::PartialSample);
    }
    let n: usize = bytes.len() / 8;
    let mut out: Vec<(u32, u32)> = Vec::with_capacity(n);
    let mut k: usize = 0;
    while k < n
        invariant
            n * 8 == bytes@.len(),
            bytes@.len() <= usize::MAX,
            k <= n,
            out@.len() == k,
            forall|j: int|
                0 <= j < k ==> {
                    &&& #[trigger] out@[j].0 as int == le_u32(
                        bytes@[8 * j],
                        bytes@[8 * j + 1],
                        bytes@[8 * j + 2],
                        bytes@[8 * j + 3],
                    )
                    &&& out@[j].1 as int == le_u32(
                        bytes@[8 * j + 4],
                        bytes@[8 * j + 5],
                        bytes@[8 * j + 6],
                        bytes@[8 * j + 7],
                    )
                },
        decreases n - k,
    {
        assert(8 * k + 7 < bytes@.len()) by (nonlinear_arith)
            requires
                k < n,
                n * 8 == bytes@.len(),
        ;
        let i = read_u32_le(bytes, 8 * k);
        let q = read_u32_le(bytes, 8 * k + 4);
        out.push((i, q));
        k = k + 1;
    }
    Ok(out)
}

/// Encodes signed 16-bit values as little-endian bytes, two per value.
pub fn encode_i16_le(values: &[i16]) -> (r: Vec<u8>)
    requires
        values@.len() * 2 <= usize::MAX,
    ensures
        r@.len() == 2 * values@.len(),
        forall|k: int|
            0 <= k < values@.len() ==> {
                &&& #[trigger] r@[2 * k] as int == i16_low(values@[k])
                &&& r@[2 * k + 1] as int == i16_high(values@[k])
            },
{
    let mut out: Vec<u8> = Vec::with_capacity(2 * values.len());
    let mut k: usize = 0;
    while k < values.len()
        invariant
            values@.len() * 2 <= usize::MAX,
            k <= values@.len(),
            out@.len() == 2 * k,
            forall|j: int|
                0 <= j < k ==> {
                    &&& #[trigger] out@[2 * j] as int == i16_low(values@[j])
                    &&& out@[2 * j + 1] as int == i16_high(values@[j])
                },
        decreases values@.len() - k,
    {
        let v = values[k];
        let u: i32 = if v < 0 {
            v as i32 + 65536
        } else {
            v as i32
        };
        let ghost prev = out@;
        out.push((u % 256) as u8);
        out.push((u / 256) as u8);
        assert forall|j: int| 0 <= j < k implies #[trigger] out@[2 * j] == prev[2 * j] && out@[2 * j
            + 1] == prev[2 * j + 1] by {}
        k = k + 1;
    }
    out
}

/// Encodes unsigned 32-bit values (such as floating-point bit patterns) as little-endian
/// bytes, four per value.
pub fn encode_u32_le(values: &[u32]) -> (r: Vec<u8>)
    requires
        values@.len() * 4 <= usize::MAX,
    ensures
        r@.len() == 4 * values@.len(),
        forall|k: int, b: int|
            0 <= k < values@.len() && 0 <= b < 4 ==> #[trigger] r@[4 * k + b] as int == u32_byte(
                values@[k],
                b,
            ),
{
    let mut out: Vec<u8> = Vec::with_capacity(4 * values.len());
    let mut k: usize = 0;
    while k < values.len()
        invariant
            values@.len() * 4 <= usize::MAX,
            k <= values@.len(),
            out@.len() == 4 * k,
            forall|j: int, b: int|
                0 <= j < k && 0 <= b < 4 ==> #[trigger] out@[4 * j + b] as int == u32_byte(
                    values@[j],
                    b,
                ),
        decreases values@.len() - k,
    {
        let w = values[k];
        out.push((w % 256) as u8);
        out.push((w / 256 % 256) as u8);
        out.push((w / 65536 % 256) as u8);
        out.push((w / 16777216) as u8);
        k = k + 1;
    }
    out
}

/// The integer content of one decoded chunk: signed 16-bit components, or the bit
/// patterns of 32-bit floating-point components.
#[derive(Debug)]
pub enum RawSamples {
    I16(Vec<(i16, i16)>),
    F32Bits(Vec<(u32, u32)>),
}

impl RawSamples {
    pub open spec fn len_spec(self) -> nat {
        match self {
            RawSamples::I16(v) => v@.len(),
            RawSamples::F32Bits(v) => v@.len(),
        }
    }

    /// Number of complex samples held.
    pub fn len(&self) -> (r: usize)
        ensures
            r == self.len_spec(),
    {
        match self {
            RawSamples::I16(v) => v.len(),
            RawSamples::F32Bits(v) => v.len(),
        }
    }
}

/// Decodes one chunk of raw bytes in encoding `t`, one complex sample per
/// `t.sample_bytes_spec()` bytes.
pub fn decode_chunk(t: DataType, bytes: &[u8]) -> (r: Result<RawSamples, DecodeError>)
    ensures
        r.is_err() <==> bytes@.len() % t.sample_bytes_spec() != 0,
        match r {
            Ok(s) => {
                &&& s.len_spec() * t.sample_bytes_spec() == bytes@.len()
                &&& match (t, s) {
                    (DataType::I16, RawSamples::I16(v)) => forall|k: int|
                        0 <= k < v@.len() ==> {
                            &&& #[trigger] v@[k].0 as int == le_i16(
                                bytes@[4 * k],
                                bytes@[4 * k + 1],
                            )
                            &&& v@[k].1 as int == le_i16(bytes@[4 * k + 2], bytes@[4 * k + 3])
                        },
                    (DataType::F32, RawSamples::F32Bits(v)) => forall|k: int|
                        0 <= k < v@.len() ==> {
                            &&& #[trigger] v@[k].0 as int == le_u32(
                                bytes@[8 * k],
                                bytes@[8 * k + 1],
                                bytes@[8 * k + 2],
                                bytes@[8 * k + 3],
                            )
                            &&& v@[k].1 as int == le_u32(
                                bytes@[8 * k + 4],
                                bytes@[8 * k + 5],
                                bytes@[8 * k + 6],
                                bytes@[8 * k + 7],
                            )
                        },
                    _ => false,
                }
            },
            Err(e) => e == DecodeError::PartialSample,
        },
{
    match t {
        DataType::I16 => match decode_i16_iq(bytes) {
            Ok(v) => Ok(RawSamples::I16(v)),
            Err(e) => Err(e),
        },
        DataType::F32 => match decode_f32_bits_iq(bytes) {
            Ok(v) => Ok(RawSamples::F32Bits(v)),
            Err(e) => Err(e),
        },
    }
}

/// Largest magnitude of an integer output value: full scale is +-1 times this.
pub const FULL_SCALE: i32 = 32767;

/// Sign of a demodulated value; a value that is not a number counts as zero.
#[derive(Clone, Copy, Debug, PartialEq, Eq, Structural)]
pub enum Sign {
    Negative,
    Zero,
    Positive,
}

/// The integer output value for a demodulated value with sign `sign` and whose product with
/// `FULL_SCALE`, truncated toward zero, is `scaled`.
pub open spec fn shaped(squarewave: bool, sign: Sign, scaled: int) -> int {
    if squarewave {
        match sign {
            Sign::Negative => -FULL_SCALE,
            Sign::Zero => 0,
            Sign::Positive => FULL_SCALE as int,
        }
    } else if scaled > FULL_SCALE {
        FULL_SCALE as int
    } else if scaled < -FULL_SCALE {
        -FULL_SCALE
    } else {
        scaled
    }
}

/// Shapes one demodulated value for integer output: in squarewave mode it collapses to
/// -1, 0 or +1 by its sign, otherwise it is clamped to [-1, 1]; the result is scaled to
/// `FULL_SCALE`.
pub fn shape_i16(squarewave: bool, sign: Sign, scaled: i32) -> (r: i16)
    ensures
        r as int == shaped(squarewave, sign, scaled as int),
        -FULL_SCALE <= r <= FULL_SCALE,
{
    if squarewave {
        match sign {
            Sign::Negative => -32767,
            Sign::Zero => 0,
            Sign::Positive => 32767,
        }
    } else if scaled > FULL_SCALE {
        32767
    } else if scaled < -FULL_SCALE {
        -32767
    } else {
        scaled as i16
    }
}

/// Shapes a block of demodulated values, each given by its sign and its truncated product
/// with `FULL_SCALE`.
pub fn shape_i16_block(squarewave: bool, values: &[(Sign, i32)]) -> (r: Vec<i16>)
    ensures
        r@.len() == values@.len(),
        forall|k: int|
            0 <= k < values@.len() ==> #[trigger] r@[k] as int == shaped(
                squarewave,
                values@[k].0,
                values@[k].1 as int,
            ),
{
    let mut out: Vec<i16> = Vec::with_capacity(values.len());
    let mut k: usize = 0;
    while k < values.len()
        invariant
            k <= values@.len(),
            out@.len() == k,
            forall|j: int|
                0 <= j < k ==> #[trigger] out@[j] as int == shaped(
                    squarewave,
                    values@[j].0,
                    values@[j].1 as int,
                ),
        decreases values@.len() - k,
    {
        let (sign, scaled) = values[k];
        out.push(shape_i16(squarewave, sign, scaled));
        k = k + 1;
    }
    out
}

/// The two little-endian bytes that encode a signed 16-bit value decode back to it.
pub proof fn i16_le_round_trip(v: i16)
    ensures
        0 <= i16_low(v) < 256,
        0 <= i16_high(v) < 256,
        le_i16(i16_low(v) as u8, i16_high(v) as u8) == v,
{
}

/// The four little-endian bytes that encode an unsigned 32-bit value decode back to it.
pub proof fn u32_le_round_trip(w: u32)
    ensures
        forall|k: int| 0 <= k < 4 ==> 0 <= #[trigger] u32_byte(w, k) < 256,
        le_u32(
            u32_byte(w, 0) as u8,
            u32_byte(w, 1) as u8,
            u32_byte(w, 2) as u8,
            u32_byte(w, 3) as u8,
        ) == w,
{
}

} // verus!
