use vstd::prelude::*;

verus! {

/// Length in bytes of one data frame read from the sensor.
pub const FRAME_LEN: usize = 29;

/// Sum of `0..=n`, as an unbounded integer.
pub open spec fn triangle(n: nat) -> nat
    decreases n,
{
    if n == 0 {
        0
    } else {
        n + triangle((n - 1) as nat)
    }
}

/// The value the frame's last byte is compared with: `0 + 1 + ... + 27`
/// reduced modulo 256. It depends on no byte of the frame.
pub open spec fn spec_checksum() -> u8 {
    (triangle(27) % 256) as u8
}

/// The checksum constant is 122: `0 + 1 + ... + 27 == 378`, and `378 % 256 == 122`.
pub proof fn lemma_checksum_value()
    ensures
        spec_checksum() == 122,
{
    reveal_with_fuel(triangle, 28);
    assert(triangle(27) == 378);
}

/// Computes the checksum constant with 8-bit wrapping additions.
pub fn expected_checksum() -> (r: u8)
    ensures
        r == spec_checksum(),
{
    let mut sum: u8 = 0;
    let mut i: u8 = 0;
    while i <= 27
        invariant
            i <= 28,
            i > 0 ==> sum as nat == triangle((i - 1) as nat) % 256,
            i == 0 ==> sum == 0,
        decreases 28 - i,
    {
        sum = sum.wrapping_add(i);
        i = i + 1;
    }
    sum
}

/// Failures of the driver, generic over the bus transport's own error.
#[derive(Debug)]
pub enum Error<E> {
    /// The bus transport failed; its error is passed on untouched.
    I2C(E),
    /// Input of the wrong shape was handed in (a frame of the wrong length).
    InvalidInputData,
    /// The frame's checksum byte does not hold the expected value.
    ChecksumFailed,
}

/// One reading of the sensor, in raw counts.
#[derive(Debug, Clone, Copy, PartialEq, Eq, Structural)]
pub struct Measurement {
    pub num_sensor: u16,
    pub std_pm1: u16,
    pub std_pm25: u16,
    pub std_pm10: u16,
    pub atm_pm1: u16,
    pub atm_pm25: u16,
    pub atm_pm10: u16,
}

/// The fields in order `num_sensor, std_pm1, std_pm25, std_pm10, atm_pm1,
/// atm_pm25, atm_pm10`.
pub open spec fn measurement_from_seq(a: Seq<u16>) -> Measurement
    recommends
        a.len() == 7,
{
    Measurement {
        num_sensor: a[0],
        std_pm1: a[1],
        std_pm25: a[2],
        std_pm10: a[3],
        atm_pm1: a[4],
        atm_pm25: a[5],
        atm_pm10: a[6],
    }
}

impl From<[u16; 7]> for Measurement {
    fn from(arr: [u16; 7]) -> (r: Measurement)
        ensures
            r == measurement_from_seq(arr@),
    {
        Measurement {
            num_sensor: arr[0],
            std_pm1: arr[1],
            std_pm25: arr[2],
            std_pm10: arr[3],
            atm_pm1: arr[4],
            atm_pm25: arr[5],
            atm_pm10: arr[6],
        }
    }
}

impl vstd::std_specs::convert::FromSpecImpl<[u16; 7]> for Measurement {
    open spec fn obeys_from_spec() -> bool {
        true
    }

    open spec fn from_spec(arr: [u16; 7]) -> Measurement {
        measurement_from_seq(arr@)
    }
}

/// The 16-bit integer with low byte `lo` and high byte `hi`.
pub open spec fn le_u16(lo: u8, hi: u8) -> u16 {
    (lo as int + 256 * hi as int) as u16
}

/// Field `k` of a frame: the little-endian pair at offsets `2 + 2k`, `3 + 2k`.
pub open spec fn frame_field(b: Seq<u8>, k: int) -> u16 {
    le_u16(b[2 + 2 * k], b[3 + 2 * k])
}

/// The measurement that the bytes at offsets 2 to 15 of a frame encode.
pub open spec fn measurement_of(b: Seq<u8>) -> Measurement {
    Measurement {
        num_sensor: frame_field(b, 0),
        std_pm1: frame_field(b, 1),
        std_pm25: frame_field(b, 2),
        std_pm10: frame_field(b, 3),
        atm_pm1: frame_field(b, 4),
        atm_pm25: frame_field(b, 5),
        atm_pm10: frame_field(b, 6),
    }
}

/// What decoding the bytes `b` gives: a wrong length is invalid input, a
/// last byte other than the checksum constant is a checksum failure, and
/// anything else is the measurement at offsets 2 to 15.
pub open spec fn decode_spec<E>(b: Seq<u8>) -> Result<Measurement, Error<E>> {
    if b.len() != FRAME_LEN {
        Err(Error::InvalidInputData)
    } else if b[28] != spec_checksum() {
        Err(Error::ChecksumFailed)
    } else {
        Ok(measurement_of(b))
    }
}

fn le_u16_at(buf: &[u8], i: usize) -> (r: u16)
    requires
        i + 1 < buf@.len(),
    ensures
        r == le_u16(buf@[i as int], buf@[i + 1]),
{
    let lo = buf[i] as u16;
    let hi = buf[i + 1] as u16;
    lo + hi * 256
}

/// Validates one frame and decodes the measurement it carries.
pub fn decode_frame<E>(buf: &[u8]) -> (r: Result<Measurement, Error<E>>)
    ensures
        r == decode_spec::<E>(buf@),
{
    if buf.len() != FRAME_LEN {
        return Err(Error::InvalidInputData);
    }
    if buf[28] != expected_checksum() {
        return Err(Error::ChecksumFailed);
    }
    let fields: [u16; 7] = [
        le_u16_at(buf, 2),
        le_u16_at(buf, 4),
        le_u16_at(buf, 6),
        le_u16_at(buf, 8),
        le_u16_at(buf, 10),
        le_u16_at(buf, 12),
        le_u16_at(buf, 14),
    ];
    Ok(Measurement::from(fields))
}

/// A frame of the right length whose last byte is the checksum constant
/// always decodes to a measurement, whatever bytes 0 to 27 hold.
pub proof fn lemma_valid_frame_decodes<E>(b: Seq<u8>)
    requires
        b.len() == FRAME_LEN,
        b[28] == spec_checksum(),
    ensures
        decode_spec::<E>(b) == Ok::<Measurement, Error<E>>(measurement_of(b)),
{
}

/// A frame of the right length whose last byte differs from the checksum
/// constant always fails with `ChecksumFailed` and yields no measurement.
pub proof fn lemma_bad_checksum_fails<E>(b: Seq<u8>)
    requires
        b.len() == FRAME_LEN,
        b[28] != spec_checksum(),
    ensures
        decode_spec::<E>(b) == Err::<Measurement, Error<E>>(Error::ChecksumFailed),
{
}

/// Decoding depends on the input bytes alone: two equal frames decode to
/// the same result.
pub proof fn lemma_decode_deterministic<E>(a: Seq<u8>, b: Seq<u8>)
    requires
        a == b,
    ensures
        decode_spec::<E>(a) == decode_spec::<E>(b),
{
}

/// The checksum looks at no payload byte: two frames that agree on offsets
/// 2 to 15 and on their last byte decode to the same result.
pub proof fn lemma_decode_ignores_other_bytes<E>(a: Seq<u8>, b: Seq<u8>)
    requires
        a.len() == FRAME_LEN,
        b.len() == FRAME_LEN,
        a[28] == b[28],
        forall|i: int| 2 <= i < 16 ==> a[i] == b[i],
    ensures
        decode_spec::<E>(a) == decode_spec::<E>(b),
{
    assert(measurement_of(a) == measurement_of(b));
}

/// The fields of a decoded frame are the seven little-endian pairs at
/// offsets 2 to 15, in the order `num_sensor, std_pm1, std_pm25, std_pm10,
/// atm_pm1, atm_pm25, atm_pm10`.
pub proof fn lemma_field_positions<E>(b: Seq<u8>)
    requires
        b.len() == FRAME_LEN,
        b[28] == spec_checksum(),
    ensures
        decode_spec::<E>(b) matches Ok(m) && m.num_sensor == le_u16(b[2], b[3]) && m.std_pm1
            == le_u16(b[4], b[5]) && m.std_pm25 == le_u16(b[6], b[7]) && m.std_pm10 == le_u16(
            b[8],
            b[9],
        ) && m.atm_pm1 == le_u16(b[10], b[11]) && m.atm_pm25 == le_u16(b[12], b[13])
            && m.atm_pm10 == le_u16(b[14], b[15]),
{
}

} // verus!
