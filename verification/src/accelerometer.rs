use vstd::prelude::*;

verus! {

/// Scale of the temperature computation of the BMA423 driver.
pub const BMA4_SCALE_TEMP: i32 = 1000i32;

/// The BMA423 reports temperatures as offsets from 23 degrees Celsius.
pub const BMA4_OFFSET_TEMP: i32 = 23i32;

/// The temperature in degrees Celsius of the BMA423's raw temperature register: the register
/// holds a two's complement offset from 23 degrees.
pub fn decode_temperature(data: u8) -> (r: i32)
    ensures
        r == (data as i8) as int + BMA4_OFFSET_TEMP,
{
    let tmpr: i32 = if data / 128 > 0 {
        let inverted: u8 = !(data - 1);
        assert(inverted as int == 256 - data) by (bit_vector)
            requires
                inverted == !((data - 1) as u8),
                data >= 128,
        ;
        -1 * inverted as i32
    } else {
        data as i32
    };
    assert(tmpr == (data as i8) as int) by (bit_vector)
        requires
            data >= 128 ==> tmpr == data - 256,
            data < 128 ==> tmpr == data,
    ;
    let tempr_raw: i32 = (tmpr + BMA4_OFFSET_TEMP) * BMA4_SCALE_TEMP;
    tempr_raw / BMA4_SCALE_TEMP
}

} // verus!
