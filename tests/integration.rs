use bmi088::decode::temperature_raw;

#[test]
fn test_convert_uint8_to_int16() {
    let temp_msb = 0xc1;
    let temp_lsb = 0x00;
    let temperature = temperature_raw(temp_msb, temp_lsb);
    assert_eq!(temperature, -504);
}
