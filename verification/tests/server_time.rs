use chat_server::decimal::{i64_to_decimal, u128_to_decimal};
use chat_server::server_time::{server_time_header, server_time_value, ServerTimeLayer};

#[test]
fn decimal_rendering() {
    assert_eq!(u128_to_decimal(0), "0");
    assert_eq!(u128_to_decimal(7), "7");
    assert_eq!(u128_to_decimal(10), "10");
    assert_eq!(u128_to_decimal(1234567890), "1234567890");
    assert_eq!(u128_to_decimal(u128::MAX), u128::MAX.to_string());
    assert_eq!(i64_to_decimal(0), "0");
    assert_eq!(i64_to_decimal(-1), "-1");
    assert_eq!(i64_to_decimal(42), "42");
    assert_eq!(i64_to_decimal(i64::MIN), i64::MIN.to_string());
    assert_eq!(i64_to_decimal(i64::MAX), i64::MAX.to_string());
}

#[test]
fn server_time_value_is_micros_then_us() {
    assert_eq!(server_time_value(0), "0us");
    assert_eq!(server_time_value(1534), "1534us");
    assert_eq!(server_time_value(1534), format!("{:?}us", 1534u128));
}

#[test]
fn server_time_header_is_valid() {
    let h = server_time_header(987).unwrap();
    assert_eq!(h.to_str().unwrap(), "987us");
    let h = server_time_header(u128::MAX).unwrap();
    assert_eq!(h.to_str().unwrap(), format!("{}us", u128::MAX));
}

#[test]
fn layer_wraps_the_service() {
    let m = ServerTimeLayer.layer(41u32);
    assert_eq!(m.into_inner(), 41u32);
}
