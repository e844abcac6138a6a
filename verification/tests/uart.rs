use mlog_pico::uart::{UartData, UART_BUFFER_SIZE};
use mlog_pico::value::{SensorTag, Value};
use mlog_pico::Outcome;
use widestring::U16String;

#[test]
fn read_takes_the_ready_byte_at_address_zero() {
    assert_eq!(UartData::read(Value::Num(0), Some(65)), Value::Num(65));
    assert_eq!(UartData::read(Value::Num(0), None), Value::Null);
    // The null sentinel reads numerically as zero, so it also samples.
    assert_eq!(UartData::read(Value::Null, Some(7)), Value::Num(7));
    assert_eq!(UartData::read(Value::Num(1), Some(65)), Value::Null);
    assert_eq!(UartData::read(Value::Num(-3), None), Value::Null);
}

#[test]
fn only_address_zero_asks_the_hardware() {
    assert!(UartData::wants_byte(Value::Num(0)));
    assert!(UartData::wants_byte(Value::Null));
    assert!(!UartData::wants_byte(Value::Num(1)));
    assert!(!UartData::wants_byte(Value::Num(-1)));
}

#[test]
fn uart_printflush_overwrites_and_yields() {
    let mut u = UartData::new();
    assert_eq!(u.take_message(), None);
    assert_eq!(u.printflush(&U16String::from_str("lost")), Outcome::Yield);
    assert_eq!(u.printflush(&U16String::from_str("kept")), Outcome::Yield);
    assert_eq!(u.take_message(), Some("kept".to_string()));
    assert_eq!(u.take_message(), None);
}

#[test]
fn sensor_reports_capacity_and_byte_ready_status() {
    let u = UartData::new();
    assert_eq!(
        u.sensor(SensorTag::MemoryCapacity, false),
        Some(Value::Num(UART_BUFFER_SIZE as i64))
    );
    assert_eq!(u.sensor(SensorTag::MemoryCapacity, true), Some(Value::Num(400)));
    assert_eq!(u.sensor(SensorTag::BufferSize, true), Some(Value::Num(1)));
    assert_eq!(u.sensor(SensorTag::BufferSize, false), Some(Value::Num(0)));
    assert_eq!(u.sensor(SensorTag::Operations, true), None);
    assert_eq!(u.sensor(SensorTag::Unrecognized, false), None);
}
