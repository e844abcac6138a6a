use mlog_pico::gpio::{GpioData, PinMode, PinPull, PinState, PIN_COUNT};
use mlog_pico::value::{SensorTag, Value};
use mlog_pico::Outcome;

fn idle_pin() -> PinState {
    PinState { mode: PinMode::Input, level: false, pull: PinPull::Floating }
}

fn bank_with(indices: &[usize]) -> GpioData {
    let assignments: Vec<(usize, PinState)> = indices.iter().map(|&i| (i, idle_pin())).collect();
    GpioData::new(&assignments)
}

#[test]
fn write_zero_then_read_gives_input_false() {
    let mut bank = bank_with(&[3]);
    let out = bank.write(Value::Num(3), Value::Num(0));
    assert_eq!(out, Outcome::Proceed);
    let after_write = bank.slot(3).unwrap();
    assert_eq!(after_write.mode, PinMode::Output);
    assert!(!after_write.level);
    assert_eq!(after_write.pull, PinPull::Down);

    let read = bank.read(Value::Num(3));
    assert_eq!(read, Value::Num(0));
    let after_read = bank.slot(3).unwrap();
    assert_eq!(after_read.mode, PinMode::Input);
    assert!(!after_read.level);
}

#[test]
fn write_nonzero_then_read_gives_output_true() {
    let mut bank = bank_with(&[7]);
    bank.write(Value::Num(7), Value::Num(42));
    let after_write = bank.slot(7).unwrap();
    assert_eq!(after_write.mode, PinMode::Output);
    assert!(after_write.level);
    assert_eq!(after_write.pull, PinPull::Up);

    let read = bank.read(Value::Num(7));
    assert_eq!(read, Value::Num(1));
    assert_eq!(bank.slot(7).unwrap().mode, PinMode::Input);
}

#[test]
fn null_operand_leaves_pin_floating_low() {
    let mut bank = bank_with(&[4]);
    bank.write(Value::Num(4), Value::Null);
    let slot = bank.slot(4).unwrap();
    assert_eq!(slot.mode, PinMode::Output);
    assert!(!slot.level);
    assert_eq!(slot.pull, PinPull::Floating);
}

#[test]
fn out_of_range_reads_and_writes_are_inert() {
    let mut bank = bank_with(&[0]);
    assert_eq!(bank.read(Value::Num(30)), Value::Null);
    assert_eq!(bank.read(Value::Num(1_000_000)), Value::Null);
    assert_eq!(bank.read(Value::Num(-1)), Value::Null);
    assert_eq!(bank.read(Value::Null), Value::Null);
    assert_eq!(bank.write(Value::Num(30), Value::Num(1)), Outcome::Proceed);
    assert_eq!(bank.write(Value::Num(-5), Value::Num(1)), Outcome::Proceed);
    assert_eq!(bank.slot(0).unwrap(), idle_pin());
}

#[test]
fn unpopulated_slot_is_inert() {
    let mut bank = bank_with(&[2]);
    assert_eq!(bank.read(Value::Num(5)), Value::Null);
    bank.write(Value::Num(5), Value::Num(1));
    assert!(bank.slot(5).is_none());
}

#[test]
fn sampled_level_shows_up_in_the_next_read() {
    let mut bank = bank_with(&[6]);
    bank.write(Value::Num(6), Value::Num(0));
    // An external driver pulls the wire high; the hardware layer reports it.
    bank.record_sampled_level(6, true);
    assert_eq!(bank.read(Value::Num(6)), Value::Num(1));
    assert_eq!(bank.slot(6).unwrap().mode, PinMode::Input);
    // Out-of-range and unpopulated indices change nothing.
    bank.record_sampled_level(12, true);
    assert!(bank.slot(12).is_none());
    bank.record_sampled_level(500, true);
}

#[test]
fn sensor_reports_slot_count_only() {
    let bank = bank_with(&[1, 2, 3]);
    assert_eq!(bank.sensor(SensorTag::MemoryCapacity), Some(Value::Num(PIN_COUNT as i64)));
    assert_eq!(bank.sensor(SensorTag::MemoryCapacity), Some(Value::Num(30)));
    assert_eq!(bank.sensor(SensorTag::BufferSize), None);
    assert_eq!(bank.sensor(SensorTag::Operations), None);
    assert_eq!(bank.sensor(SensorTag::Unrecognized), None);
}

#[test]
fn construction_populates_exactly_the_given_slots() {
    let bank = bank_with(&[0, 13, 29]);
    for i in 0..PIN_COUNT {
        if i == 0 || i == 13 || i == 29 {
            assert!(bank.slot(i).is_some(), "slot {i} should be populated");
        } else {
            assert!(bank.slot(i).is_none(), "slot {i} should be empty");
        }
    }
    assert!(bank.slot(200).is_none());
}
