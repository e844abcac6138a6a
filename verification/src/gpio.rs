//! Bank of digital pins addressable by the VM as a small memory.
//!
//! The bank tracks, for every populated slot, the state the hardware pin
//! has been put in: its direction, the last driven or latched level, and
//! the configured pull resistor.  The hooks never fail: an address that is
//! not a valid populated index leaves the bank untouched and resolves to
//! the null sentinel.  The hardware layer mirrors each slot's state onto
//! the physical pin after a hook ran.

use vstd::prelude::*;

use crate::value::{spec_index_of, spec_truthy, SensorTag, Value};
use crate::Outcome;

verus! {

/// Number of addressable pin slots.
pub const PIN_COUNT: usize = 30;

/// Direction of a pin.
#[derive(Clone, Copy, PartialEq, Eq, Structural, Debug)]
pub enum PinMode {
    Input,
    Output,
}

/// Pull-resistor policy of a pin.
#[derive(Clone, Copy, PartialEq, Eq, Structural, Debug)]
pub enum PinPull {
    Floating,
    Up,
    Down,
}

/// State a bound pin has been put in.
#[derive(Clone, Copy, PartialEq, Eq, Structural, Debug)]
pub struct PinState {
    pub mode: PinMode,
    pub level: bool,
    pub pull: PinPull,
}

/// Fixed-size table of optional pin slots, assigned once at startup.
pub struct GpioData {
    pins: Vec<Option<PinState>>,
}

/// The pull policy a write operand selects: the null sentinel leaves the
/// pin floating, a true value pulls up, a false value pulls down.
pub open spec fn spec_pull_of(value: Value) -> PinPull {
    if value == Value::Null {
        PinPull::Floating
    } else if spec_truthy(value) {
        PinPull::Up
    } else {
        PinPull::Down
    }
}

/// Whether an address denotes a populated slot of the bank.
pub open spec fn spec_slot_hit(pins: Seq<Option<PinState>>, addr: Value) -> bool {
    match spec_index_of(addr) {
        Some(i) => i < pins.len() && pins[i as int] is Some,
        None => false,
    }
}

/// The bank after a read: a hit switches the slot to input mode and keeps
/// its level and pull; a miss changes nothing.
pub open spec fn spec_pins_after_read(pins: Seq<Option<PinState>>, addr: Value) -> Seq<
    Option<PinState>,
> {
    if spec_slot_hit(pins, addr) {
        let i = spec_index_of(addr)->Some_0 as int;
        let p = pins[i]->Some_0;
        pins.update(i, Some(PinState { mode: PinMode::Input, ..p }))
    } else {
        pins
    }
}

/// What a read returns: the slot's boolean level as a number on a hit, the
/// null sentinel on a miss.
pub open spec fn spec_read_result(pins: Seq<Option<PinState>>, addr: Value) -> Value {
    if spec_slot_hit(pins, addr) {
        let i = spec_index_of(addr)->Some_0 as int;
        Value::Num(if pins[i]->Some_0.level { 1 } else { 0 })
    } else {
        Value::Null
    }
}

/// The bank after a write: a hit drives the slot as an output at the
/// operand's truthiness with the operand's pull policy; a miss changes
/// nothing.
pub open spec fn spec_pins_after_write(
    pins: Seq<Option<PinState>>,
    addr: Value,
    value: Value,
) -> Seq<Option<PinState>> {
    if spec_slot_hit(pins, addr) {
        let i = spec_index_of(addr)->Some_0 as int;
        pins.update(
            i,
            Some(
                PinState {
                    mode: PinMode::Output,
                    level: spec_truthy(value),
                    pull: spec_pull_of(value),
                },
            ),
        )
    } else {
        pins
    }
}

impl View for GpioData {
    type V = Seq<Option<PinState>>;

    closed spec fn view(&self) -> Seq<Option<PinState>> {
        self.pins@
    }
}

impl GpioData {
    /// The bank always holds exactly one slot per addressable pin.
    pub open spec fn wf(&self) -> bool {
        self@.len() == PIN_COUNT
    }

    /// Builds the bank from `(index, state)` pairs.  A duplicate or
    /// out-of-range index is a configuration fault the caller must rule
    /// out before construction.
    pub fn new(assignments: &Vec<(usize, PinState)>) -> (r: GpioData)
        requires
            forall|j: int|
                0 <= j < assignments@.len() ==> (#[trigger] assignments@[j]).0 < PIN_COUNT,
            forall|j1: int, j2: int|
                0 <= j1 < j2 < assignments@.len() ==> (#[trigger] assignments@[j1]).0 != (
                #[trigger] assignments@[j2]).0,
        ensures
            r.wf(),
            forall|j: int|
                0 <= j < assignments@.len() ==> r@[(#[trigger] assignments@[j]).0 as int] == Some(
                    assignments@[j].1,
                ),
            forall|k: int|
                0 <= k < PIN_COUNT && (forall|j: int|
                    0 <= j < assignments@.len() ==> (#[trigger] assignments@[j]).0 != k) ==> r@[k]
                    is None,
    {
        let mut pins: Vec<Option<PinState>> = Vec::new();
        let mut k: usize = 0;
        while k < PIN_COUNT
            invariant
                pins@.len() == k,
                k <= PIN_COUNT,
                forall|i: int| 0 <= i < k ==> pins@[i] is None,
            decreases PIN_COUNT - k,
        {
            pins.push(None);
            k += 1;
        }
        let mut j: usize = 0;
        while j < assignments.len()
            invariant
                pins@.len() == PIN_COUNT,
                j <= assignments@.len(),
                forall|i: int|
                    0 <= i < assignments@.len() ==> (#[trigger] assignments@[i]).0 < PIN_COUNT,
                forall|i1: int, i2: int|
                    0 <= i1 < i2 < assignments@.len() ==> (#[trigger] assignments@[i1]).0 != (
                    #[trigger] assignments@[i2]).0,
                forall|i: int|
                    0 <= i < j ==> pins@[(#[trigger] assignments@[i]).0 as int] == Some(
                        assignments@[i].1,
                    ),
                forall|k2: int|
                    0 <= k2 < PIN_COUNT && (forall|i: int|
                        0 <= i < j ==> (#[trigger] assignments@[i]).0 != k2) ==> pins@[k2] is None,
            decreases assignments@.len() - j,
        {
            let (idx, st) = assignments[j];
            pins.set(idx, Some(st));
            j += 1;
        }
        GpioData { pins }
    }

    /// Reads a slot: switches a populated pin to input mode and returns
    /// its boolean level as a number; any other address is inert and
    /// resolves to the null sentinel.
    pub fn read(&mut self, addr: Value) -> (r: Value)
        ensures
            final(self)@ == spec_pins_after_read(old(self)@, addr),
            r == spec_read_result(old(self)@, addr),
    {
        let hit = match addr.index() {
            Some(i) => i < self.pins.len() && self.pins[i].is_some(),
            None => false,
        };
        if hit {
            let i = addr.index().unwrap();
            let p = self.pins[i].unwrap();
            self.pins.set(i, Some(PinState { mode: PinMode::Input, ..p }));
            Value::from_bool(p.level)
        } else {
            Value::Null
        }
    }

    /// Writes a slot: drives a populated pin as an output at the operand's
    /// truthiness, configuring the pull policy the operand selects; any
    /// other address is silently ignored.  The instruction stream always
    /// continues.
    pub fn write(&mut self, addr: Value, value: Value) -> (r: Outcome)
        ensures
            final(self)@ == spec_pins_after_write(old(self)@, addr, value),
            r == Outcome::Proceed,
    {
        let hit = match addr.index() {
            Some(i) => i < self.pins.len() && self.pins[i].is_some(),
            None => false,
        };
        if hit {
            let i = addr.index().unwrap();
            let level = value.truthy();
            let pull = if matches!(value, Value::Null) {
                PinPull::Floating
            } else if level {
                PinPull::Up
            } else {
                PinPull::Down
            };
            self.pins.set(i, Some(PinState { mode: PinMode::Output, level, pull }));
        }
        Outcome::Proceed
    }

    /// Records the level the hardware layer sampled on a populated pin,
    /// so that a following read reports what the pin really carries.
    /// Direction and pull are untouched; other slots are untouched; an
    /// invalid index changes nothing.
    pub fn record_sampled_level(&mut self, i: usize, level: bool)
        ensures
            final(self)@ == (if i < old(self)@.len() && old(self)@[i as int] is Some {
                old(self)@.update(
                    i as int,
                    Some(PinState { level, ..old(self)@[i as int]->Some_0 }),
                )
            } else {
                old(self)@
            }),
    {
        if i < self.pins.len() {
            if let Some(p) = self.pins[i] {
                self.pins.set(i, Some(PinState { level, ..p }));
            }
        }
    }

    /// Answers a sensor query: the bank recognises only its slot count.
    pub fn sensor(&self, tag: SensorTag) -> (r: Option<Value>)
        ensures
            r == (if tag == SensorTag::MemoryCapacity {
                Some(Value::Num(PIN_COUNT as i64))
            } else {
                None::<Value>
            }),
    {
        match tag {
            SensorTag::MemoryCapacity => Some(Value::Num(PIN_COUNT as i64)),
            _ => None,
        }
    }

    /// The state of slot `i`, or `None` for an unpopulated or out-of-range
    /// slot.  The hardware layer mirrors this state onto the physical pin.
    pub fn slot(&self, i: usize) -> (r: Option<PinState>)
        requires
            self.wf(),
        ensures
            r == (if i < PIN_COUNT {
                self@[i as int]
            } else {
                None::<PinState>
            }),
    {
        if i < self.pins.len() {
            self.pins[i]
        } else {
            None
        }
    }
}

/// Writing a populated slot and then reading the same slot: the write
/// drives the pin as an output at the operand's truthiness, and the
/// subsequent read switches it to input mode and returns that level as a
/// number — `0` for a false operand, `1` for a true one.
pub proof fn lemma_write_then_read(pins: Seq<Option<PinState>>, k: usize, value: Value)
    requires
        pins.len() == PIN_COUNT,
        k < PIN_COUNT,
        pins[k as int] is Some,
    ensures
        spec_pins_after_write(pins, Value::Num(k as i64), value)[k as int]
            == Some(
            PinState { mode: PinMode::Output, level: spec_truthy(value), pull: spec_pull_of(value) },
        ),
        spec_read_result(
            spec_pins_after_write(pins, Value::Num(k as i64), value),
            Value::Num(k as i64),
        ) == Value::Num(if spec_truthy(value) { 1 } else { 0 }),
        spec_pins_after_read(
            spec_pins_after_write(pins, Value::Num(k as i64), value),
            Value::Num(k as i64),
        )[k as int]->Some_0.mode == PinMode::Input,
{
}

} // verus!
