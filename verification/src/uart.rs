//! Wired UART bridge: mailbox transmit, single-byte receive.
//!
//! The UART is a plain streaming transport: the flush routine writes a
//! taken message's bytes directly, with no packet framing.  Receiving has
//! no queue of its own — the hardware FIFO holds at most one byte of
//! interest at a time, so a read either takes the byte the hardware has
//! ready or resolves to the null sentinel.

use vstd::prelude::*;

use crate::text::{decode_lossy, lossy_of, u16_units};
use crate::value::{spec_numi, SensorTag, Value};
use crate::Outcome;

verus! {

/// Size of the UART driver's transmit and receive buffers, reported as
/// the binding's memory capacity.
pub const UART_BUFFER_SIZE: usize = 400;

/// The bridge's state: the single-slot transmit mailbox.
pub struct UartData {
    tx: Option<String>,
}

impl UartData {
    /// The pending outbound message, if any.
    pub closed spec fn tx_message(&self) -> Option<Seq<char>> {
        match self.tx {
            Some(s) => Some(s@),
            None => None,
        }
    }

    /// A fresh bridge with an empty mailbox.
    pub fn new() -> (r: UartData)
        ensures
            r.tx_message() is None,
    {
        UartData { tx: None }
    }

    /// Whether a read at this address should sample the hardware: only
    /// address zero (the null sentinel reads as zero) asks for a byte.
    pub fn wants_byte(addr: Value) -> (r: bool)
        ensures
            r == (spec_numi(addr) == 0),
    {
        addr.numi() == 0
    }

    /// What a read returns: the byte the hardware had ready at address
    /// zero, as a number; the null sentinel in every other case.
    pub fn read(addr: Value, sampled: Option<u8>) -> (r: Value)
        ensures
            r == (if spec_numi(addr) == 0 {
                match sampled {
                    Some(b) => Value::Num(b as i64),
                    None => Value::Null,
                }
            } else {
                Value::Null
            }),
    {
        if addr.numi() == 0 {
            match sampled {
                Some(b) => Value::Num(b as i64),
                None => Value::Null,
            }
        } else {
            Value::Null
        }
    }

    /// Stores the text to transmit into the mailbox, overwriting any prior
    /// unflushed message (last write wins), and suspends the instruction
    /// stream: the transfer happens in the out-of-band flush routine.
    pub fn printflush(&mut self, text: &widestring::U16String) -> (r: Outcome)
        ensures
            r == Outcome::Yield,
            final(self).tx_message() == Some(lossy_of(u16_units(*text))),
    {
        self.tx = Some(decode_lossy(text));
        Outcome::Yield
    }

    /// Takes the pending message out of the mailbox, leaving it empty.
    /// The flush routine writes what it gets to the wire in one piece.
    pub fn take_message(&mut self) -> (r: Option<String>)
        ensures
            final(self).tx_message() is None,
            (r is Some) == (old(self).tx_message() is Some),
            r matches Some(m) ==> old(self).tx_message() == Some(m@),
    {
        let mut taken: Option<String> = None;
        core::mem::swap(&mut self.tx, &mut taken);
        taken
    }

    /// Answers a sensor query: the bridge reports its buffer capacity,
    /// and whether a byte is ready (`1`) or not (`0`) in place of a queue
    /// length.
    pub fn sensor(&self, tag: SensorTag, byte_ready: bool) -> (r: Option<Value>)
        ensures
            r == (match tag {
                SensorTag::MemoryCapacity => Some(Value::Num(UART_BUFFER_SIZE as i64)),
                SensorTag::BufferSize => Some(Value::Num(if byte_ready { 1 } else { 0 })),
                _ => None::<Value>,
            }),
    {
        match tag {
            SensorTag::MemoryCapacity => Some(Value::Num(UART_BUFFER_SIZE as i64)),
            SensorTag::BufferSize => Some(Value::Num(if byte_ready { 1 } else { 0 })),
            _ => None,
        }
    }
}

} // verus!
