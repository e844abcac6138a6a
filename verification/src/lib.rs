//! Peripheral bindings for a register-machine logic VM on a microcontroller.
//!
//! The VM dispatches instructions that touch a bound peripheral through a
//! small capability interface (read / write / sensor / drawflush /
//! printflush).  This crate holds the logic of those bindings: a bank of
//! digital pins, a draw-command renderer for a pixel display, and two serial
//! bridges sharing a mailbox / ring-buffer protocol.  Hardware access itself
//! stays outside; the bindings work on plain values and hand back exact
//! descriptions of what the hardware layer must do.

use vstd::prelude::*;

verus! {

/// Outcome of a capability hook.
///
/// `Proceed` lets the VM keep executing the current processor's remaining
/// instruction budget this tick; `Yield` tells the tick driver to stop
/// executing that processor until the next scheduling point (the hook has
/// recorded intent, e.g. filled a mailbox, and the blocking work happens in
/// an out-of-band routine).
#[derive(Clone, Copy, PartialEq, Eq, Structural, Debug)]
pub enum Outcome {
    Proceed,
    Yield,
}

/// Relies on std's `Box::leak`: the boxed value is never freed, so the
/// returned reference owns it for the rest of the program.
#[verifier::external_body]
fn box_leak<T>(b: Box<T>) -> (r: &'static mut T)
    ensures
        *r == *b,
{
    Box::leak(b)
}

/// Moves the value to the heap for the rest of the program's life.
/// Startup uses this for buffers and driver state that live forever.
pub fn leak<T>(value: T) -> (r: &'static mut T)
    ensures
        *r == value,
{
    box_leak(Box::new(value))
}

} // verus!

pub mod display;
pub mod gpio;
pub mod ring;
pub mod scheduler;
pub mod serial;
pub mod st7789vw;
pub mod text;
pub mod uart;
pub mod value;
