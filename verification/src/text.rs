//! Boundary to the VM's wide text buffers.
//!
//! The VM keeps printed text and draw-command labels as UTF-16 code units
//! (a widestring wide string).  The bindings hand such text on as ordinary
//! Rust strings, decoding it lossily: the decoded text is a function of
//! the code units alone, named here by `lossy_of`.

use vstd::prelude::*;

verus! {

/// Declares widestring's `U16String` so that it can stand in signatures:
/// an owned, unvalidated sequence of UTF-16 code units.
#[verifier::external_type_specification]
#[verifier::external_body]
pub struct ExU16String(widestring::U16String);

/// The UTF-16 code units a wide string holds, in order.
pub uninterp spec fn u16_units(s: widestring::U16String) -> Seq<u16>;

/// What lossy UTF-16 decoding returns for a sequence of code units.
pub uninterp spec fn lossy_of(units: Seq<u16>) -> Seq<char>;

/// Relies on widestring's `U16Str::to_string_lossy`: decodes the code
/// units as UTF-16, replacing unpaired surrogates with the replacement
/// character; the result depends on the code units alone.
#[verifier::external_body]
pub fn decode_lossy(s: &widestring::U16String) -> (r: String)
    ensures
        r@ == lossy_of(u16_units(*s)),
{
    s.to_string_lossy()
}

} // verus!
