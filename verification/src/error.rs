use vstd::prelude::*;

verus! {

/// The precondition violations this library reports.
///
/// Every variant is detected synchronously at the call that violates the
/// contract; nothing is retried or silently recovered.
#[derive(Clone, Copy, Debug, PartialEq, Eq, Structural)]
pub enum Error {
    /// An objectives sequence whose length differs from the particle count.
    InvalidArgument,
    /// A row index at or past the row count in matrix access.
    IndexOutOfRange,
    /// A seed buffer whose length is not the engine's word count times its
    /// word width in bytes.
    InvalidSeed,
    /// A native-width draw an engine variant cannot produce, such as a
    /// 64-bit draw from the 32-bit engine.
    UnsupportedOperation,
}

} // verus!
