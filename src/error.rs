use vstd::prelude::*;

verus! {

/// Why a loader operation stopped.
#[derive(Clone, Copy, Debug, PartialEq, Eq, Structural)]
pub enum LoaderError {
    /// The device answered `"FL"` with this error code.
    CommandFailed { code: u16 },
    /// The device answered with a status that is neither `"OK"` nor `"FL"`.
    UnexpectedStatus { first: u8, second: u8 },
    /// A payload is longer than the 16-bit length of a command frame allows.
    PayloadTooLong { len: usize },
    /// A binary does not fit the 32-bit size field that describes it.
    TooLarge { len: usize },
    /// A flash range reaches past the 32-bit address space.
    RangeOverflow { offset: u32, size: u32 },
    /// A fixed-size record came with another length.
    RecordSize { expected: usize, actual: usize },
    /// The device did not answer the handshake.
    HandshakeFailed { attempts: u64 },
}

} // verus!
