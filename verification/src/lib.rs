//! Safe, single-owner access layer for binary molecular-trajectory containers.
//!
//! The byte-level codec (decode/encode, lossy coordinate compression, container
//! parsing) is an external native library reached only through an unverified
//! shell; this crate holds everything above it: the handle-lifecycle and
//! open/read/write/seek protocol, the lazily cached atom count, the lazy
//! frame-iteration contract with buffer reuse, and the error taxonomy that
//! turns raw native status codes into structured errors.
//!
//! Scalar payloads (times, box matrices, coordinates) are carried as opaque
//! 32-bit values: the bit patterns of the codec's single-precision scalars.
//! This layer never interprets them, it only moves them, so the bit pattern is
//! the faithful model of the value.
use vstd::prelude::*;

mod errors;
pub mod filemode;
mod frame;
mod iterator;
mod trajectory;

pub use errors::{check_code, to_c_int, Error, ErrorCode, ErrorTask};
pub use frame::{Frame, FrameView, Triplet};
pub use iterator::{NextStep, PullEvent, PullYield, TrajectoryIterator};
pub use trajectory::{
    finish_flush, finish_seek, finish_write, read_precheck, seek_params, tell_offset,
    write_precheck, SeekFrom, TRRTrajectory, XTCTrajectory, DEFAULT_PRECISION_BITS,
};

verus! {

/// `Result` type for errors in this library.
pub type Result<T, E = Error> = core::result::Result<T, E>;

/// The mode a trajectory file is opened in.
///
/// `Append` and `Write` both permit writing; `Read` and `Append` both permit
/// reading. This layer does not gate operations on the mode: an operation
/// the mode does not permit is rejected by the native codec itself, and its
/// status is reported like any other native failure.
#[derive(Debug, Clone, Copy, PartialEq, Eq, Structural)]
pub enum FileMode {
    Write,
    Append,
    Read,
}

impl FileMode {
    /// The mode letter handed to the native open primitive.
    pub open spec fn spec_letter(self) -> u8 {
        match self {
            FileMode::Write => 'w' as u8,
            FileMode::Append => 'a' as u8,
            FileMode::Read => 'r' as u8,
        }
    }

    /// Get the mode letter corresponding to the file mode.
    pub fn letter(&self) -> (c: u8)
        ensures
            c == self.spec_letter(),
    {
        match self {
            FileMode::Write => 'w' as u8,
            FileMode::Append => 'a' as u8,
            FileMode::Read => 'r' as u8,
        }
    }

    /// True if a file opened in this mode may be read from.
    pub fn permits_reading(&self) -> (b: bool)
        ensures
            b == (self is Read || self is Append),
    {
        match self {
            FileMode::Write => false,
            FileMode::Append => true,
            FileMode::Read => true,
        }
    }

    /// True if a file opened in this mode may be written to.
    pub fn permits_writing(&self) -> (b: bool)
        ensures
            b == (self is Write || self is Append),
    {
        match self {
            FileMode::Write => true,
            FileMode::Append => true,
            FileMode::Read => false,
        }
    }
}

} // verus!
