//! Capability markers for the file modes: zero-sized types standing for the
//! read, write and append capabilities, each naming the runtime mode it
//! grants.
use vstd::prelude::*;

verus! {

/// Prevent users from implementing the mode trait on their own types.
pub trait Sealed {
}

/// Trait for all file mode markers.
pub trait FileMode: Sealed {
    /// The runtime mode the marker stands for.
    spec fn spec_mode() -> crate::FileMode;

    /// Get the runtime mode corresponding to the marker.
    fn mode() -> (m: crate::FileMode)
        ensures
            m == Self::spec_mode(),
    ;
}

/// The read-only mode
#[derive(Debug, Clone, Copy, PartialEq, Eq, Structural, Default)]
pub struct Read;

/// The write-only mode
#[derive(Debug, Clone, Copy, PartialEq, Eq, Structural, Default)]
pub struct Write;

/// The read/write append mode
#[derive(Debug, Clone, Copy, PartialEq, Eq, Structural, Default)]
pub struct Append;

impl Sealed for Read {

}

impl Sealed for Write {

}

impl Sealed for Append {

}

impl FileMode for Read {
    open spec fn spec_mode() -> crate::FileMode {
        crate::FileMode::Read
    }

    fn mode() -> (m: crate::FileMode) {
        crate::FileMode::Read
    }
}

impl FileMode for Write {
    open spec fn spec_mode() -> crate::FileMode {
        crate::FileMode::Write
    }

    fn mode() -> (m: crate::FileMode) {
        crate::FileMode::Write
    }
}

impl FileMode for Append {
    open spec fn spec_mode() -> crate::FileMode {
        crate::FileMode::Append
    }

    fn mode() -> (m: crate::FileMode) {
        crate::FileMode::Append
    }
}

} // verus!
