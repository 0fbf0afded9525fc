//! Interface versions that a virtual machine can be asked for.

use vstd::prelude::*;

verus! {

/// A revision of the native interface, from the oldest one that is still served upwards.
#[derive(Clone, Copy, Debug, PartialEq, Eq, Structural, PartialOrd, Ord, Hash)]
pub enum JNIVersion {
    /// Java 8, the baseline.
    V8,
    /// Java 9.
    V9,
    /// Java 10.
    V10,
    /// Java 19.
    V19,
    /// Java 20.
    V20,
    /// Java 21.
    V21,
}

impl JNIVersion {
    /// The integer by which the native interface knows this revision.
    pub open spec fn spec_code(self) -> i32 {
        match self {
            JNIVersion::V8 => 0x0001_0008,
            JNIVersion::V9 => 0x0009_0000,
            JNIVersion::V10 => 0x000a_0000,
            JNIVersion::V19 => 0x0013_0000,
            JNIVersion::V20 => 0x0014_0000,
            JNIVersion::V21 => 0x0015_0000,
        }
    }

    /// The integer by which the native interface knows this revision.
    #[verifier::when_used_as_spec(spec_code)]
    pub fn code(self) -> (code: i32)
        ensures
            code == self.spec_code(),
    {
        match self {
            JNIVersion::V8 => 0x0001_0008,
            JNIVersion::V9 => 0x0009_0000,
            JNIVersion::V10 => 0x000a_0000,
            JNIVersion::V19 => 0x0013_0000,
            JNIVersion::V20 => 0x0014_0000,
            JNIVersion::V21 => 0x0015_0000,
        }
    }
}

} // verus!
