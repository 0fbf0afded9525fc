//! What can go wrong while the argument record is put together.

use vstd::prelude::*;
use vstd::string::*;

verus! {

/// Errors that can occur when preparing the start of a virtual machine.
#[derive(Debug, PartialEq, Eq)]
pub enum JvmError {
    /// An internal `0` byte was found when constructing a string. Carries the option
    /// as it was given.
    NullOptString(String),
}

impl JvmError {
    /// The option that the error is about.
    pub open spec fn option_text(self) -> Seq<char> {
        match self {
            JvmError::NullOptString(text) => text@,
        }
    }

    /// A line that describes the error to a person.
    pub fn message(&self) -> (message: String)
        ensures
            message@ == "internal null in option: "@ + self.option_text(),
    {
        match self {
            JvmError::NullOptString(text) => {
                String::from_str("internal null in option: ").concat(text.as_str())
            },
        }
    }
}

} // verus!
