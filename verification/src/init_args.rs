//! The finished argument record.

use crate::encoding::EncodedOption;
use vstd::prelude::*;

verus! {

/// What an [`InitArgs`] holds, as plain values.
pub struct InitArgsView {
    /// The integer of the interface version that is asked for.
    pub version: i32,
    /// Whether the virtual machine is to pass over options it does not know.
    pub ignore_unrecognized: bool,
    /// The buffer of each option, in the order in which the options were given.
    pub options: Seq<Seq<u8>>,
}

/// The arguments for the start of a virtual machine: the fields of the native
/// record, and the option buffers that the record refers to. It is made once, by
/// [`InitArgsBuilder::build`](crate::builder::InitArgsBuilder::build), and never
/// changes afterwards.
#[derive(Debug)]
pub struct InitArgs {
    version: i32,
    ignore_unrecognized: bool,
    n_options: usize,
    opts: Vec<EncodedOption>,
}

impl View for InitArgs {
    type V = InitArgsView;

    closed spec fn view(&self) -> InitArgsView {
        InitArgsView {
            version: self.version,
            ignore_unrecognized: self.ignore_unrecognized,
            options: Seq::new(self.opts@.len(), |i: int| self.opts@[i]@),
        }
    }
}

impl InitArgs {
    /// The count in the record is the number of buffers behind it.
    #[verifier::type_invariant]
    spec fn count_matches(self) -> bool {
        self.n_options == self.opts@.len()
    }

    /// Puts the record together over the buffers `opts`.
    pub(crate) fn assemble(version: i32, ignore_unrecognized: bool, opts: Vec<EncodedOption>) -> (args:
        InitArgs)
        ensures
            args@.version == version,
            args@.ignore_unrecognized == ignore_unrecognized,
            args@.options == Seq::new(opts@.len(), |i: int| opts@[i]@),
    {
        let n_options = opts.len();
        InitArgs { version, ignore_unrecognized, n_options, opts }
    }

    /// The integer of the interface version that is asked for.
    pub fn version(&self) -> (version: i32)
        ensures
            version == self@.version,
    {
        self.version
    }

    /// Whether the virtual machine is to pass over options it does not know.
    pub fn ignore_unrecognized(&self) -> (ignore: bool)
        ensures
            ignore == self@.ignore_unrecognized,
    {
        self.ignore_unrecognized
    }

    /// The number of options in the record.
    pub fn option_count(&self) -> (count: usize)
        ensures
            count == self@.options.len(),
    {
        proof {
            use_type_invariant(self);
        }
        self.n_options
    }

    /// The option at `index`, counted from zero in the order in which the options
    /// were given, or `None` past the last one.
    pub fn option(&self, index: usize) -> (option: Option<&EncodedOption>)
        ensures
            option is Some <==> index < self@.options.len(),
            option matches Some(encoded) ==> encoded@ == self@.options[index as int],
    {
        if index < self.opts.len() {
            Some(&self.opts[index])
        } else {
            None
        }
    }
}

} // verus!
