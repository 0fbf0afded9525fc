//! Collecting the settings for the start of a virtual machine.

use crate::encoding::{has_interior_nul, nul_terminated, EncodedOption};
use crate::error::JvmError;
use crate::init_args::{InitArgs, InitArgsView};
use crate::version::JNIVersion;
use vstd::prelude::*;
use vstd::utf8::*;

verus! {

/// Whether `text` is one of the three names that stand for a hook of the native
/// interface and are not taken as options: `vfprintf`, `abort`, `exit`. The whole
/// text has to be the name, letter for letter.
pub open spec fn is_reserved(text: Seq<char>) -> bool {
    text == "vfprintf"@ || text == "abort"@ || text == "exit"@
}

/// What an [`InitArgsBuilder`] holds, as plain values.
pub struct BuilderView {
    /// The options taken so far, oldest first.
    pub options: Seq<Seq<char>>,
    /// Whether the virtual machine is to pass over options it does not know.
    pub ignore_unrecognized: bool,
    /// The interface version to ask for.
    pub version: JNIVersion,
}

impl BuilderView {
    /// The settings of a fresh builder.
    pub open spec fn initial() -> BuilderView {
        BuilderView { options: Seq::empty(), ignore_unrecognized: false, version: JNIVersion::V8 }
    }

    /// No reserved name is among the options.
    pub open spec fn wf(self) -> bool {
        forall|i: int| 0 <= i < self.options.len() ==> !is_reserved(#[trigger] self.options[i])
    }

    /// The settings after `text` was offered as an option.
    pub open spec fn with_option(self, text: Seq<char>) -> BuilderView {
        if is_reserved(text) {
            self
        } else {
            BuilderView { options: self.options.push(text), ..self }
        }
    }

    /// The settings after each of `texts` was offered as an option, in their order.
    pub open spec fn with_options(self, texts: Seq<Seq<char>>) -> BuilderView
        decreases texts.len(),
    {
        if texts.len() == 0 {
            self
        } else {
            self.with_options(texts.drop_last()).with_option(texts.last())
        }
    }

    /// The settings after `version` was chosen.
    pub open spec fn with_version(self, version: JNIVersion) -> BuilderView {
        BuilderView { version, ..self }
    }

    /// The settings after the flag was set to `ignore`.
    pub open spec fn with_ignore_unrecognized(self, ignore: bool) -> BuilderView {
        BuilderView { ignore_unrecognized: ignore, ..self }
    }

    /// Every option can be written as a NUL-terminated buffer.
    pub open spec fn all_encodable(self) -> bool {
        forall|i: int| 0 <= i < self.options.len() ==> !has_interior_nul(#[trigger] self.options[i])
    }

    /// The option at `i` cannot be written as a NUL-terminated buffer, and every
    /// option before it can.
    pub open spec fn is_first_rejected(self, i: int) -> bool {
        &&& 0 <= i < self.options.len()
        &&& has_interior_nul(self.options[i])
        &&& forall|j: int| 0 <= j < i ==> !has_interior_nul(#[trigger] self.options[j])
    }

    /// The record that these settings make: the version's integer, the flag, and the
    /// buffer of each option in the order of the options.
    pub open spec fn finalized(self) -> InitArgsView {
        InitArgsView {
            version: self.version.spec_code(),
            ignore_unrecognized: self.ignore_unrecognized,
            options: Seq::new(self.options.len(), |i: int| nul_terminated(self.options[i])),
        }
    }
}

/// Whether two texts are the same, found by comparing their UTF-8 bytes.
fn same_text(a: &str, b: &str) -> (same: bool)
    ensures
        same == (a@ == b@),
{
    let x = a.as_bytes();
    let y = b.as_bytes();
    if x.len() != y.len() {
        return false;
    }
    let mut i: usize = 0;
    while i < x.len()
        invariant
            i <= x.len(),
            x@.len() == y@.len(),
            x@ == encode_utf8(a@),
            y@ == encode_utf8(b@),
            forall|j: int| 0 <= j < i ==> x@[j] == y@[j],
        decreases x.len() - i,
    {
        if x[i] != y[i] {
            return false;
        }
        i += 1;
    }
    proof {
        // Equal bytes decode to equal texts.
        assert(x@ =~= y@);
        encode_utf8_decode_utf8(a@);
        encode_utf8_decode_utf8(b@);
    }
    true
}

/// Whether `text` is one of the reserved names.
fn is_reserved_name(text: &str) -> (reserved: bool)
    ensures
        reserved == is_reserved(text@),
{
    same_text(text, "vfprintf") || same_text(text, "abort") || same_text(text, "exit")
}

/// Builder for the arguments of a virtual machine's start.
#[derive(Debug)]
pub struct InitArgsBuilder {
    opts: Vec<String>,
    ignore_unrecognized: bool,
    version: JNIVersion,
}

impl View for InitArgsBuilder {
    type V = BuilderView;

    closed spec fn view(&self) -> BuilderView {
        BuilderView {
            options: Seq::new(self.opts@.len(), |i: int| self.opts@[i]@),
            ignore_unrecognized: self.ignore_unrecognized,
            version: self.version,
        }
    }
}

impl Default for InitArgsBuilder {
    /// A builder without options, with the flag off and the baseline version.
    fn default() -> (builder: Self)
        ensures
            builder@ == BuilderView::initial(),
            builder@.wf(),
    {
        let builder = InitArgsBuilder {
            opts: Vec::new(),
            ignore_unrecognized: false,
            version: JNIVersion::V8,
        };
        assert(builder@.options =~= Seq::empty());
        builder
    }
}

impl InitArgsBuilder {
    /// Reserved names are turned away when they are offered, so none is ever held.
    #[verifier::type_invariant]
    spec fn holds_no_reserved_name(self) -> bool {
        forall|i: int| 0 <= i < self.opts@.len() ==> !is_reserved(#[trigger] self.opts@[i]@)
    }

    /// Create a new default InitArgsBuilder
    pub fn new() -> (builder: Self)
        ensures
            builder@ == BuilderView::initial(),
            builder@.wf(),
    {
        InitArgsBuilder::default()
    }

    /// Add an option to the init args
    ///
    /// The `vfprintf`, `abort`, and `exit` options are unsupported at this time: such
    /// a call changes nothing.
    pub fn option(self, opt_string: &str) -> (builder: Self)
        ensures
            builder@ == self@.with_option(opt_string@),
            builder@.wf(),
    {
        proof {
            use_type_invariant(&self);
        }
        if is_reserved_name(opt_string) {
            return self;
        }
        let InitArgsBuilder { mut opts, ignore_unrecognized, version } = self;
        opts.push(opt_string.to_owned());
        let builder = InitArgsBuilder { opts, ignore_unrecognized, version };
        assert(builder@.options =~= self@.options.push(opt_string@));
        builder
    }

    /// Set JNI version for the init args
    ///
    /// Default: V8
    pub fn version(self, version: JNIVersion) -> (builder: Self)
        ensures
            builder@ == self@.with_version(version),
            builder@.wf(),
    {
        proof {
            use_type_invariant(&self);
        }
        let mut s = self;
        s.version = version;
        s
    }

    /// Set the `ignoreUnrecognized` init arg flag
    ///
    /// If ignoreUnrecognized is true, the virtual machine ignores all unrecognized
    /// option strings that begin with "-X" or "_". If ignoreUnrecognized is false, its
    /// start fails as soon as it encounters any unrecognized option strings.
    ///
    /// Default: `false`
    pub fn ignore_unrecognized(self, ignore: bool) -> (builder: Self)
        ensures
            builder@ == self@.with_ignore_unrecognized(ignore),
            builder@.wf(),
    {
        proof {
            use_type_invariant(&self);
        }
        let mut s = self;
        s.ignore_unrecognized = ignore;
        s
    }

    /// Build the `InitArgs`
    ///
    /// This will check for internal nulls in the option strings and will return
    /// an error if one is found: the first option, in the order in which they were
    /// given, that holds one.
    pub fn build(self) -> (result: Result<InitArgs, JvmError>)
        ensures
            result is Ok <==> self@.all_encodable(),
            result matches Ok(args) ==> args@ == self@.finalized(),
            result matches Err(e) ==> exists|i: int|
                self@.is_first_rejected(i) && e.option_text() == self@.options[i],
    {
        let InitArgsBuilder { mut opts, ignore_unrecognized, version } = self;
        let mut encoded: Vec<EncodedOption> = Vec::with_capacity(opts.len());
        let mut i: usize = 0;
        while i < opts.len()
            invariant
                i <= opts.len(),
                encoded.len() == i,
                self@.options.len() == opts@.len(),
                forall|j: int| 0 <= j < opts@.len() ==> self@.options[j] == opts@[j]@,
                forall|j: int|
                    0 <= j < i ==> !has_interior_nul(#[trigger] self@.options[j]) && encoded@[j]@
                        == nul_terminated(self@.options[j]),
            decreases opts.len() - i,
        {
            match EncodedOption::new(opts[i].as_str()) {
                Some(option) => {
                    encoded.push(option);
                },
                None => {
                    assert(self@.is_first_rejected(i as int));
                    return Err(JvmError::NullOptString(opts.swap_remove(i)));
                },
            }
            i += 1;
        }
        let args = InitArgs::assemble(version.code(), ignore_unrecognized, encoded);
        assert(args@.options =~= self@.finalized().options);
        Ok(args)
    }

    /// Returns collected options
    pub fn options(&self) -> (options: Vec<String>)
        ensures
            options@.len() == self@.options.len(),
            forall|i: int| 0 <= i < options@.len() ==> options@[i]@ == self@.options[i],
            self@.wf(),
    {
        proof {
            use_type_invariant(self);
        }
        self.opts.clone()
    }
}

} // verus!
