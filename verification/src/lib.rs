//! Construction of the argument record handed to a Java virtual machine at start-up.
//!
//! An [`InitArgsBuilder`] collects option texts, a flag and an interface version.
//! Its `build` turns each option into a NUL-terminated buffer and freezes the
//! settings into an [`InitArgs`], or reports the first option that cannot be written
//! that way. The module `laws` states what holds of the two for all settings.

pub mod builder;
pub mod encoding;
pub mod error;
pub mod init_args;
pub mod laws;
pub mod version;

pub use builder::InitArgsBuilder;
pub use encoding::EncodedOption;
pub use error::JvmError;
pub use init_args::InitArgs;
pub use version::JNIVersion;
