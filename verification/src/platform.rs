//! The host platform, made explicit so that rule evaluation, runtime
//! selection and command synthesis can be exercised with any platform value
//! instead of reading the ambient environment.

use vstd::prelude::*;
use vstd::string::StringExecFns;

verus! {

/// The operating systems the launcher distinguishes. `Other` stands for any
/// platform outside the three the artifact catalog knows.
#[derive(Clone, Copy, Debug, PartialEq, Eq, Structural)]
pub enum Platform {
    Windows,
    Linux,
    Macos,
    Other,
}

impl Platform {
    /// The platform name as the artifact catalog spells it.
    pub open spec fn spec_name(self) -> Seq<char> {
        match self {
            Platform::Windows => "windows"@,
            Platform::Linux => "linux"@,
            Platform::Macos => "osx"@,
            Platform::Other => "unknown"@,
        }
    }

    /// Returns the catalog spelling of this platform's name.
    pub fn name(&self) -> (r: String)
        ensures
            r@ == self.spec_name(),
    {
        match self {
            Platform::Windows => String::from_str("windows"),
            Platform::Linux => String::from_str("linux"),
            Platform::Macos => String::from_str("osx"),
            Platform::Other => String::from_str("unknown"),
        }
    }

    /// True exactly on macOS, where the virtual machine must start on the
    /// first thread and old versions need display compatibility flags.
    pub fn is_macos(&self) -> (r: bool)
        ensures
            r == (*self == Platform::Macos),
    {
        match self {
            Platform::Macos => true,
            _ => false,
        }
    }
}

} // verus!
