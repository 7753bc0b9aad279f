//! The platforms the supervisor runs on, and what differs between them.

use vstd::prelude::*;

verus! {

/// The target platform, resolved once when the application starts.
#[derive(Clone, Copy, Debug, PartialEq, Eq, Structural)]
pub enum Platform {
    Linux,
    /// macOS on Apple silicon.
    MacOsArm64,
    /// macOS on Intel processors.
    MacOsAmd64,
    Windows,
}

impl Platform {
    /// The file name of the node daemon's binary.
    pub open spec fn daemon_binary_name(self) -> Seq<char> {
        if self == Platform::Windows {
            "phoenixd.exe"@
        } else {
            "phoenixd"@
        }
    }

    /// Whether executables carry the `.exe` suffix.
    pub fn is_windows(self) -> (b: bool)
        ensures
            b == (self == Platform::Windows),
    {
        match self {
            Platform::Windows => true,
            _ => false,
        }
    }

    /// The file name of the node daemon's binary.
    pub fn daemon_binary(self) -> (name: &'static str)
        ensures
            name@ == self.daemon_binary_name(),
    {
        if self.is_windows() {
            "phoenixd.exe"
        } else {
            "phoenixd"
        }
    }
}

} // verus!
