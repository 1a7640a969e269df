//! Launch-command synthesis for a Minecraft launcher.
//!
//! The crate turns a parsed version manifest, an authenticated session, an
//! instance profile and a resolved Java installation into a concrete process
//! specification: executable path, JVM flags, classpath, main class, game
//! flags and working directory.  Everything here is pure computation over
//! strings and lists; the caller performs the disk-existence checks and the
//! final spawn and feeds their outcomes back in as plain values.

pub mod arguments;
pub mod classpath;
pub mod launch;
pub mod model;
pub mod resolve;
pub mod rules;
pub mod text;

use vstd::prelude::*;

verus! {

/// The operating system the launch command is being synthesised for.
///
/// The caller determines the platform once and passes it in; rule
/// evaluation and classpath joining depend on it.
#[derive(Clone, Copy, Debug, PartialEq, Eq, Structural)]
pub enum Os {
    Windows,
    Linux,
    MacOs,
    /// Any platform that version-manifest rules never name.
    Other,
}

/// The character that separates classpath entries on the given platform.
pub open spec fn spec_classpath_separator(os: Os) -> Seq<char> {
    if os == Os::Windows {
        ";"@
    } else {
        ":"@
    }
}

impl Os {
    /// Returns the platform's classpath separator: `;` on Windows, `:` elsewhere.
    pub fn classpath_separator(&self) -> (r: &'static str)
        ensures
            r@ == spec_classpath_separator(*self),
    {
        match self {
            Os::Windows => ";",
            _ => ":",
        }
    }
}

/// Synthesises launch commands.  The launcher itself carries no state:
/// every input of a launch is passed to the methods that need it.
pub struct GameLauncher {}

impl GameLauncher {
    /// Creates a launcher.
    pub fn new() -> Self {
        Self {}
    }
}

} // verus!
