//! The failures that resolving a configuration can signal.

use vstd::prelude::*;

verus! {

/// An external program that the packaging stages run.
#[derive(Debug, Clone, Copy, PartialEq, Eq, Structural)]
pub enum Tool {
    /// The archiver.
    SevenZip,
    /// The installer builder.
    MakeNsis,
    /// The document converter.
    Pandoc,
    /// The debug-symbol stripper.
    PdbCopy,
}

/// A directory that has to exist before the packaging stages run.
#[derive(Debug, Clone, Copy, PartialEq, Eq, Structural)]
pub enum Directory {
    /// The directory that holds the new build.
    Input,
    /// The directory that holds the previous releases.
    Previous,
}

/// Why a configuration could not be resolved.
#[derive(Debug, Clone, Copy, PartialEq, Eq, Structural)]
pub enum ConfigError {
    /// The version string is not `Major.Minor.Patch`, optionally followed by
    /// `-beta<N>` or `-rc<N>`.
    InvalidVersionFormat,
    /// The named tool is neither at its configured path nor on the search path.
    BinaryNotFound(Tool),
    /// Manifest signing is requested, but no private key is at hand.
    SigningKeyMissing,
    /// The named directory does not exist.
    DirectoryNotFound(Directory),
}

} // verus!
