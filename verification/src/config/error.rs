use vstd::prelude::*;

verus! {

/// Why loading or regenerating the configuration failed. The adapter that
/// touches the file system maps its I/O and decoding errors onto these
/// variants.
#[derive(Clone, Copy, Debug, PartialEq, Eq, Structural)]
pub enum ConfigError {
    CreateConfigDir,
    Deserialization,
    Serialization,
    HyprlandError,
    FileRead,
    FileWrite,
    NoSupportedTerminal,
    OpenUserDir,
    Unspecified,
}

} // verus!
