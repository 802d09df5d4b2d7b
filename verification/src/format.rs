//! The closed set of supported textual encodings and their canonical file
//! extensions.

use vstd::prelude::*;

verus! {

/// A supported textual encoding. Each variant selects a fixed file extension
/// and a fixed pair of encode/decode routines; `Toml` is the process-wide
/// default encoding.
#[derive(Clone, Copy, Debug, PartialEq, Eq, Structural)]
pub enum SaveFormat {
    Json,
    Yaml,
    Toml,
}

impl SaveFormat {
    /// The canonical file extension of this encoding: lowercase, no leading
    /// dot, unique per variant.
    pub open spec fn ext_spec(self) -> Seq<char> {
        match self {
            SaveFormat::Json => "json"@,
            SaveFormat::Yaml => "yaml"@,
            SaveFormat::Toml => "toml"@,
        }
    }

    /// Returns the canonical file extension for this encoding.
    pub fn as_ext(&self) -> (r: &'static str)
        ensures
            r@ == self.ext_spec(),
    {
        match self {
            SaveFormat::Json => "json",
            SaveFormat::Yaml => "yaml",
            SaveFormat::Toml => "toml",
        }
    }
}

impl Default for SaveFormat {
    /// The default encoding is TOML.
    fn default() -> (r: Self)
        ensures
            r == SaveFormat::Toml,
    {
        SaveFormat::Toml
    }
}

} // verus!
