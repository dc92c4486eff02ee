//! The project manifest: a package description naming the source entry point.
//!
//! Only the `build` command consumes a manifest, to locate the source unit
//! and to name the output artifact. Reading the manifest file and decoding
//! its key-value form happen outside the library; the decoded values arrive
//! here as plain strings.

use vstd::prelude::*;
use vstd::string::StringExecFns;

verus! {

/// One package of a project manifest. `name` and `path` are required by the
/// manifest format; the rest is descriptive and optional.
#[derive(Debug)]
pub struct Package {
    pub name: String,
    pub path: String,
    pub version: Option<String>,
    pub description: Option<String>,
    pub author: Option<String>,
    pub license: Option<String>,
}

/// A whole project manifest: exactly one package.
#[derive(Debug)]
pub struct Config {
    pub package: Package,
}

impl Package {
    /// The file the `build` command writes the compiled artifact to: the
    /// package's name with the binary module extension appended.
    pub fn output_file_name(&self) -> (r: String)
        ensures
            r@ == self.name@ + ".wasm"@,
    {
        self.name.clone().concat(".wasm")
    }
}

} // verus!
