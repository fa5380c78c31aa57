//! The settings that a provider backed by a native library is started with.

use vstd::prelude::*;

verus! {

/// Where the native library is found.
#[derive(Debug)]
pub struct Config {
    /// The path of the shared library that exports the products.
    pub cblas_dylib_path: String,
}

} // verus!
