//! Plugin metadata.

use vstd::prelude::*;

verus! {

/// Static plugin metadata surfaced in logs and on the management panel.
///
/// Build one with the `manifest!` macro rather than by hand: the macro
/// stamps `api_version` with the SDK's ABI version, which the framework
/// checks at load time.
pub struct PluginManifest {
    /// Short identifier, shown in log prefixes like `[my-plugin]`.
    pub name: &'static str,
    /// Human-readable version string.
    pub version: &'static str,
    /// Free-form author string.
    pub authors: &'static str,
    /// One-line description.
    pub description: &'static str,
    /// Must equal the SDK's ABI version.
    pub api_version: u32,
}

} // verus!
