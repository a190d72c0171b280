//! The static descriptor of the token.
//!
//! The descriptor is an external collaborator's concern; the core only stores
//! it and hands it back. Only the default used by
//! [`crate::token::Contract::new_default_meta`] is pinned down here.

use vstd::prelude::*;

verus! {

/// The version of the token-metadata standard the descriptor follows.
pub const FT_METADATA_SPEC: &'static str = "ft-1.0.0";

/// Base64-encoded SVG used as the default icon.
pub const DATA_IMAGE_SVG_GT_ICON: &'static str = "data:image/svg+xml;base64,PD94bWwgdmVyc2lvbj0iMS4wIiBlbmNvZGluZz0idXRmLTgiPz4KPCEtLSBHZW5lcmF0b3I6IEFkb2JlIElsbHVzdHJhdG9yIDI0LjAuMCwgU1ZHIEV4cG9ydCBQbHVnLUluIC4gU1ZHIFZlcnNpb246IDYuMDAgQnVpbGQgMCkgIC0tPgo8c3ZnIHZlcnNpb249IjEuMSIgaWQ9IkxheWVyXzEiIHhtbG5zPSJodHRwOi8vd3d3LnczLm9yZy8yMDAwL3N2ZyIgeG1sbnM6eGxpbms9Imh0dHA6Ly93d3cudzMub3JnLzE5OTkveGxpbmsiIHg9IjBweCIgeT0iMHB4IgoJIHZpZXdCb3g9IjAgMCA5MC4xIDkwIiBzdHlsZT0iZW5hYmxlLWJhY2tncm91bmQ6bmV3IDAgMCA5MC4xIDkwOyIgeG1sOnNwYWNlPSJwcmVzZXJ2ZSI+CjxwYXRoIGQ9Ik03Mi4yLDQuNkw1My40LDMyLjVjLTEuMywxLjksMS4yLDQuMiwzLDIuNkw3NC45LDE5YzAuNS0wLjQsMS4yLTAuMSwxLjIsMC42djUwLjNjMCwwLjctMC45LDEtMS4zLDAuNWwtNTYtNjcKCUMxNywxLjIsMTQuNCwwLDExLjUsMGgtMkM0LjMsMCwwLDQuMywwLDkuNnY3MC44QzAsODUuNyw0LjMsOTAsOS42LDkwYzMuMywwLDYuNC0xLjcsOC4yLTQuNmwxOC44LTI3LjljMS4zLTEuOS0xLjItNC4yLTMtMi42CglsLTE4LjUsMTZjLTAuNSwwLjQtMS4yLDAuMS0xLjItMC42VjIwLjFjMC0wLjcsMC45LTEsMS4zLTAuNWw1Niw2N2MxLjgsMi4yLDQuNSwzLjQsNy4zLDMuNGgyYzUuMywwLDkuNi00LjMsOS42LTkuNlY5LjYKCWMwLTUuMy00LjMtOS42LTkuNi05LjZDNzcuMSwwLDc0LDEuNyw3Mi4yLDQuNnoiLz4KPC9zdmc+";

/// The descriptor: display information the core stores untouched.
pub struct FungibleTokenMetadata {
    /// Version of the metadata standard the descriptor follows.
    pub spec_version: String,
    /// Human-readable token name.
    pub name: String,
    /// Ticker symbol.
    pub symbol: String,
    /// Optional icon, as a data URL.
    pub icon: Option<String>,
    /// Optional link to supporting off-ledger data.
    pub reference: Option<String>,
    /// Optional digest of the referenced data.
    pub reference_hash: Option<Vec<u8>>,
    /// Display scaling only: the token's amounts stay in the smallest unit.
    pub decimals: u8,
}

/// The descriptor is the default one.
pub open spec fn is_default_metadata(m: FungibleTokenMetadata) -> bool {
    &&& m.spec_version@ == FT_METADATA_SPEC@
    &&& m.name@ == "Team Token FT Tutorial"@
    &&& m.symbol@ == "gtNEAR"@
    &&& m.icon matches Some(icon) && icon@ == DATA_IMAGE_SVG_GT_ICON@
    &&& m.reference is None
    &&& m.reference_hash is None
    &&& m.decimals == 24
}

/// Builds the default descriptor.
pub fn default_metadata() -> (m: FungibleTokenMetadata)
    ensures
        is_default_metadata(m),
{
    FungibleTokenMetadata {
        spec_version: FT_METADATA_SPEC.to_owned(),
        name: "Team Token FT Tutorial".to_owned(),
        symbol: "gtNEAR".to_owned(),
        icon: Some(DATA_IMAGE_SVG_GT_ICON.to_owned()),
        reference: None,
        reference_hash: None,
        decimals: 24,
    }
}

} // verus!
