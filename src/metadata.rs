use vstd::prelude::*;

verus! {

/// Decimal precision of every bridge token deployed by the portal.
pub const BRIDGE_TOKEN_DECIMALS: u8 = 15;

/// Metadata of a fungible token, as the token contract's initializer takes it.
#[derive(Debug, Clone, PartialEq, Eq)]
pub struct TokenMetadata {
    pub spec: String,
    pub name: String,
    pub symbol: String,
    pub icon: Option<String>,
    pub reference: Option<String>,
    pub reference_hash: Option<Vec<u8>>,
    pub decimals: u8,
}

/// The protocol tag of fungible-token metadata.
pub open spec fn ft_spec_tag() -> Seq<char> {
    "ft-1.0.0"@
}

/// Relies on near_contract_standards' `FT_METADATA_SPEC`, the constant "ft-1.0.0".
#[verifier::external_body]
fn ft_metadata_spec() -> (r: String)
    ensures
        r@ == ft_spec_tag(),
{
    near_contract_standards::fungible_token::metadata::FT_METADATA_SPEC.to_string()
}

/// `m` is the metadata the portal gives the token named `name`: name and symbol
/// both `name`, an empty icon, no reference, and the bridge token precision.
pub open spec fn is_bridge_token_metadata(m: TokenMetadata, name: Seq<char>) -> bool {
    &&& m.spec@ == ft_spec_tag()
    &&& m.name@ == name
    &&& m.symbol@ == name
    &&& m.icon matches Some(icon) && icon@ == Seq::<char>::empty()
    &&& m.reference is None
    &&& m.reference_hash is None
    &&& m.decimals == BRIDGE_TOKEN_DECIMALS
}

/// The metadata of the bridge token named `name`.
pub fn bridge_token_metadata(name: &String) -> (r: TokenMetadata)
    ensures
        is_bridge_token_metadata(r, name@),
{
    TokenMetadata {
        spec: ft_metadata_spec(),
        name: name.clone(),
        symbol: name.clone(),
        icon: Some(String::new()),
        reference: None,
        reference_hash: None,
        decimals: BRIDGE_TOKEN_DECIMALS,
    }
}

} // verus!
