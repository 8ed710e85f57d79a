//! Addresses of associated token accounts.
use vstd::prelude::*;

verus! {

/// Address of the associated token account that `wallet` holds for `mint`.
pub uninterp spec fn associated_token_address_of(wallet: Seq<u8>, mint: Seq<u8>) -> Seq<u8>;

/// Relies on anchor_spl::associated_token::get_associated_token_address: the
/// program-derived address of `wallet`'s token account for `mint`, a function
/// of the two addresses alone. (It panics only where no bump seed gives an
/// address off the curve, which its documentation calls statistically
/// improbable.)
#[verifier::external_body]
pub(crate) fn associated_token_address(wallet: &[u8; 32], mint: &[u8; 32]) -> (r: [u8; 32])
    ensures
        r@ == associated_token_address_of(wallet@, mint@),
{
    anchor_spl::associated_token::get_associated_token_address(
        &anchor_lang::prelude::Pubkey::new_from_array(*wallet),
        &anchor_lang::prelude::Pubkey::new_from_array(*mint),
    ).to_bytes()
}

} // verus!
