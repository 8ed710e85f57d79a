//! Records of the token bridge program: its two singleton configurations,
//! its registry entries, and the attested transfer it consumes.
use vstd::prelude::*;

use crate::address::{bytes_eq, is_zero, is_zero_address, HOME_CHAIN_ID};
use crate::claims::ClaimKey;

verus! {

/// Finality level that outbound token transfers ask of the attestation network.
pub const FINALITY_FINALIZED: u8 = 1;

/// Token-bridge accounts that outbound transfers go through.
#[derive(Clone, Copy, Debug)]
pub struct OutboundTokenBridgeAddresses {
    pub config: [u8; 32],
    pub authority_signer: [u8; 32],
    pub custody_signer: [u8; 32],
    pub emitter: [u8; 32],
    pub sequence: [u8; 32],
    pub wormhole_bridge: [u8; 32],
    pub wormhole_fee_collector: [u8; 32],
}

/// Token-bridge accounts that inbound transfers go through.
#[derive(Clone, Copy, Debug)]
pub struct InboundTokenBridgeAddresses {
    pub config: [u8; 32],
    pub custody_signer: [u8; 32],
    pub mint_authority: [u8; 32],
}

/// Configuration of outbound transfers.
#[derive(Clone, Copy, Debug)]
pub struct SenderConfig {
    /// The owning identity.
    pub owner: [u8; 32],
    /// Bump seed of the configuration's derived address, used when it signs.
    pub bump: u8,
    pub token_bridge: OutboundTokenBridgeAddresses,
    /// Finality level asked of the attestation network.
    pub finality: u8,
}

/// Configuration of inbound transfers, with the relayer fee as the fraction
/// `relayer_fee / relayer_fee_precision`.
#[derive(Clone, Copy, Debug)]
pub struct RedeemerConfig {
    /// The owning identity.
    pub owner: [u8; 32],
    /// Bump seed of the configuration's derived address, used when it signs.
    pub bump: u8,
    pub token_bridge: InboundTokenBridgeAddresses,
    pub relayer_fee: u32,
    pub relayer_fee_precision: u32,
}

/// The relayer's share of `amount` at fee `fee / precision`, rounded down.
pub open spec fn relayer_amount(amount: nat, fee: nat, precision: nat) -> nat
    recommends
        precision > 0,
{
    (amount * fee / precision) as nat
}

impl RedeemerConfig {
    /// The fee is a proper fraction.
    pub open spec fn wf(&self) -> bool {
        self.relayer_fee < self.relayer_fee_precision
    }

    /// The relayer's share of `amount`: `floor(amount * relayer_fee /
    /// relayer_fee_precision)`, computed without overflow.
    pub fn compute_relayer_amount(&self, amount: u64) -> (r: u64)
        requires
            self.wf(),
        ensures
            r == relayer_amount(amount as nat, self.relayer_fee as nat, self.relayer_fee_precision as nat),
            r <= amount,
    {
        let fee = self.relayer_fee as u128;
        let precision = self.relayer_fee_precision as u128;
        let a = amount as u128;
        proof {
            lemma_relayer_amount_at_most(amount as nat, fee as nat, precision as nat);
            vstd::arithmetic::mul::lemma_mul_upper_bound(a as int, u64::MAX as int, fee as int, u32::MAX as int);
        }
        let product = a * fee;
        (product / precision) as u64
    }
}

/// The relayer's share never exceeds the amount.
pub proof fn lemma_relayer_amount_at_most(amount: nat, fee: nat, precision: nat)
    requires
        fee < precision,
    ensures
        relayer_amount(amount, fee, precision) <= amount,
{
    vstd::arithmetic::mul::lemma_mul_inequality(fee as int, precision as int, amount as int);
    vstd::arithmetic::mul::lemma_mul_is_commutative(amount as int, fee as int);
    vstd::arithmetic::mul::lemma_mul_is_commutative(amount as int, precision as int);
    vstd::arithmetic::div_mod::lemma_div_is_ordered((amount * fee) as int, (amount * precision) as int, precision as int);
    vstd::arithmetic::div_mod::lemma_div_by_multiple(amount as int, precision as int);
}

/// For a fee below its precision, the relayer's share is monotonic
/// non-decreasing in the amount, and is zero when the amount or the fee is
/// zero.
pub proof fn lemma_relayer_amount_monotonic(a: nat, b: nat, fee: nat, precision: nat)
    requires
        fee < precision,
        a <= b,
    ensures
        relayer_amount(a, fee, precision) <= relayer_amount(b, fee, precision),
        relayer_amount(0, fee, precision) == 0,
        relayer_amount(a, 0, precision) == 0,
{
    vstd::arithmetic::mul::lemma_mul_inequality(a as int, b as int, fee as int);
    vstd::arithmetic::div_mod::lemma_div_is_ordered((a * fee) as int, (b * fee) as int, precision as int);
    assert(0 * fee == 0) by (nonlinear_arith);
    assert(a * 0 == 0) by (nonlinear_arith);
}

/// Registry entry: the trusted counterpart contract on a foreign chain.
#[derive(Clone, Copy, Debug)]
pub struct ForeignContract {
    /// The foreign chain's id; never 0 nor the home chain's.
    pub chain: u16,
    /// The counterpart's address on that chain; never all zero.
    pub address: [u8; 32],
    /// The token bridge's registration of the foreign chain's bridge.
    pub token_bridge_foreign_endpoint: [u8; 32],
}

/// What a registry entry of `chain` with counterpart `address` needs: a
/// foreign chain id other than 0 and an address that is not all zero.
pub open spec fn valid_registration(chain: u16, address: Seq<u8>) -> bool {
    chain > 0 && chain != HOME_CHAIN_ID && !is_zero(address)
}

/// Whether a registry entry of `chain` with counterpart `address` would be
/// valid.
pub fn is_valid_registration(chain: u16, address: &[u8; 32]) -> (r: bool)
    ensures
        r == valid_registration(chain, address@),
{
    chain > 0 && chain != HOME_CHAIN_ID && !is_zero_address(address)
}

impl ForeignContract {
    /// The entry satisfies the registry's invariant.
    pub open spec fn wf(&self) -> bool {
        valid_registration(self.chain, self.address@)
    }

    /// The message comes from this counterpart: same origin chain, same
    /// sending address.
    pub open spec fn accepts(&self, vaa: &PostedTokenMessage) -> bool {
        vaa.emitter_chain == self.chain && vaa.from_address@ == self.address@
    }

    /// Whether `vaa` comes from this registered counterpart.
    pub fn verify(&self, vaa: &PostedTokenMessage) -> (r: bool)
        ensures
            r == self.accepts(vaa),
    {
        vaa.emitter_chain == self.chain && bytes_eq(&vaa.from_address, &self.address)
    }
}

/// An attested token transfer with payload, as the attestation network hands
/// it over: already verified, read here field by field.
#[derive(Clone, Debug)]
pub struct PostedTokenMessage {
    /// Chain the message was emitted on.
    pub emitter_chain: u16,
    /// The foreign token bridge that emitted it.
    pub emitter_address: [u8; 32],
    /// The emitter's sequence number of this message.
    pub sequence: u64,
    /// Amount, as the token bridge carries it (at most eight decimals).
    pub amount: u64,
    /// The token's address on its origin chain.
    pub token_address: [u8; 32],
    /// The token's origin chain.
    pub token_chain: u16,
    /// Address the transfer is for.
    pub to_address: [u8; 32],
    /// Chain the transfer is for.
    pub to_chain: u16,
    /// The contract that sent the transfer on the foreign chain.
    pub from_address: [u8; 32],
    /// The encoded token-transfer payload.
    pub payload: Vec<u8>,
}

impl PostedTokenMessage {
    /// Identifier of the message's claim record.
    pub open spec fn claim_id(&self) -> ClaimKey {
        ClaimKey {
            emitter_chain: self.emitter_chain,
            emitter_address: self.emitter_address,
            sequence: self.sequence,
        }
    }

    /// The key of this message's claim record.
    pub fn claim_key(&self) -> (r: ClaimKey)
        ensures
            r == self.claim_id(),
    {
        ClaimKey {
            emitter_chain: self.emitter_chain,
            emitter_address: self.emitter_address,
            sequence: self.sequence,
        }
    }
}

} // verus!
