//! The token bridge program: initialisation, the owner-managed registry and
//! fee, the outbound flows and the redemption state machine.
//!
//! Every operation is all-or-nothing: it either returns `Ok` with its effect
//! on the program state, or an error with the state untouched. The token
//! movements an operation calls for are returned as a plan
//! ([`OutboundTransfer`], [`RedeemPayout`]) for the host to carry out in the
//! same atomic unit.
use std::collections::HashMap;
use vstd::prelude::*;

use crate::address::{bytes_eq, HOME_CHAIN_ID};
use crate::amounts::{
    bridged_amount, checked_denormalized_amount, denormalized_amount, truncated_amount,
};
use crate::claims::ClaimStore;
use crate::codec::{token_message_bytes, token_message_of, CodecError, TokenMessage, TokenMessageModel};
use crate::error::BridgeError;
use crate::state::{
    is_valid_registration, relayer_amount, valid_registration, ForeignContract, InboundTokenBridgeAddresses,
    OutboundTokenBridgeAddresses, PostedTokenMessage, RedeemerConfig, SenderConfig,
    FINALITY_FINALIZED,
};
use crate::token_account::{associated_token_address, associated_token_address_of};

verus! {

broadcast use vstd::std_specs::hash::group_hash_axioms;

/// State of the token bridge program: both configurations, the registry of
/// trusted foreign contracts keyed by chain id, and the claim records.
pub struct Bridge {
    pub sender_config: SenderConfig,
    pub redeemer_config: RedeemerConfig,
    pub foreign_contracts: HashMap<u16, ForeignContract>,
    pub claims: ClaimStore,
}

/// Accounts and values that initialisation reads.
#[derive(Clone, Copy, Debug)]
pub struct Initialize {
    pub owner: [u8; 32],
    pub sender_config_bump: u8,
    pub redeemer_config_bump: u8,
    pub token_bridge_config: [u8; 32],
    pub token_bridge_authority_signer: [u8; 32],
    pub token_bridge_custody_signer: [u8; 32],
    pub token_bridge_mint_authority: [u8; 32],
    pub wormhole_bridge: [u8; 32],
    pub token_bridge_emitter: [u8; 32],
    pub wormhole_fee_collector: [u8; 32],
    pub token_bridge_sequence: [u8; 32],
}

/// Accounts that registering a foreign contract reads.
#[derive(Clone, Copy, Debug)]
pub struct RegisterForeignContract {
    /// The caller.
    pub owner: [u8; 32],
    /// The token bridge's registration of the foreign chain's bridge.
    pub token_bridge_foreign_endpoint: [u8; 32],
}

/// Accounts that updating the relayer fee reads.
#[derive(Clone, Copy, Debug)]
pub struct UpdateRelayerFee {
    /// The caller.
    pub owner: [u8; 32],
}

/// Accounts that sending native tokens reads.
#[derive(Clone, Copy, Debug)]
pub struct SendNativeTokensWithPayload {
    /// Decimals of the mint of the tokens sent.
    pub mint_decimals: u8,
    /// The token-bridge accounts supplied for the transfer.
    pub token_bridge: OutboundTokenBridgeAddresses,
}

/// Accounts that sending wrapped tokens reads.
#[derive(Clone, Copy, Debug)]
pub struct SendWrappedTokensWithPayload {
    /// The token-bridge accounts supplied for the transfer; the custody
    /// signer plays no part for wrapped tokens.
    pub token_bridge: OutboundTokenBridgeAddresses,
}

/// Accounts that redeeming a native-token transfer reads.
#[derive(Clone, Copy, Debug)]
pub struct RedeemNativeTransferWithPayload {
    /// Who submits the redemption; a relayer when it is not the recipient.
    pub payer: [u8; 32],
    /// Where the relayer's fee goes.
    pub payer_token_account: [u8; 32],
    /// Whether that token account already exists.
    pub payer_token_account_exists: bool,
    pub recipient: [u8; 32],
    pub mint_decimals: u8,
    /// This program's identity.
    pub program_id: [u8; 32],
    /// Address of the redeemer configuration.
    pub config: [u8; 32],
    pub token_bridge_config: [u8; 32],
    pub token_bridge_foreign_endpoint: [u8; 32],
    pub token_bridge_custody_signer: [u8; 32],
}

/// Accounts that redeeming a wrapped-token transfer reads.
#[derive(Clone, Copy, Debug)]
pub struct RedeemWrappedTransferWithPayload {
    /// Who submits the redemption; a relayer when it is not the recipient.
    pub payer: [u8; 32],
    /// Where the relayer's fee goes.
    pub payer_token_account: [u8; 32],
    /// Whether that token account already exists.
    pub payer_token_account_exists: bool,
    pub recipient: [u8; 32],
    /// The token bridge's wrapped mint of the transferred token.
    pub wrapped_mint: [u8; 32],
    /// This program's identity.
    pub program_id: [u8; 32],
    /// Address of the redeemer configuration.
    pub config: [u8; 32],
    pub token_bridge_config: [u8; 32],
    pub token_bridge_foreign_endpoint: [u8; 32],
    pub token_bridge_mint_authority: [u8; 32],
}

/// What an accepted send hands to the token bridge: escrow `amount`, then
/// transfer it with `payload` to `foreign_contract` on `recipient_chain`.
#[derive(Clone, Debug)]
pub struct OutboundTransfer {
    pub batch_id: u32,
    pub amount: u64,
    pub recipient_chain: u16,
    /// The registered counterpart on the recipient chain.
    pub foreign_contract: [u8; 32],
    /// The encoded token-transfer payload naming the recipient.
    pub payload: Vec<u8>,
}

/// How an accepted redemption empties its escrow: `relayer_amount` to the
/// payer (no transfer when it is zero) and `recipient_amount` to the
/// recipient.
#[derive(Clone, Copy, Debug, PartialEq, Eq, Structural)]
pub struct RedeemPayout {
    pub amount: u64,
    pub relayer_amount: u64,
    pub recipient_amount: u64,
}

/// The first supplied outbound account that differs from the recorded one,
/// as its error; the custody signer is compared only when `custody` holds.
pub open spec fn outbound_endpoint_error(
    recorded: OutboundTokenBridgeAddresses,
    supplied: OutboundTokenBridgeAddresses,
    custody: bool,
) -> Option<BridgeError> {
    if supplied.config != recorded.config {
        Some(BridgeError::InvalidTokenBridgeConfig)
    } else if supplied.authority_signer != recorded.authority_signer {
        Some(BridgeError::InvalidTokenBridgeAuthoritySigner)
    } else if custody && supplied.custody_signer != recorded.custody_signer {
        Some(BridgeError::InvalidTokenBridgeCustodySigner)
    } else if supplied.wormhole_bridge != recorded.wormhole_bridge {
        Some(BridgeError::InvalidWormholeBridge)
    } else if supplied.emitter != recorded.emitter {
        Some(BridgeError::InvalidTokenBridgeEmitter)
    } else if supplied.sequence != recorded.sequence {
        Some(BridgeError::InvalidTokenBridgeSequence)
    } else if supplied.wormhole_fee_collector != recorded.wormhole_fee_collector {
        Some(BridgeError::InvalidWormholeFeeCollector)
    } else {
        None
    }
}

fn check_outbound_endpoints(
    recorded: &OutboundTokenBridgeAddresses,
    supplied: &OutboundTokenBridgeAddresses,
    custody: bool,
) -> (r: Option<BridgeError>)
    ensures
        r == outbound_endpoint_error(*recorded, *supplied, custody),
{
    if !bytes_eq(&supplied.config, &recorded.config) {
        Some(BridgeError::InvalidTokenBridgeConfig)
    } else if !bytes_eq(&supplied.authority_signer, &recorded.authority_signer) {
        Some(BridgeError::InvalidTokenBridgeAuthoritySigner)
    } else if custody && !bytes_eq(&supplied.custody_signer, &recorded.custody_signer) {
        Some(BridgeError::InvalidTokenBridgeCustodySigner)
    } else if !bytes_eq(&supplied.wormhole_bridge, &recorded.wormhole_bridge) {
        Some(BridgeError::InvalidWormholeBridge)
    } else if !bytes_eq(&supplied.emitter, &recorded.emitter) {
        Some(BridgeError::InvalidTokenBridgeEmitter)
    } else if !bytes_eq(&supplied.sequence, &recorded.sequence) {
        Some(BridgeError::InvalidTokenBridgeSequence)
    } else if !bytes_eq(&supplied.wormhole_fee_collector, &recorded.wormhole_fee_collector) {
        Some(BridgeError::InvalidWormholeFeeCollector)
    } else {
        None
    }
}

/// The sender configuration that initialisation records.
pub open spec fn initial_sender_config(ctx: Initialize) -> SenderConfig {
    SenderConfig {
        owner: ctx.owner,
        bump: ctx.sender_config_bump,
        token_bridge: OutboundTokenBridgeAddresses {
            config: ctx.token_bridge_config,
            authority_signer: ctx.token_bridge_authority_signer,
            custody_signer: ctx.token_bridge_custody_signer,
            emitter: ctx.token_bridge_emitter,
            sequence: ctx.token_bridge_sequence,
            wormhole_bridge: ctx.wormhole_bridge,
            wormhole_fee_collector: ctx.wormhole_fee_collector,
        },
        finality: FINALITY_FINALIZED,
    }
}

/// The redeemer configuration that initialisation records.
pub open spec fn initial_redeemer_config(ctx: Initialize, fee: u32, precision: u32) -> RedeemerConfig {
    RedeemerConfig {
        owner: ctx.owner,
        bump: ctx.redeemer_config_bump,
        token_bridge: InboundTokenBridgeAddresses {
            config: ctx.token_bridge_config,
            custody_signer: ctx.token_bridge_custody_signer,
            mint_authority: ctx.token_bridge_mint_authority,
        },
        relayer_fee: fee,
        relayer_fee_precision: precision,
    }
}

/// Creates the program state: both configurations, an empty registry and no
/// claim. Refused with `InvalidFeeParameters` unless the fee is below its
/// precision.
pub fn initialize(ctx: &Initialize, relayer_fee: u32, relayer_fee_precision: u32) -> (r: Result<
    Bridge,
    BridgeError,
>)
    ensures
        r is Err <==> relayer_fee >= relayer_fee_precision,
        r matches Err(e) ==> e == BridgeError::InvalidFeeParameters,
        r matches Ok(b) ==> {
            &&& b.wf()
            &&& b.sender_config == initial_sender_config(*ctx)
            &&& b.redeemer_config == initial_redeemer_config(*ctx, relayer_fee, relayer_fee_precision)
            &&& b.foreign_contracts@ == Map::<u16, ForeignContract>::empty()
            &&& b.claims@ == Set::<crate::claims::ClaimKey>::empty()
        },
{
    if relayer_fee >= relayer_fee_precision {
        return Err(BridgeError::InvalidFeeParameters);
    }
    let sender_config = SenderConfig {
        owner: ctx.owner,
        bump: ctx.sender_config_bump,
        token_bridge: OutboundTokenBridgeAddresses {
            config: ctx.token_bridge_config,
            authority_signer: ctx.token_bridge_authority_signer,
            custody_signer: ctx.token_bridge_custody_signer,
            emitter: ctx.token_bridge_emitter,
            sequence: ctx.token_bridge_sequence,
            wormhole_bridge: ctx.wormhole_bridge,
            wormhole_fee_collector: ctx.wormhole_fee_collector,
        },
        finality: FINALITY_FINALIZED,
    };
    let redeemer_config = RedeemerConfig {
        owner: ctx.owner,
        bump: ctx.redeemer_config_bump,
        token_bridge: InboundTokenBridgeAddresses {
            config: ctx.token_bridge_config,
            custody_signer: ctx.token_bridge_custody_signer,
            mint_authority: ctx.token_bridge_mint_authority,
        },
        relayer_fee,
        relayer_fee_precision,
    };
    Ok(Bridge {
        sender_config,
        redeemer_config,
        foreign_contracts: HashMap::new(),
        claims: ClaimStore::new(),
    })
}

impl Bridge {
    /// The fee is a proper fraction and every registry entry is valid and
    /// filed under its own chain id.
    pub open spec fn wf(&self) -> bool {
        &&& self.redeemer_config.wf()
        &&& forall|c: u16| #[trigger]
            self.foreign_contracts@.contains_key(c) ==> {
                &&& self.foreign_contracts@[c].chain == c
                &&& self.foreign_contracts@[c].wf()
            }
    }

    /// The state is as before but for the registry and the claims.
    pub open spec fn same_configs(&self, other: &Bridge) -> bool {
        self.sender_config == other.sender_config && self.redeemer_config == other.redeemer_config
    }

    /// Registers, or re-registers, the trusted counterpart on `chain`.
    /// Refused with `Unauthorized` unless the caller is the owner, then with
    /// `InvalidEntry` for chain 0, the home chain or an all-zero address.
    pub fn register_foreign_contract(
        &mut self,
        ctx: &RegisterForeignContract,
        chain: u16,
        address: [u8; 32],
    ) -> (r: Result<(), BridgeError>)
        requires
            old(self).wf(),
        ensures
            final(self).wf(),
            r is Ok <==> ctx.owner == old(self).sender_config.owner && valid_registration(
                chain,
                address@,
            ),
            r matches Err(e) ==> {
                &&& *final(self) == *old(self)
                &&& e == if ctx.owner != old(self).sender_config.owner {
                    BridgeError::Unauthorized
                } else {
                    BridgeError::InvalidEntry
                }
            },
            r is Ok ==> {
                &&& final(self).same_configs(old(self))
                &&& final(self).claims@ == old(self).claims@
                &&& final(self).foreign_contracts@ == old(self).foreign_contracts@.insert(
                    chain,
                    (ForeignContract {
                        chain,
                        address,
                        token_bridge_foreign_endpoint: ctx.token_bridge_foreign_endpoint,
                    }),
                )
            },
    {
        if !bytes_eq(&ctx.owner, &self.sender_config.owner) {
            return Err(BridgeError::Unauthorized);
        }
        if !is_valid_registration(chain, &address) {
            return Err(BridgeError::InvalidEntry);
        }
        let entry = ForeignContract {
            chain,
            address,
            token_bridge_foreign_endpoint: ctx.token_bridge_foreign_endpoint,
        };
        self.foreign_contracts.insert(chain, entry);
        Ok(())
    }

    /// Sets the relayer fee to `relayer_fee / relayer_fee_precision`.
    /// Refused with `Unauthorized` unless the caller is the owner, then with
    /// `InvalidFeeParameters` unless the fee is below its precision.
    pub fn update_relayer_fee(
        &mut self,
        ctx: &UpdateRelayerFee,
        relayer_fee: u32,
        relayer_fee_precision: u32,
    ) -> (r: Result<(), BridgeError>)
        requires
            old(self).wf(),
        ensures
            final(self).wf(),
            r is Ok <==> ctx.owner == old(self).redeemer_config.owner && relayer_fee
                < relayer_fee_precision,
            r matches Err(e) ==> {
                &&& *final(self) == *old(self)
                &&& e == if ctx.owner != old(self).redeemer_config.owner {
                    BridgeError::Unauthorized
                } else {
                    BridgeError::InvalidFeeParameters
                }
            },
            r is Ok ==> {
                &&& final(self).redeemer_config == (RedeemerConfig {
                    relayer_fee,
                    relayer_fee_precision,
                    ..old(self).redeemer_config
                })
                &&& final(self).sender_config == old(self).sender_config
                &&& final(self).foreign_contracts@ == old(self).foreign_contracts@
                &&& final(self).claims@ == old(self).claims@
            },
    {
        if !bytes_eq(&ctx.owner, &self.redeemer_config.owner) {
            return Err(BridgeError::Unauthorized);
        }
        if relayer_fee >= relayer_fee_precision {
            return Err(BridgeError::InvalidFeeParameters);
        }
        self.redeemer_config.relayer_fee = relayer_fee;
        self.redeemer_config.relayer_fee_precision = relayer_fee_precision;
        Ok(())
    }
}


impl Bridge {
    /// Why sending native tokens is refused, if it is: nothing left after
    /// truncation, then a malformed destination, then no registered
    /// counterpart on the destination chain, then a supplied account that
    /// differs from the recorded one.
    pub open spec fn send_native_error(
        &self,
        ctx: &SendNativeTokensWithPayload,
        amount: u64,
        recipient_address: [u8; 32],
        recipient_chain: u16,
    ) -> Option<BridgeError> {
        if truncated_amount(amount, ctx.mint_decimals) == 0 {
            Some(BridgeError::ZeroBridgeAmount)
        } else if !valid_registration(recipient_chain, recipient_address@) {
            Some(BridgeError::InvalidRecipient)
        } else if !self.foreign_contracts@.contains_key(recipient_chain) {
            Some(BridgeError::InvalidForeignContract)
        } else {
            outbound_endpoint_error(self.sender_config.token_bridge, ctx.token_bridge, true)
        }
    }

    /// Why sending wrapped tokens is refused, if it is: as for native tokens,
    /// with no truncation and no custody signer.
    pub open spec fn send_wrapped_error(
        &self,
        ctx: &SendWrappedTokensWithPayload,
        amount: u64,
        recipient_address: [u8; 32],
        recipient_chain: u16,
    ) -> Option<BridgeError> {
        if amount == 0 {
            Some(BridgeError::ZeroBridgeAmount)
        } else if !valid_registration(recipient_chain, recipient_address@) {
            Some(BridgeError::InvalidRecipient)
        } else if !self.foreign_contracts@.contains_key(recipient_chain) {
            Some(BridgeError::InvalidForeignContract)
        } else {
            outbound_endpoint_error(self.sender_config.token_bridge, ctx.token_bridge, false)
        }
    }

    /// The transfer that an accepted send hands to the token bridge.
    pub open spec fn outbound_transfer_is(
        &self,
        t: OutboundTransfer,
        batch_id: u32,
        amount: nat,
        recipient_address: [u8; 32],
        recipient_chain: u16,
    ) -> bool {
        &&& t.batch_id == batch_id
        &&& t.amount == amount
        &&& t.recipient_chain == recipient_chain
        &&& t.foreign_contract == self.foreign_contracts@[recipient_chain].address
        &&& t.payload@ == token_message_bytes(
            TokenMessageModel::Hello { recipient: recipient_address@ },
        )
    }

    /// The transfer for an accepted send of `amount` to `recipient_address`
    /// on `recipient_chain`.
    fn outbound_transfer(
        &self,
        batch_id: u32,
        amount: u64,
        recipient_address: [u8; 32],
        recipient_chain: u16,
    ) -> (r: Result<OutboundTransfer, BridgeError>)
        requires
            self.foreign_contracts@.contains_key(recipient_chain),
        ensures
            r matches Ok(t) && self.outbound_transfer_is(
                t,
                batch_id,
                amount as nat,
                recipient_address,
                recipient_chain,
            ),
    {
        let foreign_contract = match self.foreign_contracts.get(&recipient_chain) {
            Some(fc) => fc.address,
            None => {
                return Err(BridgeError::InvalidForeignContract);
            },
        };
        let payload = TokenMessage::Hello { recipient: recipient_address }.encode();
        Ok(OutboundTransfer { batch_id, amount, recipient_chain, foreign_contract, payload })
    }

    /// Sends native tokens with a payload naming `recipient_address` on
    /// `recipient_chain`. The amount is truncated to the bridge's precision;
    /// the refusals are those of [`Bridge::send_native_error`], in its order.
    pub fn send_native_tokens_with_payload(
        &self,
        ctx: &SendNativeTokensWithPayload,
        batch_id: u32,
        amount: u64,
        recipient_address: [u8; 32],
        recipient_chain: u16,
    ) -> (r: Result<OutboundTransfer, BridgeError>)
        ensures
            r is Ok <==> self.send_native_error(ctx, amount, recipient_address, recipient_chain)
                is None,
            r matches Err(e) ==> self.send_native_error(
                ctx,
                amount,
                recipient_address,
                recipient_chain,
            ) == Some(e),
            r matches Ok(t) ==> self.outbound_transfer_is(
                t,
                batch_id,
                truncated_amount(amount, ctx.mint_decimals),
                recipient_address,
                recipient_chain,
            ),
    {
        let truncated = bridged_amount(amount, ctx.mint_decimals);
        if truncated == 0 {
            return Err(BridgeError::ZeroBridgeAmount);
        }
        if !is_valid_registration(recipient_chain, &recipient_address) {
            return Err(BridgeError::InvalidRecipient);
        }
        if !self.foreign_contracts.contains_key(&recipient_chain) {
            return Err(BridgeError::InvalidForeignContract);
        }
        if let Some(e) = check_outbound_endpoints(
            &self.sender_config.token_bridge,
            &ctx.token_bridge,
            true,
        ) {
            return Err(e);
        }
        self.outbound_transfer(batch_id, truncated, recipient_address, recipient_chain)
    }

    /// Sends wrapped tokens with a payload naming `recipient_address` on
    /// `recipient_chain`; the refusals are those of
    /// [`Bridge::send_wrapped_error`], in its order.
    pub fn send_wrapped_tokens_with_payload(
        &self,
        ctx: &SendWrappedTokensWithPayload,
        batch_id: u32,
        amount: u64,
        recipient_address: [u8; 32],
        recipient_chain: u16,
    ) -> (r: Result<OutboundTransfer, BridgeError>)
        ensures
            r is Ok <==> self.send_wrapped_error(ctx, amount, recipient_address, recipient_chain)
                is None,
            r matches Err(e) ==> self.send_wrapped_error(
                ctx,
                amount,
                recipient_address,
                recipient_chain,
            ) == Some(e),
            r matches Ok(t) ==> self.outbound_transfer_is(
                t,
                batch_id,
                amount as nat,
                recipient_address,
                recipient_chain,
            ),
    {
        if amount == 0 {
            return Err(BridgeError::ZeroBridgeAmount);
        }
        if !is_valid_registration(recipient_chain, &recipient_address) {
            return Err(BridgeError::InvalidRecipient);
        }
        if !self.foreign_contracts.contains_key(&recipient_chain) {
            return Err(BridgeError::InvalidForeignContract);
        }
        if let Some(e) = check_outbound_endpoints(
            &self.sender_config.token_bridge,
            &ctx.token_bridge,
            false,
        ) {
            return Err(e);
        }
        self.outbound_transfer(batch_id, amount, recipient_address, recipient_chain)
    }

    /// The guard of the redemption state machine, evaluated in order, first
    /// failure wins: the message is unclaimed; it comes from the registered
    /// counterpart of its origin chain; it is addressed to this program (or
    /// its configuration) on the home chain; its token's origin fits the flow
    /// (home chain for native, another for wrapped); its payload names
    /// `recipient`.
    pub open spec fn redeem_guard_error(
        &self,
        vaa: &PostedTokenMessage,
        recipient: [u8; 32],
        program_id: [u8; 32],
        config: [u8; 32],
        native: bool,
    ) -> Option<BridgeError> {
        if self.claims@.contains(vaa.claim_id()) {
            Some(BridgeError::AlreadyRedeemed)
        } else if !(self.foreign_contracts@.contains_key(vaa.emitter_chain)
            && self.foreign_contracts@[vaa.emitter_chain].accepts(vaa)) {
            Some(BridgeError::InvalidForeignContract)
        } else if vaa.to_address != program_id && vaa.to_address != config {
            Some(BridgeError::InvalidTransferToAddress)
        } else if vaa.to_chain != HOME_CHAIN_ID {
            Some(BridgeError::InvalidTransferToChain)
        } else if (vaa.token_chain == HOME_CHAIN_ID) != native {
            Some(BridgeError::InvalidTransferTokenChain)
        } else if token_message_of(vaa.payload@) != Ok::<TokenMessageModel, CodecError>(
            TokenMessageModel::Hello { recipient: recipient@ },
        ) {
            Some(BridgeError::InvalidRecipient)
        } else {
            None
        }
    }

    fn redeem_guard(
        &self,
        vaa: &PostedTokenMessage,
        recipient: &[u8; 32],
        program_id: &[u8; 32],
        config: &[u8; 32],
        native: bool,
    ) -> (r: Option<BridgeError>)
        ensures
            r == self.redeem_guard_error(vaa, *recipient, *program_id, *config, native),
    {
        if self.claims.contains(&vaa.claim_key()) {
            return Some(BridgeError::AlreadyRedeemed);
        }
        match self.foreign_contracts.get(&vaa.emitter_chain) {
            Some(fc) => {
                if !fc.verify(vaa) {
                    return Some(BridgeError::InvalidForeignContract);
                }
            },
            None => {
                return Some(BridgeError::InvalidForeignContract);
            },
        }
        if !bytes_eq(&vaa.to_address, program_id) && !bytes_eq(&vaa.to_address, config) {
            return Some(BridgeError::InvalidTransferToAddress);
        }
        if vaa.to_chain != HOME_CHAIN_ID {
            return Some(BridgeError::InvalidTransferToChain);
        }
        if (vaa.token_chain == HOME_CHAIN_ID) != native {
            return Some(BridgeError::InvalidTransferTokenChain);
        }
        match TokenMessage::decode(vaa.payload.as_slice()) {
            Ok(m) => {
                let named = m.recipient();
                if !bytes_eq(&named, recipient) {
                    return Some(BridgeError::InvalidRecipient);
                }
            },
            Err(_) => {
                return Some(BridgeError::InvalidRecipient);
            },
        }
        None
    }

    /// Whether a relayer's token account is wrong: the payer relays for
    /// someone else and `payer_token_account` is not its associated token
    /// account for `mint`.
    pub open spec fn payer_account_mismatch(
        payer: [u8; 32],
        recipient: [u8; 32],
        payer_token_account: [u8; 32],
        mint: [u8; 32],
    ) -> bool {
        payer != recipient && payer_token_account@ != associated_token_address_of(payer@, mint@)
    }

    fn check_payer_account(
        payer: &[u8; 32],
        recipient: &[u8; 32],
        payer_token_account: &[u8; 32],
        mint: &[u8; 32],
    ) -> (r: bool)
        ensures
            r == Self::payer_account_mismatch(*payer, *recipient, *payer_token_account, *mint),
    {
        if bytes_eq(payer, recipient) {
            return false;
        }
        let expected = associated_token_address(payer, mint);
        !bytes_eq(payer_token_account, &expected)
    }

    /// How the escrowed `amount` is split: the relayer's share goes to the
    /// payer when it relays for someone else, the rest to the recipient.
    pub open spec fn payout(&self, amount: u64, payer: [u8; 32], recipient: [u8; 32]) -> RedeemPayout {
        let fee = if payer != recipient {
            relayer_amount(
                amount as nat,
                self.redeemer_config.relayer_fee as nat,
                self.redeemer_config.relayer_fee_precision as nat,
            )
        } else {
            0
        };
        RedeemPayout {
            amount,
            relayer_amount: fee as u64,
            recipient_amount: (amount - fee) as u64,
        }
    }

    fn split_payout(&self, amount: u64, payer: &[u8; 32], recipient: &[u8; 32]) -> (r: RedeemPayout)
        requires
            self.redeemer_config.wf(),
        ensures
            r == self.payout(amount, *payer, *recipient),
            r.relayer_amount + r.recipient_amount == r.amount,
    {
        let fee = if bytes_eq(payer, recipient) {
            0
        } else {
            self.redeemer_config.compute_relayer_amount(amount)
        };
        RedeemPayout { amount, relayer_amount: fee, recipient_amount: amount - fee }
    }

    /// Why redeeming a native-token transfer is refused, if it is: the guard
    /// ([`Bridge::redeem_guard_error`]), then the payer's token account, the
    /// supplied token-bridge accounts, an amount that does not scale back to
    /// the mint's decimals, and a relayer without a token account.
    pub open spec fn redeem_native_error(
        &self,
        ctx: &RedeemNativeTransferWithPayload,
        vaa: &PostedTokenMessage,
    ) -> Option<BridgeError> {
        let guard = self.redeem_guard_error(vaa, ctx.recipient, ctx.program_id, ctx.config, true);
        if guard is Some {
            guard
        } else if Self::payer_account_mismatch(
            ctx.payer,
            ctx.recipient,
            ctx.payer_token_account,
            vaa.token_address,
        ) {
            Some(BridgeError::InvalidPayerAta)
        } else if ctx.token_bridge_config != self.redeemer_config.token_bridge.config {
            Some(BridgeError::InvalidTokenBridgeConfig)
        } else if ctx.token_bridge_foreign_endpoint
            != self.foreign_contracts@[vaa.emitter_chain].token_bridge_foreign_endpoint {
            Some(BridgeError::InvalidTokenBridgeForeignEndpoint)
        } else if ctx.token_bridge_custody_signer
            != self.redeemer_config.token_bridge.custody_signer {
            Some(BridgeError::InvalidTokenBridgeCustodySigner)
        } else if denormalized_amount(vaa.amount, ctx.mint_decimals) > u64::MAX {
            Some(BridgeError::AmountOverflow)
        } else if ctx.payer != ctx.recipient && !ctx.payer_token_account_exists {
            Some(BridgeError::NonExistentRelayerAta)
        } else {
            None
        }
    }

    /// What redeeming a native-token transfer returns.
    pub open spec fn redeem_native_result(
        &self,
        ctx: &RedeemNativeTransferWithPayload,
        vaa: &PostedTokenMessage,
    ) -> Result<RedeemPayout, BridgeError> {
        match self.redeem_native_error(ctx, vaa) {
            Some(e) => Err(e),
            None => Ok(
                self.payout(
                    denormalized_amount(vaa.amount, ctx.mint_decimals) as u64,
                    ctx.payer,
                    ctx.recipient,
                ),
            ),
        }
    }

    /// Why redeeming a wrapped-token transfer is refused, if it is: the guard
    /// ([`Bridge::redeem_guard_error`]), then the payer's token account, the
    /// supplied token-bridge accounts, and a relayer without a token account.
    pub open spec fn redeem_wrapped_error(
        &self,
        ctx: &RedeemWrappedTransferWithPayload,
        vaa: &PostedTokenMessage,
    ) -> Option<BridgeError> {
        let guard = self.redeem_guard_error(vaa, ctx.recipient, ctx.program_id, ctx.config, false);
        if guard is Some {
            guard
        } else if Self::payer_account_mismatch(
            ctx.payer,
            ctx.recipient,
            ctx.payer_token_account,
            ctx.wrapped_mint,
        ) {
            Some(BridgeError::InvalidPayerAta)
        } else if ctx.token_bridge_config != self.redeemer_config.token_bridge.config {
            Some(BridgeError::InvalidTokenBridgeConfig)
        } else if ctx.token_bridge_foreign_endpoint
            != self.foreign_contracts@[vaa.emitter_chain].token_bridge_foreign_endpoint {
            Some(BridgeError::InvalidTokenBridgeForeignEndpoint)
        } else if ctx.token_bridge_mint_authority
            != self.redeemer_config.token_bridge.mint_authority {
            Some(BridgeError::InvalidTokenBridgeMintAuthority)
        } else if ctx.payer != ctx.recipient && !ctx.payer_token_account_exists {
            Some(BridgeError::NonExistentRelayerAta)
        } else {
            None
        }
    }

    /// What redeeming a wrapped-token transfer returns.
    pub open spec fn redeem_wrapped_result(
        &self,
        ctx: &RedeemWrappedTransferWithPayload,
        vaa: &PostedTokenMessage,
    ) -> Result<RedeemPayout, BridgeError> {
        match self.redeem_wrapped_error(ctx, vaa) {
            Some(e) => Err(e),
            None => Ok(self.payout(vaa.amount, ctx.payer, ctx.recipient)),
        }
    }

    /// The state after an accepted redemption of `vaa`: its claim record is
    /// created and nothing else changes.
    pub open spec fn claimed_after(&self, before: &Bridge, vaa: &PostedTokenMessage) -> bool {
        &&& self.same_configs(before)
        &&& self.foreign_contracts@ == before.foreign_contracts@
        &&& self.claims@ == before.claims@.insert(vaa.claim_id())
    }

    /// Redeems an attested transfer of a home-chain token. On success the
    /// message's claim record is created and the returned payout, of the
    /// bridged amount scaled back to the mint's decimals, empties the escrow.
    pub fn redeem_native_transfer_with_payload(
        &mut self,
        ctx: &RedeemNativeTransferWithPayload,
        vaa: &PostedTokenMessage,
    ) -> (r: Result<RedeemPayout, BridgeError>)
        requires
            old(self).wf(),
        ensures
            final(self).wf(),
            r == old(self).redeem_native_result(ctx, vaa),
            r is Ok ==> final(self).claimed_after(old(self), vaa),
            r is Err ==> *final(self) == *old(self),
            r matches Ok(p) ==> p.relayer_amount + p.recipient_amount == p.amount,
    {
        if let Some(e) = self.redeem_guard(vaa, &ctx.recipient, &ctx.program_id, &ctx.config, true) {
            return Err(e);
        }
        if Self::check_payer_account(
            &ctx.payer,
            &ctx.recipient,
            &ctx.payer_token_account,
            &vaa.token_address,
        ) {
            return Err(BridgeError::InvalidPayerAta);
        }
        if !bytes_eq(&ctx.token_bridge_config, &self.redeemer_config.token_bridge.config) {
            return Err(BridgeError::InvalidTokenBridgeConfig);
        }
        let endpoint = match self.foreign_contracts.get(&vaa.emitter_chain) {
            Some(fc) => fc.token_bridge_foreign_endpoint,
            None => {
                return Err(BridgeError::InvalidForeignContract);
            },
        };
        if !bytes_eq(&ctx.token_bridge_foreign_endpoint, &endpoint) {
            return Err(BridgeError::InvalidTokenBridgeForeignEndpoint);
        }
        if !bytes_eq(
            &ctx.token_bridge_custody_signer,
            &self.redeemer_config.token_bridge.custody_signer,
        ) {
            return Err(BridgeError::InvalidTokenBridgeCustodySigner);
        }
        let amount = match checked_denormalized_amount(vaa.amount, ctx.mint_decimals) {
            Some(a) => a,
            None => {
                return Err(BridgeError::AmountOverflow);
            },
        };
        let relayed = !bytes_eq(&ctx.payer, &ctx.recipient);
        if relayed && !ctx.payer_token_account_exists {
            return Err(BridgeError::NonExistentRelayerAta);
        }
        let payout = self.split_payout(amount, &ctx.payer, &ctx.recipient);
        self.claims.insert_if_absent(vaa.claim_key());
        Ok(payout)
    }

    /// Redeems an attested transfer of a token from another chain, held here
    /// in its wrapped form. On success the message's claim record is created
    /// and the returned payout of the bridged amount empties the escrow.
    pub fn redeem_wrapped_transfer_with_payload(
        &mut self,
        ctx: &RedeemWrappedTransferWithPayload,
        vaa: &PostedTokenMessage,
    ) -> (r: Result<RedeemPayout, BridgeError>)
        requires
            old(self).wf(),
        ensures
            final(self).wf(),
            r == old(self).redeem_wrapped_result(ctx, vaa),
            r is Ok ==> final(self).claimed_after(old(self), vaa),
            r is Err ==> *final(self) == *old(self),
            r matches Ok(p) ==> p.relayer_amount + p.recipient_amount == p.amount,
    {
        if let Some(e) = self.redeem_guard(vaa, &ctx.recipient, &ctx.program_id, &ctx.config, false) {
            return Err(e);
        }
        if Self::check_payer_account(
            &ctx.payer,
            &ctx.recipient,
            &ctx.payer_token_account,
            &ctx.wrapped_mint,
        ) {
            return Err(BridgeError::InvalidPayerAta);
        }
        if !bytes_eq(&ctx.token_bridge_config, &self.redeemer_config.token_bridge.config) {
            return Err(BridgeError::InvalidTokenBridgeConfig);
        }
        let endpoint = match self.foreign_contracts.get(&vaa.emitter_chain) {
            Some(fc) => fc.token_bridge_foreign_endpoint,
            None => {
                return Err(BridgeError::InvalidForeignContract);
            },
        };
        if !bytes_eq(&ctx.token_bridge_foreign_endpoint, &endpoint) {
            return Err(BridgeError::InvalidTokenBridgeForeignEndpoint);
        }
        if !bytes_eq(
            &ctx.token_bridge_mint_authority,
            &self.redeemer_config.token_bridge.mint_authority,
        ) {
            return Err(BridgeError::InvalidTokenBridgeMintAuthority);
        }
        let relayed = !bytes_eq(&ctx.payer, &ctx.recipient);
        if relayed && !ctx.payer_token_account_exists {
            return Err(BridgeError::NonExistentRelayerAta);
        }
        let payout = self.split_payout(vaa.amount, &ctx.payer, &ctx.recipient);
        self.claims.insert_if_absent(vaa.claim_key());
        Ok(payout)
    }
}

/// Redemption is exactly-once: once a redemption of `vaa` has been accepted,
/// every later attempt to redeem it fails with `AlreadyRedeemed`, whoever
/// submits it and through either flow.
pub proof fn lemma_redeem_at_most_once(
    before: &Bridge,
    after: &Bridge,
    vaa: &PostedTokenMessage,
    native_ctx: &RedeemNativeTransferWithPayload,
    wrapped_ctx: &RedeemWrappedTransferWithPayload,
)
    requires
        after.claimed_after(before, vaa),
    ensures
        after.redeem_native_result(native_ctx, vaa) == Err::<RedeemPayout, BridgeError>(
            BridgeError::AlreadyRedeemed,
        ),
        after.redeem_wrapped_result(wrapped_ctx, vaa) == Err::<RedeemPayout, BridgeError>(
            BridgeError::AlreadyRedeemed,
        ),
{
    assert(after.claims@.contains(vaa.claim_id()));
}

} // verus!
