//! Errors of the two programs.
use vstd::prelude::*;

verus! {

/// Why an operation of the token bridge program was refused.
#[derive(Clone, Copy, Debug, PartialEq, Eq, Structural)]
pub enum BridgeError {
    /// The supplied core-bridge account is not the one the configuration records.
    InvalidWormholeBridge,
    /// The supplied fee collector is not the one the configuration records.
    InvalidWormholeFeeCollector,
    /// The caller is not the configuration's owner.
    Unauthorized,
    /// A registry entry with chain id 0, the home chain id, or an all-zero address.
    InvalidEntry,
    /// The attested message does not come from the registered counterpart.
    InvalidForeignContract,
    /// Nothing is left to bridge once the amount is truncated.
    ZeroBridgeAmount,
    /// The supplied token-bridge configuration account is not the recorded one.
    InvalidTokenBridgeConfig,
    /// The supplied authority signer is not the recorded one.
    InvalidTokenBridgeAuthoritySigner,
    /// The supplied custody signer is not the recorded one.
    InvalidTokenBridgeCustodySigner,
    /// The supplied token-bridge emitter is not the recorded one.
    InvalidTokenBridgeEmitter,
    /// The supplied sequence tracker is not the recorded one.
    InvalidTokenBridgeSequence,
    /// The recipient is malformed, or is not the one the payload names.
    InvalidRecipient,
    /// The message is addressed to another chain.
    InvalidTransferToChain,
    /// The token's origin chain does not fit the flow (native or wrapped).
    InvalidTransferTokenChain,
    /// The relayer fee is not below its precision.
    InvalidFeeParameters,
    /// The payer's token account is not its associated token account.
    InvalidPayerAta,
    /// The message is addressed to neither this program nor its configuration.
    InvalidTransferToAddress,
    /// The message has been redeemed before.
    AlreadyRedeemed,
    /// The supplied foreign endpoint is not the one the registry entry records.
    InvalidTokenBridgeForeignEndpoint,
    /// The relayer has no token account to receive its fee.
    NonExistentRelayerAta,
    /// The supplied mint authority is not the recorded one.
    InvalidTokenBridgeMintAuthority,
    /// The bridged amount, scaled back to the mint's decimals, does not fit in 64 bits.
    AmountOverflow,
}

/// Why an operation of the messenger program was refused.
#[derive(Clone, Copy, Debug, PartialEq, Eq, Structural)]
pub enum MessengerError {
    /// The supplied core-bridge account is not the one the configuration records.
    InvalidWormholeConfig,
    /// The supplied fee collector is not the one the configuration records.
    InvalidWormholeFeeCollector,
    /// The supplied sequence tracker is not the one the configuration records.
    InvalidWormholeSequence,
    /// The caller is not the configuration's owner.
    Unauthorized,
    /// A registry entry with chain id 0, the home chain id, or an all-zero address.
    InvalidEntry,
    /// The attested message does not come from the registered emitter.
    InvalidForeignEmitter,
    /// The payload does not decode as a data payload within the bound.
    InvalidMessage,
    /// A data payload over the bound was given to be sent.
    PayloadTooLarge,
    /// A message with this origin chain and sequence is already stored.
    AlreadyReceived,
    /// No message with this origin chain and sequence is stored.
    ReceivedNotFound,
}

} // verus!
