use anchor_lang::prelude::Pubkey;
use cross_chain::bridge::{
    initialize, Bridge, Initialize, RedeemNativeTransferWithPayload, RedeemPayout,
    RedeemWrappedTransferWithPayload, RegisterForeignContract, SendNativeTokensWithPayload,
    SendWrappedTokensWithPayload, UpdateRelayerFee,
};
use cross_chain::codec::TokenMessage;
use cross_chain::error::BridgeError;
use cross_chain::state::{
    ForeignContract, InboundTokenBridgeAddresses, OutboundTokenBridgeAddresses,
    PostedTokenMessage, RedeemerConfig,
};

const OWNER: [u8; 32] = [1u8; 32];
const PROGRAM_ID: [u8; 32] = [60u8; 32];
const CONFIG: [u8; 32] = [61u8; 32];
const FOREIGN_CHAIN: u16 = 2;
const COUNTERPART: [u8; 32] = [30u8; 32];
const ENDPOINT: [u8; 32] = [20u8; 32];
const NATIVE_MINT: [u8; 32] = [50u8; 32];
const WRAPPED_MINT: [u8; 32] = [51u8; 32];
const RECIPIENT: [u8; 32] = [70u8; 32];
const RELAYER: [u8; 32] = [71u8; 32];

fn ata(wallet: [u8; 32], mint: [u8; 32]) -> [u8; 32] {
    anchor_spl::associated_token::get_associated_token_address(
        &Pubkey::new_from_array(wallet),
        &Pubkey::new_from_array(mint),
    )
    .to_bytes()
}

fn init_ctx() -> Initialize {
    Initialize {
        owner: OWNER,
        sender_config_bump: 254,
        redeemer_config_bump: 253,
        token_bridge_config: [10u8; 32],
        token_bridge_authority_signer: [11u8; 32],
        token_bridge_custody_signer: [12u8; 32],
        token_bridge_mint_authority: [13u8; 32],
        wormhole_bridge: [14u8; 32],
        token_bridge_emitter: [15u8; 32],
        wormhole_fee_collector: [16u8; 32],
        token_bridge_sequence: [17u8; 32],
    }
}

fn outbound() -> OutboundTokenBridgeAddresses {
    OutboundTokenBridgeAddresses {
        config: [10u8; 32],
        authority_signer: [11u8; 32],
        custody_signer: [12u8; 32],
        emitter: [15u8; 32],
        sequence: [17u8; 32],
        wormhole_bridge: [14u8; 32],
        wormhole_fee_collector: [16u8; 32],
    }
}

fn setup(fee: u32, precision: u32) -> Bridge {
    let mut b = initialize(&init_ctx(), fee, precision).unwrap();
    let ctx = RegisterForeignContract { owner: OWNER, token_bridge_foreign_endpoint: ENDPOINT };
    b.register_foreign_contract(&ctx, FOREIGN_CHAIN, COUNTERPART).unwrap();
    b
}

fn posted(amount: u64, token_chain: u16, sequence: u64) -> PostedTokenMessage {
    PostedTokenMessage {
        emitter_chain: FOREIGN_CHAIN,
        emitter_address: [40u8; 32],
        sequence,
        amount,
        token_address: NATIVE_MINT,
        token_chain,
        to_address: PROGRAM_ID,
        to_chain: 1,
        from_address: COUNTERPART,
        payload: TokenMessage::Hello { recipient: RECIPIENT }.encode(),
    }
}

fn native_ctx(payer: [u8; 32], decimals: u8) -> RedeemNativeTransferWithPayload {
    RedeemNativeTransferWithPayload {
        payer,
        payer_token_account: ata(payer, NATIVE_MINT),
        payer_token_account_exists: true,
        recipient: RECIPIENT,
        mint_decimals: decimals,
        program_id: PROGRAM_ID,
        config: CONFIG,
        token_bridge_config: [10u8; 32],
        token_bridge_foreign_endpoint: ENDPOINT,
        token_bridge_custody_signer: [12u8; 32],
    }
}

fn wrapped_ctx(payer: [u8; 32]) -> RedeemWrappedTransferWithPayload {
    RedeemWrappedTransferWithPayload {
        payer,
        payer_token_account: ata(payer, WRAPPED_MINT),
        payer_token_account_exists: true,
        recipient: RECIPIENT,
        wrapped_mint: WRAPPED_MINT,
        program_id: PROGRAM_ID,
        config: CONFIG,
        token_bridge_config: [10u8; 32],
        token_bridge_foreign_endpoint: ENDPOINT,
        token_bridge_mint_authority: [13u8; 32],
    }
}

fn send_ctx(decimals: u8) -> SendNativeTokensWithPayload {
    SendNativeTokensWithPayload {
        mint_decimals: decimals,
        token_bridge: outbound(),
    }
}

#[test]
fn initialize_records_both_configurations() {
    let b = initialize(&init_ctx(), 1, 1000).unwrap();
    assert_eq!(b.sender_config.owner, OWNER);
    assert_eq!(b.sender_config.bump, 254);
    assert_eq!(b.sender_config.finality, 1);
    assert_eq!(b.sender_config.token_bridge.wormhole_fee_collector, [16u8; 32]);
    assert_eq!(b.redeemer_config.owner, OWNER);
    assert_eq!(b.redeemer_config.bump, 253);
    assert_eq!(b.redeemer_config.token_bridge.mint_authority, [13u8; 32]);
    assert_eq!(b.redeemer_config.relayer_fee, 1);
    assert_eq!(b.redeemer_config.relayer_fee_precision, 1000);
    assert!(b.foreign_contracts.is_empty());
}

#[test]
fn initialize_rejects_fee_not_below_precision() {
    assert_eq!(initialize(&init_ctx(), 1000, 1000).err(), Some(BridgeError::InvalidFeeParameters));
    assert_eq!(initialize(&init_ctx(), 5, 0).err(), Some(BridgeError::InvalidFeeParameters));
    assert!(initialize(&init_ctx(), 0, 1).is_ok());
}

#[test]
fn compute_relayer_amount_of_one_per_mille() {
    let config = RedeemerConfig {
        owner: OWNER,
        bump: 0,
        token_bridge: InboundTokenBridgeAddresses {
            config: [0u8; 32],
            custody_signer: [0u8; 32],
            mint_authority: [0u8; 32],
        },
        relayer_fee: 1,
        relayer_fee_precision: 1000,
    };
    assert_eq!(config.compute_relayer_amount(1_000_000), 1000);
    assert_eq!(config.compute_relayer_amount(1999), 1);
    assert_eq!(config.compute_relayer_amount(0), 0);
    assert_eq!(config.compute_relayer_amount(u64::MAX), u64::MAX / 1000);
}

#[test]
fn compute_relayer_amount_is_monotonic_and_zero_at_zero_fee() {
    let mut config = initialize(&init_ctx(), 3, 7).unwrap().redeemer_config;
    let mut last = 0;
    for amount in [0u64, 1, 2, 3, 6, 7, 100, 1_000_000, u64::MAX - 1, u64::MAX] {
        let r = config.compute_relayer_amount(amount);
        assert!(r >= last);
        last = r;
    }
    config.relayer_fee = 0;
    assert_eq!(config.compute_relayer_amount(u64::MAX), 0);
}

#[test]
fn register_rejects_home_chain() {
    let mut b = setup(0, 1);
    let ctx = RegisterForeignContract { owner: OWNER, token_bridge_foreign_endpoint: ENDPOINT };
    assert_eq!(b.register_foreign_contract(&ctx, 1, [9u8; 32]), Err(BridgeError::InvalidEntry));
}

#[test]
fn register_rejects_zero_address() {
    let mut b = setup(0, 1);
    let ctx = RegisterForeignContract { owner: OWNER, token_bridge_foreign_endpoint: ENDPOINT };
    assert_eq!(b.register_foreign_contract(&ctx, 7, [0u8; 32]), Err(BridgeError::InvalidEntry));
    assert_eq!(b.register_foreign_contract(&ctx, 0, [9u8; 32]), Err(BridgeError::InvalidEntry));
    assert!(b.foreign_contracts.get(&7).is_none());
}

#[test]
fn register_requires_owner() {
    let mut b = setup(0, 1);
    let ctx = RegisterForeignContract { owner: RELAYER, token_bridge_foreign_endpoint: ENDPOINT };
    assert_eq!(b.register_foreign_contract(&ctx, 7, [9u8; 32]), Err(BridgeError::Unauthorized));
}

#[test]
fn register_overwrites_previous_entry() {
    let mut b = setup(0, 1);
    let ctx = RegisterForeignContract { owner: OWNER, token_bridge_foreign_endpoint: [21u8; 32] };
    b.register_foreign_contract(&ctx, FOREIGN_CHAIN, [31u8; 32]).unwrap();
    let entry: &ForeignContract = b.foreign_contracts.get(&FOREIGN_CHAIN).unwrap();
    assert_eq!(entry.chain, FOREIGN_CHAIN);
    assert_eq!(entry.address, [31u8; 32]);
    assert_eq!(entry.token_bridge_foreign_endpoint, [21u8; 32]);
    assert_eq!(b.foreign_contracts.len(), 1);
}

#[test]
fn foreign_contract_verify_checks_chain_and_address() {
    let b = setup(0, 1);
    let entry = b.foreign_contracts.get(&FOREIGN_CHAIN).unwrap();
    let mut vaa = posted(10, 1, 1);
    assert!(entry.verify(&vaa));
    vaa.emitter_chain = 3;
    assert!(!entry.verify(&vaa));
    vaa.emitter_chain = FOREIGN_CHAIN;
    vaa.from_address = [32u8; 32];
    assert!(!entry.verify(&vaa));
}

#[test]
fn update_relayer_fee_by_non_owner_is_unauthorized() {
    let mut b = setup(1, 1000);
    let r = b.update_relayer_fee(&UpdateRelayerFee { owner: RELAYER }, 5, 100);
    assert_eq!(r, Err(BridgeError::Unauthorized));
    assert_eq!(b.redeemer_config.relayer_fee, 1);
    assert_eq!(b.redeemer_config.relayer_fee_precision, 1000);
}

#[test]
fn update_relayer_fee_by_owner() {
    let mut b = setup(1, 1000);
    let ctx = UpdateRelayerFee { owner: OWNER };
    assert_eq!(b.update_relayer_fee(&ctx, 100, 100), Err(BridgeError::InvalidFeeParameters));
    assert_eq!(b.redeemer_config.relayer_fee, 1);
    assert_eq!(b.update_relayer_fee(&ctx, 5, 100), Ok(()));
    assert_eq!(b.redeemer_config.relayer_fee, 5);
    assert_eq!(b.redeemer_config.relayer_fee_precision, 100);
}

#[test]
fn redeem_relayed_native_transfer_splits_fee() {
    let mut b = setup(1, 1000);
    let r = b.redeem_native_transfer_with_payload(&native_ctx(RELAYER, 8), &posted(1_000_000, 1, 1));
    assert_eq!(
        r,
        Ok(RedeemPayout { amount: 1_000_000, relayer_amount: 1000, recipient_amount: 999_000 })
    );
    assert!(b.claims.contains(&posted(1_000_000, 1, 1).claim_key()));
}

#[test]
fn redeem_by_recipient_pays_no_fee() {
    let mut b = setup(1, 1000);
    let r = b.redeem_native_transfer_with_payload(&native_ctx(RECIPIENT, 8), &posted(1_000_000, 1, 1));
    assert_eq!(
        r,
        Ok(RedeemPayout { amount: 1_000_000, relayer_amount: 0, recipient_amount: 1_000_000 })
    );
}

#[test]
fn redeem_native_scales_amount_to_mint_decimals() {
    let mut b = setup(0, 1);
    let r = b.redeem_native_transfer_with_payload(&native_ctx(RECIPIENT, 9), &posted(5, 1, 1));
    assert_eq!(r, Ok(RedeemPayout { amount: 50, relayer_amount: 0, recipient_amount: 50 }));
}

#[test]
fn redeem_native_amount_overflow() {
    let mut b = setup(0, 1);
    let r = b.redeem_native_transfer_with_payload(&native_ctx(RECIPIENT, 18), &posted(u64::MAX / 10, 1, 1));
    assert_eq!(r, Err(BridgeError::AmountOverflow));
    let r = b.redeem_native_transfer_with_payload(&native_ctx(RECIPIENT, 40), &posted(1, 1, 2));
    assert_eq!(r, Err(BridgeError::AmountOverflow));
    let r = b.redeem_native_transfer_with_payload(&native_ctx(RECIPIENT, 40), &posted(0, 1, 3));
    assert_eq!(r, Ok(RedeemPayout { amount: 0, relayer_amount: 0, recipient_amount: 0 }));
}

#[test]
fn redeem_twice_is_already_redeemed() {
    let mut b = setup(1, 1000);
    let vaa = posted(1_000_000, 1, 9);
    assert!(b.redeem_native_transfer_with_payload(&native_ctx(RELAYER, 8), &vaa).is_ok());
    let again = b.redeem_native_transfer_with_payload(&native_ctx(RECIPIENT, 8), &vaa);
    assert_eq!(again, Err(BridgeError::AlreadyRedeemed));
    let again = b.redeem_native_transfer_with_payload(&native_ctx(RELAYER, 8), &vaa);
    assert_eq!(again, Err(BridgeError::AlreadyRedeemed));
}

#[test]
fn redeem_wrapped_twice_is_already_redeemed() {
    let mut b = setup(1, 1000);
    let vaa = posted(4000, FOREIGN_CHAIN, 9);
    assert_eq!(
        b.redeem_wrapped_transfer_with_payload(&wrapped_ctx(RELAYER), &vaa),
        Ok(RedeemPayout { amount: 4000, relayer_amount: 4, recipient_amount: 3996 })
    );
    let again = b.redeem_wrapped_transfer_with_payload(&wrapped_ctx(RECIPIENT), &vaa);
    assert_eq!(again, Err(BridgeError::AlreadyRedeemed));
}

#[test]
fn redeem_to_other_chain_is_refused_before_any_claim() {
    let mut b = setup(1, 1000);
    let mut vaa = posted(1_000_000, 1, 1);
    vaa.to_chain = 5;
    let r = b.redeem_native_transfer_with_payload(&native_ctx(RELAYER, 8), &vaa);
    assert_eq!(r, Err(BridgeError::InvalidTransferToChain));
    assert!(!b.claims.contains(&vaa.claim_key()));
}

#[test]
fn redeem_to_other_address_is_refused() {
    let mut b = setup(0, 1);
    let mut vaa = posted(10, 1, 1);
    vaa.to_address = [99u8; 32];
    let r = b.redeem_native_transfer_with_payload(&native_ctx(RECIPIENT, 8), &vaa);
    assert_eq!(r, Err(BridgeError::InvalidTransferToAddress));
    vaa.to_address = CONFIG;
    assert!(b.redeem_native_transfer_with_payload(&native_ctx(RECIPIENT, 8), &vaa).is_ok());
}

#[test]
fn redeem_from_unregistered_counterpart_is_refused() {
    let mut b = setup(0, 1);
    let mut vaa = posted(10, 1, 1);
    vaa.from_address = [33u8; 32];
    let r = b.redeem_native_transfer_with_payload(&native_ctx(RECIPIENT, 8), &vaa);
    assert_eq!(r, Err(BridgeError::InvalidForeignContract));
    vaa.from_address = COUNTERPART;
    vaa.emitter_chain = 4;
    let r = b.redeem_native_transfer_with_payload(&native_ctx(RECIPIENT, 8), &vaa);
    assert_eq!(r, Err(BridgeError::InvalidForeignContract));
}

#[test]
fn redeem_with_wrong_token_chain_is_refused() {
    let mut b = setup(0, 1);
    let r = b.redeem_native_transfer_with_payload(&native_ctx(RECIPIENT, 8), &posted(10, FOREIGN_CHAIN, 1));
    assert_eq!(r, Err(BridgeError::InvalidTransferTokenChain));
    let r = b.redeem_wrapped_transfer_with_payload(&wrapped_ctx(RECIPIENT), &posted(10, 1, 1));
    assert_eq!(r, Err(BridgeError::InvalidTransferTokenChain));
}

#[test]
fn redeem_for_other_recipient_is_refused() {
    let mut b = setup(0, 1);
    let mut ctx = native_ctx(RELAYER, 8);
    ctx.recipient = [72u8; 32];
    let r = b.redeem_native_transfer_with_payload(&ctx, &posted(10, 1, 1));
    assert_eq!(r, Err(BridgeError::InvalidRecipient));
    let mut vaa = posted(10, 1, 1);
    vaa.payload = vec![2u8; 33];
    let r = b.redeem_native_transfer_with_payload(&native_ctx(RECIPIENT, 8), &vaa);
    assert_eq!(r, Err(BridgeError::InvalidRecipient));
}

#[test]
fn redeem_with_wrong_payer_account_is_refused() {
    let mut b = setup(1, 1000);
    let mut ctx = native_ctx(RELAYER, 8);
    ctx.payer_token_account = ata(RELAYER, WRAPPED_MINT);
    let r = b.redeem_native_transfer_with_payload(&ctx, &posted(10, 1, 1));
    assert_eq!(r, Err(BridgeError::InvalidPayerAta));
    let mut ctx = wrapped_ctx(RELAYER);
    ctx.payer_token_account = RELAYER;
    let r = b.redeem_wrapped_transfer_with_payload(&ctx, &posted(10, FOREIGN_CHAIN, 1));
    assert_eq!(r, Err(BridgeError::InvalidPayerAta));
}

#[test]
fn redeem_with_missing_relayer_account_is_refused() {
    let mut b = setup(1, 1000);
    let mut ctx = native_ctx(RELAYER, 8);
    ctx.payer_token_account_exists = false;
    let vaa = posted(10, 1, 1);
    assert_eq!(b.redeem_native_transfer_with_payload(&ctx, &vaa), Err(BridgeError::NonExistentRelayerAta));
    assert!(!b.claims.contains(&vaa.claim_key()));
    let mut ctx = native_ctx(RECIPIENT, 8);
    ctx.payer_token_account_exists = false;
    assert!(b.redeem_native_transfer_with_payload(&ctx, &vaa).is_ok());
}

#[test]
fn redeem_with_mismatched_token_bridge_accounts_is_refused() {
    let mut b = setup(0, 1);
    let vaa = posted(10, 1, 1);
    let mut ctx = native_ctx(RECIPIENT, 8);
    ctx.token_bridge_config = [0u8; 32];
    assert_eq!(b.redeem_native_transfer_with_payload(&ctx, &vaa), Err(BridgeError::InvalidTokenBridgeConfig));
    let mut ctx = native_ctx(RECIPIENT, 8);
    ctx.token_bridge_foreign_endpoint = [0u8; 32];
    assert_eq!(
        b.redeem_native_transfer_with_payload(&ctx, &vaa),
        Err(BridgeError::InvalidTokenBridgeForeignEndpoint)
    );
    let mut ctx = native_ctx(RECIPIENT, 8);
    ctx.token_bridge_custody_signer = [0u8; 32];
    assert_eq!(
        b.redeem_native_transfer_with_payload(&ctx, &vaa),
        Err(BridgeError::InvalidTokenBridgeCustodySigner)
    );
    let mut ctx = wrapped_ctx(RECIPIENT);
    ctx.token_bridge_mint_authority = [0u8; 32];
    assert_eq!(
        b.redeem_wrapped_transfer_with_payload(&ctx, &posted(10, FOREIGN_CHAIN, 1)),
        Err(BridgeError::InvalidTokenBridgeMintAuthority)
    );
}

#[test]
fn send_native_truncates_to_bridge_precision() {
    let b = setup(0, 1);
    let t = b
        .send_native_tokens_with_payload(&send_ctx(10), 7, 1_234_567_899, RECIPIENT, FOREIGN_CHAIN)
        .unwrap();
    assert_eq!(t.amount, 1_234_567_800);
    assert_eq!(t.batch_id, 7);
    assert_eq!(t.recipient_chain, FOREIGN_CHAIN);
    assert_eq!(t.foreign_contract, COUNTERPART);
    assert_eq!(t.payload, TokenMessage::Hello { recipient: RECIPIENT }.encode());
    let t = b
        .send_native_tokens_with_payload(&send_ctx(6), 7, 1_234_567_899, RECIPIENT, FOREIGN_CHAIN)
        .unwrap();
    assert_eq!(t.amount, 1_234_567_899);
}

#[test]
fn send_native_of_dust_is_zero_bridge_amount() {
    let b = setup(0, 1);
    let r = b.send_native_tokens_with_payload(&send_ctx(10), 0, 99, RECIPIENT, FOREIGN_CHAIN);
    assert_eq!(r.err(), Some(BridgeError::ZeroBridgeAmount));
    let r = b.send_native_tokens_with_payload(&send_ctx(30), 0, u64::MAX, RECIPIENT, FOREIGN_CHAIN);
    assert_eq!(r.err(), Some(BridgeError::ZeroBridgeAmount));
    let r = b.send_native_tokens_with_payload(&send_ctx(8), 0, 0, RECIPIENT, FOREIGN_CHAIN);
    assert_eq!(r.err(), Some(BridgeError::ZeroBridgeAmount));
}

#[test]
fn send_native_to_invalid_destination_is_refused() {
    let b = setup(0, 1);
    let ctx = send_ctx(8);
    assert_eq!(b.send_native_tokens_with_payload(&ctx, 0, 10, RECIPIENT, 0).err(), Some(BridgeError::InvalidRecipient));
    assert_eq!(b.send_native_tokens_with_payload(&ctx, 0, 10, RECIPIENT, 1).err(), Some(BridgeError::InvalidRecipient));
    assert_eq!(
        b.send_native_tokens_with_payload(&ctx, 0, 10, [0u8; 32], FOREIGN_CHAIN).err(),
        Some(BridgeError::InvalidRecipient)
    );
    assert_eq!(
        b.send_native_tokens_with_payload(&ctx, 0, 10, RECIPIENT, 3).err(),
        Some(BridgeError::InvalidForeignContract)
    );
}

#[test]
fn send_native_with_mismatched_accounts_is_refused() {
    let b = setup(0, 1);
    let cases: [(fn(&mut OutboundTokenBridgeAddresses), BridgeError); 7] = [
        (|a| a.config = [0u8; 32], BridgeError::InvalidTokenBridgeConfig),
        (|a| a.authority_signer = [0u8; 32], BridgeError::InvalidTokenBridgeAuthoritySigner),
        (|a| a.custody_signer = [0u8; 32], BridgeError::InvalidTokenBridgeCustodySigner),
        (|a| a.wormhole_bridge = [0u8; 32], BridgeError::InvalidWormholeBridge),
        (|a| a.emitter = [0u8; 32], BridgeError::InvalidTokenBridgeEmitter),
        (|a| a.sequence = [0u8; 32], BridgeError::InvalidTokenBridgeSequence),
        (|a| a.wormhole_fee_collector = [0u8; 32], BridgeError::InvalidWormholeFeeCollector),
    ];
    for (spoil, expected) in cases {
        let mut ctx = send_ctx(8);
        spoil(&mut ctx.token_bridge);
        let r = b.send_native_tokens_with_payload(&ctx, 0, 10, RECIPIENT, FOREIGN_CHAIN);
        assert_eq!(r.err(), Some(expected));
    }
}

#[test]
fn send_wrapped_keeps_amount_and_ignores_custody_signer() {
    let b = setup(0, 1);
    let mut ctx = SendWrappedTokensWithPayload { token_bridge: outbound() };
    ctx.token_bridge.custody_signer = [0u8; 32];
    let t = b.send_wrapped_tokens_with_payload(&ctx, 3, 1_234_567_899, RECIPIENT, FOREIGN_CHAIN).unwrap();
    assert_eq!(t.amount, 1_234_567_899);
    assert_eq!(t.foreign_contract, COUNTERPART);
    let r = b.send_wrapped_tokens_with_payload(&ctx, 3, 0, RECIPIENT, FOREIGN_CHAIN);
    assert_eq!(r.err(), Some(BridgeError::ZeroBridgeAmount));
    ctx.token_bridge.emitter = [0u8; 32];
    let r = b.send_wrapped_tokens_with_payload(&ctx, 3, 10, RECIPIENT, FOREIGN_CHAIN);
    assert_eq!(r.err(), Some(BridgeError::InvalidTokenBridgeEmitter));
}
