//! Amount scaling of the token bridge, which carries at most eight decimals.
use vstd::arithmetic::power::pow;
use vstd::prelude::*;

verus! {

/// Most decimals that an amount carried by the token bridge keeps.
pub const MAX_BRIDGED_DECIMALS: u8 = 8;

/// Most decimals of a mint whose scaling factor fits in a `u64`.
pub const MAX_SCALED_DECIMALS: u8 = 27;

/// Factor between an amount of a mint with `decimals` decimals and the same
/// amount as the token bridge carries it.
pub open spec fn amount_adjustment(decimals: u8) -> nat {
    if decimals > MAX_BRIDGED_DECIMALS {
        pow(10, (decimals - MAX_BRIDGED_DECIMALS) as nat) as nat
    } else {
        1
    }
}

/// `amount` with the digits below the bridge's precision dropped.
pub open spec fn truncated_amount(amount: u64, decimals: u8) -> nat {
    (amount as nat / amount_adjustment(decimals)) * amount_adjustment(decimals)
}

/// A bridged amount scaled back to a mint with `decimals` decimals.
pub open spec fn denormalized_amount(amount: u64, decimals: u8) -> nat {
    amount as nat * amount_adjustment(decimals)
}

/// The scaling factor is positive.
pub proof fn lemma_adjustment_positive(decimals: u8)
    ensures
        amount_adjustment(decimals) >= 1,
{
    if decimals > MAX_BRIDGED_DECIMALS {
        vstd::arithmetic::power::lemma_pow_positive(10, (decimals - MAX_BRIDGED_DECIMALS) as nat);
    }
}

/// Past [`MAX_SCALED_DECIMALS`] the scaling factor exceeds every `u64`.
pub proof fn lemma_adjustment_exceeds_u64(decimals: u8)
    requires
        decimals > MAX_SCALED_DECIMALS,
    ensures
        amount_adjustment(decimals) > u64::MAX,
{
    reveal_with_fuel(pow, 21);
    assert(pow(10, 20) == 100_000_000_000_000_000_000int);
    vstd::arithmetic::power::lemma_pow_increases(10, 20, (decimals - MAX_BRIDGED_DECIMALS) as nat);
}

/// The scaling factor of a mint with `decimals` decimals.
fn scaling_factor(decimals: u8) -> (r: u64)
    requires
        decimals <= MAX_SCALED_DECIMALS,
    ensures
        r == amount_adjustment(decimals),
{
    if decimals <= MAX_BRIDGED_DECIMALS {
        return 1;
    }
    let e: u8 = decimals - MAX_BRIDGED_DECIMALS;
    proof {
        reveal_with_fuel(pow, 19);
        assert(pow(10, 18) == 1_000_000_000_000_000_000int);
        reveal(pow);
    }
    let mut f: u64 = 1;
    let mut i: u8 = 0;
    while i < e
        invariant
            0 <= i <= e <= 19,
            f == pow(10, i as nat),
        decreases e - i,
    {
        proof {
            vstd::arithmetic::power::lemma_pow_increases(10, i as nat, 18);
            reveal_with_fuel(pow, 19);
            assert(pow(10, 18) == 1_000_000_000_000_000_000int);
            reveal(pow);
            assert(pow(10, (i + 1) as nat) == 10 * pow(10, i as nat));
        }
        f = f * 10;
        i = i + 1;
    }
    f
}

/// `amount` truncated to the bridge's precision for a mint with `decimals`
/// decimals; zero where the scaling factor exceeds every `u64`.
pub(crate) fn bridged_amount(amount: u64, decimals: u8) -> (r: u64)
    ensures
        r == truncated_amount(amount, decimals),
{
    if decimals > MAX_SCALED_DECIMALS {
        proof {
            lemma_adjustment_exceeds_u64(decimals);
            vstd::arithmetic::div_mod::lemma_basic_div(amount as int, amount_adjustment(decimals) as int);
        }
        0
    } else {
        truncate_amount(amount, decimals)
    }
}

/// `amount` scaled back to a mint with `decimals` decimals, or `None` where
/// that does not fit in a `u64`.
pub(crate) fn checked_denormalized_amount(amount: u64, decimals: u8) -> (r: Option<u64>)
    ensures
        r == (if denormalized_amount(amount, decimals) <= u64::MAX {
            Some(denormalized_amount(amount, decimals) as u64)
        } else {
            None::<u64>
        }),
{
    if amount == 0 {
        proof {
            vstd::arithmetic::mul::lemma_mul_basics(amount_adjustment(decimals) as int);
        }
        return Some(0);
    }
    if decimals > MAX_SCALED_DECIMALS {
        proof {
            lemma_adjustment_exceeds_u64(decimals);
            vstd::arithmetic::mul::lemma_mul_increases(amount as int, amount_adjustment(decimals) as int);
        }
        return None;
    }
    let factor = scaling_factor(decimals);
    proof {
        lemma_adjustment_positive(decimals);
    }
    if amount > u64::MAX / factor {
        proof {
            let q = u64::MAX as int / factor as int;
            vstd::arithmetic::div_mod::lemma_fundamental_div_mod(u64::MAX as int, factor as int);
            vstd::arithmetic::div_mod::lemma_mod_pos_bound(u64::MAX as int, factor as int);
            vstd::arithmetic::mul::lemma_mul_inequality(q + 1, amount as int, factor as int);
            vstd::arithmetic::mul::lemma_mul_is_commutative(factor as int, q);
            assert((q + 1) * factor == q * factor + factor) by (nonlinear_arith);
        }
        None
    } else {
        proof {
            vstd::arithmetic::div_mod::lemma_fundamental_div_mod(u64::MAX as int, factor as int);
            vstd::arithmetic::mul::lemma_mul_inequality(amount as int, (u64::MAX / factor) as int, factor as int);
            vstd::arithmetic::mul::lemma_mul_is_commutative(factor as int, (u64::MAX / factor) as int);
        }
        Some(denormalize_amount(amount, decimals))
    }
}

/// Relies on wormhole_anchor_sdk::token_bridge::truncate_amount: the amount
/// divided by the mint's scaling factor and multiplied back. The factor
/// `10^(decimals - 8)` fits in a `u64` only up to 27 decimals.
#[verifier::external_body]
pub(crate) fn truncate_amount(amount: u64, mint_decimals: u8) -> (r: u64)
    requires
        mint_decimals <= MAX_SCALED_DECIMALS,
    ensures
        r == truncated_amount(amount, mint_decimals),
{
    wormhole_anchor_sdk::token_bridge::truncate_amount(amount, mint_decimals)
}

/// Relies on wormhole_anchor_sdk::token_bridge::denormalize_amount: the amount
/// multiplied by the mint's scaling factor, which must not overflow.
#[verifier::external_body]
pub(crate) fn denormalize_amount(amount: u64, mint_decimals: u8) -> (r: u64)
    requires
        mint_decimals <= MAX_SCALED_DECIMALS,
        denormalized_amount(amount, mint_decimals) <= u64::MAX,
    ensures
        r == denormalized_amount(amount, mint_decimals),
{
    wormhole_anchor_sdk::token_bridge::denormalize_amount(amount, mint_decimals)
}

} // verus!
