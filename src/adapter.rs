use vstd::prelude::*;
use crate::settings::ProtocolFlags;
use crate::types::{Address, BrokerError, LPSwap, Protocol};

verus! {

/// Price bound handed to Comet pools: no limit in practice.
pub const COMET_MAX_PRICE: i128 = 18_446_744_073_709_551_615;

/// The form of a one-time permission for a backend to pull the hop's input.
#[derive(Clone, Copy, Debug, PartialEq, Eq, Structural)]
pub enum GrantKind {
    /// The pool may call `transfer` from the broker to itself.
    Transfer,
    /// The pool may call `approve` for itself on the broker's tokens.
    Approve,
}

/// A permission valid for exactly one token, one counterparty and one amount,
/// made just before the backend call that uses it.
#[derive(Clone, Copy, Debug, PartialEq, Eq, Structural)]
pub struct AuthGrant {
    pub kind: GrantKind,
    pub token: Address,
    pub pool: Address,
    pub amount: i128,
}

/// A backend's native swap call.
#[derive(Clone, Copy, Debug, PartialEq, Eq, Structural)]
pub enum LpCall {
    /// `swap(user, in_idx, out_idx, in_amount, out_min)` of an Aquarius pool,
    /// constant-product or stable; returns the amount out.
    Aqua { pool: Address, user: Address, in_idx: u32, out_idx: u32, in_amount: u128, out_min: u128 },
    /// Send `amount` of `in_token` from `from` to the pair, read its reserves,
    /// then `swap(amount_0_out, amount_1_out, to)` with the estimate on side
    /// `bought_index` (see `soroswap_swap_outputs`); the amount out is the estimate.
    Soroswap { pool: Address, in_token: Address, from: Address, amount: i128, bought_index: u32, to: Address },
    /// `swap_exact_amount_in(token_in, token_amount_in, token_out,
    /// min_amount_out, max_price, user)` of a Comet pool; the amount out is
    /// the first element of the result.
    Comet {
        pool: Address,
        token_in: Address,
        token_amount_in: i128,
        token_out: Address,
        min_amount_out: i128,
        max_price: i128,
        user: Address,
    },
    /// `swap(sender, offer_asset, offer_amount, None, None, None, None)` of a
    /// Phoenix pool; returns the amount out.
    Phoenix { pool: Address, sender: Address, offer_asset: Address, offer_amount: i128 },
}

/// One hop, translated for its backend: the permission to grant first, if
/// any, and the call to make.
#[derive(Clone, Copy, Debug, PartialEq, Eq, Structural)]
pub struct HopPlan {
    pub grant: Option<AuthGrant>,
    pub call: LpCall,
}

/// The native call that carries out hop `si` on the backend of `protocol`.
pub open spec fn native_call(protocol: Protocol, si: LPSwap) -> LpCall {
    match protocol {
        Protocol::AquaConstant | Protocol::AquaStable => LpCall::Aqua {
            pool: si.step.pool,
            user: si.to,
            in_idx: si.step.si,
            out_idx: si.step.bi,
            in_amount: si.amount as u128,
            out_min: 1,
        },
        Protocol::Soroswap => LpCall::Soroswap {
            pool: si.step.pool,
            in_token: si.in_token,
            from: si.to,
            amount: si.amount,
            bought_index: si.step.bi,
            to: si.to,
        },
        Protocol::Comet => LpCall::Comet {
            pool: si.step.pool,
            token_in: si.in_token,
            token_amount_in: si.amount,
            token_out: si.step.asset,
            min_amount_out: 1,
            max_price: COMET_MAX_PRICE,
            user: si.to,
        },
        Protocol::Phoenix => LpCall::Phoenix {
            pool: si.step.pool,
            sender: si.to,
            offer_asset: si.in_token,
            offer_amount: si.amount,
        },
    }
}

/// The permission that hop `si` needs: only where the broker itself is the
/// recipient, and only for backends that pull their input.
pub open spec fn grant_for(protocol: Protocol, si: LPSwap, broker: Address) -> Option<AuthGrant> {
    if si.to != broker {
        None
    } else {
        match protocol {
            Protocol::Soroswap => None,
            Protocol::Comet => Some(
                AuthGrant { kind: GrantKind::Approve, token: si.in_token, pool: si.step.pool, amount: si.amount },
            ),
            _ => Some(
                AuthGrant { kind: GrantKind::Transfer, token: si.in_token, pool: si.step.pool, amount: si.amount },
            ),
        }
    }
}

/// Whether the side indices of a hop make sense for its backend.
pub open spec fn valid_indices(protocol: Protocol, si: LPSwap) -> bool {
    protocol == Protocol::Soroswap ==> (si.step.bi == 0 || si.step.bi == 1)
}

/// Outcome of dispatching hop `si` to the backend of `protocol`.
pub open spec fn dispatch(flags: ProtocolFlags, protocol: Protocol, si: LPSwap, broker: Address) -> Result<HopPlan, BrokerError> {
    if !flags.enabled(protocol) {
        Err(BrokerError::ProtocolDisabled)
    } else if !valid_indices(protocol, si) {
        Err(BrokerError::InvalidPath)
    } else {
        Ok(HopPlan { grant: grant_for(protocol, si, broker), call: native_call(protocol, si) })
    }
}

/// Adapter for Aquarius constant-product pools.
#[derive(Clone, Copy, Debug)]
pub struct AquaConstantAdapter;

/// Adapter for Aquarius stable-swap pools.
#[derive(Clone, Copy, Debug)]
pub struct AquaStableAdapter;

/// Adapter for Soroswap pairs.
#[derive(Clone, Copy, Debug)]
pub struct SoroswapAdapter;

/// Adapter for Comet pools.
#[derive(Clone, Copy, Debug)]
pub struct CometAdapter;

/// Adapter for Phoenix pools.
#[derive(Clone, Copy, Debug)]
pub struct PhoenixAdapter;

/// The one-time permission for `pool` to pull `amount` of `token`.
fn grant(kind: GrantKind, token: Address, pool: Address, amount: i128, to_broker: bool) -> (r: Option<AuthGrant>)
    ensures
        to_broker ==> r == Some(AuthGrant { kind, token, pool, amount }),
        !to_broker ==> r is None,
{
    if to_broker {
        Some(AuthGrant { kind, token, pool, amount })
    } else {
        None
    }
}

impl AquaConstantAdapter {
    /// `swap(user, in_idx, out_idx, in_amount, 1)` on the pool, after letting
    /// it pull the input by `transfer`.
    pub fn swap(&self, si: LPSwap, broker: Address) -> (r: HopPlan)
        ensures
            r == (HopPlan {
                grant: grant_for(Protocol::AquaConstant, si, broker),
                call: native_call(Protocol::AquaConstant, si),
            }),
    {
        let call = LpCall::Aqua {
            pool: si.step.pool,
            user: si.to,
            in_idx: si.step.si,
            out_idx: si.step.bi,
            in_amount: si.amount as u128,
            out_min: 1,
        };
        HopPlan { grant: grant(GrantKind::Transfer, si.in_token, si.step.pool, si.amount, si.to == broker), call }
    }
}

impl AquaStableAdapter {
    /// `swap(user, in_idx, out_idx, in_amount, 1)` on the pool, after letting
    /// it pull the input by `transfer`.
    pub fn swap(&self, si: LPSwap, broker: Address) -> (r: HopPlan)
        ensures
            r == (HopPlan {
                grant: grant_for(Protocol::AquaStable, si, broker),
                call: native_call(Protocol::AquaStable, si),
            }),
    {
        let call = LpCall::Aqua {
            pool: si.step.pool,
            user: si.to,
            in_idx: si.step.si,
            out_idx: si.step.bi,
            in_amount: si.amount as u128,
            out_min: 1,
        };
        HopPlan { grant: grant(GrantKind::Transfer, si.in_token, si.step.pool, si.amount, si.to == broker), call }
    }
}

impl SoroswapAdapter {
    /// Push the input to the pair and ask for the estimate on side `bi`;
    /// `InvalidPath` where `bi` names no side of a pair.
    pub fn swap(&self, si: LPSwap, broker: Address) -> (r: Result<HopPlan, BrokerError>)
        ensures
            valid_indices(Protocol::Soroswap, si) ==> r == Ok::<HopPlan, BrokerError>(
                HopPlan {
                    grant: grant_for(Protocol::Soroswap, si, broker),
                    call: native_call(Protocol::Soroswap, si),
                },
            ),
            !valid_indices(Protocol::Soroswap, si) ==> r == Err::<HopPlan, BrokerError>(
                BrokerError::InvalidPath,
            ),
    {
        if si.step.bi != 0 && si.step.bi != 1 {
            return Err(BrokerError::InvalidPath);
        }
        let call = LpCall::Soroswap {
            pool: si.step.pool,
            in_token: si.in_token,
            from: si.to,
            amount: si.amount,
            bought_index: si.step.bi,
            to: si.to,
        };
        Ok(HopPlan { grant: None, call })
    }
}

impl CometAdapter {
    /// `swap_exact_amount_in` on the pool with no price limit, after letting
    /// it pull the input by `approve`.
    pub fn swap(&self, si: LPSwap, broker: Address) -> (r: HopPlan)
        ensures
            r == (HopPlan { grant: grant_for(Protocol::Comet, si, broker), call: native_call(Protocol::Comet, si) }),
    {
        let call = LpCall::Comet {
            pool: si.step.pool,
            token_in: si.in_token,
            token_amount_in: si.amount,
            token_out: si.step.asset,
            min_amount_out: 1,
            max_price: COMET_MAX_PRICE,
            user: si.to,
        };
        HopPlan { grant: grant(GrantKind::Approve, si.in_token, si.step.pool, si.amount, si.to == broker), call }
    }
}

impl PhoenixAdapter {
    /// `swap` on the pool with no bounds, after letting it pull the input by
    /// `transfer`.
    pub fn swap(&self, si: LPSwap, broker: Address) -> (r: HopPlan)
        ensures
            r == (HopPlan {
                grant: grant_for(Protocol::Phoenix, si, broker),
                call: native_call(Protocol::Phoenix, si),
            }),
    {
        let call = LpCall::Phoenix {
            pool: si.step.pool,
            sender: si.to,
            offer_asset: si.in_token,
            offer_amount: si.amount,
        };
        HopPlan { grant: grant(GrantKind::Transfer, si.in_token, si.step.pool, si.amount, si.to == broker), call }
    }
}

/// Resolves the backend of a hop: `ProtocolDisabled` where its family is not
/// enabled, `InvalidPath` where its side indices are malformed, else the
/// permission and the native call that carry it out.
pub fn swap_adapter(flags: &ProtocolFlags, protocol: Protocol, si: LPSwap, broker: Address) -> (r: Result<HopPlan, BrokerError>)
    ensures
        r == dispatch(*flags, protocol, si, broker),
{
    if !flags.is_enabled(protocol) {
        return Err(BrokerError::ProtocolDisabled);
    }
    match protocol {
        Protocol::AquaConstant => Ok(AquaConstantAdapter.swap(si, broker)),
        Protocol::AquaStable => Ok(AquaStableAdapter.swap(si, broker)),
        Protocol::Soroswap => SoroswapAdapter.swap(si, broker),
        Protocol::Comet => Ok(CometAdapter.swap(si, broker)),
        Protocol::Phoenix => Ok(PhoenixAdapter.swap(si, broker)),
    }
}

/// Number of ledgers in the window that an approval is rounded up to.
pub const APPROVAL_WINDOW: u32 = 100_000;

/// Ledger at which an approval made at ledger `sequence` lapses: the start of
/// the next window; `None` where that is past the last ledger number.
pub fn approval_expiration_ledger(sequence: u32) -> (r: Option<u32>)
    ensures
        ((sequence / APPROVAL_WINDOW) + 1) * APPROVAL_WINDOW <= u32::MAX ==> r == Some(
            (((sequence / APPROVAL_WINDOW) + 1) * APPROVAL_WINDOW) as u32,
        ),
        ((sequence / APPROVAL_WINDOW) + 1) * APPROVAL_WINDOW > u32::MAX ==> r is None,
{
    let windows = sequence / APPROVAL_WINDOW + 1;
    windows.checked_mul(APPROVAL_WINDOW)
}

} // verus!
