use vstd::prelude::*;

verus! {

/// An account or contract on the ledger, known to the engine by a handle that
/// the host assigns to each distinct address it meets during a call.
#[derive(Clone, Copy, Debug, PartialEq, Eq, Structural)]
pub struct Address {
    pub id: u64,
}

/// Family of liquidity-provider backend that a hop is executed against.
#[derive(Clone, Copy, Debug, PartialEq, Eq, Structural)]
pub enum Protocol {
    AquaConstant,
    AquaStable,
    Soroswap,
    Comet,
    Phoenix,
}

/// The abort codes of the broker.
#[derive(Clone, Copy, Debug, PartialEq, Eq, Structural)]
pub enum BrokerError {
    /// Caller is not allowed to execute this function.
    Unauthorized,
    /// The broker has not been initialized yet.
    NotInitialized,
    /// The broker cannot be initialized a second time.
    AlreadyInitialized,
    /// A protocol taking part in the swap has been disabled.
    ProtocolDisabled,
    /// Malformed swap route path.
    InvalidPath,
    /// The requested quote cannot be executed.
    Unfeasible,
    /// A backend moved a different amount than planned.
    Misconduct,
}

/// One hop of a route.
#[derive(Clone, Copy, Debug, PartialEq, Eq, Structural)]
pub struct PathStep {
    pub protocol: Protocol,
    /// Token bought by this hop.
    pub asset: Address,
    /// Backend contract of the pool.
    pub pool: Address,
    /// Index of the sold side, in the backend's own terms.
    pub si: u32,
    /// Index of the bought side, in the backend's own terms.
    pub bi: u32,
}

/// One leg of a swap request: a chain of hops with its amounts.
#[derive(Clone, Debug)]
pub struct Route {
    pub path: Vec<PathStep>,
    /// Amount sold into the first hop.
    pub amount: i128,
    /// Smallest acceptable amount out of the last hop.
    pub min: i128,
    /// Expected amount out of the last hop, the baseline of the profit fee.
    pub estimated: i128,
}

/// A hop as handed to a backend adapter.
#[derive(Clone, Copy, Debug, PartialEq, Eq, Structural)]
pub struct LPSwap {
    pub step: PathStep,
    /// Token sold into this hop.
    pub in_token: Address,
    /// Recipient of the bought tokens.
    pub to: Address,
    /// Amount sold into this hop.
    pub amount: i128,
}

} // verus!
