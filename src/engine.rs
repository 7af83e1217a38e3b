use vstd::prelude::*;
use crate::adapter::{dispatch, swap_adapter, HopPlan};
use crate::fees::{charged_fee, swap_fee, swap_fee_defined};
use crate::routes::{
    buying_asset_of, estimate_routes, get_buying_asset, routes_agree, total_amount,
    total_estimated, total_min, totals_fit,
};
use crate::settings::ProtocolFlags;
use crate::settlement::{fee_verdict, settlement_verdict, verify_balances, verify_fee_balance};
use crate::types::{Address, BrokerError, LPSwap, PathStep, Route};

verus! {

/// What the host has to do next for a swap in progress. Each action is
/// answered by one integer: the balance read, the amount a hop bought, or
/// zero for a transfer.
#[derive(Clone, Copy, Debug, PartialEq, Eq, Structural)]
pub enum Action {
    /// Read the broker's balance of `token`.
    ReadBalance { token: Address },
    /// Move `amount` of `token` from `from` to `to`.
    Transfer { token: Address, from: Address, to: Address, amount: i128 },
    /// Grant the permission, if any, then make the backend call; answer with
    /// the amount bought.
    Hop(HopPlan),
    /// The swap is settled: sold, paid out to the trader, retained as fee.
    Finish { sold: i128, bought: i128, fee: i128 },
    /// Abort the whole call with this error.
    Fail(BrokerError),
    /// Abort the whole call: an amount left the range of `i128`.
    Overflow,
}

/// Where a swap stands; it only moves forward.
#[derive(Clone, Copy, Debug, PartialEq, Eq, Structural)]
pub enum Phase {
    FeeBefore,
    Intake,
    SellingBefore,
    BuyingBefore,
    Routes,
    FeeConversion,
    SellingAfter,
    BuyingAfter,
    Payout,
    FeeAfter,
    Finished,
    Aborted,
}

/// Sum of a sequence of amounts.
pub open spec fn seq_sum(s: Seq<i128>) -> int
    decreases s.len(),
{
    if s.len() == 0 {
        0
    } else {
        seq_sum(s.drop_last()) + s.last()
    }
}

/// The token a fee conversion path ends in; the buying token where no path is
/// given.
pub open spec fn fee_asset_of(fee_path: Seq<PathStep>, buying: Address) -> Address {
    if fee_path.len() == 0 {
        buying
    } else {
        fee_path.last().asset
    }
}

/// Some hop of some route targets a backend family that is not enabled.
pub open spec fn some_disabled(flags: ProtocolFlags, routes: Seq<Route>) -> bool {
    exists|i: int, j: int|
        0 <= i < routes.len() && 0 <= j < routes[i].path@.len() && !flags.enabled(
            #[trigger] routes[i].path@[j].protocol,
        )
}

/// The part of a fee that is deducted from the amount bought: nothing when
/// the fee is not positive.
pub open spec fn kept_fee(fee: int) -> int {
    if fee > 0 {
        fee
    } else {
        0
    }
}

/// One swap call, from the first balance read to the payout.
pub struct SwapSession {
    pub selling: Address,
    pub buying: Address,
    /// Token the fee is retained in: the end of the fee path, or the buying token.
    pub fee_asset: Address,
    /// The broker's reference fee token, whose balance is checked at the end.
    pub fee_token: Address,
    pub trader: Address,
    pub broker: Address,
    pub routes: Vec<Route>,
    pub fee_path: Vec<PathStep>,
    pub vfee: u32,
    pub ffee: u32,
    pub flags: ProtocolFlags,
    /// Total amount sold over all routes.
    pub selling_amount: i128,
    /// Total minimum bought over all routes.
    pub min_buying: i128,
    pub fee_before: i128,
    pub selling_before: i128,
    pub buying_before: i128,
    /// Selling-token balance after the hops, adjusted for the fee's settlement.
    pub selling_after: i128,
    /// Buying-token balance after the hops, adjusted for the fee's settlement.
    pub buying_after: i128,
    pub fee_after: i128,
    /// Amount bought so far; once the fee is known, what the trader is paid.
    pub bought: i128,
    pub estimated: i128,
    pub route_idx: usize,
    pub step_idx: usize,
    pub fee: i128,
    pub received_fee: i128,
    pub selling_adj: i128,
    pub buying_adj: i128,
    pub phase: Phase,
    /// Amount bought by each route that has completed.
    pub outputs: Ghost<Seq<i128>>,
    /// Number of fee-conversion hops requested.
    pub fee_hops: Ghost<nat>,
}

impl SwapSession {
    /// Every route has run and the fee is computed.
    pub open spec fn fees_known(self) -> bool {
        match self.phase {
            Phase::FeeConversion | Phase::SellingAfter | Phase::BuyingAfter | Phase::Payout
            | Phase::FeeAfter | Phase::Finished => true,
            _ => false,
        }
    }

    /// The fee is computed and, where needed, converted.
    pub open spec fn fee_settled(self) -> bool {
        self.fees_known() && self.phase != Phase::FeeConversion
    }

    /// The balances around the hops have passed their check.
    pub open spec fn balances_checked(self) -> bool {
        match self.phase {
            Phase::Payout | Phase::FeeAfter | Phase::Finished => true,
            _ => false,
        }
    }

    /// The amount bought by all routes, before the fee.
    pub open spec fn gross_bought(self) -> int {
        seq_sum(self.outputs@)
    }

    /// The fee owed on this swap, once every route has run.
    pub open spec fn owed_fee(self) -> int {
        swap_fee(total_estimated(self.routes@), self.gross_bought(), self.vfee as int, self.ffee as int)
    }

    /// What holds of a session at every phase.
    pub open spec fn wf(self) -> bool {
        &&& self.phase != Phase::Aborted ==> {
            &&& routes_agree(self.routes@)
            &&& totals_fit(self.routes@)
            &&& self.buying == buying_asset_of(self.routes@[0])
            &&& self.selling_amount == total_amount(self.routes@)
            &&& self.min_buying == total_min(self.routes@)
        }
        &&& self.fee_asset == fee_asset_of(self.fee_path@, self.buying)
        &&& self.fee_asset == self.buying ==> self.fee_hops@ == 0
        &&& self.phase == Phase::Routes ==> {
            &&& self.route_idx < self.routes.len()
            &&& self.step_idx < self.routes@[self.route_idx as int].path@.len()
            &&& self.outputs@.len() == self.route_idx
            &&& self.bought == seq_sum(self.outputs@)
            &&& self.estimated == total_estimated(self.routes@.take(self.route_idx as int))
        }
        &&& self.fees_known() ==> {
            &&& self.outputs@.len() == self.routes.len()
            &&& self.fee == self.owed_fee()
            &&& self.bought == self.gross_bought() - kept_fee(self.fee as int)
        }
        &&& self.phase == Phase::FeeConversion ==> {
            &&& self.step_idx < self.fee_path.len()
            &&& self.fee_asset != self.buying
            &&& self.fee > 0
        }
        &&& self.fee_settled() && self.fee_asset == self.buying ==> {
            &&& self.received_fee == kept_fee(self.fee as int)
            &&& self.buying_adj == -self.received_fee
            &&& self.selling_adj == 0
        }
        &&& self.balances_checked() ==> settlement_verdict(
            self.selling_amount as int,
            self.min_buying as int,
            self.selling_before as int,
            self.selling_after as int,
            self.buying_before as int,
            self.buying_after as int,
        ) is Ok
        &&& self.phase == Phase::Finished ==> fee_verdict(
            self.fee_before as int,
            self.fee_after as int,
            self.received_fee as int,
        ) is Ok
    }
}

/// Whether some hop of some route targets a backend family that is not enabled.
pub fn has_disabled_hop(flags: &ProtocolFlags, routes: &Vec<Route>) -> (r: bool)
    ensures
        r == some_disabled(*flags, routes@),
{
    let mut i: usize = 0;
    while i < routes.len()
        invariant
            i <= routes.len(),
            forall|a: int, b: int|
                0 <= a < i && 0 <= b < routes@[a].path@.len() ==> flags.enabled(
                    #[trigger] routes@[a].path@[b].protocol,
                ),
        decreases routes.len() - i,
    {
        let path = &routes[i].path;
        let mut j: usize = 0;
        while j < path.len()
            invariant
                i < routes.len(),
                path@ == routes@[i as int].path@,
                j <= path.len(),
                forall|b: int| 0 <= b < j ==> flags.enabled(#[trigger] path@[b].protocol),
                forall|a: int, b: int|
                    0 <= a < i && 0 <= b < routes@[a].path@.len() ==> flags.enabled(
                        #[trigger] routes@[a].path@[b].protocol,
                    ),
            decreases path.len() - j,
        {
            if !flags.is_enabled(path[j].protocol) {
                return true;
            }
            j = j + 1;
        }
        i = i + 1;
    }
    false
}

/// The token a fee conversion path ends in, or `buying` where it is empty.
pub fn fee_asset(fee_path: &Vec<PathStep>, buying: Address) -> (r: Address)
    ensures
        r == fee_asset_of(fee_path@, buying),
{
    if fee_path.len() == 0 {
        buying
    } else {
        fee_path[fee_path.len() - 1].asset
    }
}

/// The first action of a swap: the pre-checks' verdict, or reading the
/// broker's balance of the reference fee token.
pub open spec fn start_action(routes: Seq<Route>, flags: ProtocolFlags, fee_token: Address) -> Action {
    if !routes_agree(routes) {
        Action::Fail(BrokerError::Unfeasible)
    } else if some_disabled(flags, routes) {
        Action::Fail(BrokerError::ProtocolDisabled)
    } else if !totals_fit(routes) {
        Action::Overflow
    } else {
        Action::ReadBalance { token: fee_token }
    }
}

impl SwapSession {
    /// The request as given, with nothing observed yet.
    pub open spec fn holds_request(
        self,
        selling: Address,
        routes: Seq<Route>,
        trader: Address,
        broker: Address,
        vfee: u32,
        ffee: u32,
        fee_path: Seq<PathStep>,
        fee_token: Address,
        flags: ProtocolFlags,
    ) -> bool {
        &&& self.selling == selling
        &&& self.routes@ == routes
        &&& self.trader == trader
        &&& self.broker == broker
        &&& self.vfee == vfee
        &&& self.ffee == ffee
        &&& self.fee_path@ == fee_path
        &&& self.fee_token == fee_token
        &&& self.flags == flags
    }

    /// Same request and same readings taken before the hops.
    pub open spec fn same_request(self, other: SwapSession) -> bool {
        &&& self.holds_request(
            other.selling,
            other.routes@,
            other.trader,
            other.broker,
            other.vfee,
            other.ffee,
            other.fee_path@,
            other.fee_token,
            other.flags,
        )
        &&& self.buying == other.buying
        &&& self.fee_asset == other.fee_asset
        &&& self.selling_amount == other.selling_amount
        &&& self.min_buying == other.min_buying
    }

    /// Begins a swap of `selling` along `routes` for `trader`, with the profit
    /// and flat fee rates `vfee` and `ffee` in parts per thousand, and
    /// `fee_path` to convert the fee. Before anything moves, it rejects routes
    /// that do not agree on one buying token (`Unfeasible`) and routes through a
    /// disabled backend (`ProtocolDisabled`). Otherwise it first asks for the
    /// broker's balance of the reference fee token.
    pub fn start(
        selling: Address,
        routes: Vec<Route>,
        trader: Address,
        broker: Address,
        vfee: u32,
        ffee: u32,
        fee_path: Vec<PathStep>,
        fee_token: Address,
        flags: ProtocolFlags,
    ) -> (r: (SwapSession, Action))
        ensures
            r.0.wf(),
            r.0.holds_request(selling, routes@, trader, broker, vfee, ffee, fee_path@, fee_token, flags),
            r.1 == start_action(routes@, flags, fee_token),
            !routes_agree(routes@) ==> r.1 == Action::Fail(BrokerError::Unfeasible),
            routes_agree(routes@) && some_disabled(flags, routes@) ==> r.1 == Action::Fail(
                BrokerError::ProtocolDisabled,
            ),
            routes_agree(routes@) && !some_disabled(flags, routes@) && !totals_fit(routes@) ==> r.1
                == Action::Overflow,
            routes_agree(routes@) && !some_disabled(flags, routes@) && totals_fit(routes@) ==> {
                &&& r.1 == Action::ReadBalance { token: fee_token }
                &&& r.0.phase == Phase::FeeBefore
            },
            r.1 is Fail || r.1 is Overflow <==> r.0.phase == Phase::Aborted,
    {
        let buying_result = get_buying_asset(&routes);
        let disabled = has_disabled_hop(&flags, &routes);
        let totals = estimate_routes(&routes);
        let buying = match buying_result {
            Ok(b) => b,
            Err(_) => selling,
        };
        let fee_asset = fee_asset(&fee_path, buying);
        let mut session = SwapSession {
            selling,
            buying,
            fee_asset,
            fee_token,
            trader,
            broker,
            routes,
            fee_path,
            vfee,
            ffee,
            flags,
            selling_amount: 0,
            min_buying: 0,
            fee_before: 0,
            selling_before: 0,
            buying_before: 0,
            selling_after: 0,
            buying_after: 0,
            fee_after: 0,
            bought: 0,
            estimated: 0,
            route_idx: 0,
            step_idx: 0,
            fee: 0,
            received_fee: 0,
            selling_adj: 0,
            buying_adj: 0,
            phase: Phase::Aborted,
            outputs: Ghost(Seq::empty()),
            fee_hops: Ghost(0),
        };
        if buying_result.is_err() {
            return (session, Action::Fail(BrokerError::Unfeasible));
        }
        if disabled {
            return (session, Action::Fail(BrokerError::ProtocolDisabled));
        }
        match totals {
            None => (session, Action::Overflow),
            Some((amount, min)) => {
                session.selling_amount = amount;
                session.min_buying = min;
                session.phase = Phase::FeeBefore;
                (session, Action::ReadBalance { token: fee_token })
            },
        }
    }
}

impl SwapSession {
    /// What the host is asked to do for a hop of `step` that sells `amount` of
    /// `in_token`, the broker receiving what it buys.
    pub open spec fn hop_action(self, step: PathStep, in_token: Address, amount: i128) -> Action {
        match dispatch(self.flags, step.protocol, LPSwap { step, in_token, to: self.broker, amount }, self.broker) {
            Ok(plan) => Action::Hop(plan),
            Err(e) => Action::Fail(e),
        }
    }

    fn hop(&self, step: PathStep, in_token: Address, amount: i128) -> (a: Action)
        ensures
            a == self.hop_action(step, in_token, amount),
    {
        let si = LPSwap { step, in_token, to: self.broker, amount };
        match swap_adapter(&self.flags, step.protocol, si, self.broker) {
            Ok(plan) => Action::Hop(plan),
            Err(e) => Action::Fail(e),
        }
    }

    /// Hops of the route being run.
    pub open spec fn current_path(self) -> Seq<PathStep> {
        self.routes@[self.route_idx as int].path@
    }

    /// Every amount that settling a completed last route computes fits in an
    /// `i128`, given that the last route bought `answer`.
    pub open spec fn settles_in_range(self, answer: i128) -> bool {
        let gross = self.bought + answer;
        let estimated = self.estimated + self.routes@[self.route_idx as int].estimated;
        &&& i128::MIN <= gross <= i128::MAX
        &&& i128::MIN <= estimated <= i128::MAX
        &&& swap_fee_defined(estimated, gross, self.vfee as int, self.ffee as int)
        &&& i128::MIN <= gross - kept_fee(swap_fee(estimated, gross, self.vfee as int, self.ffee as int))
            <= i128::MAX
    }
}

/// What one answer does to a swap at each phase: `s` before, `t` after, `a`
/// the next action.
pub open spec fn advances(s: SwapSession, t: SwapSession, answer: i128, a: Action) -> bool {
    &&& s.phase == Phase::FeeBefore ==> {
        &&& t.fee_before == answer
        &&& t.phase == Phase::Intake
        &&& a == Action::Transfer { token: s.selling, from: s.trader, to: s.broker, amount: s.selling_amount }
    }
    &&& s.phase == Phase::Intake ==> t.phase == Phase::SellingBefore && a == Action::ReadBalance {
        token: s.selling,
    }
    &&& s.phase == Phase::SellingBefore ==> {
        &&& t.selling_before == answer
        &&& t.phase == Phase::BuyingBefore
        &&& a == Action::ReadBalance { token: s.buying }
    }
    &&& s.phase == Phase::BuyingBefore ==> {
        &&& t.buying_before == answer
        &&& a == s.hop_action(s.routes@[0].path@[0], s.selling, s.routes@[0].amount)
        &&& !(a is Fail) ==> t.phase == Phase::Routes && t.route_idx == 0 && t.step_idx == 0
    }
    &&& s.phase == Phase::Routes && s.step_idx + 1 < s.current_path().len() ==> {
        &&& a == s.hop_action(
            s.current_path()[s.step_idx + 1],
            s.current_path()[s.step_idx as int].asset,
            answer,
        )
        &&& !(a is Fail) ==> {
            &&& t.phase == Phase::Routes
            &&& t.route_idx == s.route_idx
            &&& t.step_idx == s.step_idx + 1
            &&& t.outputs@ == s.outputs@
        }
    }
    &&& s.phase == Phase::Routes && s.step_idx + 1 == s.current_path().len() ==> {
        &&& a is Overflow <==> (s.route_idx + 1 < s.routes.len() && !(i128::MIN <= s.bought + answer
            <= i128::MAX && i128::MIN <= s.estimated + s.routes@[s.route_idx as int].estimated
            <= i128::MAX)) || (s.route_idx + 1 == s.routes.len() && !s.settles_in_range(answer))
        &&& !(a is Overflow) ==> t.outputs@ == s.outputs@.push(answer)
        &&& !(a is Overflow) && s.route_idx + 1 < s.routes.len() ==> {
            &&& a == s.hop_action(
                s.routes@[s.route_idx + 1].path@[0],
                s.selling,
                s.routes@[s.route_idx + 1].amount,
            )
            &&& !(a is Fail) ==> {
                &&& t.phase == Phase::Routes
                &&& t.route_idx == s.route_idx + 1
                &&& t.step_idx == 0
            }
        }
        &&& !(a is Overflow) && s.route_idx + 1 == s.routes.len() ==> {
            &&& t.phase == Phase::Aborted || t.fees_known()
            &&& t.fee == swap_fee(
                total_estimated(s.routes@),
                seq_sum(t.outputs@),
                s.vfee as int,
                s.ffee as int,
            )
            &&& (t.fee > 0 && t.fee_asset != t.buying) ==> {
                &&& a == s.hop_action(s.fee_path@[0], s.buying, t.fee)
                &&& !(a is Fail) ==> t.phase == Phase::FeeConversion && t.step_idx == 0
            }
            &&& !(t.fee > 0 && t.fee_asset != t.buying) ==> {
                &&& t.phase == Phase::SellingAfter
                &&& a == Action::ReadBalance { token: s.selling }
            }
        }
    }
    &&& s.phase == Phase::FeeConversion && s.step_idx + 1 < s.fee_path.len() ==> {
        &&& a == s.hop_action(s.fee_path@[s.step_idx + 1], s.fee_path@[s.step_idx as int].asset, answer)
        &&& !(a is Fail) ==> t.phase == Phase::FeeConversion && t.step_idx == s.step_idx + 1
    }
    &&& s.phase == Phase::FeeConversion && s.step_idx + 1 == s.fee_path.len() ==> {
        &&& a is Overflow <==> (s.fee_asset == s.selling && answer == i128::MIN)
        &&& !(a is Overflow) ==> {
            &&& t.received_fee == answer
            &&& t.selling_adj == (if s.fee_asset == s.selling { -answer } else { 0int })
            &&& t.buying_adj == 0
            &&& t.phase == Phase::SellingAfter
            &&& a == Action::ReadBalance { token: s.selling }
        }
    }
    &&& s.phase == Phase::SellingAfter ==> {
        &&& a is Overflow <==> !(i128::MIN <= answer + s.selling_adj <= i128::MAX)
        &&& !(a is Overflow) ==> {
            &&& t.selling_after == answer + s.selling_adj
            &&& t.phase == Phase::BuyingAfter
            &&& a == Action::ReadBalance { token: s.buying }
        }
    }
    &&& s.phase == Phase::BuyingAfter ==> {
        &&& a is Overflow <==> !(i128::MIN <= answer + s.buying_adj <= i128::MAX)
        &&& !(a is Overflow) ==> {
            &&& t.buying_after == answer + s.buying_adj
            &&& match settlement_verdict(
                s.selling_amount as int,
                s.min_buying as int,
                s.selling_before as int,
                s.selling_after as int,
                s.buying_before as int,
                t.buying_after as int,
            ) {
                Ok(_) => t.phase == Phase::Payout && a == Action::Transfer {
                    token: s.buying,
                    from: s.broker,
                    to: s.trader,
                    amount: s.bought,
                },
                Err(e) => a == Action::Fail(e),
            }
        }
    }
    &&& s.phase == Phase::Payout ==> t.phase == Phase::FeeAfter && a == Action::ReadBalance {
        token: s.fee_token,
    }
    &&& s.phase == Phase::FeeAfter ==> {
        &&& t.fee_after == answer
        &&& match fee_verdict(s.fee_before as int, answer as int, s.received_fee as int) {
            Ok(_) => a == Action::Finish { sold: s.selling_amount, bought: s.bought, fee: s.received_fee },
            Err(e) => a == Action::Fail(e),
        }
    }
}

/// What a step leaves as it was: each reading once taken, the route results
/// once all are in, and the fee's settlement once made.
pub open spec fn keeps(s: SwapSession, t: SwapSession) -> bool {
    &&& s.phase != Phase::FeeBefore ==> t.fee_before == s.fee_before
    &&& s.phase != Phase::SellingBefore ==> t.selling_before == s.selling_before
    &&& s.phase != Phase::BuyingBefore ==> t.buying_before == s.buying_before
    &&& s.fees_known() ==> {
        &&& t.outputs@ == s.outputs@
        &&& t.fee == s.fee
        &&& t.bought == s.bought
    }
    &&& s.fee_settled() ==> {
        &&& t.received_fee == s.received_fee
        &&& t.selling_adj == s.selling_adj
        &&& t.buying_adj == s.buying_adj
    }
    &&& s.fee_settled() && s.phase != Phase::SellingAfter ==> t.selling_after == s.selling_after
    &&& s.balances_checked() ==> t.buying_after == s.buying_after
    &&& t.fee_hops@ == s.fee_hops@ || (s.fee_asset != s.buying && t.fee_hops@ == s.fee_hops@ + 1)
}

impl SwapSession {
    /// Takes the host's answer to the last action and returns the next one.
    pub fn step(&mut self, answer: i128) -> (a: Action)
        requires
            old(self).wf(),
            old(self).phase != Phase::Finished,
            old(self).phase != Phase::Aborted,
        ensures
            final(self).wf(),
            final(self).same_request(*old(self)),
            a is Fail || a is Overflow <==> final(self).phase == Phase::Aborted,
            a is Finish <==> final(self).phase == Phase::Finished,
            advances(*old(self), *final(self), answer, a),
            keeps(*old(self), *final(self)),
    {
        match self.phase {
            Phase::FeeBefore => {
                self.fee_before = answer;
                self.phase = Phase::Intake;
                Action::Transfer {
                    token: self.selling,
                    from: self.trader,
                    to: self.broker,
                    amount: self.selling_amount,
                }
            },
            Phase::Intake => {
                self.phase = Phase::SellingBefore;
                Action::ReadBalance { token: self.selling }
            },
            Phase::SellingBefore => {
                self.selling_before = answer;
                self.phase = Phase::BuyingBefore;
                Action::ReadBalance { token: self.buying }
            },
            Phase::BuyingBefore => {
                self.buying_before = answer;
                self.route_idx = 0;
                self.step_idx = 0;
                self.bought = 0;
                self.estimated = 0;
                self.outputs = Ghost(Seq::empty());
                proof {
                    assert(self.routes@.take(0) =~= Seq::<Route>::empty());
                    assert(self.routes@[0].path@.len() > 0);
                }
                let first = self.routes[0].path[0];
                let amount = self.routes[0].amount;
                let a = self.hop(first, self.selling, amount);
                self.phase = Phase::Routes;
                if let Action::Fail(_) = a {
                    self.phase = Phase::Aborted;
                }
                a
            },
            Phase::Routes => self.route_hop_done(answer),
            Phase::FeeConversion => self.fee_hop_done(answer),
            Phase::SellingAfter => {
                match answer.checked_add(self.selling_adj) {
                    Some(v) => {
                        self.selling_after = v;
                        self.phase = Phase::BuyingAfter;
                        Action::ReadBalance { token: self.buying }
                    },
                    None => {
                        self.phase = Phase::Aborted;
                        Action::Overflow
                    },
                }
            },
            Phase::BuyingAfter => {
                match answer.checked_add(self.buying_adj) {
                    Some(v) => {
                        self.buying_after = v;
                        match verify_balances(
                            self.selling_amount,
                            self.min_buying,
                            self.selling_before,
                            self.selling_after,
                            self.buying_before,
                            self.buying_after,
                        ) {
                            Ok(()) => {
                                self.phase = Phase::Payout;
                                Action::Transfer {
                                    token: self.buying,
                                    from: self.broker,
                                    to: self.trader,
                                    amount: self.bought,
                                }
                            },
                            Err(e) => {
                                self.phase = Phase::Aborted;
                                Action::Fail(e)
                            },
                        }
                    },
                    None => {
                        self.phase = Phase::Aborted;
                        Action::Overflow
                    },
                }
            },
            Phase::Payout => {
                self.phase = Phase::FeeAfter;
                Action::ReadBalance { token: self.fee_token }
            },
            _ => {
                self.fee_after = answer;
                match verify_fee_balance(self.fee_before, answer, self.received_fee) {
                    Ok(()) => {
                        self.phase = Phase::Finished;
                        Action::Finish { sold: self.selling_amount, bought: self.bought, fee: self.received_fee }
                    },
                    Err(e) => {
                        self.phase = Phase::Aborted;
                        Action::Fail(e)
                    },
                }
            },
        }
    }
}

impl SwapSession {
    /// Lemma: adding one more route's result extends the running sums.
    proof fn lemma_route_sums(self, answer: i128)
        requires
            self.route_idx < self.routes.len(),
        ensures
            seq_sum(self.outputs@.push(answer)) == seq_sum(self.outputs@) + answer,
            total_estimated(self.routes@.take(self.route_idx + 1)) == total_estimated(
                self.routes@.take(self.route_idx as int),
            ) + self.routes@[self.route_idx as int].estimated,
    {
        assert(self.outputs@.push(answer).drop_last() =~= self.outputs@);
        assert(self.routes@.take(self.route_idx + 1).drop_last() =~= self.routes@.take(
            self.route_idx as int,
        ));
    }

    fn route_hop_done(&mut self, answer: i128) -> (a: Action)
        requires
            old(self).wf(),
            old(self).phase == Phase::Routes,
        ensures
            final(self).wf(),
            final(self).same_request(*old(self)),
            a is Fail || a is Overflow <==> final(self).phase == Phase::Aborted,
            !(a is Finish) && final(self).phase != Phase::Finished,
            advances(*old(self), *final(self), answer, a),
            keeps(*old(self), *final(self)),
    {
        let r = self.route_idx;
        let k = self.step_idx;
        let len = self.routes[r].path.len();
        if k + 1 < len {
            let next = self.routes[r].path[k + 1];
            let asset = self.routes[r].path[k].asset;
            self.step_idx = k + 1;
            let a = self.hop(next, asset, answer);
            if let Action::Fail(_) = a {
                self.phase = Phase::Aborted;
            }
            return a;
        }
        let route_estimated = self.routes[r].estimated;
        let gross = match self.bought.checked_add(answer) {
            Some(v) => v,
            None => {
                self.phase = Phase::Aborted;
                return Action::Overflow;
            },
        };
        let estimated = match self.estimated.checked_add(route_estimated) {
            Some(v) => v,
            None => {
                self.phase = Phase::Aborted;
                return Action::Overflow;
            },
        };
        proof {
            self.lemma_route_sums(answer);
        }
        self.outputs = Ghost(self.outputs@.push(answer));
        self.bought = gross;
        self.estimated = estimated;
        if r + 1 < self.routes.len() {
            self.route_idx = r + 1;
            self.step_idx = 0;
            proof {
                assert(self.routes@[r + 1].path@.len() > 0);
            }
            let first = self.routes[r + 1].path[0];
            let amount = self.routes[r + 1].amount;
            let a = self.hop(first, self.selling, amount);
            if let Action::Fail(_) = a {
                self.phase = Phase::Aborted;
            }
            return a;
        }
        proof {
            assert(self.routes@.take(r + 1) =~= self.routes@);
        }
        let fee = match charged_fee(estimated, gross, self.vfee, self.ffee) {
            Some(f) => f,
            None => {
                self.phase = Phase::Aborted;
                return Action::Overflow;
            },
        };
        self.fee = fee;
        if fee > 0 {
            let net = match gross.checked_sub(fee) {
                Some(v) => v,
                None => {
                    self.phase = Phase::Aborted;
                    return Action::Overflow;
                },
            };
            self.bought = net;
            if self.fee_asset == self.buying {
                self.received_fee = fee;
                self.buying_adj = -fee;
                self.selling_adj = 0;
                self.phase = Phase::SellingAfter;
                Action::ReadBalance { token: self.selling }
            } else {
                self.step_idx = 0;
                self.fee_hops = Ghost(self.fee_hops@ + 1);
                self.phase = Phase::FeeConversion;
                let first = self.fee_path[0];
                let a = self.hop(first, self.buying, fee);
                if let Action::Fail(_) = a {
                    self.phase = Phase::Aborted;
                }
                a
            }
        } else {
            self.received_fee = 0;
            self.buying_adj = 0;
            self.selling_adj = 0;
            self.phase = Phase::SellingAfter;
            Action::ReadBalance { token: self.selling }
        }
    }

    fn fee_hop_done(&mut self, answer: i128) -> (a: Action)
        requires
            old(self).wf(),
            old(self).phase == Phase::FeeConversion,
        ensures
            final(self).wf(),
            final(self).same_request(*old(self)),
            a is Fail || a is Overflow <==> final(self).phase == Phase::Aborted,
            !(a is Finish) && final(self).phase != Phase::Finished,
            advances(*old(self), *final(self), answer, a),
            keeps(*old(self), *final(self)),
    {
        let k = self.step_idx;
        if k + 1 < self.fee_path.len() {
            let next = self.fee_path[k + 1];
            let asset = self.fee_path[k].asset;
            self.step_idx = k + 1;
            self.fee_hops = Ghost(self.fee_hops@ + 1);
            let a = self.hop(next, asset, answer);
            if let Action::Fail(_) = a {
                self.phase = Phase::Aborted;
            }
            return a;
        }
        if self.fee_asset == self.selling {
            if answer == i128::MIN {
                self.phase = Phase::Aborted;
                return Action::Overflow;
            }
            self.selling_adj = -answer;
        } else {
            self.selling_adj = 0;
        }
        self.received_fee = answer;
        self.buying_adj = 0;
        self.phase = Phase::SellingAfter;
        Action::ReadBalance { token: self.selling }
    }
}

/// Routes that agree on their buying token but pass through a disabled
/// backend anywhere are rejected with `ProtocolDisabled` as the very first
/// action, before any balance is read or any token moves.
pub proof fn lemma_disabled_rejected_upfront(routes: Seq<Route>, flags: ProtocolFlags, fee_token: Address)
    requires
        routes_agree(routes),
        some_disabled(flags, routes),
    ensures
        start_action(routes, flags, fee_token) == Action::Fail(BrokerError::ProtocolDisabled),
{
}

/// A finished swap took exactly the planned total out of the broker's selling
/// balance, once the fee's settlement is accounted for.
pub proof fn lemma_exact_debit(s: SwapSession)
    requires
        s.wf(),
        s.phase == Phase::Finished,
    ensures
        s.selling_before - s.selling_after == total_amount(s.routes@),
{
}

/// When the selling balance moved by anything but the planned total, the
/// balance check aborts the swap with `Misconduct`.
pub proof fn lemma_drift_is_misconduct(s: SwapSession, t: SwapSession, answer: i128, a: Action)
    requires
        s.wf(),
        s.phase == Phase::BuyingAfter,
        advances(s, t, answer, a),
        !(a is Overflow),
        s.selling_before - s.selling_after != total_amount(s.routes@),
    ensures
        a == Action::Fail(BrokerError::Misconduct),
{
}

/// A finished swap brought at least the summed minimum of the buying token
/// into the broker, once the fee's settlement is accounted for.
pub proof fn lemma_minimum_floor(s: SwapSession)
    requires
        s.wf(),
        s.phase == Phase::Finished,
    ensures
        s.buying_after - s.buying_before >= total_min(s.routes@),
{
}

/// When the selling balance is exact but less than the summed minimum came
/// in, the balance check aborts the swap with `Unfeasible`.
pub proof fn lemma_shortfall_is_unfeasible(s: SwapSession, t: SwapSession, answer: i128, a: Action)
    requires
        s.wf(),
        s.phase == Phase::BuyingAfter,
        advances(s, t, answer, a),
        !(a is Overflow),
        s.selling_before - s.selling_after == total_amount(s.routes@),
        t.buying_after - s.buying_before < total_min(s.routes@),
    ensures
        a == Action::Fail(BrokerError::Unfeasible),
{
}

/// When the fee is retained in the buying token itself, no conversion hop is
/// ever requested and the whole (non-negative) fee is what is retained.
pub proof fn lemma_no_double_conversion(s: SwapSession)
    requires
        s.wf(),
        s.fee_settled(),
        s.fee_asset == s.buying,
        s.fee >= 0,
    ensures
        s.received_fee == s.fee,
        s.fee_hops@ == 0,
{
}

} // verus!
