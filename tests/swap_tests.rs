use std::collections::HashMap;
use stellar_broker::adapter::{HopPlan, LpCall};
use stellar_broker::broker::StellarBroker;
use stellar_broker::engine::Action;
use stellar_broker::soroswap::soroswap_swap_outputs;
use stellar_broker::types::{Address, BrokerError, PathStep, Protocol, Route};

const USDC: Address = Address { id: 1 };
const XLM: Address = Address { id: 2 };
const EURC: Address = Address { id: 3 };
const REF: Address = Address { id: 4 };
const USDC_XLM_POOL: Address = Address { id: 10 };
const USDC_EURC_POOL: Address = Address { id: 11 };
const XLM_EURC_POOL: Address = Address { id: 12 };
const BROKER: Address = Address { id: 100 };
const TRADER: Address = Address { id: 101 };
const ADMIN: Address = Address { id: 102 };

#[derive(Clone, Copy)]
enum PoolKind {
    Aqua,
    Soroswap,
    /// Pays out a set amount whatever it is sold; takes `extra` more input
    /// than it is asked for.
    Fixed { out: i128, extra: i128 },
    /// Takes its input but pays out only on the hop that ends in `last`; on
    /// earlier hops it reports `steal` without paying anything.
    Thief { last: Address, steal: i128 },
}

#[derive(Clone, Copy)]
struct SimPool {
    kind: PoolKind,
    tokens: [Address; 2],
    reserves: [i128; 2],
}

/// A ledger that carries out the broker's actions, with pools that behave as
/// the backends' own contracts do.
#[derive(Clone)]
struct Ledger {
    balances: HashMap<(u64, u64), i128>,
    pools: HashMap<u64, SimPool>,
    hops: usize,
}

fn amount(a: i128) -> i128 {
    a * 10i128.pow(7)
}

impl Ledger {
    fn new() -> Ledger {
        Ledger { balances: HashMap::new(), pools: HashMap::new(), hops: 0 }
    }

    fn balance(&self, token: Address, holder: Address) -> i128 {
        *self.balances.get(&(token.id, holder.id)).unwrap_or(&0)
    }

    fn mint(&mut self, token: Address, holder: Address, amount: i128) {
        *self.balances.entry((token.id, holder.id)).or_insert(0) += amount;
    }

    fn transfer(&mut self, token: Address, from: Address, to: Address, amount: i128) {
        assert!(amount >= 0, "negative transfer");
        assert!(self.balance(token, from) >= amount, "insufficient balance");
        self.mint(token, from, -amount);
        self.mint(token, to, amount);
    }

    fn add_pool(&mut self, pool: Address, kind: PoolKind, tokens: [Address; 2], reserves: [i128; 2]) {
        self.mint(tokens[0], pool, reserves[0]);
        self.mint(tokens[1], pool, reserves[1]);
        self.pools.insert(pool.id, SimPool { kind, tokens, reserves });
    }

    fn hop(&mut self, plan: HopPlan) -> i128 {
        self.hops += 1;
        let (pool, in_token, in_amount, recipient) = match plan.call {
            LpCall::Aqua { pool, user, in_idx, in_amount, .. } => {
                let p = self.pools[&pool.id];
                (pool, p.tokens[in_idx as usize], in_amount as i128, user)
            },
            LpCall::Soroswap { pool, in_token, amount, to, .. } => (pool, in_token, amount, to),
            LpCall::Comet { pool, token_in, token_amount_in, user, .. } => (pool, token_in, token_amount_in, user),
            LpCall::Phoenix { pool, sender, offer_asset, offer_amount } => (pool, offer_asset, offer_amount, sender),
        };
        let mut p = self.pools[&pool.id];
        let in_idx = if p.tokens[0] == in_token { 0 } else { 1 };
        let out_idx = 1 - in_idx;
        let out = match (p.kind, plan.call) {
            (PoolKind::Aqua, _) => {
                let result = in_amount * p.reserves[out_idx] / (p.reserves[in_idx] + in_amount);
                let fee = (result * 30 + 9999) / 10000;
                let out = result - fee;
                self.transfer(in_token, recipient, pool, in_amount);
                self.transfer(p.tokens[out_idx], pool, recipient, out);
                p.reserves[in_idx] += in_amount;
                p.reserves[out_idx] -= out;
                out
            },
            (PoolKind::Soroswap, LpCall::Soroswap { from, bought_index, .. }) => {
                self.transfer(in_token, from, pool, in_amount);
                let (o0, o1) =
                    soroswap_swap_outputs(in_amount, &(p.reserves[0], p.reserves[1]), bought_index).unwrap();
                self.transfer(p.tokens[0], pool, recipient, o0);
                self.transfer(p.tokens[1], pool, recipient, o1);
                p.reserves = [self.balance(p.tokens[0], pool), self.balance(p.tokens[1], pool)];
                o0 + o1
            },
            (PoolKind::Fixed { out, extra }, _) => {
                self.transfer(in_token, recipient, pool, in_amount + extra);
                self.transfer(p.tokens[out_idx], pool, recipient, out);
                out
            },
            (PoolKind::Thief { last, steal }, LpCall::Comet { token_out, min_amount_out, .. }) => {
                self.transfer(in_token, recipient, pool, in_amount);
                if token_out == last {
                    self.transfer(token_out, pool, recipient, min_amount_out);
                    min_amount_out
                } else {
                    steal
                }
            },
            _ => panic!("call does not match the pool"),
        };
        self.pools.insert(pool.id, p);
        out
    }
}

/// Runs a swap to its end; on an abort the ledger is restored, as the host
/// discards a failed call.
fn run_swap(
    ledger: &mut Ledger,
    broker: &StellarBroker,
    selling: Address,
    routes: Vec<Route>,
    vfee: u32,
    ffee: u32,
    fpath: Vec<PathStep>,
) -> Result<(i128, i128, i128), Option<BrokerError>> {
    let snapshot = ledger.clone();
    let (mut session, mut action) = match broker.swap(BROKER, selling, routes, TRADER, vfee, ffee, fpath) {
        Ok(started) => started,
        Err(e) => return Err(Some(e)),
    };
    loop {
        let answer = match action {
            Action::ReadBalance { token } => ledger.balance(token, BROKER),
            Action::Transfer { token, from, to, amount } => {
                ledger.transfer(token, from, to, amount);
                0
            },
            Action::Hop(plan) => ledger.hop(plan),
            Action::Finish { sold, bought, fee } => return Ok((sold, bought, fee)),
            Action::Fail(e) => {
                *ledger = snapshot;
                return Err(Some(e));
            },
            Action::Overflow => {
                *ledger = snapshot;
                return Err(None);
            },
        };
        action = session.step(answer);
    }
}

fn broker_with(fee_token: Address, protocols: &[Protocol]) -> StellarBroker {
    let mut broker = StellarBroker::new();
    broker.init(ADMIN, fee_token).unwrap();
    for p in protocols {
        assert_eq!(broker.enable_protocol(*p, true), Ok(ADMIN));
    }
    broker
}

/// The pools of the strict-send scenarios.
fn market() -> Ledger {
    let mut ledger = Ledger::new();
    ledger.add_pool(USDC_XLM_POOL, PoolKind::Aqua, [USDC, XLM], [amount(1000000), amount(10000000)]);
    ledger.add_pool(USDC_EURC_POOL, PoolKind::Aqua, [USDC, EURC], [amount(12000000), amount(10000000)]);
    ledger.add_pool(XLM_EURC_POOL, PoolKind::Soroswap, [XLM, EURC], [amount(12000000), amount(1000000)]);
    ledger
}

fn step(pool: Address, buying: Address) -> PathStep {
    let protocol = if pool == XLM_EURC_POOL { Protocol::Soroswap } else { Protocol::AquaConstant };
    let buys_first = (pool == XLM_EURC_POOL && buying == XLM) || (pool != XLM_EURC_POOL && buying == USDC);
    let (si, bi) = if buys_first { (1, 0) } else { (0, 1) };
    PathStep { protocol, asset: buying, pool, si, bi }
}

fn route(amount: i128, min: i128, estimated: i128, path: Vec<PathStep>) -> Route {
    Route { path, amount, min, estimated }
}

fn check_no_interim_leftovers(ledger: &Ledger) {
    assert_eq!(ledger.balance(EURC, BROKER), 0);
    assert_eq!(ledger.balance(XLM, BROKER), 0);
}

#[test]
fn swap_usdc_eurc() {
    let mut ledger = market();
    let broker = broker_with(USDC, &[Protocol::AquaConstant, Protocol::Soroswap]);
    ledger.mint(USDC, TRADER, amount(100));
    let routes = vec![route(
        amount(100),
        amount(70),
        amount(70),
        vec![step(USDC_XLM_POOL, XLM), step(XLM_EURC_POOL, EURC)],
    )];
    let fpath = vec![step(XLM_EURC_POOL, XLM), step(USDC_XLM_POOL, USDC)];
    run_swap(&mut ledger, &broker, USDC, routes, 150, 10, fpath).unwrap();
    assert_eq!(ledger.balance(USDC, BROKER), 32826388);
    assert_eq!(ledger.balance(EURC, TRADER), 800679106);
    assert_eq!(ledger.balance(USDC, TRADER), 0);
    check_no_interim_leftovers(&ledger);
}

#[test]
fn swap_eurc_usdc() {
    let mut ledger = market();
    let broker = broker_with(USDC, &[Protocol::AquaConstant, Protocol::Soroswap]);
    ledger.mint(EURC, TRADER, amount(100));
    let routes = vec![route(
        amount(55),
        amount(60),
        amount(60),
        vec![step(XLM_EURC_POOL, XLM), step(USDC_XLM_POOL, USDC)],
    )];
    run_swap(&mut ledger, &broker, EURC, routes, 300, 0, vec![]).unwrap();
    assert_eq!(ledger.balance(USDC, BROKER), 16790041);
    assert_eq!(ledger.balance(EURC, TRADER), amount(45));
    assert_eq!(ledger.balance(USDC, TRADER), 639176764);
    check_no_interim_leftovers(&ledger);
}

#[test]
fn swap_xlm_eurc() {
    let mut ledger = market();
    let broker = broker_with(USDC, &[Protocol::AquaConstant, Protocol::Soroswap]);
    ledger.mint(XLM, TRADER, amount(1000));
    let routes = vec![route(
        amount(730),
        amount(58),
        amount(60),
        vec![step(USDC_XLM_POOL, USDC), step(USDC_EURC_POOL, EURC)],
    )];
    let fpath = vec![step(USDC_EURC_POOL, USDC)];
    run_swap(&mut ledger, &broker, XLM, routes, 300, 0, fpath).unwrap();
    assert_eq!(ledger.balance(USDC, BROKER), 1665767);
    assert_eq!(ledger.balance(XLM, TRADER), amount(270));
    assert_eq!(ledger.balance(EURC, TRADER), 603248700);
    check_no_interim_leftovers(&ledger);
}

#[test]
fn swap_no_fees() {
    let mut ledger = market();
    let broker = broker_with(USDC, &[Protocol::AquaConstant, Protocol::Soroswap]);
    ledger.mint(XLM, TRADER, amount(1000));
    let routes = vec![route(
        amount(730),
        amount(58),
        amount(70),
        vec![step(USDC_XLM_POOL, USDC), step(USDC_EURC_POOL, EURC)],
    )];
    let fpath = vec![step(USDC_EURC_POOL, USDC)];
    let result = run_swap(&mut ledger, &broker, XLM, routes, 300, 0, fpath).unwrap();
    assert_eq!(result.2, 0);
    assert_eq!(ledger.balance(USDC, BROKER), 0);
    assert_eq!(ledger.balance(XLM, TRADER), amount(270));
    assert_eq!(ledger.balance(EURC, TRADER), 604641000);
    check_no_interim_leftovers(&ledger);
}

#[test]
fn swap_fail_less_min() {
    let mut ledger = market();
    let broker = broker_with(USDC, &[Protocol::AquaConstant, Protocol::Soroswap]);
    ledger.mint(XLM, TRADER, amount(1000));
    let routes = vec![route(
        amount(730),
        amount(68),
        amount(70),
        vec![step(USDC_XLM_POOL, USDC), step(USDC_EURC_POOL, EURC)],
    )];
    let result = run_swap(&mut ledger, &broker, XLM, routes, 300, 0, vec![]);
    assert_eq!(result, Err(Some(BrokerError::Unfeasible)));
    assert_eq!(ledger.balance(XLM, TRADER), amount(1000));
}

#[test]
fn swap_fail_invalid_step() {
    let mut ledger = market();
    let broker = broker_with(USDC, &[Protocol::AquaConstant, Protocol::Soroswap]);
    ledger.mint(XLM, TRADER, amount(1000));
    let bad = PathStep { protocol: Protocol::Soroswap, asset: USDC, pool: XLM_EURC_POOL, si: 0, bi: 2 };
    let routes = vec![route(amount(730), amount(68), amount(70), vec![bad])];
    let result = run_swap(&mut ledger, &broker, XLM, routes, 300, 0, vec![]);
    assert_eq!(result, Err(Some(BrokerError::InvalidPath)));
    assert_eq!(ledger.balance(XLM, TRADER), amount(1000));
}

#[test]
fn swap_fail_protocol_disabled() {
    let mut ledger = market();
    let broker = broker_with(USDC, &[Protocol::AquaConstant, Protocol::Soroswap]);
    ledger.mint(XLM, TRADER, amount(1000));
    let bad = PathStep { protocol: Protocol::Phoenix, asset: USDC, pool: XLM_EURC_POOL, si: 0, bi: 2 };
    let routes = vec![route(amount(730), amount(68), amount(70), vec![bad])];
    let result = run_swap(&mut ledger, &broker, XLM, routes, 300, 0, vec![]);
    assert_eq!(result, Err(Some(BrokerError::ProtocolDisabled)));
    assert_eq!(ledger.balance(XLM, TRADER), amount(1000));
}

#[test]
fn strict_send_test() {
    let mut ledger = Ledger::new();
    ledger.add_pool(USDC_XLM_POOL, PoolKind::Aqua, [USDC, XLM], [amount(1000000), amount(1000000)]);
    ledger.add_pool(XLM_EURC_POOL, PoolKind::Soroswap, [XLM, EURC], [amount(1000000), amount(1000000)]);
    let broker = broker_with(USDC, &[Protocol::AquaConstant, Protocol::Soroswap]);
    ledger.mint(USDC, TRADER, 10i128.pow(10));
    let aqua = |asset: Address, si: u32, bi: u32| PathStep {
        protocol: Protocol::AquaConstant,
        asset,
        pool: USDC_XLM_POOL,
        si,
        bi,
    };
    let soroswap = |asset: Address, si: u32, bi: u32| PathStep {
        protocol: Protocol::Soroswap,
        asset,
        pool: XLM_EURC_POOL,
        si,
        bi,
    };
    let routes = vec![route(amount(100), amount(80), amount(80), vec![aqua(XLM, 0, 1), soroswap(EURC, 0, 1)])];
    let fpath = vec![soroswap(XLM, 1, 0), aqua(USDC, 1, 0)];
    run_swap(&mut ledger, &broker, USDC, routes, 150, 10, fpath).unwrap();
    assert_eq!(ledger.balance(USDC, BROKER), 38791186);
    let eurc_swap_balance = ledger.balance(EURC, TRADER);
    assert_eq!(eurc_swap_balance, 954801099);
    assert_eq!(ledger.balance(USDC, TRADER), 9000000000);

    let routes = vec![route(
        eurc_swap_balance,
        amount(60),
        amount(60),
        vec![soroswap(XLM, 1, 0), aqua(USDC, 1, 0)],
    )];
    run_swap(&mut ledger, &broker, EURC, routes, 300, 0, vec![]).unwrap();
    assert_eq!(ledger.balance(USDC, BROKER), 143570350);
    assert_eq!(ledger.balance(EURC, TRADER), 0);
    assert_eq!(ledger.balance(USDC, TRADER), 9844484716);
}

const POOL_A: Address = Address { id: 20 };
const POOL_B: Address = Address { id: 21 };
const POOL_FEE: Address = Address { id: 22 };

/// Two fixed-output hops, USDC to XLM on an Aquarius pool and XLM to EURC on
/// a Phoenix pool, and a Phoenix pool that turns EURC into the reference token.
fn scripted(first_out: i128, bought: i128, converted: i128, greedy: i128) -> Ledger {
    let mut ledger = Ledger::new();
    ledger.add_pool(POOL_A, PoolKind::Fixed { out: first_out, extra: greedy }, [USDC, XLM], [0, 1000]);
    ledger.add_pool(POOL_B, PoolKind::Fixed { out: bought, extra: 0 }, [XLM, EURC], [0, 1000]);
    ledger.add_pool(POOL_FEE, PoolKind::Fixed { out: converted, extra: 0 }, [EURC, REF], [0, 1000]);
    ledger.mint(USDC, TRADER, 1000);
    ledger
}

fn two_hops(min: i128) -> Vec<Route> {
    vec![route(
        100,
        min,
        70,
        vec![
            PathStep { protocol: Protocol::AquaConstant, asset: XLM, pool: POOL_A, si: 0, bi: 1 },
            PathStep { protocol: Protocol::Phoenix, asset: EURC, pool: POOL_B, si: 0, bi: 1 },
        ],
    )]
}

fn fee_path() -> Vec<PathStep> {
    vec![PathStep { protocol: Protocol::Phoenix, asset: REF, pool: POOL_FEE, si: 0, bi: 1 }]
}

#[test]
fn two_hop_swap_with_fee_conversion() {
    let mut ledger = scripted(90, 80, 3, 0);
    let broker = broker_with(REF, &[Protocol::AquaConstant, Protocol::Phoenix]);
    let result = run_swap(&mut ledger, &broker, USDC, two_hops(70), 150, 10, fee_path());
    // fee = floor(10 * 150 / 1000) + floor(80 * 10 / 1000) = 1, converted to 3
    assert_eq!(result, Ok((100, 79, 3)));
    assert_eq!(ledger.balance(EURC, TRADER), 79);
    assert_eq!(ledger.balance(USDC, TRADER), 900);
    assert_eq!(ledger.balance(REF, BROKER), 3);
    assert_eq!(ledger.hops, 3);
}

#[test]
fn below_minimum_is_unfeasible_and_moves_nothing() {
    let mut ledger = scripted(90, 60, 3, 0);
    let before = ledger.balances.clone();
    let broker = broker_with(REF, &[Protocol::AquaConstant, Protocol::Phoenix]);
    let result = run_swap(&mut ledger, &broker, USDC, two_hops(68), 150, 10, fee_path());
    assert_eq!(result, Err(Some(BrokerError::Unfeasible)));
    assert_eq!(ledger.balances, before);
}

#[test]
fn greedy_backend_is_misconduct() {
    let mut ledger = scripted(90, 80, 3, 5);
    // Fees retained earlier in the selling token.
    ledger.mint(USDC, BROKER, 50);
    let broker = broker_with(REF, &[Protocol::AquaConstant, Protocol::Phoenix]);
    let result = run_swap(&mut ledger, &broker, USDC, two_hops(70), 150, 10, fee_path());
    assert_eq!(result, Err(Some(BrokerError::Misconduct)));
    assert_eq!(ledger.balance(USDC, TRADER), 1000);
}

#[test]
fn disabled_protocol_in_any_route_rejects_before_any_action() {
    let broker = broker_with(REF, &[Protocol::AquaConstant]);
    let mut routes = two_hops(70);
    routes.insert(
        0,
        route(10, 1, 1, vec![PathStep { protocol: Protocol::AquaConstant, asset: EURC, pool: POOL_B, si: 0, bi: 1 }]),
    );
    let (_, action) = broker.swap(BROKER, USDC, routes, TRADER, 150, 10, fee_path()).unwrap();
    assert_eq!(action, Action::Fail(BrokerError::ProtocolDisabled));
}

#[test]
fn fee_in_buying_token_is_not_converted() {
    let mut ledger = scripted(90, 80, 3, 0);
    let broker = broker_with(EURC, &[Protocol::AquaConstant, Protocol::Phoenix]);
    let result = run_swap(&mut ledger, &broker, USDC, two_hops(70), 150, 10, vec![]);
    assert_eq!(result, Ok((100, 79, 1)));
    assert_eq!(ledger.hops, 2);
    assert_eq!(ledger.balance(EURC, BROKER), 1);
}

#[test]
fn routes_with_different_buying_tokens_are_unfeasible() {
    let broker = broker_with(REF, &[Protocol::AquaConstant, Protocol::Phoenix]);
    let mut routes = two_hops(70);
    routes.push(route(10, 1, 1, vec![PathStep { protocol: Protocol::AquaConstant, asset: XLM, pool: POOL_A, si: 0, bi: 1 }]));
    let (_, action) = broker.swap(BROKER, USDC, routes, TRADER, 150, 10, fee_path()).unwrap();
    assert_eq!(action, Action::Fail(BrokerError::Unfeasible));
}

#[test]
fn empty_routes_and_empty_path_are_unfeasible() {
    let broker = broker_with(REF, &[Protocol::AquaConstant]);
    let (_, action) = broker.swap(BROKER, USDC, vec![], TRADER, 0, 0, vec![]).unwrap();
    assert_eq!(action, Action::Fail(BrokerError::Unfeasible));
    let (_, action) = broker.swap(BROKER, USDC, vec![route(1, 1, 1, vec![])], TRADER, 0, 0, vec![]).unwrap();
    assert_eq!(action, Action::Fail(BrokerError::Unfeasible));
}

#[test]
fn two_routes_are_summed() {
    let mut ledger = scripted(90, 80, 3, 0);
    ledger.add_pool(Address { id: 23 }, PoolKind::Fixed { out: 40, extra: 0 }, [USDC, EURC], [0, 1000]);
    let broker = broker_with(EURC, &[Protocol::AquaConstant, Protocol::Phoenix]);
    let mut routes = two_hops(70);
    routes.push(route(
        50,
        30,
        30,
        vec![PathStep { protocol: Protocol::AquaConstant, asset: EURC, pool: Address { id: 23 }, si: 0, bi: 1 }],
    ));
    // bought 120 against 100 estimated: floor(20 * 150 / 1000) + floor(120 * 10 / 1000) = 3 + 1
    let result = run_swap(&mut ledger, &broker, USDC, routes, 150, 10, vec![]);
    assert_eq!(result, Ok((150, 116, 4)));
    assert_eq!(ledger.balance(USDC, TRADER), 850);
}

#[test]
fn swap_before_init_is_not_initialized() {
    let broker = StellarBroker::new();
    let result = broker.swap(BROKER, USDC, two_hops(70), TRADER, 0, 0, vec![]);
    assert!(matches!(result, Err(BrokerError::NotInitialized)));
}

#[test]
fn overflowing_totals_abort() {
    let broker = broker_with(EURC, &[Protocol::AquaConstant, Protocol::Phoenix]);
    let mut routes = two_hops(70);
    routes.push(route(i128::MAX, 1, 1, two_hops(1).remove(0).path));
    let (_, action) = broker.swap(BROKER, USDC, routes, TRADER, 0, 0, vec![]).unwrap();
    assert_eq!(action, Action::Overflow);
}

#[test]
fn attempt_intermediate_asset_fee_drain() {
    let thief = Address { id: 30 };
    let mut ledger = Ledger::new();
    let accumulated_fees = amount(1000000);
    ledger.mint(USDC, BROKER, accumulated_fees);
    ledger.add_pool(thief, PoolKind::Thief { last: EURC, steal: accumulated_fees }, [USDC, EURC], [0, 1]);
    ledger.mint(XLM, TRADER, 1);
    let broker = broker_with(USDC, &[Protocol::Comet]);
    let routes = vec![route(
        1,
        0,
        0,
        vec![
            PathStep { protocol: Protocol::Comet, asset: USDC, pool: thief, si: 0, bi: 0 },
            PathStep { protocol: Protocol::Comet, asset: EURC, pool: thief, si: 0, bi: 0 },
        ],
    )];
    let result = run_swap(&mut ledger, &broker, XLM, routes, 0, 0, vec![]);
    assert_eq!(result, Err(Some(BrokerError::Misconduct)));
    assert_eq!(ledger.balance(USDC, BROKER), accumulated_fees);
}
