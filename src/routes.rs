use vstd::prelude::*;
use crate::types::{Address, BrokerError, Route};

verus! {

/// Sum of the amounts sold into the routes.
pub open spec fn total_amount(routes: Seq<Route>) -> int
    decreases routes.len(),
{
    if routes.len() == 0 {
        0
    } else {
        total_amount(routes.drop_last()) + routes.last().amount
    }
}

/// Sum of the minimum amounts bought by the routes.
pub open spec fn total_min(routes: Seq<Route>) -> int
    decreases routes.len(),
{
    if routes.len() == 0 {
        0
    } else {
        total_min(routes.drop_last()) + routes.last().min
    }
}

/// Sum of the estimated amounts bought by the routes.
pub open spec fn total_estimated(routes: Seq<Route>) -> int
    decreases routes.len(),
{
    if routes.len() == 0 {
        0
    } else {
        total_estimated(routes.drop_last()) + routes.last().estimated
    }
}

/// `x` is a value of `i128`.
pub open spec fn fits_i128(x: int) -> bool {
    i128::MIN <= x <= i128::MAX
}

/// Every running total of amounts and minimums, route by route, fits in `i128`.
pub open spec fn totals_fit(routes: Seq<Route>) -> bool {
    forall|k: int|
        0 <= k <= routes.len() ==> fits_i128(#[trigger] total_amount(routes.take(k))) && fits_i128(
            total_min(routes.take(k)),
        )
}

/// Token bought by the last hop of a route.
pub open spec fn buying_asset_of(route: Route) -> Address {
    route.path@.last().asset
}

/// There is a route, every route has a hop, and all routes end in one token.
pub open spec fn routes_agree(routes: Seq<Route>) -> bool {
    &&& routes.len() > 0
    &&& forall|i: int| 0 <= i < routes.len() ==> (#[trigger] routes[i]).path@.len() > 0
    &&& forall|i: int|
        0 <= i < routes.len() ==> buying_asset_of(#[trigger] routes[i]) == buying_asset_of(routes[0])
}

/// The total amount to sell and the total minimum to buy over all routes, or
/// `None` where a running total leaves the range of `i128`.
pub fn estimate_routes(routes: &Vec<Route>) -> (r: Option<(i128, i128)>)
    ensures
        r is Some <==> totals_fit(routes@),
        r is Some ==> (r->0).0 == total_amount(routes@) && (r->0).1 == total_min(routes@),
{
    let mut total_selling: i128 = 0;
    let mut min_buying: i128 = 0;
    let mut i: usize = 0;
    assert(routes@.take(0) =~= Seq::<Route>::empty());
    while i < routes.len()
        invariant
            i <= routes.len(),
            total_selling == total_amount(routes@.take(i as int)),
            min_buying == total_min(routes@.take(i as int)),
            forall|k: int|
                0 <= k <= i ==> fits_i128(#[trigger] total_amount(routes@.take(k))) && fits_i128(
                    total_min(routes@.take(k)),
                ),
        decreases routes.len() - i,
    {
        let route = &routes[i];
        assert(routes@.take(i + 1).drop_last() =~= routes@.take(i as int));
        assert(routes@.take(i + 1).last() == routes@[i as int]);
        assert(total_amount(routes@.take(i + 1)) == total_selling + route.amount);
        assert(total_min(routes@.take(i + 1)) == min_buying + route.min);
        let a = total_selling.checked_add(route.amount);
        let m = min_buying.checked_add(route.min);
        if a.is_none() || m.is_none() {
            return None;
        }
        total_selling = a.unwrap();
        min_buying = m.unwrap();
        i = i + 1;
    }
    assert(routes@.take(i as int) =~= routes@);
    Some((total_selling, min_buying))
}

/// The token that every route ends in, or `Unfeasible` where there is no route,
/// a route has no hop, or two routes end in different tokens.
pub fn get_buying_asset(routes: &Vec<Route>) -> (r: Result<Address, BrokerError>)
    ensures
        r is Ok <==> routes_agree(routes@),
        r is Ok ==> r->Ok_0 == buying_asset_of(routes@[0]),
        r is Err ==> r->Err_0 == BrokerError::Unfeasible,
{
    let mut asset: Option<Address> = None;
    let mut i: usize = 0;
    while i < routes.len()
        invariant
            i <= routes.len(),
            i == 0 <==> asset is None,
            forall|j: int| 0 <= j < i ==> (#[trigger] routes@[j]).path@.len() > 0,
            asset is Some ==> forall|j: int|
                0 <= j < i ==> buying_asset_of(#[trigger] routes@[j]) == asset->0,
            asset is Some ==> asset->0 == buying_asset_of(routes@[0]),
        decreases routes.len() - i,
    {
        let path = &routes[i].path;
        if path.len() == 0 {
            return Err(BrokerError::Unfeasible);
        }
        let route_asset = path[path.len() - 1].asset;
        match asset {
            None => {
                asset = Some(route_asset);
            },
            Some(a) => {
                if route_asset != a {
                    return Err(BrokerError::Unfeasible);
                }
            },
        }
        i = i + 1;
    }
    match asset {
        Some(a) => Ok(a),
        None => Err(BrokerError::Unfeasible),
    }
}

} // verus!
