use vstd::prelude::*;
use vstd::hash_map::StringHashMap;

use crate::core_contract::pair_set::PairSet;
use crate::error::{RecordKind, StdError};

verus! {

/// The core's settings.
pub struct Config {
    pub gov: String,
    pub denom: String,
    pub treasury: String,
    pub liquidator: String,
}

/// A registered market: its name and its collateral asset.
#[derive(Debug)]
pub struct Market {
    pub name: String,
    pub collateral: String,
}

impl Clone for Market {
    fn clone(&self) -> (r: Self)
        ensures
            r == *self,
    {
        Market { name: self.name.clone(), collateral: self.collateral.clone() }
    }
}

/// The registry of markets: markets by address, the market address by name
/// and the (collateral, address) pairs.
pub struct Registry {
    pub markets: StringHashMap<Market>,
    pub by_name: StringHashMap<String>,
    pub by_collateral: PairSet,
}

impl Registry {
    pub open spec fn wf(self) -> bool {
        self.by_collateral.wf()
    }

    /// Markets by address.
    pub open spec fn markets(self) -> Map<Seq<char>, Market> {
        self.markets@
    }

    /// Market addresses by name.
    pub open spec fn names(self) -> Map<Seq<char>, String> {
        self.by_name@
    }

    /// The (collateral, address) index.
    pub open spec fn collaterals(self) -> Set<(Seq<char>, Seq<char>)> {
        self.by_collateral@
    }

    /// An empty registry.
    pub fn new() -> (r: Registry)
        ensures
            r.wf(),
            r.markets() == Map::<Seq<char>, Market>::empty(),
            r.names() == Map::<Seq<char>, String>::empty(),
            r.collaterals() == Set::<(Seq<char>, Seq<char>)>::empty(),
    {
        Registry { markets: StringHashMap::new(), by_name: StringHashMap::new(), by_collateral: PairSet::new() }
    }
}

impl Market {
    /// Registers the market under `address`, indexing it by its name and its
    /// collateral; gives the market back.
    pub fn save(self, registry: &mut Registry, address: &String) -> (r: Result<Market, StdError>)
        requires
            old(registry).wf(),
        ensures
            final(registry).wf(),
            final(registry).markets() == old(registry).markets().insert(address@, self),
            final(registry).names() == old(registry).names().insert(self.name@, *address),
            final(registry).collaterals() == old(registry).collaterals().insert((self.collateral@, address@)),
            r == Ok::<Market, StdError>(self),
    {
        registry.markets.insert(address.clone(), self.clone());
        registry.by_name.insert(self.name.clone(), address.clone());
        registry.by_collateral.insert(self.collateral.clone(), address.clone());
        Ok(self)
    }

    /// The market registered under `address`, or a not-found error.
    pub fn load(registry: &Registry, address: &String) -> (r: Result<Market, StdError>)
        ensures
            registry.markets().contains_key(address@) ==> r == Ok::<Market, StdError>(registry.markets()[address@]),
            !registry.markets().contains_key(address@) ==> r == Err::<Market, StdError>(
                StdError::NotFound { kind: RecordKind::Market },
            ),
    {
        match registry.markets.get(address.as_str()) {
            Some(m) => Ok(m.clone()),
            None => Err(StdError::NotFound { kind: RecordKind::Market }),
        }
    }

    /// Unregisters the market under `address` and drops its name and
    /// collateral entries; gives the market back.
    pub fn remove(self, registry: &mut Registry, address: &String) -> (r: Result<Market, StdError>)
        requires
            old(registry).wf(),
        ensures
            final(registry).wf(),
            final(registry).markets() == old(registry).markets().remove(address@),
            final(registry).names() == old(registry).names().remove(self.name@),
            final(registry).collaterals() == old(registry).collaterals().remove((self.collateral@, address@)),
            r == Ok::<Market, StdError>(self),
    {
        registry.markets.remove(address.as_str());
        registry.by_name.remove(self.name.as_str());
        registry.by_collateral.remove(&self.collateral, address);
        Ok(self)
    }
}

} // verus!
