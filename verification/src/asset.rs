//! Asset descriptors: what is moved and how much of it.

use crate::location::{Location, LocationV};
use vstd::prelude::*;

verus! {

/// The canonical home of an asset.
#[derive(Clone, Debug, PartialEq, Eq)]
pub enum AssetId {
    /// An asset identified by the location of its home chain or contract.
    Concrete(Location),
}

/// Mathematical model of an `AssetId`.
pub enum AssetIdV {
    Concrete(LocationV),
}

impl View for AssetId {
    type V = AssetIdV;

    open spec fn view(&self) -> AssetIdV {
        match self {
            AssetId::Concrete(l) => AssetIdV::Concrete(l@),
        }
    }
}

/// How much of an asset is meant: always an exact fungible amount here.
#[derive(Clone, Copy, Debug, PartialEq, Eq)]
pub enum Fungibility {
    Fungible(u128),
}

/// An asset descriptor: its home location and an exact amount.
#[derive(Clone, Debug, PartialEq, Eq)]
pub struct Asset {
    pub id: AssetId,
    pub fun: Fungibility,
}

/// Mathematical model of an `Asset`.
pub struct AssetV {
    pub id: AssetIdV,
    pub fun: Fungibility,
}

impl View for Asset {
    type V = AssetV;

    open spec fn view(&self) -> AssetV {
        AssetV { id: self.id@, fun: self.fun }
    }
}

/// Selects assets out of a holding without naming each one.
#[derive(Clone, Copy, Debug, PartialEq, Eq)]
pub enum WildAsset {
    /// Every asset in the holding, up to the given count of distinct assets.
    AllCounted(u32),
}

/// Either a definite list of assets or a wildcard over the holding.
#[derive(Clone, Debug, PartialEq, Eq)]
pub enum AssetFilter {
    Definite(Vec<Asset>),
    Wild(WildAsset),
}

/// Mathematical model of an `AssetFilter`.
pub enum AssetFilterV {
    Definite(Seq<AssetV>),
    Wild(WildAsset),
}

/// The model of a list of assets: each element viewed in order.
pub open spec fn deep_assets(s: Seq<Asset>) -> Seq<AssetV> {
    s.map_values(|a: Asset| a@)
}

impl View for AssetFilter {
    type V = AssetFilterV;

    open spec fn view(&self) -> AssetFilterV {
        match self {
            AssetFilter::Definite(assets) => AssetFilterV::Definite(deep_assets(assets@)),
            AssetFilter::Wild(w) => AssetFilterV::Wild(*w),
        }
    }
}

impl Asset {
    /// An exact amount of the asset whose home is `location`.
    pub fn fungible(location: Location, amount: u128) -> (r: Asset)
        ensures
            r@ == (AssetV { id: AssetIdV::Concrete(location@), fun: Fungibility::Fungible(amount) }),
    {
        Asset { id: AssetId::Concrete(location), fun: Fungibility::Fungible(amount) }
    }
}

} // verus!
