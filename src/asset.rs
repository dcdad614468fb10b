//! Asset descriptors and locations as they arrive from a remote chain.
use vstd::prelude::*;

verus! {

/// One step of a location path.
#[derive(Clone, Debug)]
pub enum Junction {
    /// The parent consensus system, i.e. the counterparty chain itself.
    Parent,
    Parachain(u32),
    AccountIndex64(u64),
    PalletInstance(u8),
    GeneralIndex(u128),
    /// A byte-string key, used to tag assets.
    GeneralKey(Vec<u8>),
    OnlyChild,
}

/// Mathematical form of a [`Junction`].
pub enum JunctionView {
    Parent,
    Parachain(u32),
    AccountIndex64(u64),
    PalletInstance(u8),
    GeneralIndex(u128),
    GeneralKey(Seq<u8>),
    OnlyChild,
}

impl View for Junction {
    type V = JunctionView;

    open spec fn view(&self) -> JunctionView {
        match self {
            Junction::Parent => JunctionView::Parent,
            Junction::Parachain(n) => JunctionView::Parachain(*n),
            Junction::AccountIndex64(n) => JunctionView::AccountIndex64(*n),
            Junction::PalletInstance(n) => JunctionView::PalletInstance(*n),
            Junction::GeneralIndex(n) => JunctionView::GeneralIndex(*n),
            Junction::GeneralKey(k) => JunctionView::GeneralKey(k@),
            Junction::OnlyChild => JunctionView::OnlyChild,
        }
    }
}

impl Junction {
    /// A copy of this junction.
    pub fn duplicate(&self) -> (r: Junction)
        ensures
            r@ == self@,
    {
        match self {
            Junction::Parent => Junction::Parent,
            Junction::Parachain(n) => Junction::Parachain(*n),
            Junction::AccountIndex64(n) => Junction::AccountIndex64(*n),
            Junction::PalletInstance(n) => Junction::PalletInstance(*n),
            Junction::GeneralIndex(n) => Junction::GeneralIndex(*n),
            Junction::GeneralKey(k) => Junction::GeneralKey(k.clone()),
            Junction::OnlyChild => Junction::OnlyChild,
        }
    }
}

/// A path of junctions, read from the first outward.
#[derive(Clone, Debug)]
pub struct MultiLocation {
    pub junctions: Vec<Junction>,
}

impl View for MultiLocation {
    type V = Seq<JunctionView>;

    open spec fn view(&self) -> Seq<JunctionView> {
        self.junctions@.map_values(|j: Junction| j@)
    }
}

/// The location of the counterparty chain's own native asset: the parent alone.
pub open spec fn is_parent_location(loc: Seq<JunctionView>) -> bool {
    loc == seq![JunctionView::Parent]
}

/// The byte key in the last junction of `loc`, if that junction is a key.
pub open spec fn last_general_key(loc: Seq<JunctionView>) -> Option<Seq<u8>> {
    if loc.len() > 0 {
        match loc.last() {
            JunctionView::GeneralKey(k) => Some(k),
            _ => None,
        }
    } else {
        None
    }
}

impl MultiLocation {
    /// The location that holds no junction.
    pub fn here() -> (r: MultiLocation)
        ensures
            r@ == Seq::<JunctionView>::empty(),
    {
        MultiLocation { junctions: Vec::new() }
    }

    /// The location of the parent chain.
    pub fn parent() -> (r: MultiLocation)
        ensures
            is_parent_location(r@),
    {
        let r = MultiLocation { junctions: vec![Junction::Parent] };
        assert(r@ =~= seq![JunctionView::Parent]);
        r
    }

    /// This location with `j` appended at its end.
    pub fn pushed_with(self, j: Junction) -> (r: MultiLocation)
        ensures
            r@ == self@.push(j@),
    {
        let mut junctions = self.junctions;
        let ghost before = junctions@;
        junctions.push(j);
        let r = MultiLocation { junctions };
        assert(r@ =~= before.map_values(|j: Junction| j@).push(j@));
        r
    }

    /// Whether this location is the parent alone.
    pub fn is_parent(&self) -> (r: bool)
        ensures
            r == is_parent_location(self@),
    {
        if self.junctions.len() == 1 {
            let r = match &self.junctions[0] {
                Junction::Parent => true,
                _ => false,
            };
            assert(r ==> self@ =~= seq![JunctionView::Parent]);
            assert(!r ==> self@[0] != JunctionView::Parent);
            r
        } else {
            assert(self@.len() != 1);
            false
        }
    }

    /// The key in the last junction, where that junction is a key.
    pub fn last_key(&self) -> (r: Option<&Vec<u8>>)
        ensures
            match r {
                Some(k) => last_general_key(self@) == Some(k@),
                None => last_general_key(self@) is None,
            },
    {
        let n = self.junctions.len();
        if n == 0 {
            return None;
        }
        match &self.junctions[n - 1] {
            Junction::GeneralKey(k) => Some(k),
            _ => None,
        }
    }

    /// A copy of this location.
    pub fn duplicate(&self) -> (r: MultiLocation)
        ensures
            r@ == self@,
    {
        let mut out: Vec<Junction> = Vec::new();
        let mut i: usize = 0;
        while i < self.junctions.len()
            invariant
                i <= self.junctions@.len(),
                out@.len() == i,
                forall|k: int| 0 <= k < i ==> (#[trigger] out@[k])@ == self.junctions@[k]@,
            decreases self.junctions@.len() - i,
        {
            out.push(self.junctions[i].duplicate());
            i = i + 1;
        }
        let r = MultiLocation { junctions: out };
        assert(r@ =~= self@);
        r
    }
}

/// An asset and, for a fungible one, an amount.
#[derive(Clone, Debug)]
#[allow(inconsistent_fields)]
pub enum MultiAsset {
    /// No asset.
    Empty,
    All,
    AllFungible,
    AllNonFungible,
    ConcreteFungible { id: MultiLocation, amount: u128 },
    ConcreteNonFungible { class: MultiLocation, instance: u128 },
    AbstractFungible { id: Vec<u8>, amount: u128 },
    AbstractNonFungible { class: Vec<u8>, instance: u128 },
}

/// Mathematical form of a [`MultiAsset`].
#[allow(inconsistent_fields)]
pub enum MultiAssetView {
    Empty,
    All,
    AllFungible,
    AllNonFungible,
    ConcreteFungible { id: Seq<JunctionView>, amount: u128 },
    ConcreteNonFungible { class: Seq<JunctionView>, instance: u128 },
    AbstractFungible { id: Seq<u8>, amount: u128 },
    AbstractNonFungible { class: Seq<u8>, instance: u128 },
}

impl View for MultiAsset {
    type V = MultiAssetView;

    open spec fn view(&self) -> MultiAssetView {
        match self {
            MultiAsset::Empty => MultiAssetView::Empty,
            MultiAsset::All => MultiAssetView::All,
            MultiAsset::AllFungible => MultiAssetView::AllFungible,
            MultiAsset::AllNonFungible => MultiAssetView::AllNonFungible,
            MultiAsset::ConcreteFungible { id, amount } => MultiAssetView::ConcreteFungible {
                id: id@,
                amount: *amount,
            },
            MultiAsset::ConcreteNonFungible { class, instance } =>
                MultiAssetView::ConcreteNonFungible { class: class@, instance: *instance },
            MultiAsset::AbstractFungible { id, amount } => MultiAssetView::AbstractFungible {
                id: id@,
                amount: *amount,
            },
            MultiAsset::AbstractNonFungible { class, instance } =>
                MultiAssetView::AbstractNonFungible { class: class@, instance: *instance },
        }
    }
}

/// The location of a concrete fungible asset, the one shape that names a
/// currency.
pub open spec fn fungible_location(a: MultiAssetView) -> Option<Seq<JunctionView>> {
    match a {
        MultiAssetView::ConcreteFungible { id, .. } => Some(id),
        _ => None,
    }
}

impl MultiAsset {
    /// The location of this asset, where it is a concrete fungible asset.
    pub fn fungible_location(&self) -> (r: Option<&MultiLocation>)
        ensures
            match r {
                Some(l) => fungible_location(self@) == Some(l@),
                None => fungible_location(self@) is None,
            },
    {
        match self {
            MultiAsset::ConcreteFungible { id, .. } => Some(id),
            _ => None,
        }
    }

    /// Whether this asset is a concrete fungible asset.
    pub fn is_concrete_fungible(&self) -> (r: bool)
        ensures
            r == self@ is ConcreteFungible,
    {
        match self {
            MultiAsset::ConcreteFungible { .. } => true,
            _ => false,
        }
    }

    /// A copy of this asset.
    pub fn duplicate(&self) -> (r: MultiAsset)
        ensures
            r@ == self@,
    {
        match self {
            MultiAsset::Empty => MultiAsset::Empty,
            MultiAsset::All => MultiAsset::All,
            MultiAsset::AllFungible => MultiAsset::AllFungible,
            MultiAsset::AllNonFungible => MultiAsset::AllNonFungible,
            MultiAsset::ConcreteFungible { id, amount } => MultiAsset::ConcreteFungible {
                id: id.duplicate(),
                amount: *amount,
            },
            MultiAsset::ConcreteNonFungible { class, instance } =>
                MultiAsset::ConcreteNonFungible { class: class.duplicate(), instance: *instance },
            MultiAsset::AbstractFungible { id, amount } => MultiAsset::AbstractFungible {
                id: id.clone(),
                amount: *amount,
            },
            MultiAsset::AbstractNonFungible { class, instance } =>
                MultiAsset::AbstractNonFungible { class: class.clone(), instance: *instance },
        }
    }
}

} // verus!
