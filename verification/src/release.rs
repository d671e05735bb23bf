//! What the release service tells about a release.

use vstd::prelude::*;

verus! {

/// A downloadable file attached to a release.
#[derive(Clone, Debug, PartialEq, Eq)]
pub struct Asset {
    pub name: String,
    pub download_url: String,
}

/// A release: its version and the assets attached to it.
#[derive(Clone, Debug, PartialEq, Eq)]
pub struct Release {
    pub version: String,
    pub assets: Vec<Asset>,
}

pub struct AssetView {
    pub name: Seq<char>,
    pub download_url: Seq<char>,
}

pub struct ReleaseView {
    pub version: Seq<char>,
    pub assets: Seq<AssetView>,
}

impl View for Asset {
    type V = AssetView;

    open spec fn view(&self) -> AssetView {
        AssetView { name: self.name@, download_url: self.download_url@ }
    }
}

impl View for Release {
    type V = ReleaseView;

    open spec fn view(&self) -> ReleaseView {
        ReleaseView { version: self.version@, assets: asset_views(self.assets@) }
    }
}

pub open spec fn asset_views(assets: Seq<Asset>) -> Seq<AssetView> {
    assets.map_values(|asset: Asset| asset@)
}

/// The names of the assets, in the order of the list.
pub open spec fn asset_names(assets: Seq<AssetView>) -> Seq<Seq<char>> {
    assets.map_values(|asset: AssetView| asset.name)
}

/// The place of the first asset with the given name, if there is one.
pub open spec fn spec_find_asset(assets: Seq<AssetView>, name: Seq<char>) -> Option<int> {
    asset_names(assets).index_of_first(name)
}

/// `spec_find_asset` finds an asset of that name before which none has it,
/// and finds none only where no asset has it.
pub proof fn lemma_find_asset(assets: Seq<AssetView>, name: Seq<char>)
    ensures
        match spec_find_asset(assets, name) {
            Some(index) => {
                &&& 0 <= index < assets.len()
                &&& assets[index].name == name
                &&& forall|earlier: int| 0 <= earlier < index ==> assets[earlier].name != name
            },
            None => forall|any: int| 0 <= any < assets.len() ==> assets[any].name != name,
        },
{
    let names = asset_names(assets);
    names.index_of_first_ensures(name);
    match names.index_of_first(name) {
        Some(index) => {
            assert forall|earlier: int| 0 <= earlier < index implies assets[earlier].name
                != name by {
                assert(names[earlier] != name);
            }
        },
        None => {
            assert forall|any: int| 0 <= any < assets.len() implies assets[any].name != name by {
                assert(names[any] == assets[any].name);
            }
        },
    }
}

/// Looks for the asset with exactly the given name; of several, the first.
pub fn find_asset(assets: &Vec<Asset>, name: &String) -> (found: Option<usize>)
    ensures
        match found {
            Some(index) => index < assets.len() && spec_find_asset(asset_views(assets@), name@)
                == Some(index as int),
            None => spec_find_asset(asset_views(assets@), name@) is None,
        },
{
    let ghost views = asset_views(assets@);
    let mut index: usize = 0;
    while index < assets.len()
        invariant
            index <= assets.len(),
            views == asset_views(assets@),
            forall|earlier: int| 0 <= earlier < index ==> views[earlier].name != name@,
        decreases assets.len() - index,
    {
        if assets[index].name == *name {
            proof {
                lemma_find_asset(views, name@);
                assert(views[index as int].name == name@);
            }
            return Some(index);
        }
        index = index + 1;
    }
    proof {
        lemma_find_asset(views, name@);
    }
    None
}

} // verus!
