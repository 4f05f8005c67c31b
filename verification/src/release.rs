//! Releases as the registry reports them, and the choice of one asset.
use vstd::prelude::*;
use vstd::string::*;
use crate::error::{asset_not_found, ResolveError, ResolveErrorView};

verus! {

/// One downloadable file of a release.
#[derive(Debug, PartialEq, Eq)]
pub struct ReleaseAsset {
    /// The asset's file name.
    pub name: String,
    /// Where the asset can be downloaded.
    pub download_url: String,
}

/// The mathematical content of a [`ReleaseAsset`].
pub struct ReleaseAssetView {
    pub name: Seq<char>,
    pub download_url: Seq<char>,
}

impl View for ReleaseAsset {
    type V = ReleaseAssetView;

    open spec fn view(&self) -> ReleaseAssetView {
        ReleaseAssetView { name: self.name@, download_url: self.download_url@ }
    }
}

/// A published release: its tag and its assets, in the registry's order.
#[derive(Debug, PartialEq, Eq)]
pub struct Release {
    pub version: String,
    pub assets: Vec<ReleaseAsset>,
}

/// The mathematical content of a [`Release`].
pub struct ReleaseView {
    pub version: Seq<char>,
    pub assets: Seq<ReleaseAssetView>,
}

impl View for Release {
    type V = ReleaseView;

    open spec fn view(&self) -> ReleaseView {
        ReleaseView {
            version: self.version@,
            assets: Seq::new(self.assets@.len(), |i: int| self.assets@[i]@),
        }
    }
}

/// The release to install: its tag and the URL of the asset for this platform.
#[derive(Debug, PartialEq, Eq)]
pub struct AdapterVersion {
    /// Release tag name (version).
    pub tag_name: String,
    /// Download URL of the release asset.
    pub download_url: String,
}

/// The mathematical content of an [`AdapterVersion`].
pub struct AdapterVersionView {
    pub tag_name: Seq<char>,
    pub download_url: Seq<char>,
}

impl View for AdapterVersion {
    type V = AdapterVersionView;

    open spec fn view(&self) -> AdapterVersionView {
        AdapterVersionView { tag_name: self.tag_name@, download_url: self.download_url@ }
    }
}

impl Clone for AdapterVersion {
    fn clone(&self) -> (r: AdapterVersion)
        ensures
            r == *self,
    {
        AdapterVersion {
            tag_name: self.tag_name.clone(),
            download_url: self.download_url.clone(),
        }
    }
}

/// The names of the assets, in order.
pub open spec fn asset_names(assets: Seq<ReleaseAssetView>) -> Seq<Seq<char>> {
    Seq::new(assets.len(), |i: int| assets[i].name)
}

/// The position of the first asset with exactly the given name, if there is one.
pub open spec fn first_named(assets: Seq<ReleaseAssetView>, name: Seq<char>) -> Option<int>
    decreases assets.len(),
{
    if assets.len() == 0 {
        None
    } else if assets[0].name == name {
        Some(0)
    } else {
        match first_named(assets.drop_first(), name) {
            Some(i) => Some(i + 1),
            None => None,
        }
    }
}

/// What the choice of an asset yields: the release's tag with the URL of the
/// first asset of that name, or the failure that lists what was on offer.
pub open spec fn selected(release: ReleaseView, name: Seq<char>) -> Result<
    AdapterVersionView,
    ResolveErrorView,
> {
    match first_named(release.assets, name) {
        Some(i) => Ok(
            AdapterVersionView {
                tag_name: release.version,
                download_url: release.assets[i].download_url,
            },
        ),
        None => Err(asset_not_found(name, asset_names(release.assets))),
    }
}

/// `first_named` finds an asset exactly when one has the name, and then the
/// earliest such.
pub proof fn first_named_is_first(assets: Seq<ReleaseAssetView>, name: Seq<char>)
    ensures
        match first_named(assets, name) {
            Some(i) => {
                &&& 0 <= i < assets.len()
                &&& assets[i].name == name
                &&& forall|j: int| 0 <= j < i ==> assets[j].name != name
            },
            None => forall|j: int| 0 <= j < assets.len() ==> assets[j].name != name,
        },
    decreases assets.len(),
{
    if assets.len() > 0 && assets[0].name != name {
        let rest = assets.drop_first();
        first_named_is_first(rest, name);
        match first_named(rest, name) {
            Some(i) => {
                assert forall|j: int| 0 <= j < i + 1 implies assets[j].name != name by {
                    if j > 0 {
                        assert(rest[j - 1].name != name);
                    }
                }
            },
            None => {
                assert forall|j: int| 0 <= j < assets.len() implies assets[j].name != name by {
                    if j > 0 {
                        assert(rest[j - 1].name != name);
                    }
                }
            },
        }
    }
}

/// An index with the name, and none before it, is the one `first_named` gives.
pub proof fn first_named_unique(assets: Seq<ReleaseAssetView>, name: Seq<char>, i: int)
    requires
        0 <= i < assets.len(),
        assets[i].name == name,
        forall|j: int| 0 <= j < i ==> assets[j].name != name,
    ensures
        first_named(assets, name) == Some(i),
{
    first_named_is_first(assets, name);
}

/// No asset has the name: `first_named` finds none.
pub proof fn first_named_none(assets: Seq<ReleaseAssetView>, name: Seq<char>)
    requires
        forall|j: int| 0 <= j < assets.len() ==> assets[j].name != name,
    ensures
        first_named(assets, name) is None,
{
    first_named_is_first(assets, name);
}

impl Release {
    /// The names of the release's assets, in order.
    pub fn asset_names(&self) -> (r: Vec<String>)
        ensures
            r.deep_view() == asset_names(self@.assets),
    {
        let mut names: Vec<String> = Vec::new();
        let mut i: usize = 0;
        while i < self.assets.len()
            invariant
                i <= self.assets.len(),
                names.len() == i,
                forall|j: int| 0 <= j < i ==> names[j]@ == self.assets[j].name@,
            decreases self.assets.len() - i,
        {
            names.push(self.assets[i].name.clone());
            i = i + 1;
        }
        assert(names.deep_view() =~= asset_names(self@.assets));
        names
    }

    /// Chooses the asset with exactly the given name.
    ///
    /// Succeeds when the release has such an asset, with the release's tag and
    /// the URL of the first one; fails otherwise, and the failure lists the
    /// names of all assets of the release.
    pub fn select_asset(&self, name: &str) -> (r: Result<AdapterVersion, ResolveError>)
        ensures
            match r {
                Ok(version) => selected(self@, name@) == Ok::<AdapterVersionView, ResolveErrorView>(version@),
                Err(e) => selected(self@, name@) == Err::<AdapterVersionView, ResolveErrorView>(e@),
            },
    {
        let wanted = String::from_str(name);
        let mut i: usize = 0;
        while i < self.assets.len()
            invariant
                i <= self.assets.len(),
                wanted@ == name@,
                forall|j: int| 0 <= j < i ==> self@.assets[j].name != name@,
            decreases self.assets.len() - i,
        {
            if self.assets[i].name == wanted {
                proof {
                    first_named_unique(self@.assets, name@, i as int);
                }
                return Ok(
                    AdapterVersion {
                        tag_name: self.version.clone(),
                        download_url: self.assets[i].download_url.clone(),
                    },
                );
            }
            i = i + 1;
        }
        proof {
            first_named_none(self@.assets, name@);
        }
        let names = self.asset_names();
        Err(ResolveError::asset_not_found(name, &names))
    }
}

} // verus!
