//! Selecting the latest desktop release from the GitHub releases list.

use vstd::prelude::*;
use crate::artifacts::{Asset, desktop_asset_suffix, download_suffix};
use crate::text::{clone_opt_string, opt_view, str_ends_with, str_starts_with};
use crate::text_map::TextMap;

verus! {

/// Tag prefix of desktop releases.
pub const DESKTOP_TAG_PREFIX: &'static str = "desktop-v";

/// One asset entry of a release as the releases API returned it; a field is
/// `None` when it was missing or not a string.
pub struct AssetRecord {
    pub name: Option<String>,
    pub browser_download_url: Option<String>,
}

/// One release as the releases API returned it; a field is `None` when it
/// was missing or of another type, and `prerelease` is whether the release
/// is marked as a pre-release.
pub struct ReleaseRecord {
    pub tag_name: Option<String>,
    pub prerelease: bool,
    pub published_at: Option<String>,
    pub body: Option<String>,
    pub assets: Option<Vec<AssetRecord>>,
}

/// The most recent `desktop-v*` release.
pub struct LatestRelease {
    pub version: String,
    pub published_at: Option<String>,
    pub body: Option<String>,
    pub assets: Vec<Asset>,
}


/// The name/URL pair of an asset.
pub open spec fn asset_view(a: Asset) -> (Seq<char>, Seq<char>) {
    (a.name@, a.url@)
}

pub open spec fn assets_view(s: Seq<Asset>) -> Seq<(Seq<char>, Seq<char>)> {
    s.map_values(|a: Asset| asset_view(a))
}

/// The assets that have both a name and a download URL, in order.
pub open spec fn complete_assets(records: Seq<AssetRecord>) -> Seq<(Seq<char>, Seq<char>)>
    decreases records.len(),
{
    if records.len() == 0 {
        Seq::empty()
    } else {
        let rest = complete_assets(records.drop_last());
        match (records.last().name, records.last().browser_download_url) {
            (Some(n), Some(u)) => rest.push((n@, u@)),
            _ => rest,
        }
    }
}

/// Whether a release carries a `desktop-v*` tag and, when `stable_only`, is
/// not marked as a pre-release.
pub open spec fn is_desktop_release(r: ReleaseRecord, stable_only: bool) -> bool {
    &&& r.tag_name matches Some(t) && DESKTOP_TAG_PREFIX@.is_prefix_of(t@)
    &&& stable_only ==> !r.prerelease
}

/// `i` is the first release that `is_desktop_release` accepts.
pub open spec fn is_first_desktop(releases: Seq<ReleaseRecord>, stable_only: bool, i: int) -> bool {
    &&& 0 <= i < releases.len()
    &&& is_desktop_release(releases[i], stable_only)
    &&& forall|j: int| 0 <= j < i ==> !is_desktop_release(#[trigger] releases[j], stable_only)
}

/// Abstract content of a selected release.
pub struct ReleaseModel {
    pub version: Seq<char>,
    pub published_at: Option<Seq<char>>,
    pub body: Option<Seq<char>>,
    pub assets: Seq<(Seq<char>, Seq<char>)>,
}

pub open spec fn release_view(r: LatestRelease) -> ReleaseModel {
    ReleaseModel {
        version: r.version@,
        published_at: opt_view(r.published_at),
        body: opt_view(r.body),
        assets: assets_view(r.assets@),
    }
}

/// The latest desktop release: the first release whose tag starts with
/// `desktop-v` (skipping pre-releases when `stable_only`), its version being
/// the tag without that prefix, and its assets those entries that have both a
/// name and a URL. Nothing when there is no such release or it has no asset
/// list.
pub open spec fn latest_desktop_release(releases: Seq<ReleaseRecord>, stable_only: bool) -> Option<ReleaseModel> {
    if exists|i: int| is_first_desktop(releases, stable_only, i) {
        let r = releases[choose|i: int| is_first_desktop(releases, stable_only, i)];
        match r.assets {
            Some(list) => Some(ReleaseModel {
                version: r.tag_name->0@.skip(DESKTOP_TAG_PREFIX@.len() as int),
                published_at: opt_view(r.published_at),
                body: opt_view(r.body),
                assets: complete_assets(list@),
            }),
            None => None,
        }
    } else {
        None
    }
}

/// The selected release is one release of the list, taken whole: the first
/// release tagged `desktop-v…` (and not marked as a pre-release when
/// `stable_only`). Its version is its tag without `desktop-v`, and its date,
/// notes and assets are its own; without an asset list nothing is selected.
pub proof fn law_selection_takes_one_release_whole(releases: Seq<ReleaseRecord>, stable_only: bool, i: int)
    requires
        0 <= i < releases.len(),
        releases[i].tag_name is Some,
        "desktop-v"@.is_prefix_of(releases[i].tag_name->0@),
        stable_only ==> !releases[i].prerelease,
        forall|j: int|
            0 <= j < i ==> !((#[trigger] releases[j]).tag_name is Some && "desktop-v"@.is_prefix_of(
                releases[j].tag_name->0@,
            ) && (stable_only ==> !releases[j].prerelease)),
    ensures
        latest_desktop_release(releases, stable_only) == match releases[i].assets {
            Some(list) => Some(
                ReleaseModel {
                    version: releases[i].tag_name->0@.skip("desktop-v"@.len() as int),
                    published_at: opt_view(releases[i].published_at),
                    body: opt_view(releases[i].body),
                    assets: complete_assets(list@),
                },
            ),
            None => None,
        },
{
    assert forall|j: int| 0 <= j < i implies !is_desktop_release(#[trigger] releases[j], stable_only) by {
        assert(!(releases[j].tag_name is Some && "desktop-v"@.is_prefix_of(releases[j].tag_name->0@) && (
        stable_only ==> !releases[j].prerelease)));
    }
    assert(is_first_desktop(releases, stable_only, i));
    let i2 = choose|m: int| is_first_desktop(releases, stable_only, m);
    assert(is_first_desktop(releases, stable_only, i2));
    if i2 < i {
        assert(!is_desktop_release(releases[i2], stable_only));
    }
    if i2 > i {
        assert(!is_desktop_release(releases[i], stable_only));
    }
    assert(i2 == i);
}

/// Without any release tagged `desktop-v…` (not marked as a pre-release when
/// `stable_only`), nothing is selected.
pub proof fn law_no_desktop_release_selects_nothing(releases: Seq<ReleaseRecord>, stable_only: bool)
    requires
        forall|j: int|
            0 <= j < releases.len() ==> !((#[trigger] releases[j]).tag_name is Some && "desktop-v"@.is_prefix_of(
                releases[j].tag_name->0@,
            ) && (stable_only ==> !releases[j].prerelease)),
    ensures
        latest_desktop_release(releases, stable_only) is None,
{
    if exists|i: int| is_first_desktop(releases, stable_only, i) {
        let i = choose|i: int| is_first_desktop(releases, stable_only, i);
        assert(!(releases[i].tag_name is Some && "desktop-v"@.is_prefix_of(releases[i].tag_name->0@) && (
        stable_only ==> !releases[i].prerelease)));
    }
}

pub open spec fn opt_release_view(r: Option<LatestRelease>) -> Option<ReleaseModel> {
    match r {
        Some(x) => Some(release_view(x)),
        None => None,
    }
}


/// Keeps the asset entries that have both a name and a URL.
fn collect_assets(records: &Vec<AssetRecord>) -> (r: Vec<Asset>)
    ensures
        assets_view(r@) == complete_assets(records@),
{
    let mut out: Vec<Asset> = Vec::new();
    let mut i: usize = 0;
    while i < records.len()
        invariant
            i <= records@.len(),
            assets_view(out@) == complete_assets(records@.take(i as int)),
        decreases records@.len() - i,
    {
        let ghost before = out@;
        let rec = &records[i];
        let ghost t = records@.take(i + 1);
        assert(t.drop_last() =~= records@.take(i as int));
        assert(t.last() == records@[i as int]);
        match (&rec.name, &rec.browser_download_url) {
            (Some(n), Some(u)) => {
                out.push(Asset { name: n.clone(), url: u.clone() });
                assert(assets_view(out@) =~= assets_view(before).push((n@, u@)));
            },
            _ => {},
        }
        i = i + 1;
    }
    assert(records@.take(records@.len() as int) =~= records@);
    out
}

/// The latest stable `desktop-v*` release, served by the updater endpoint:
/// pre-releases are never offered as updates.
pub fn select_latest_release(releases: &[ReleaseRecord]) -> (r: Option<LatestRelease>)
    ensures
        opt_release_view(r) == latest_desktop_release(releases@, true),
{
    select_desktop_release(releases, true)
}

/// The latest `desktop-v*` release, whose installers the download redirect
/// serves.
pub fn select_download_release(releases: &[ReleaseRecord]) -> (r: Option<LatestRelease>)
    ensures
        opt_release_view(r) == latest_desktop_release(releases@, false),
{
    select_desktop_release(releases, false)
}

/// Picks the first `desktop-v*` release out of the releases list, skipping
/// pre-releases when `stable_only`.
fn select_desktop_release(releases: &[ReleaseRecord], stable_only: bool) -> (r: Option<LatestRelease>)
    ensures
        opt_release_view(r) == latest_desktop_release(releases@, stable_only),
{
    let mut i: usize = 0;
    while i < releases.len()
        invariant
            i <= releases@.len(),
            forall|j: int| 0 <= j < i ==> !is_desktop_release(#[trigger] releases@[j], stable_only),
        ensures
            i <= releases@.len(),
            forall|j: int| 0 <= j < i ==> !is_desktop_release(#[trigger] releases@[j], stable_only),
            i < releases@.len() ==> is_desktop_release(releases@[i as int], stable_only),
        decreases releases@.len() - i,
    {
        let tagged = match &releases[i].tag_name {
            Some(t) => str_starts_with(t.as_str(), DESKTOP_TAG_PREFIX),
            None => false,
        };
        let found = tagged && !(stable_only && releases[i].prerelease);
        if found {
            break;
        }
        i = i + 1;
    }
    if i == releases.len() {
        assert(!exists|m: int| is_first_desktop(releases@, stable_only, m));
        return None;
    }
    assert(is_first_desktop(releases@, stable_only, i as int));
    proof {
        let i2 = choose|m: int| is_first_desktop(releases@, stable_only, m);
        assert(is_first_desktop(releases@, stable_only, i2));
        if i2 < i {
            assert(!is_desktop_release(releases@[i2], stable_only));
        }
        if i2 > i {
            assert(!is_desktop_release(releases@[i as int], stable_only));
        }
        assert(i2 == i);
    }
    let rel = &releases[i];
    let list = match &rel.assets {
        Some(list) => list,
        None => {
            return None;
        },
    };
    let tag = match &rel.tag_name {
        Some(t) => t.as_str(),
        None => {
            return None;
        },
    };
    let plen = DESKTOP_TAG_PREFIX.unicode_len();
    let tlen = tag.unicode_len();
    let version = tag.substring_char(plen, tlen).to_owned();
    assert(version@ =~= tag@.skip(DESKTOP_TAG_PREFIX@.len() as int));
    let assets = collect_assets(list);
    Some(LatestRelease {
        version,
        published_at: clone_opt_string(&rel.published_at),
        body: clone_opt_string(&rel.body),
        assets,
    })
}

/// The updater never offers a release marked as a pre-release: the release
/// it serves is a `desktop-v*` release that is not one, and no earlier
/// release in the list is both.
pub proof fn law_updater_skips_prereleases(releases: Seq<ReleaseRecord>)
    requires
        latest_desktop_release(releases, true) is Some,
    ensures
        exists|i: int|
            is_first_desktop(releases, true, i) && !releases[i].prerelease
                && latest_desktop_release(releases, true)->0.version
                == releases[i].tag_name->0@.skip(DESKTOP_TAG_PREFIX@.len() as int),
{
    let i = choose|i: int| is_first_desktop(releases, true, i);
    assert(is_first_desktop(releases, true, i));
}

// ---------------------------------------------------------------------------
// Desktop download table
// ---------------------------------------------------------------------------

/// The platform slugs served by `/download/desktop/{platform}`.
pub open spec fn desktop_platforms() -> Seq<Seq<char>> {
    seq!["macos"@, "macos-intel"@, "linux"@, "linux-deb"@, "windows"@]
}

/// Suffix looked up for a platform slug (empty when it has none).
pub open spec fn lookup_suffix(platform: Seq<char>) -> Seq<char> {
    match download_suffix(platform) {
        Some(s) => s,
        None => Seq::empty(),
    }
}

/// `i` is the first asset whose name ends with `suffix`.
pub open spec fn is_first_with_suffix(assets: Seq<Asset>, suffix: Seq<char>, i: int) -> bool {
    &&& 0 <= i < assets.len()
    &&& suffix.is_suffix_of(assets[i].name@)
    &&& forall|j: int| 0 <= j < i ==> !suffix.is_suffix_of(#[trigger] assets[j].name@)
}

/// Whether some asset name ends with `suffix`.
pub open spec fn has_asset_with_suffix(assets: Seq<Asset>, suffix: Seq<char>) -> bool {
    exists|i: int| is_first_with_suffix(assets, suffix, i)
}

/// URL of the first asset whose name ends with `suffix`.
pub open spec fn url_with_suffix(assets: Seq<Asset>, suffix: Seq<char>) -> Seq<char> {
    assets[choose|i: int| is_first_with_suffix(assets, suffix, i)].url@
}

/// Platform → installer URL for the platforms among the first `n` slugs
/// whose installer is among `assets`.
pub open spec fn downloads_upto(assets: Seq<Asset>, n: int) -> Map<Seq<char>, Seq<char>> {
    Map::new(
        |p: Seq<char>|
            (exists|q: int| 0 <= q < n && desktop_platforms()[q] == p) && has_asset_with_suffix(
                assets,
                lookup_suffix(p),
            ),
        |p: Seq<char>| url_with_suffix(assets, lookup_suffix(p)),
    )
}

/// Platform → installer URL for every served platform whose installer is
/// among `assets`: the first asset whose name ends with the platform's suffix.
pub open spec fn desktop_downloads(assets: Seq<Asset>) -> Map<Seq<char>, Seq<char>> {
    downloads_upto(assets, 5)
}

/// URL of the first asset whose name ends with `suffix`.
fn first_url_with_suffix(assets: &[Asset], suffix: &str) -> (r: Option<String>)
    ensures
        r is Some == has_asset_with_suffix(assets@, suffix@),
        r matches Some(u) ==> u@ == url_with_suffix(assets@, suffix@),
{
    let mut i: usize = 0;
    while i < assets.len()
        invariant
            i <= assets@.len(),
            forall|j: int| 0 <= j < i ==> !suffix@.is_suffix_of(#[trigger] assets@[j].name@),
        decreases assets@.len() - i,
    {
        if str_ends_with(assets[i].name.as_str(), suffix) {
            assert(is_first_with_suffix(assets@, suffix@, i as int));
            proof {
                let i2 = choose|m: int| is_first_with_suffix(assets@, suffix@, m);
                assert(is_first_with_suffix(assets@, suffix@, i2));
                if i2 < i {
                    assert(!suffix@.is_suffix_of(assets@[i2].name@));
                }
                if i2 > i {
                    assert(!suffix@.is_suffix_of(assets@[i as int].name@));
                }
            }
            return Some(assets[i].url.clone());
        }
        i = i + 1;
    }
    None
}

/// Builds the platform → installer URL table for a release; nothing when no
/// platform has an installer.
pub fn desktop_download_map(assets: &[Asset]) -> (r: Option<TextMap>)
    ensures
        r is None == (desktop_downloads(assets@) == Map::<Seq<char>, Seq<char>>::empty()),
        r matches Some(m) ==> m@ == desktop_downloads(assets@),
{
    let platforms: [&str; 5] = ["macos", "macos-intel", "linux", "linux-deb", "windows"];
    assert(platforms@.map_values(|x: &str| x@) =~= desktop_platforms());
    let mut map = TextMap::new();
    let mut j: usize = 0;
    while j < 5
        invariant
            j <= 5,
            platforms@.map_values(|x: &str| x@) == desktop_platforms(),
            map@ == downloads_upto(assets@, j as int),
        decreases 5 - j,
    {
        let platform = platforms[j];
        let ghost p = platform@;
        assert(p == desktop_platforms()[j as int]);
        let suffix = match desktop_asset_suffix(platform) {
            Some(s) => s,
            None => "",
        };
        proof {
            if download_suffix(p) is None {
                assert(suffix@ =~= Seq::<char>::empty());
            }
        }
        assert(suffix@ == lookup_suffix(p));
        let ghost before = map@;
        match first_url_with_suffix(assets, suffix) {
            Some(url) => {
                map.insert(platform.to_owned(), url);
                assert(map@ =~= downloads_upto(assets@, j + 1));
            },
            None => {
                assert(map@ =~= downloads_upto(assets@, j + 1)) by {
                    assert forall|q: Seq<char>|
                        #[trigger] downloads_upto(assets@, j + 1).contains_key(q)
                        implies before.contains_key(q) by {
                        let w = choose|w: int| 0 <= w < j + 1 && desktop_platforms()[w] == q;
                        if w == j {
                            assert(q == p);
                        }
                    }
                }
            },
        }
        j = j + 1;
    }
    if map.is_empty() {
        None
    } else {
        Some(map)
    }
}

} // verus!
