//! Release artifacts: which file serves which platform, and how a signed
//! updater bundle is paired with its `.sig` file.

use vstd::prelude::*;
use crate::text::{str_eq, str_ends_with};

verus! {

/// One downloadable file of a release.
pub struct Asset {
    pub name: String,
    pub url: String,
}

impl Clone for Asset {
    fn clone(&self) -> (r: Self)
        ensures
            r.name@ == self.name@,
            r.url@ == self.url@,
    {
        Asset { name: self.name.clone(), url: self.url.clone() }
    }
}

// ---------------------------------------------------------------------------
// Platform tables
// ---------------------------------------------------------------------------

/// Filename suffixes of the updater-signed artifact for a Tauri
/// `{target}/{arch}` pair.
pub open spec fn updater_suffixes(target: Seq<char>, arch: Seq<char>) -> Option<Seq<Seq<char>>> {
    if target == "darwin"@ && arch == "aarch64"@ {
        Some(seq!["_aarch64.app.tar.gz"@, "-aarch64.app.tar.gz"@])
    } else if target == "darwin"@ && arch == "x86_64"@ {
        Some(seq!["_x64.app.tar.gz"@, "-x64.app.tar.gz"@])
    } else if target == "linux"@ && arch == "x86_64"@ {
        Some(seq!["_amd64.AppImage"@, "-amd64.AppImage"@, "_x86_64.AppImage"@])
    } else if target == "windows"@ && arch == "x86_64"@ {
        Some(seq!["_x64-setup.exe"@, "-x64-setup.exe"@])
    } else {
        None
    }
}

/// The views of a list of string slices.
pub open spec fn str_views(s: Seq<&str>) -> Seq<Seq<char>> {
    s.map_values(|x: &str| x@)
}

/// For a given Tauri `{target}/{arch}` pair, the filename suffixes of the
/// updater-signed artifact the release workflow uploads: the macOS app bundle
/// tarball, the Linux AppImage, or the Windows NSIS installer.
pub fn artifact_suffixes(target: &str, arch: &str) -> (r: Option<&'static [&'static str]>)
    ensures
        r is Some <==> updater_suffixes(target@, arch@) is Some,
        r matches Some(s) ==> str_views(s@) == updater_suffixes(target@, arch@)->0,
{
    let r: Option<&'static [&'static str]> = if str_eq(target, "darwin") && str_eq(arch, "aarch64") {
        Some(&["_aarch64.app.tar.gz", "-aarch64.app.tar.gz"])
    } else if str_eq(target, "darwin") && str_eq(arch, "x86_64") {
        Some(&["_x64.app.tar.gz", "-x64.app.tar.gz"])
    } else if str_eq(target, "linux") && str_eq(arch, "x86_64") {
        Some(&["_amd64.AppImage", "-amd64.AppImage", "_x86_64.AppImage"])
    } else if str_eq(target, "windows") && str_eq(arch, "x86_64") {
        Some(&["_x64-setup.exe", "-x64-setup.exe"])
    } else {
        None
    };
    proof {
        if let Some(s) = r {
            assert(str_views(s@) =~= updater_suffixes(target@, arch@)->0);
        }
    }
    r
}

/// Filename suffix of the installer served by `/download/desktop/{platform}`.
pub open spec fn download_suffix(platform: Seq<char>) -> Option<Seq<char>> {
    if platform == "macos"@ {
        Some("_aarch64.dmg"@)
    } else if platform == "macos-intel"@ {
        Some("_x64.dmg"@)
    } else if platform == "linux"@ || platform == "linux-deb"@ {
        Some("_amd64.deb"@)
    } else if platform == "windows"@ {
        Some("_x64-setup.exe"@)
    } else {
        None
    }
}

/// Map a `/download/desktop/{platform}` slug to the asset filename suffix
/// produced by the release workflow.
pub fn desktop_asset_suffix(platform: &str) -> (r: Option<&'static str>)
    ensures
        r is Some <==> download_suffix(platform@) is Some,
        r matches Some(s) ==> s@ == download_suffix(platform@)->0,
{
    if str_eq(platform, "macos") {
        Some("_aarch64.dmg")
    } else if str_eq(platform, "macos-intel") {
        Some("_x64.dmg")
    } else if str_eq(platform, "linux") || str_eq(platform, "linux-deb") {
        Some("_amd64.deb")
    } else if str_eq(platform, "windows") {
        Some("_x64-setup.exe")
    } else {
        None
    }
}

// ---------------------------------------------------------------------------
// Bundle / signature pairing
// ---------------------------------------------------------------------------

/// Whether `name` ends with one of `suffixes`.
pub open spec fn has_any_suffix(name: Seq<char>, suffixes: Seq<Seq<char>>) -> bool {
    exists|j: int| 0 <= j < suffixes.len() && (#[trigger] suffixes[j]).is_suffix_of(name)
}

/// `i` is the first asset whose name ends with one of `suffixes`.
pub open spec fn is_first_bundle(assets: Seq<Asset>, suffixes: Seq<Seq<char>>, i: int) -> bool {
    &&& 0 <= i < assets.len()
    &&& has_any_suffix(assets[i].name@, suffixes)
    &&& forall|j: int| 0 <= j < i ==> !has_any_suffix(#[trigger] assets[j].name@, suffixes)
}

/// `k` is the first asset called `name`.
pub open spec fn is_first_named(assets: Seq<Asset>, name: Seq<char>, k: int) -> bool {
    &&& 0 <= k < assets.len()
    &&& assets[k].name@ == name
    &&& forall|j: int| 0 <= j < k ==> (#[trigger] assets[j].name@) != name
}

/// Name of the signature file that accompanies `name`.
pub open spec fn signature_name(name: Seq<char>) -> Seq<char> {
    name + ".sig"@
}

/// The bundle URL and signature URL served for `suffixes`: the first asset
/// whose name ends with one of them, paired with the first asset named after
/// it with `.sig` appended; nothing when either is missing.
pub open spec fn bundle_pair(assets: Seq<Asset>, suffixes: Seq<Seq<char>>) -> Option<(Seq<char>, Seq<char>)> {
    if exists|i: int| is_first_bundle(assets, suffixes, i) {
        let i = choose|i: int| is_first_bundle(assets, suffixes, i);
        let sig = signature_name(assets[i].name@);
        if exists|k: int| is_first_named(assets, sig, k) {
            let k = choose|k: int| is_first_named(assets, sig, k);
            Some((assets[i].url@, assets[k].url@))
        } else {
            None
        }
    } else {
        None
    }
}

/// Every listed suffix marks a bundle, and nothing else does: a name is a
/// bundle name exactly when one of the suffixes, whichever its place in the
/// list, ends it.
pub proof fn law_any_listed_suffix_marks_a_bundle(name: Seq<char>, suffixes: Seq<Seq<char>>, j: int)
    ensures
        0 <= j < suffixes.len() && suffixes[j].is_suffix_of(name) ==> has_any_suffix(name, suffixes),
        has_any_suffix(name, suffixes) ==> exists|m: int|
            0 <= m < suffixes.len() && (#[trigger] suffixes[m]).is_suffix_of(name),
{
    if 0 <= j < suffixes.len() && suffixes[j].is_suffix_of(name) {
        assert(suffixes[j].is_suffix_of(name));
    }
}

/// A name made of any text followed by one of the suffixes is a bundle name.
pub proof fn law_suffixed_name_is_a_bundle(stem: Seq<char>, suffixes: Seq<Seq<char>>, j: int)
    requires
        0 <= j < suffixes.len(),
    ensures
        has_any_suffix(stem + suffixes[j], suffixes),
{
    let name = stem + suffixes[j];
    assert(name.subrange(name.len() - suffixes[j].len(), name.len() as int) =~= suffixes[j]);
    assert(suffixes[j].is_suffix_of(name));
}

/// The first asset whose name ends with any of the suffixes, when an asset
/// named after it with `.sig` appended exists, is served together with the
/// first such signature asset.
pub proof fn law_first_suffixed_asset_with_sig_is_served(
    assets: Seq<Asset>,
    suffixes: Seq<Seq<char>>,
    i: int,
    j: int,
    k: int,
)
    requires
        0 <= i < assets.len(),
        0 <= j < suffixes.len(),
        suffixes[j].is_suffix_of(assets[i].name@),
        forall|m: int, q: int|
            0 <= m < i && 0 <= q < suffixes.len() ==> !(#[trigger] suffixes[q]).is_suffix_of(
                #[trigger] assets[m].name@,
            ),
        0 <= k < assets.len(),
        assets[k].name@ == assets[i].name@ + ".sig"@,
        forall|m: int| 0 <= m < k ==> (#[trigger] assets[m].name@) != assets[i].name@ + ".sig"@,
    ensures
        bundle_pair(assets, suffixes) == Some((assets[i].url@, assets[k].url@)),
{
    assert(suffixes[j].is_suffix_of(assets[i].name@));
    assert forall|m: int| 0 <= m < i implies !has_any_suffix(#[trigger] assets[m].name@, suffixes) by {
        if has_any_suffix(assets[m].name@, suffixes) {
            let q = choose|q: int| 0 <= q < suffixes.len() && (#[trigger] suffixes[q]).is_suffix_of(assets[m].name@);
            assert(!suffixes[q].is_suffix_of(assets[m].name@));
        }
    }
    assert(is_first_bundle(assets, suffixes, i));
    let i2 = choose|m: int| is_first_bundle(assets, suffixes, m);
    assert(is_first_bundle(assets, suffixes, i2));
    if i2 < i {
        assert(!has_any_suffix(assets[i2].name@, suffixes));
    }
    if i2 > i {
        assert(!has_any_suffix(assets[i].name@, suffixes));
    }
    assert(i2 == i);
    let sig = signature_name(assets[i].name@);
    assert(is_first_named(assets, sig, k));
    let k2 = choose|m: int| is_first_named(assets, sig, m);
    assert(is_first_named(assets, sig, k2));
    if k2 < k {
        assert(assets[k2].name@ != sig);
    }
    if k2 > k {
        assert(assets[k].name@ != sig);
    }
    assert(k2 == k);
}

pub open spec fn pair_view(p: Option<(String, String)>) -> Option<(Seq<char>, Seq<char>)> {
    match p {
        Some((a, b)) => Some((a@, b@)),
        None => None,
    }
}

/// Whether `name` ends with any of `suffixes`.
fn ends_with_any(name: &str, suffixes: &[&str]) -> (r: bool)
    ensures
        r == has_any_suffix(name@, str_views(suffixes@)),
{
    let ghost sv = str_views(suffixes@);
    let mut j: usize = 0;
    while j < suffixes.len()
        invariant
            j <= suffixes@.len(),
            sv == str_views(suffixes@),
            forall|m: int| 0 <= m < j ==> !(#[trigger] sv[m]).is_suffix_of(name@),
        decreases suffixes@.len() - j,
    {
        if str_ends_with(name, suffixes[j]) {
            assert(sv[j as int] == suffixes@[j as int]@);
            return true;
        }
        assert(sv[j as int] == suffixes@[j as int]@);
        j = j + 1;
    }
    false
}

/// Find the signed bundle URL and the matching `.sig` URL for a given target.
pub fn find_pair(assets: &[Asset], suffixes: &[&str]) -> (r: Option<(String, String)>)
    ensures
        pair_view(r) == bundle_pair(assets@, str_views(suffixes@)),
{
    let ghost sv = str_views(suffixes@);
    let mut i: usize = 0;
    while i < assets.len()
        invariant
            i <= assets@.len(),
            sv == str_views(suffixes@),
            forall|j: int| 0 <= j < i ==> !has_any_suffix(#[trigger] assets@[j].name@, sv),
        ensures
            i <= assets@.len(),
            forall|j: int| 0 <= j < i ==> !has_any_suffix(#[trigger] assets@[j].name@, sv),
            i < assets@.len() ==> has_any_suffix(assets@[i as int].name@, sv),
        decreases assets@.len() - i,
    {
        if ends_with_any(assets[i].name.as_str(), suffixes) {
            break;
        }
        i = i + 1;
    }
    if i == assets.len() {
        assert(!exists|m: int| is_first_bundle(assets@, sv, m));
        return None;
    }
    assert(is_first_bundle(assets@, sv, i as int));
    let bundle = &assets[i];
    let sig_name = bundle.name.clone().concat(".sig");
    let ghost sig = signature_name(assets@[i as int].name@);
    assert(sig_name@ == sig);
    let mut k: usize = 0;
    while k < assets.len()
        invariant
            k <= assets@.len(),
            sig_name@ == sig,
            forall|j: int| 0 <= j < k ==> (#[trigger] assets@[j].name@) != sig,
        ensures
            k <= assets@.len(),
            forall|j: int| 0 <= j < k ==> (#[trigger] assets@[j].name@) != sig,
            k < assets@.len() ==> assets@[k as int].name@ == sig,
        decreases assets@.len() - k,
    {
        if assets[k].name == sig_name {
            break;
        }
        k = k + 1;
    }
    if k == assets.len() {
        assert(!exists|m: int| is_first_named(assets@, sig, m));
        return None;
    }
    assert(is_first_named(assets@, sig, k as int));
    proof {
        let i2 = choose|m: int| is_first_bundle(assets@, sv, m);
        assert(is_first_bundle(assets@, sv, i2));
        if i2 < i {
            assert(!has_any_suffix(assets@[i2].name@, sv));
        }
        if i2 > i {
            assert(!has_any_suffix(assets@[i as int].name@, sv));
        }
        assert(i2 == i);
        let k2 = choose|m: int| is_first_named(assets@, sig, m);
        assert(is_first_named(assets@, sig, k2));
        if k2 < k {
            assert(assets@[k2].name@ != sig);
        }
        if k2 > k {
            assert(assets@[k as int].name@ != sig);
        }
        assert(k2 == k);
    }
    Some((bundle.url.clone(), assets[k].url.clone()))
}

} // verus!
