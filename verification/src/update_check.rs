//! Decisions of the desktop updater endpoint
//! `GET /updater/desktop/{target}/{arch}/{current_version}`.
//!
//! The endpoint answers with a manifest when a newer signed release exists
//! for the caller's platform, and with "204 No Content" in every other case.

use vstd::prelude::*;
use crate::artifacts::{
    artifact_suffixes, bundle_pair, find_pair, is_first_bundle, is_first_named, pair_view,
    signature_name, str_views, updater_suffixes,
};
use crate::release::LatestRelease;
use crate::text::{clone_opt_string, opt_view};
use crate::text_map::TextMap;
use crate::version::{is_newer, version_newer};

verus! {

/// `Cache-Control` value sent with a manifest.
pub const MANIFEST_CACHE_CONTROL: &'static str = "public, max-age=60, stale-while-revalidate=300";

/// The updater manifest: what the desktop updater expects when an update is
/// available.
pub struct UpdateManifest {
    pub version: String,
    pub pub_date: Option<String>,
    pub url: String,
    pub signature: String,
    pub notes: Option<String>,
}

/// What the endpoint does once the platform and the latest release are known.
pub enum UpdatePlan {
    /// Answer "204 No Content".
    NoUpdate,
    /// Fetch the signature at `sig_url`, then serve `bundle_url`.
    FetchSignature { bundle_url: String, sig_url: String },
}

/// The bundle and signature URLs the endpoint serves, if any: only for a known
/// platform, an available release strictly newer than the caller's version,
/// and a bundle that has a matching `.sig` file.
pub open spec fn planned_pair(
    target: Seq<char>,
    arch: Seq<char>,
    current: Seq<char>,
    release: Option<LatestRelease>,
) -> Option<(Seq<char>, Seq<char>)> {
    match (updater_suffixes(target, arch), release) {
        (Some(suffixes), Some(rel)) => {
            if version_newer(rel.version@, current) {
                bundle_pair(rel.assets@, suffixes)
            } else {
                None
            }
        },
        _ => None,
    }
}

pub open spec fn plan_view(p: UpdatePlan) -> Option<(Seq<char>, Seq<char>)> {
    match p {
        UpdatePlan::NoUpdate => None,
        UpdatePlan::FetchSignature { bundle_url, sig_url } => Some((bundle_url@, sig_url@)),
    }
}

/// Decides what the endpoint does for a caller on `target`/`arch` running
/// `current_version`, given the latest release (or `None` when it could not
/// be looked up).
pub fn plan_update(
    target: &str,
    arch: &str,
    current_version: &str,
    release: Option<&LatestRelease>,
) -> (r: UpdatePlan)
    ensures
        plan_view(r) == planned_pair(target@, arch@, current_version@, match release {
            Some(rel) => Some(*rel),
            None => None,
        }),
{
    let suffixes = match artifact_suffixes(target, arch) {
        Some(s) => s,
        None => {
            return UpdatePlan::NoUpdate;
        },
    };
    let rel = match release {
        Some(rel) => rel,
        None => {
            return UpdatePlan::NoUpdate;
        },
    };
    if !is_newer(rel.version.as_str(), current_version) {
        return UpdatePlan::NoUpdate;
    }
    let pair = find_pair(rel.assets.as_slice(), suffixes);
    assert(pair_view(pair) == bundle_pair(rel.assets@, str_views(suffixes@)));
    match pair {
        Some((bundle_url, sig_url)) => UpdatePlan::FetchSignature { bundle_url, sig_url },
        None => UpdatePlan::NoUpdate,
    }
}

/// Abstract content of a manifest.
pub struct ManifestModel {
    pub version: Seq<char>,
    pub pub_date: Option<Seq<char>>,
    pub url: Seq<char>,
    pub signature: Seq<char>,
    pub notes: Option<Seq<char>>,
}

pub open spec fn manifest_view(m: UpdateManifest) -> ManifestModel {
    ManifestModel {
        version: m.version@,
        pub_date: opt_view(m.pub_date),
        url: m.url@,
        signature: m.signature@,
        notes: opt_view(m.notes),
    }
}

/// Builds the manifest for `release`, served from `bundle_url` with its
/// signature; nothing when the signature could not be had.
pub fn build_manifest(release: &LatestRelease, bundle_url: String, signature: Option<String>) -> (r: Option<UpdateManifest>)
    ensures
        r is Some == signature is Some,
        r matches Some(m) ==> manifest_view(m) == (ManifestModel {
            version: release.version@,
            pub_date: opt_view(release.published_at),
            url: bundle_url@,
            signature: signature->0@,
            notes: opt_view(release.body),
        }),
{
    match signature {
        Some(signature) => Some(UpdateManifest {
            version: release.version.clone(),
            pub_date: clone_opt_string(&release.published_at),
            url: bundle_url,
            signature,
            notes: clone_opt_string(&release.body),
        }),
        None => None,
    }
}


// ---------------------------------------------------------------------------
// Signature files
// ---------------------------------------------------------------------------

/// Unicode `White_Space` characters: tab to carriage return, space, next
/// line, no-break space, ogham space mark, en quad to hair space, line and
/// paragraph separators, narrow no-break space, medium mathematical space and
/// ideographic space.
pub open spec fn is_white_space(c: char) -> bool {
    ||| ('\u{9}' <= c && c <= '\u{d}')
    ||| c == ' '
    ||| c == '\u{85}'
    ||| c == '\u{a0}'
    ||| c == '\u{1680}'
    ||| ('\u{2000}' <= c && c <= '\u{200a}')
    ||| c == '\u{2028}'
    ||| c == '\u{2029}'
    ||| c == '\u{202f}'
    ||| c == '\u{205f}'
    ||| c == '\u{3000}'
}

/// `s` without its leading white space.
pub open spec fn trim_start_white_space(s: Seq<char>) -> Seq<char>
    decreases s.len(),
{
    if s.len() > 0 && is_white_space(s[0]) {
        trim_start_white_space(s.drop_first())
    } else {
        s
    }
}

/// `s` without its trailing white space.
pub open spec fn trim_end_white_space(s: Seq<char>) -> Seq<char>
    decreases s.len(),
{
    if s.len() > 0 && is_white_space(s.last()) {
        trim_end_white_space(s.drop_last())
    } else {
        s
    }
}

/// `s` without leading and trailing white space.
pub open spec fn trimmed(s: Seq<char>) -> Seq<char> {
    trim_end_white_space(trim_start_white_space(s))
}

/// Calls `str::trim`. Its contract claims what std documents: the result is
/// the argument with leading and trailing white space removed, white space
/// being the Unicode `White_Space` property.
#[verifier::external_body]
fn trim_text(s: &str) -> (r: &str)
    ensures
        r@ == trimmed(s@),
{
    s.trim()
}

/// The signature carried by an already trimmed `.sig` body: nothing when
/// it is empty.
pub fn signature_from_trimmed(t: &str) -> (r: Option<String>)
    ensures
        r is Some == (t@.len() > 0),
        r matches Some(s) ==> s@ == t@,
{
    if t.is_empty() {
        None
    } else {
        Some(t.to_owned())
    }
}

/// The signature carried by the text of a `.sig` file: the text without
/// surrounding white space, or nothing when that is empty.
pub fn signature_from_body(text: &str) -> (r: Option<String>)
    ensures
        r is Some == (trimmed(text@).len() > 0),
        r matches Some(s) ==> s@ == trimmed(text@),
{
    signature_from_trimmed(trim_text(text))
}

/// Keeps a freshly fetched signature for `sig_url` in `cache` and hands it
/// on; a failed fetch leaves the cache as it was. Signatures of a released
/// artifact never change, so an entry is kept for the life of the process.
pub fn remember_signature(cache: &mut TextMap, sig_url: &str, fetched: Option<String>) -> (r: Option<String>)
    ensures
        opt_view(r) == opt_view(fetched),
        match fetched {
            Some(s) => final(cache)@ == old(cache)@.insert(sig_url@, s@),
            None => final(cache)@ == old(cache)@,
        },
{
    match fetched {
        Some(sig) => {
            cache.insert(sig_url.to_owned(), sig.clone());
            Some(sig)
        },
        None => None,
    }
}

// ---------------------------------------------------------------------------
// Laws
// ---------------------------------------------------------------------------

/// Once a signature for `sig_url` has been remembered, a later lookup of
/// `sig_url` finds it, so the file is not fetched again; remembering it
/// leaves the signatures of other URLs as they were.
pub proof fn law_remembered_signature_is_reused(
    before: Map<Seq<char>, Seq<char>>,
    sig_url: Seq<char>,
    signature: Seq<char>,
    other_url: Seq<char>,
)
    ensures
        before.insert(sig_url, signature).contains_key(sig_url),
        before.insert(sig_url, signature)[sig_url] == signature,
        other_url != sig_url ==> before.insert(sig_url, signature).contains_key(other_url)
            == before.contains_key(other_url),
        other_url != sig_url && before.contains_key(other_url) ==> before.insert(sig_url, signature)[other_url]
            == before[other_url],
{
}

/// A caller already at or ahead of the latest release gets no update.
pub proof fn law_no_update_unless_newer(
    target: Seq<char>,
    arch: Seq<char>,
    current: Seq<char>,
    release: LatestRelease,
)
    requires
        !version_newer(release.version@, current),
    ensures
        planned_pair(target, arch, current, Some(release)) is None,
{
}

/// A caller on a platform without an updater artifact gets no update.
pub proof fn law_no_update_for_unknown_platform(
    target: Seq<char>,
    arch: Seq<char>,
    current: Seq<char>,
    release: Option<LatestRelease>,
)
    requires
        updater_suffixes(target, arch) is None,
    ensures
        planned_pair(target, arch, current, release) is None,
{
}

/// A served bundle always comes with the `.sig` file named after it, and the
/// bundle's name carries one of the platform's suffixes.
pub proof fn law_served_bundle_is_signed(
    target: Seq<char>,
    arch: Seq<char>,
    current: Seq<char>,
    release: LatestRelease,
)
    requires
        planned_pair(target, arch, current, Some(release)) is Some,
    ensures
        ({
            let assets = release.assets@;
            let suffixes = updater_suffixes(target, arch)->0;
            let (b, s) = planned_pair(target, arch, current, Some(release))->0;
            exists|i: int, k: int|
                is_first_bundle(assets, suffixes, i)
                    && is_first_named(assets, signature_name(assets[i].name@), k)
                    && assets[i].url@ == b && assets[k].url@ == s
        }),
{
    let assets = release.assets@;
    let suffixes = updater_suffixes(target, arch)->0;
    let i = choose|i: int| is_first_bundle(assets, suffixes, i);
    let sig = signature_name(assets[i].name@);
    let k = choose|k: int| is_first_named(assets, sig, k);
    assert(is_first_bundle(assets, suffixes, i));
    assert(is_first_named(assets, sig, k));
}

} // verus!
