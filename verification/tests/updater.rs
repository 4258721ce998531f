use modelrelay::artifacts::{artifact_suffixes, desktop_asset_suffix, find_pair, Asset};
use modelrelay::release::{
    desktop_download_map, select_download_release, select_latest_release,
    AssetRecord, LatestRelease, ReleaseRecord,
};
use modelrelay::text_map::TextMap;
use modelrelay::timed_cache::{is_cache_fresh, TimedCache, CACHE_TTL_NANOS};
use modelrelay::update_check::{
    build_manifest, plan_update, remember_signature, signature_from_body, signature_from_trimmed,
    UpdatePlan, MANIFEST_CACHE_CONTROL,
};
use modelrelay::version::{is_newer, parse_version};

fn a(name: &str) -> Asset {
    Asset {
        name: name.to_owned(),
        url: format!("https://example.com/{name}"),
    }
}

// ─── Version comparison, platform suffixes and bundle pairing ──────────────

#[test]
fn newer_semver_wins() {
    assert!(is_newer("0.1.2", "0.1.1"));
    assert!(is_newer("0.2.0", "0.1.9"));
    assert!(is_newer("1.0.0", "0.99.99"));
    assert!(!is_newer("0.1.1", "0.1.1"));
    assert!(!is_newer("0.1.0", "0.1.1"));
}

#[test]
fn prerelease_suffixes_are_ignored() {
    // Versions with suffixes still compare by their semver core.
    assert!(!is_newer("0.1.1", "0.1.1-alpha.1"));
    assert!(is_newer("0.1.2", "0.1.1-rc.5"));
}

#[test]
fn malformed_versions_fall_back_to_string_compare() {
    assert!(!is_newer("abc", "abc"));
    assert!(is_newer("z", "a"));
}

#[test]
fn platform_suffixes_cover_expected_targets() {
    assert!(artifact_suffixes("darwin", "aarch64").is_some());
    assert!(artifact_suffixes("darwin", "x86_64").is_some());
    assert!(artifact_suffixes("linux", "x86_64").is_some());
    assert!(artifact_suffixes("windows", "x86_64").is_some());
    assert!(artifact_suffixes("linux", "aarch64").is_none());
    assert!(artifact_suffixes("bogus", "x86_64").is_none());
}

#[test]
fn find_pair_matches_bundle_and_sig() {
    let assets = vec![
        a("ModelRelay_0.1.2_aarch64.app.tar.gz"),
        a("ModelRelay_0.1.2_aarch64.app.tar.gz.sig"),
        a("ModelRelay_0.1.2_x64-setup.exe"),
        a("ModelRelay_0.1.2_x64-setup.exe.sig"),
    ];
    let suffixes = artifact_suffixes("darwin", "aarch64").unwrap();
    let (bundle, sig) = find_pair(&assets, suffixes).expect("match");
    assert!(bundle.ends_with("_aarch64.app.tar.gz"));
    assert!(sig.ends_with("_aarch64.app.tar.gz.sig"));
}

#[test]
fn find_pair_requires_a_matching_sig() {
    // Missing .sig → no match, so the endpoint returns 204 instead of
    // serving a bundle the client can't verify.
    let assets = vec![a("ModelRelay_0.1.2_aarch64.app.tar.gz")];
    let suffixes = artifact_suffixes("darwin", "aarch64").unwrap();
    assert!(find_pair(&assets, suffixes).is_none());
}

#[test]
fn maps_known_platforms_to_asset_suffixes() {
    assert_eq!(desktop_asset_suffix("macos"), Some("_aarch64.dmg"));
    assert_eq!(desktop_asset_suffix("macos-intel"), Some("_x64.dmg"));
    assert_eq!(desktop_asset_suffix("linux"), Some("_amd64.deb"));
    assert_eq!(desktop_asset_suffix("linux-deb"), Some("_amd64.deb"));
    assert_eq!(desktop_asset_suffix("windows"), Some("_x64-setup.exe"));
}

#[test]
fn unknown_platforms_have_no_mapping() {
    assert_eq!(desktop_asset_suffix(""), None);
    assert_eq!(desktop_asset_suffix("freebsd"), None);
    assert_eq!(desktop_asset_suffix("MACOS"), None);
}

// ─── Version parsing and comparison ────────────────────────────────────────

#[test]
fn parse_version_reads_three_components() {
    assert_eq!(parse_version("1.2.3"), Some((1, 2, 3)));
    assert_eq!(parse_version("v1.2.3"), Some((1, 2, 3)));
    assert_eq!(parse_version("0.1.1-alpha.2"), Some((0, 1, 1)));
    assert_eq!(parse_version("2.0.7+build.5"), Some((2, 0, 7)));
    assert_eq!(parse_version("1.2.3.4"), Some((1, 2, 3)));
    assert_eq!(parse_version("007.0.10"), Some((7, 0, 10)));
    assert_eq!(parse_version("4294967295.0.0"), Some((4294967295, 0, 0)));
}

#[test]
fn parse_version_rejects_malformed_input() {
    assert_eq!(parse_version(""), None);
    assert_eq!(parse_version("1.2"), None);
    assert_eq!(parse_version("1..3"), None);
    assert_eq!(parse_version("1.2."), None);
    assert_eq!(parse_version("a.b.c"), None);
    assert_eq!(parse_version("vv1.2.3"), None);
    assert_eq!(parse_version("4294967296.0.0"), None);
    assert_eq!(parse_version("-1.2.3"), None);
    assert_eq!(parse_version(" 1.2.3"), None);
}

#[test]
fn leading_v_is_ignored_when_comparing() {
    assert!(!is_newer("v1.2.3", "1.2.3"));
    assert!(!is_newer("1.2.3", "v1.2.3"));
    assert!(is_newer("v1.2.4", "1.2.3"));
}

#[test]
fn is_newer_is_irreflexive_and_asymmetric_on_examples() {
    for v in ["0.1.1", "abc", "", "1.2", "v9.9.9", "1.0.0-rc.1"] {
        assert!(!is_newer(v, v));
    }
    let pairs = [("0.1.2", "0.1.1"), ("z", "a"), ("1.10.0", "1.9.0"), ("0.3", "0.10.0")];
    for (x, y) in pairs {
        assert!(is_newer(x, y));
        assert!(!is_newer(y, x));
    }
}

#[test]
fn is_newer_is_transitive_among_parsed_versions() {
    assert!(is_newer("0.3.0", "0.2.5"));
    assert!(is_newer("0.2.5", "0.2.4"));
    assert!(is_newer("0.3.0", "0.2.4"));
}

#[test]
fn mixed_parse_status_can_break_transitivity() {
    // "0.2x" does not parse; the chain mixes numeric and text comparison.
    assert!(is_newer("0.2x", "0.10.0"));
    assert!(is_newer("0.10.0", "0.9.0"));
    assert!(!is_newer("0.2x", "0.9.0"));
}

#[test]
fn numeric_components_compare_as_numbers() {
    assert!(is_newer("0.10.0", "0.9.0"));
    assert!(!is_newer("0.9.0", "0.10.0"));
    assert!(is_newer("1.2.10", "1.2.9"));
}

#[test]
fn overflowing_component_falls_back_to_text() {
    // "4294967296" does not fit in a u32, so the strings are compared.
    assert!(!is_newer("4294967296.0.0", "5.0.0"));
    assert!(is_newer("5.0.0", "4294967296.0.0"));
}

#[test]
fn text_fallback_treats_prefix_as_smaller() {
    assert!(is_newer("abcd", "abc"));
    assert!(!is_newer("abc", "abcd"));
    assert!(is_newer("abc", ""));
}

// ─── Artifacts ─────────────────────────────────────────────────────────────

#[test]
fn artifact_suffix_lists_are_exact() {
    assert_eq!(
        artifact_suffixes("darwin", "aarch64").unwrap(),
        &["_aarch64.app.tar.gz", "-aarch64.app.tar.gz"]
    );
    assert_eq!(
        artifact_suffixes("darwin", "x86_64").unwrap(),
        &["_x64.app.tar.gz", "-x64.app.tar.gz"]
    );
    assert_eq!(
        artifact_suffixes("linux", "x86_64").unwrap(),
        &["_amd64.AppImage", "-amd64.AppImage", "_x86_64.AppImage"]
    );
    assert_eq!(
        artifact_suffixes("windows", "x86_64").unwrap(),
        &["_x64-setup.exe", "-x64-setup.exe"]
    );
    assert!(artifact_suffixes("windows", "aarch64").is_none());
    assert!(artifact_suffixes("Darwin", "aarch64").is_none());
}

#[test]
fn find_pair_takes_first_bundle_and_its_own_sig() {
    let assets = vec![
        a("notes.txt"),
        a("ModelRelay_0.1.2_x64-setup.exe"),
        a("ModelRelay_0.1.3_x64-setup.exe"),
        a("ModelRelay_0.1.3_x64-setup.exe.sig"),
        a("ModelRelay_0.1.2_x64-setup.exe.sig"),
    ];
    let suffixes = artifact_suffixes("windows", "x86_64").unwrap();
    let (bundle, sig) = find_pair(&assets, suffixes).unwrap();
    assert_eq!(bundle, "https://example.com/ModelRelay_0.1.2_x64-setup.exe");
    assert_eq!(sig, "https://example.com/ModelRelay_0.1.2_x64-setup.exe.sig");
}

#[test]
fn find_pair_does_not_look_past_an_unsigned_first_bundle() {
    let assets = vec![
        a("ModelRelay_0.1.2_x64-setup.exe"),
        a("ModelRelay_0.1.3_x64-setup.exe"),
        a("ModelRelay_0.1.3_x64-setup.exe.sig"),
    ];
    let suffixes = artifact_suffixes("windows", "x86_64").unwrap();
    assert!(find_pair(&assets, suffixes).is_none());
}

#[test]
fn find_pair_with_no_bundle_is_none() {
    let assets = vec![a("readme.md"), a("readme.md.sig")];
    let suffixes = artifact_suffixes("linux", "x86_64").unwrap();
    assert!(find_pair(&assets, suffixes).is_none());
    assert!(find_pair(&[], suffixes).is_none());
}

// ─── Release selection ─────────────────────────────────────────────────────

fn rec(name: Option<&str>, url: Option<&str>) -> AssetRecord {
    AssetRecord {
        name: name.map(|s| s.to_owned()),
        browser_download_url: url.map(|s| s.to_owned()),
    }
}

fn release(tag: Option<&str>, assets: Option<Vec<AssetRecord>>) -> ReleaseRecord {
    ReleaseRecord {
        tag_name: tag.map(|s| s.to_owned()),
        prerelease: false,
        published_at: Some("2026-04-16T00:00:00Z".to_owned()),
        body: Some("notes".to_owned()),
        assets,
    }
}

#[test]
fn select_latest_release_picks_first_desktop_tag() {
    let releases = vec![
        release(Some("server-v9.0.0"), Some(vec![])),
        release(None, Some(vec![])),
        release(
            Some("desktop-v0.1.2"),
            Some(vec![
                rec(Some("a.AppImage"), Some("https://x/a.AppImage")),
                rec(None, Some("https://x/nameless")),
                rec(Some("no-url"), None),
                rec(Some("b.AppImage.sig"), Some("https://x/b.sig")),
            ]),
        ),
        release(Some("desktop-v0.1.1"), Some(vec![])),
    ];
    let r = select_latest_release(&releases).unwrap();
    assert_eq!(r.version, "0.1.2");
    assert_eq!(r.published_at.as_deref(), Some("2026-04-16T00:00:00Z"));
    assert_eq!(r.body.as_deref(), Some("notes"));
    assert_eq!(r.assets.len(), 2);
    assert_eq!(r.assets[0].name, "a.AppImage");
    assert_eq!(r.assets[0].url, "https://x/a.AppImage");
    assert_eq!(r.assets[1].name, "b.AppImage.sig");
}

#[test]
fn select_latest_release_without_asset_list_is_none() {
    let releases = vec![
        release(Some("desktop-v0.2.0"), None),
        release(Some("desktop-v0.1.0"), Some(vec![])),
    ];
    assert!(select_latest_release(&releases).is_none());
}

#[test]
fn select_latest_release_without_desktop_tag_is_none() {
    let releases = vec![release(Some("v1.0.0"), Some(vec![])), release(Some("desktop"), Some(vec![]))];
    assert!(select_latest_release(&releases).is_none());
    assert!(select_latest_release(&[]).is_none());
}

#[test]
fn updater_skips_prereleases_but_downloads_do_not() {
    let mut pre = release(Some("desktop-v0.3.0-rc.1"), Some(vec![]));
    pre.prerelease = true;
    let releases = vec![pre, release(Some("desktop-v0.2.0"), Some(vec![]))];
    assert_eq!(select_latest_release(&releases).unwrap().version, "0.2.0");
    assert_eq!(select_download_release(&releases).unwrap().version, "0.3.0-rc.1");
}

#[test]
fn cache_is_fresh_for_five_minutes() {
    assert_eq!(CACHE_TTL_NANOS, 300_000_000_000);
    assert!(is_cache_fresh(0));
    assert!(is_cache_fresh(299_999_999_999));
    assert!(!is_cache_fresh(300_000_000_000));
    assert!(!is_cache_fresh(u128::MAX));
}

#[test]
fn timed_cache_serves_value_for_five_minutes() {
    let mut c: TimedCache<String> = TimedCache::new();
    assert!(c.lookup(0).is_none());
    c.store(1_000, "release".to_owned());
    assert_eq!(c.lookup(1_000).map(|s| s.as_str()), Some("release"));
    assert_eq!(c.lookup(1_000 + 299_999_999_999).map(|s| s.as_str()), Some("release"));
    assert!(c.lookup(1_000 + 300_000_000_000).is_none());
    // A clock reading before the store counts as no time elapsed.
    assert_eq!(c.lookup(0).map(|s| s.as_str()), Some("release"));
    c.store(400_000_000_000, "newer".to_owned());
    assert_eq!(c.lookup(500_000_000_000).map(|s| s.as_str()), Some("newer"));
}

#[test]
fn desktop_download_map_lists_each_platform_installer() {
    let assets = vec![
        a("ModelRelay_0.1.2_aarch64.dmg"),
        a("ModelRelay_0.1.2_x64.dmg"),
        a("ModelRelay_0.1.2_amd64.deb"),
        a("ModelRelay_0.1.2_x64-setup.exe"),
        a("ModelRelay_0.1.3_aarch64.dmg"),
    ];
    let map = desktop_download_map(&assets).unwrap();
    assert_eq!(map.get("macos").unwrap(), "https://example.com/ModelRelay_0.1.2_aarch64.dmg");
    assert_eq!(map.get("macos-intel").unwrap(), "https://example.com/ModelRelay_0.1.2_x64.dmg");
    assert_eq!(map.get("linux").unwrap(), "https://example.com/ModelRelay_0.1.2_amd64.deb");
    assert_eq!(map.get("linux-deb").unwrap(), "https://example.com/ModelRelay_0.1.2_amd64.deb");
    assert_eq!(map.get("windows").unwrap(), "https://example.com/ModelRelay_0.1.2_x64-setup.exe");
    assert!(map.get("freebsd").is_none());
}

#[test]
fn desktop_download_map_is_none_without_installers() {
    assert!(desktop_download_map(&[a("source.tar.gz")]).is_none());
    let partial = desktop_download_map(&[a("x_amd64.deb")]).unwrap();
    assert!(partial.get("macos").is_none());
    assert_eq!(partial.get("linux-deb").unwrap(), "https://example.com/x_amd64.deb");
}

// ─── Update check ──────────────────────────────────────────────────────────

fn latest(version: &str, names: &[&str]) -> LatestRelease {
    LatestRelease {
        version: version.to_owned(),
        published_at: Some("2026-04-16T00:00:00Z".to_owned()),
        body: None,
        assets: names.iter().map(|n| a(n)).collect(),
    }
}

#[test]
fn plan_update_fetches_signature_for_newer_signed_release() {
    let rel = latest(
        "0.1.2",
        &["ModelRelay_0.1.2_aarch64.app.tar.gz", "ModelRelay_0.1.2_aarch64.app.tar.gz.sig"],
    );
    match plan_update("darwin", "aarch64", "0.1.1", Some(&rel)) {
        UpdatePlan::FetchSignature { bundle_url, sig_url } => {
            assert_eq!(bundle_url, "https://example.com/ModelRelay_0.1.2_aarch64.app.tar.gz");
            assert_eq!(sig_url, "https://example.com/ModelRelay_0.1.2_aarch64.app.tar.gz.sig");
        }
        UpdatePlan::NoUpdate => panic!("expected an update"),
    }
}

#[test]
fn plan_update_answers_no_update_otherwise() {
    let rel = latest(
        "0.1.2",
        &["ModelRelay_0.1.2_aarch64.app.tar.gz", "ModelRelay_0.1.2_aarch64.app.tar.gz.sig"],
    );
    assert!(matches!(plan_update("darwin", "aarch64", "0.1.2", Some(&rel)), UpdatePlan::NoUpdate));
    assert!(matches!(plan_update("darwin", "aarch64", "0.2.0", Some(&rel)), UpdatePlan::NoUpdate));
    assert!(matches!(plan_update("linux", "aarch64", "0.1.1", Some(&rel)), UpdatePlan::NoUpdate));
    assert!(matches!(plan_update("windows", "x86_64", "0.1.1", Some(&rel)), UpdatePlan::NoUpdate));
    assert!(matches!(plan_update("darwin", "aarch64", "0.1.1", None), UpdatePlan::NoUpdate));
}

#[test]
fn build_manifest_copies_release_fields() {
    let mut rel = latest("0.1.2", &[]);
    rel.body = Some("Fixes".to_owned());
    let m = build_manifest(&rel, "https://x/bundle".to_owned(), Some("c2ln".to_owned())).unwrap();
    assert_eq!(m.version, "0.1.2");
    assert_eq!(m.pub_date.as_deref(), Some("2026-04-16T00:00:00Z"));
    assert_eq!(m.url, "https://x/bundle");
    assert_eq!(m.signature, "c2ln");
    assert_eq!(m.notes.as_deref(), Some("Fixes"));
    assert!(build_manifest(&latest("0.1.2", &[]), "u".to_owned(), None).is_none());
    assert_eq!(MANIFEST_CACHE_CONTROL, "public, max-age=60, stale-while-revalidate=300");
}

#[test]
fn signature_body_is_trimmed() {
    assert_eq!(signature_from_body("  dW50cnVzdGVk\n").as_deref(), Some("dW50cnVzdGVk"));
    assert_eq!(signature_from_body("\tabc def \r\n").as_deref(), Some("abc def"));
    assert!(signature_from_body("   \n\t").is_none());
    assert_eq!(signature_from_body("\u{3000}sig\u{a0}\u{2028}").as_deref(), Some("sig"));
    assert_eq!(signature_from_body("\u{85}a\u{200b}").as_deref(), Some("a\u{200b}"));
    assert!(signature_from_body("").is_none());
    assert_eq!(signature_from_trimmed("x").as_deref(), Some("x"));
    assert!(signature_from_trimmed("").is_none());
}

#[test]
fn remembered_signature_is_found_again() {
    let mut cache = TextMap::new();
    assert!(cache.is_empty());
    let got = remember_signature(&mut cache, "https://x/a.sig", Some("sig-a".to_owned()));
    assert_eq!(got.as_deref(), Some("sig-a"));
    assert_eq!(cache.get("https://x/a.sig").as_deref(), Some("sig-a"));
    assert!(remember_signature(&mut cache, "https://x/b.sig", None).is_none());
    assert!(cache.get("https://x/b.sig").is_none());
    remember_signature(&mut cache, "https://x/a.sig", Some("sig-a2".to_owned()));
    assert_eq!(cache.get("https://x/a.sig").as_deref(), Some("sig-a2"));
    assert!(!cache.is_empty());
}

#[test]
fn text_map_keeps_other_keys_on_insert() {
    let mut m = TextMap::new();
    m.insert("k1".to_owned(), "v1".to_owned());
    m.insert("k2".to_owned(), "v2".to_owned());
    m.insert("k1".to_owned(), "v3".to_owned());
    assert_eq!(m.get("k1").as_deref(), Some("v3"));
    assert_eq!(m.get("k2").as_deref(), Some("v2"));
    assert!(m.get("k3").is_none());
}
