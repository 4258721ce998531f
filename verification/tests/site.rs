use modelrelay::legal::{
    privacy_document, privacy_inner, terms_document, terms_inner, wrap_legal_text, WRAPPER_CLOSE,
    WRAPPER_OPEN,
};
use modelrelay::release::desktop_download_map;
use modelrelay::artifacts::Asset;
use modelrelay::site::{
    admin_landing_page,
    desktop_download_target, favicon, health_report, not_found_page, robots_txt,
    security_headers, session_exempt, session_guard_outcome, sitemap_xml, GuardOutcome,
    DESKTOP_FALLBACK_URL, DOWNLOAD_ANCHOR, IMAGE_CACHE_CONTROL, PNG_CONTENT_TYPE,
};

#[test]
fn exempt_routes_and_prefixes_need_no_session() {
    for p in [
        "/", "/download", "/health", "/robots.txt", "/sitemap.xml", "/favicon.ico",
        "/favicon-32.png", "/apple-touch-icon.png", "/icon-512.png", "/og-image.png",
        "/checkout/cancel", "/terms", "/privacy",
    ] {
        assert!(session_exempt(p), "{p} should be exempt");
    }
    assert!(session_exempt("/download/desktop/macos"));
    assert!(session_exempt("/updater/desktop/darwin/aarch64/0.1.1"));
    assert!(session_exempt("/webhook/stripe"));
}

#[test]
fn session_routes_are_not_exempt() {
    for p in [
        "/pricing", "/signup", "/login", "/dashboard", "/checkout", "/checkout/success",
        "/setup", "/integrate", "/download/", "/updater", "/terms/", "",
    ] {
        assert!(!session_exempt(p), "{p} should need a session");
    }
}

#[test]
fn guard_answers_503_without_session() {
    match session_guard_outcome("/pricing", false) {
        GuardOutcome::Respond(page) => {
            assert_eq!(page.status, 503);
            assert_eq!(page.title, "Service Unavailable");
            assert_eq!(page.path, "/pricing");
            assert!(page.body.contains("Service Temporarily Unavailable"));
        }
        GuardOutcome::Proceed => panic!("expected the 503 page"),
    }
    assert!(matches!(session_guard_outcome("/pricing", true), GuardOutcome::Proceed));
    assert!(matches!(session_guard_outcome("/checkout/cancel", false), GuardOutcome::Proceed));
    assert!(matches!(session_guard_outcome("/webhook/stripe", false), GuardOutcome::Proceed));
}

#[test]
fn not_found_page_keeps_path() {
    let page = not_found_page("/nope");
    assert_eq!(page.status, 404);
    assert_eq!(page.title, "404 — Not Found");
    assert_eq!(page.path, "/nope");
    assert!(page.body.contains("Page Not Found"));
}

#[test]
fn security_headers_are_complete() {
    let h = security_headers();
    assert_eq!(h.len(), 5);
    assert_eq!(h[0], ("x-content-type-options", "nosniff"));
    assert_eq!(h[1], ("x-frame-options", "DENY"));
    assert_eq!(h[2], ("referrer-policy", "strict-origin-when-cross-origin"));
    assert_eq!(h[3], ("permissions-policy", "camera=(), microphone=(), geolocation=()"));
    assert_eq!(h[4].0, "content-security-policy");
    assert!(h[4].1.contains("https://js.stripe.com"));
}

#[test]
fn health_reports_degraded_without_database() {
    let r = health_report(false, false);
    assert_eq!(r.status_code, 503);
    assert_eq!(r.status, "degraded");
    assert!(!r.db_connected);
    assert!(!r.stripe_configured);
    let ok = health_report(true, true);
    assert_eq!(ok.status_code, 200);
    assert_eq!(ok.status, "ok");
    assert!(ok.db_connected);
    assert!(ok.stripe_configured);
}

#[test]
fn robots_and_sitemap_contents() {
    let r = robots_txt();
    assert_eq!(r.content_type, "text/plain; charset=utf-8");
    assert!(r.body.contains("User-agent: *"));
    assert!(r.body.contains("Allow: /"));
    assert!(r.body.contains("Sitemap: https://modelrelay.io/sitemap.xml"));
    let s = sitemap_xml();
    assert_eq!(s.content_type, "application/xml; charset=utf-8");
    assert!(s.body.contains("http://www.sitemaps.org/schemas/sitemap/0.9"));
    for path in &["/", "/pricing", "/signup", "/login", "/setup", "/integrate"] {
        assert!(s.body.contains(&format!("https://modelrelay.io{path}")));
    }
}

#[test]
fn image_types_and_redirect_constants() {
    assert_eq!(PNG_CONTENT_TYPE, "image/png");
    assert_eq!(IMAGE_CACHE_CONTROL, "public, max-age=86400, immutable");
    assert_eq!(DOWNLOAD_ANCHOR, "/#download");
}

#[test]
fn desktop_download_target_falls_back_to_releases_page() {
    assert_eq!(desktop_download_target("freebsd", None), DESKTOP_FALLBACK_URL);
    assert_eq!(
        DESKTOP_FALLBACK_URL,
        "https://github.com/ericflo/modelrelay/releases/latest"
    );
    assert_eq!(desktop_download_target("macos", None), DESKTOP_FALLBACK_URL);
    let assets = vec![Asset {
        name: "ModelRelay_0.1.2_amd64.deb".to_owned(),
        url: "https://x/deb".to_owned(),
    }];
    let table = desktop_download_map(&assets).unwrap();
    assert_eq!(desktop_download_target("linux", Some(&table)), "https://x/deb");
    assert_eq!(desktop_download_target("macos", Some(&table)), DESKTOP_FALLBACK_URL);
    assert_eq!(desktop_download_target("freebsd", Some(&table)), DESKTOP_FALLBACK_URL);
}

#[test]
fn legal_pages_are_wrapped() {
    let t = terms_document();
    assert_eq!(t.title, "Terms of Service");
    assert_eq!(t.path, "/terms");
    assert!(t.body.starts_with(WRAPPER_OPEN));
    assert!(t.body.ends_with(WRAPPER_CLOSE));
    assert!(t.body.contains(terms_inner()));
    assert!(terms_inner().contains("1. Acceptance of Terms"));
    let p = privacy_document();
    assert_eq!(p.title, "Privacy Policy");
    assert_eq!(p.path, "/privacy");
    assert_eq!(p.body, format!("{}{}{}", WRAPPER_OPEN, privacy_inner(), WRAPPER_CLOSE));
    assert!(privacy_inner().contains("Argon2id"));
    assert_eq!(wrap_legal_text("x"), format!("{WRAPPER_OPEN}x</div>"));
}

#[test]
fn admin_landing_links_the_tools() {
    let p = admin_landing_page();
    assert_eq!(p.status, 200);
    assert_eq!(p.title, "ModelRelay Admin");
    assert_eq!(p.path, "/");
    for link in ["/dashboard", "/setup", "/integrate"] {
        assert!(p.body.contains(link));
    }
}

#[test]
fn favicon_returns_success() {
    let f = favicon();
    assert_eq!(f.content_type, "image/svg+xml");
    assert!(f.body.contains("<svg"), "expected SVG favicon");
}
