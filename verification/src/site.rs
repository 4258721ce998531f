//! Request-independent decisions of the cloud site: which routes need a
//! session, the security headers, the health report, the SEO files and the
//! desktop download redirects.

use vstd::prelude::*;
use crate::artifacts::{desktop_asset_suffix, download_suffix};
use crate::text::{str_eq, str_starts_with};
use crate::text_map::TextMap;

verus! {

// ---------------------------------------------------------------------------
// Page shell requests
// ---------------------------------------------------------------------------

/// A page to be rendered inside the site's page shell.
pub struct ShellPage {
    pub status: u16,
    pub title: &'static str,
    pub path: String,
    pub body: &'static str,
}

/// Title of the page shown when the session store is unavailable.
pub const UNAVAILABLE_TITLE: &'static str = "Service Unavailable";

/// Body of the page shown when the session store is unavailable.
pub const UNAVAILABLE_BODY: &'static str = r#"<div style="display:flex;flex-direction:column;align-items:center;justify-content:center;min-height:60vh;text-align:center;padding:2rem">
<h1 style="font-size:3rem;font-weight:800;color:#fbbf24;line-height:1;margin:0">503</h1>
<h2 style="font-size:1.5rem;font-weight:600;margin:1rem 0 .5rem">Service Temporarily Unavailable</h2>
<p style="color:#8b949e;max-width:28rem;margin-bottom:2rem">We're experiencing a temporary issue connecting to our database. Please try again in a few moments.</p>
<a href="/" style="display:inline-block;padding:.75rem 2rem;background:#7c3aed;color:#fff;text-decoration:none;border-radius:.5rem;font-weight:600;transition:background .2s">Back to Home</a>
</div>"#;

/// Title of the page shown for an unknown route.
pub const NOT_FOUND_TITLE: &'static str = "404 — Not Found";

/// Body of the page shown for an unknown route.
pub const NOT_FOUND_BODY: &'static str = r#"<div style="display:flex;flex-direction:column;align-items:center;justify-content:center;min-height:60vh;text-align:center;padding:2rem">
<h1 style="font-size:6rem;font-weight:800;color:#7c3aed;line-height:1;margin:0">404</h1>
<h2 style="font-size:1.5rem;font-weight:600;margin:1rem 0 .5rem">Page Not Found</h2>
<p style="color:#8b949e;max-width:28rem;margin-bottom:2rem">The page you're looking for doesn't exist or has been moved.</p>
<a href="/" style="display:inline-block;padding:.75rem 2rem;background:#7c3aed;color:#fff;text-decoration:none;border-radius:.5rem;font-weight:600;transition:background .2s">Back to Home</a>
</div>"#;

/// The "404 Not Found" page for `path`.
pub fn not_found_page(path: &str) -> (r: ShellPage)
    ensures
        r.status == 404,
        r.title@ == NOT_FOUND_TITLE@,
        r.path@ == path@,
        r.body@ == NOT_FOUND_BODY@,
{
    ShellPage { status: 404, title: NOT_FOUND_TITLE, path: path.to_owned(), body: NOT_FOUND_BODY }
}

/// Body of the landing page of the self-hosted admin dashboard.
pub const ADMIN_LANDING_BODY: &'static str = r#"<div class="card">
           <h2>Welcome to ModelRelay</h2>
           <p>This is the open-source admin dashboard for your self-hosted ModelRelay deployment.</p>
           <div style="display:flex; gap:12px; margin-top:16px; flex-wrap:wrap;">
             <a href="/dashboard" class="btn">Dashboard</a>
             <a href="/setup" class="btn">Setup Wizard</a>
             <a href="/integrate" class="btn">Integrations</a>
           </div>
         </div>
         <div class="card">
           <h2>Quick Links</h2>
           <ul style="color:#8b949e; line-height:1.8;">
             <li><a href="https://github.com/ericflo/modelrelay" target="_blank">GitHub Repository</a></li>
             <li><a href="https://ericflo.github.io/modelrelay/" target="_blank">Documentation</a></li>
             <li><a href="https://modelrelay.io" target="_blank">Hosted Version</a></li>
           </ul>
         </div>"#;

/// The landing page of the self-hosted admin dashboard.
pub fn admin_landing_page() -> (r: ShellPage)
    ensures
        r.status == 200,
        r.title@ == "ModelRelay Admin"@,
        r.path@ == "/"@,
        r.body@ == ADMIN_LANDING_BODY@,
{
    ShellPage { status: 200, title: "ModelRelay Admin", path: "/".to_owned(), body: ADMIN_LANDING_BODY }
}

// ---------------------------------------------------------------------------
// Session guard
// ---------------------------------------------------------------------------

/// Routes that do not require a session.
pub open spec fn exempt_routes() -> Seq<Seq<char>> {
    seq![
        "/"@,
        "/download"@,
        "/health"@,
        "/robots.txt"@,
        "/sitemap.xml"@,
        "/favicon.ico"@,
        "/favicon-32.png"@,
        "/apple-touch-icon.png"@,
        "/icon-512.png"@,
        "/og-image.png"@,
        "/checkout/cancel"@,
        "/terms"@,
        "/privacy"@,
    ]
}

/// Path prefixes that do not require a session (routes with parameters).
pub open spec fn exempt_prefixes() -> Seq<Seq<char>> {
    seq!["/download/desktop/"@, "/updater/"@, "/webhook/"@]
}

/// Whether `path` is served without a session.
pub open spec fn is_session_exempt(path: Seq<char>) -> bool {
    exempt_routes().contains(path) || exists|j: int|
        0 <= j < exempt_prefixes().len() && (#[trigger] exempt_prefixes()[j]).is_prefix_of(path)
}

/// Whether `path` is served without a session.
pub fn session_exempt(path: &str) -> (r: bool)
    ensures
        r == is_session_exempt(path@),
{
    let routes: [&str; 13] = [
        "/",
        "/download",
        "/health",
        "/robots.txt",
        "/sitemap.xml",
        "/favicon.ico",
        "/favicon-32.png",
        "/apple-touch-icon.png",
        "/icon-512.png",
        "/og-image.png",
        "/checkout/cancel",
        "/terms",
        "/privacy",
    ];
    let prefixes: [&str; 3] = ["/download/desktop/", "/updater/", "/webhook/"];
    let ghost rv = routes@.map_values(|x: &str| x@);
    let ghost pv = prefixes@.map_values(|x: &str| x@);
    assert(rv =~= exempt_routes());
    assert(pv =~= exempt_prefixes());
    let mut i: usize = 0;
    while i < 13
        invariant
            i <= 13,
            rv == routes@.map_values(|x: &str| x@),
            rv == exempt_routes(),
            forall|j: int| 0 <= j < i ==> rv[j] != path@,
        decreases 13 - i,
    {
        if str_eq(routes[i], path) {
            assert(rv[i as int] == path@);
            return true;
        }
        i = i + 1;
    }
    assert(!exempt_routes().contains(path@));
    let mut k: usize = 0;
    while k < 3
        invariant
            k <= 3,
            pv == prefixes@.map_values(|x: &str| x@),
            pv == exempt_prefixes(),
            forall|j: int| 0 <= j < k ==> !(#[trigger] pv[j]).is_prefix_of(path@),
        decreases 3 - k,
    {
        if str_starts_with(path, prefixes[k]) {
            assert(pv[k as int].is_prefix_of(path@));
            return true;
        }
        k = k + 1;
    }
    false
}

/// What the session guard does with a request.
pub enum GuardOutcome {
    /// Hand the request on to its route.
    Proceed,
    /// Answer with this page instead.
    Respond(ShellPage),
}

/// The session guard: a request for a route that needs a session, arriving
/// without one (because the session store is unavailable), is answered with
/// a "503 Service Unavailable" page; every other request proceeds.
pub fn session_guard_outcome(path: &str, has_session: bool) -> (r: GuardOutcome)
    ensures
        r is Proceed == (is_session_exempt(path@) || has_session),
        r matches GuardOutcome::Respond(page) ==> {
            &&& page.status == 503
            &&& page.title@ == UNAVAILABLE_TITLE@
            &&& page.path@ == path@
            &&& page.body@ == UNAVAILABLE_BODY@
        },
{
    if session_exempt(path) || has_session {
        GuardOutcome::Proceed
    } else {
        GuardOutcome::Respond(
            ShellPage { status: 503, title: UNAVAILABLE_TITLE, path: path.to_owned(), body: UNAVAILABLE_BODY },
        )
    }
}

/// Exactly these paths are served without a session: the landing page, the
/// download page, health, the SEO files and icons, the checkout cancel page,
/// the legal pages, and everything under `/download/desktop/`, `/updater/`
/// and `/webhook/`. Any other path (such as `/logout`) needs a session.
pub proof fn law_exempt_paths_are_exactly_the_listed_ones(path: Seq<char>)
    ensures
        is_session_exempt(path) <==> {
            ||| path == "/"@
            ||| path == "/download"@
            ||| path == "/health"@
            ||| path == "/robots.txt"@
            ||| path == "/sitemap.xml"@
            ||| path == "/favicon.ico"@
            ||| path == "/favicon-32.png"@
            ||| path == "/apple-touch-icon.png"@
            ||| path == "/icon-512.png"@
            ||| path == "/og-image.png"@
            ||| path == "/checkout/cancel"@
            ||| path == "/terms"@
            ||| path == "/privacy"@
            ||| "/download/desktop/"@.is_prefix_of(path)
            ||| "/updater/"@.is_prefix_of(path)
            ||| "/webhook/"@.is_prefix_of(path)
        },
{
    let r = exempt_routes();
    if r.contains(path) {
        let k = choose|k: int| 0 <= k < r.len() && r[k] == path;
        assert(0 <= k < 13);
    }
    if path == "/"@ { assert(r[0] == path); }
    if path == "/download"@ { assert(r[1] == path); }
    if path == "/health"@ { assert(r[2] == path); }
    if path == "/robots.txt"@ { assert(r[3] == path); }
    if path == "/sitemap.xml"@ { assert(r[4] == path); }
    if path == "/favicon.ico"@ { assert(r[5] == path); }
    if path == "/favicon-32.png"@ { assert(r[6] == path); }
    if path == "/apple-touch-icon.png"@ { assert(r[7] == path); }
    if path == "/icon-512.png"@ { assert(r[8] == path); }
    if path == "/og-image.png"@ { assert(r[9] == path); }
    if path == "/checkout/cancel"@ { assert(r[10] == path); }
    if path == "/terms"@ { assert(r[11] == path); }
    if path == "/privacy"@ { assert(r[12] == path); }
    let p = exempt_prefixes();
    if "/download/desktop/"@.is_prefix_of(path) { assert(p[0].is_prefix_of(path)); }
    if "/updater/"@.is_prefix_of(path) { assert(p[1].is_prefix_of(path)); }
    if "/webhook/"@.is_prefix_of(path) { assert(p[2].is_prefix_of(path)); }
}

/// Session-exempt routes are served whether or not a session exists.
pub proof fn law_exempt_routes_never_unavailable(path: Seq<char>)
    requires
        exempt_routes().contains(path),
    ensures
        is_session_exempt(path),
{
}

/// Anything under an exempt prefix is served without a session.
pub proof fn law_exempt_prefix_covers_subpaths(prefix_index: int, rest: Seq<char>)
    requires
        0 <= prefix_index < exempt_prefixes().len(),
    ensures
        is_session_exempt(exempt_prefixes()[prefix_index] + rest),
{
    let p = exempt_prefixes()[prefix_index];
    assert((p + rest).subrange(0, p.len() as int) =~= p);
    assert(p.is_prefix_of(p + rest));
}

// ---------------------------------------------------------------------------
// Security headers
// ---------------------------------------------------------------------------

/// Content security policy sent with every response.
pub const CONTENT_SECURITY_POLICY: &'static str = "default-src 'self'; script-src 'self' 'unsafe-inline' https://js.stripe.com; frame-src https://js.stripe.com; style-src 'self' 'unsafe-inline'; img-src 'self' data:; connect-src 'self' https://api.stripe.com; font-src 'self'";

/// The security headers set on every response, as (name, value) pairs.
pub open spec fn security_header_list() -> Seq<(Seq<char>, Seq<char>)> {
    seq![
        ("x-content-type-options"@, "nosniff"@),
        ("x-frame-options"@, "DENY"@),
        ("referrer-policy"@, "strict-origin-when-cross-origin"@),
        ("permissions-policy"@, "camera=(), microphone=(), geolocation=()"@),
        ("content-security-policy"@, CONTENT_SECURITY_POLICY@),
    ]
}

/// Whether `needle` occurs in `hay` starting at `at`.
pub open spec fn occurs_at(hay: Seq<char>, needle: Seq<char>, at: int) -> bool {
    0 <= at && at + needle.len() <= hay.len() && hay.subrange(at, at + needle.len()) == needle
}

/// The header list holds one content security policy, in the last place, and
/// it is `CONTENT_SECURITY_POLICY`; every header is one of the five named
/// ones with its fixed value.
pub proof fn law_security_headers_carry_the_policy(i: int)
    ensures
        security_header_list().len() == 5,
        0 <= i < 5 && security_header_list()[i].0 == "content-security-policy"@ ==> security_header_list()[i].1
            == CONTENT_SECURITY_POLICY@,
        security_header_list()[4] == ("content-security-policy"@, CONTENT_SECURITY_POLICY@),
        security_header_list()[0] == ("x-content-type-options"@, "nosniff"@),
        security_header_list()[1] == ("x-frame-options"@, "DENY"@),
        security_header_list()[2] == ("referrer-policy"@, "strict-origin-when-cross-origin"@),
        security_header_list()[3] == ("permissions-policy"@, "camera=(), microphone=(), geolocation=()"@),
{
    if 0 <= i < 4 && security_header_list()[i].0 == "content-security-policy"@ {
        reveal_strlit("content-security-policy");
        reveal_strlit("x-content-type-options");
        reveal_strlit("x-frame-options");
        reveal_strlit("referrer-policy");
        reveal_strlit("permissions-policy");
        assert("content-security-policy"@[0] == 'c');
        assert("x-content-type-options"@[0] == 'x');
        assert("x-frame-options"@[0] == 'x');
        assert("referrer-policy"@[0] == 'r');
        assert("permissions-policy"@[0] == 'p');
    }
}

/// The content security policy lets the pages load Stripe's script from
/// `https://js.stripe.com`, frame Stripe's checkout from the same origin, and
/// call `https://api.stripe.com`.
pub proof fn law_policy_allows_stripe()
    ensures
        occurs_at(CONTENT_SECURITY_POLICY@, "https://js.stripe.com"@, 54),
        occurs_at(CONTENT_SECURITY_POLICY@, "frame-src https://js.stripe.com"@, 77),
        occurs_at(CONTENT_SECURITY_POLICY@, "connect-src 'self' https://api.stripe.com"@, 166),
{
    reveal_strlit("default-src 'self'; script-src 'self' 'unsafe-inline' https://js.stripe.com; frame-src https://js.stripe.com; style-src 'self' 'unsafe-inline'; img-src 'self' data:; connect-src 'self' https://api.stripe.com; font-src 'self'");
    reveal_strlit("https://js.stripe.com");
    reveal_strlit("frame-src https://js.stripe.com");
    reveal_strlit("connect-src 'self' https://api.stripe.com");
    assert(CONTENT_SECURITY_POLICY@.subrange(54, 75) =~= "https://js.stripe.com"@);
    assert(CONTENT_SECURITY_POLICY@.subrange(77, 108) =~= "frame-src https://js.stripe.com"@);
    assert(CONTENT_SECURITY_POLICY@.subrange(166, 207) =~= "connect-src 'self' https://api.stripe.com"@);
}

pub open spec fn header_views(v: Seq<(&str, &str)>) -> Seq<(Seq<char>, Seq<char>)> {
    v.map_values(|h: (&str, &str)| (h.0@, h.1@))
}

/// The standard HTTP security headers set on every response.
pub fn security_headers() -> (r: Vec<(&'static str, &'static str)>)
    ensures
        header_views(r@) == security_header_list(),
{
    let mut r: Vec<(&'static str, &'static str)> = Vec::new();
    r.push(("x-content-type-options", "nosniff"));
    r.push(("x-frame-options", "DENY"));
    r.push(("referrer-policy", "strict-origin-when-cross-origin"));
    r.push(("permissions-policy", "camera=(), microphone=(), geolocation=()"));
    r.push(("content-security-policy", CONTENT_SECURITY_POLICY));
    assert(header_views(r@) =~= security_header_list());
    r
}

// ---------------------------------------------------------------------------
// Health
// ---------------------------------------------------------------------------

/// The health endpoint's answer.
pub struct HealthReport {
    pub status_code: u16,
    pub status: &'static str,
    pub db_connected: bool,
    pub stripe_configured: bool,
}

/// Health report: "200 ok" when the database answers, "503 degraded"
/// otherwise, together with the two facts it is based on.
pub fn health_report(db_ok: bool, stripe_configured: bool) -> (r: HealthReport)
    ensures
        r.status_code == (if db_ok { 200u16 } else { 503u16 }),
        r.status@ == (if db_ok { "ok"@ } else { "degraded"@ }),
        r.db_connected == db_ok,
        r.stripe_configured == stripe_configured,
{
    if db_ok {
        HealthReport { status_code: 200, status: "ok", db_connected: true, stripe_configured }
    } else {
        HealthReport { status_code: 503, status: "degraded", db_connected: false, stripe_configured }
    }
}

// ---------------------------------------------------------------------------
// SEO files and static assets
// ---------------------------------------------------------------------------

/// A fixed text response.
pub struct TextFile {
    pub content_type: &'static str,
    pub body: &'static str,
}

/// Contents of `/robots.txt`.
pub const ROBOTS_TXT: &'static str = "User-agent: *\nAllow: /\nSitemap: https://modelrelay.io/sitemap.xml\n";

/// Contents of `/sitemap.xml`.
pub const SITEMAP_XML: &'static str = r#"<?xml version="1.0" encoding="UTF-8"?>
<urlset xmlns="http://www.sitemaps.org/schemas/sitemap/0.9">
  <url><loc>https://modelrelay.io/</loc></url>
  <url><loc>https://modelrelay.io/pricing</loc></url>
  <url><loc>https://modelrelay.io/signup</loc></url>
  <url><loc>https://modelrelay.io/login</loc></url>
  <url><loc>https://modelrelay.io/setup</loc></url>
  <url><loc>https://modelrelay.io/integrate</loc></url>
  <url><loc>https://modelrelay.io/terms</loc></url>
  <url><loc>https://modelrelay.io/privacy</loc></url>
</urlset>
"#;

/// `/robots.txt`: plain text allowing every crawler and naming the sitemap.
pub fn robots_txt() -> (r: TextFile)
    ensures
        r.content_type@ == "text/plain; charset=utf-8"@,
        r.body@ == ROBOTS_TXT@,
{
    TextFile { content_type: "text/plain; charset=utf-8", body: ROBOTS_TXT }
}

/// `/sitemap.xml`: the public pages of the site.
pub fn sitemap_xml() -> (r: TextFile)
    ensures
        r.content_type@ == "application/xml; charset=utf-8"@,
        r.body@ == SITEMAP_XML@,
{
    TextFile { content_type: "application/xml; charset=utf-8", body: SITEMAP_XML }
}

/// `Cache-Control` value of the branded images.
pub const IMAGE_CACHE_CONTROL: &'static str = "public, max-age=86400, immutable";

/// Content type of the PNG images (touch icon, large icon, social card).
pub const PNG_CONTENT_TYPE: &'static str = "image/png";

/// The site's favicon, an SVG drawing of the brand mark.
pub const FAVICON_SVG: &'static str = r##"<svg xmlns="http://www.w3.org/2000/svg" viewBox="0 0 32 32"><rect width="32" height="32" rx="6" fill="#7c3aed"/><text x="16" y="22" font-family="system-ui,sans-serif" font-size="18" font-weight="800" text-anchor="middle" fill="#fff">M</text></svg>"##;

/// `/favicon.ico`: the SVG favicon.
pub fn favicon() -> (r: TextFile)
    ensures
        r.content_type@ == "image/svg+xml"@,
        r.body@ == FAVICON_SVG@,
{
    TextFile { content_type: "image/svg+xml", body: FAVICON_SVG }
}

// ---------------------------------------------------------------------------
// Download redirects
// ---------------------------------------------------------------------------

/// Where `/download` redirects: the download section of the landing page.
pub const DOWNLOAD_ANCHOR: &'static str = "/#download";

/// Where a desktop download redirects when no installer can be found.
pub const DESKTOP_FALLBACK_URL: &'static str = "https://github.com/ericflo/modelrelay/releases/latest";

/// Where `/download/desktop/{platform}` redirects, given the download table
/// of the latest release (or `None` when it could not be looked up).
pub open spec fn download_target(platform: Seq<char>, table: Option<Map<Seq<char>, Seq<char>>>) -> Seq<char> {
    if download_suffix(platform) is None {
        DESKTOP_FALLBACK_URL@
    } else {
        match table {
            Some(m) => if m.contains_key(platform) {
                m[platform]
            } else {
                DESKTOP_FALLBACK_URL@
            },
            None => DESKTOP_FALLBACK_URL@,
        }
    }
}

/// An unknown platform is always sent to the releases page, whatever the
/// latest release holds.
pub proof fn law_unknown_platform_falls_back(platform: Seq<char>, table: Option<Map<Seq<char>, Seq<char>>>)
    requires
        download_suffix(platform) is None,
    ensures
        download_target(platform, table) == DESKTOP_FALLBACK_URL@,
{
}

/// Redirect target of `/download/desktop/{platform}`: the platform's installer
/// on the latest release, or the releases page for an unknown platform or a
/// missing installer.
pub fn desktop_download_target(platform: &str, table: Option<&TextMap>) -> (r: String)
    ensures
        r@ == download_target(platform@, match table {
            Some(m) => Some(m@),
            None => None,
        }),
{
    if desktop_asset_suffix(platform).is_none() {
        return DESKTOP_FALLBACK_URL.to_owned();
    }
    match table {
        Some(m) => match m.get(platform) {
            Some(url) => url,
            None => DESKTOP_FALLBACK_URL.to_owned(),
        },
        None => DESKTOP_FALLBACK_URL.to_owned(),
    }
}

} // verus!
