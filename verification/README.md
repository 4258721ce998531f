# modelrelay

Verified core of the ModelRelay cloud site and desktop app.

`src/` is checked by Verus:

- `version` — parsing and comparing release versions (`is_newer`), with laws
  on the order it defines.
- `artifacts` — which updater artifact and which installer serve each
  platform, and pairing a signed bundle with its `.sig` file.
- `release` — choosing the latest `desktop-v*` release from the releases list
  and building the platform → installer table.
- `timed_cache` — the five-minute cache of the release lookups.
- `update_check` — the decisions of the desktop updater endpoint.
- `text_map` — the string map behind the signature cache and the download
  table.
- `site` — session guard, security headers, health report, SEO files and
  download redirects.
- `legal` — the Terms of Service and Privacy Policy pages.
- `desktop` — desktop settings, worker status transitions and update
  summaries.

`app/` holds the HTTP handlers, the GitHub and database I/O, the caches and
the Tauri desktop program; it calls the library for every decision.
