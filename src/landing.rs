//! The landing page: a static HTML document that names the pod, its uptime
//! and the user id the process runs as, and links every endpoint.
use crate::decimal::{decimal, decimal_text};
use vstd::prelude::*;
use vstd::string::*;

verus! {

/// The page up to the host name.
pub const PAGE_HEAD: &'static str = r##"<!DOCTYPE html>
<html lang="en">
<head>
<meta charset="utf-8">
<meta name="viewport" content="width=device-width, initial-scale=1">
<title>🦀 Rust on OpenShift</title>
<style>
  :root { --accent: #e44d26; --bg: #0d1117; --card: #161b22; --text: #c9d1d9; --dim: #8b949e; }
  * { margin: 0; padding: 0; box-sizing: border-box; }
  body { font-family: 'Segoe UI', system-ui, sans-serif; background: var(--bg); color: var(--text); min-height: 100vh; display: flex; align-items: center; justify-content: center; }
  .container { max-width: 720px; width: 90%; padding: 2rem; }
  h1 { font-size: 2.5rem; margin-bottom: 0.25rem; }
  h1 span { color: var(--accent); }
  .subtitle { color: var(--dim); font-size: 1.1rem; margin-bottom: 2rem; }
  .hostname { background: var(--card); border: 1px solid #30363d; border-radius: 8px; padding: 1rem 1.25rem; margin-bottom: 2rem; font-family: monospace; font-size: 1rem; }
  .hostname strong { color: var(--accent); }
  .grid { display: grid; grid-template-columns: repeat(auto-fit, minmax(200px, 1fr)); gap: 1rem; margin-bottom: 2rem; }
  .card { background: var(--card); border: 1px solid #30363d; border-radius: 8px; padding: 1.25rem; transition: border-color 0.2s; }
  .card:hover { border-color: var(--accent); }
  .card h3 { font-size: 0.85rem; text-transform: uppercase; letter-spacing: 0.05em; color: var(--dim); margin-bottom: 0.5rem; }
  .card a { color: var(--accent); text-decoration: none; font-family: monospace; font-size: 1.05rem; }
  .card a:hover { text-decoration: underline; }
  .card p { color: var(--dim); font-size: 0.85rem; margin-top: 0.4rem; }
  .footer { color: var(--dim); font-size: 0.8rem; text-align: center; margin-top: 1rem; }
  .uptime { animation: pulse 2s infinite; display: inline-block; }
  @keyframes pulse { 0%, 100% { opacity: 1; } 50% { opacity: 0.5; } }
</style>
</head>
<body>
<div class="container">
  <h1>🦀 <span>Rust</span> on OpenShift</h1>
  <p class="subtitle">A lightweight container demo &mdash; running and ready.</p>

  <div class="hostname">
    <strong>Pod:</strong> "##;

/// Between the host name and the uptime.
pub const PAGE_AFTER_HOST: &'static str = r##" &nbsp;|&nbsp;
    <strong>Uptime:</strong> <span class="uptime">"##;

/// Between the uptime and the user id.
pub const PAGE_AFTER_UPTIME: &'static str = r##"s</span> &nbsp;|&nbsp;
    <strong>UID:</strong> "##;

/// The page after the user id.
pub const PAGE_TAIL: &'static str = r##"
  </div>

  <div class="grid">
    <div class="card">
      <h3>🩺 Health</h3>
      <a href="/healthz">/healthz</a>
      <p>Liveness probe endpoint</p>
    </div>
    <div class="card">
      <h3>✅ Ready</h3>
      <a href="/readyz">/readyz</a>
      <p>Readiness probe endpoint</p>
    </div>
    <div class="card">
      <h3>🔍 Container Info</h3>
      <a href="/info">/info</a>
      <p>Runtime environment &amp; system details</p>
    </div>
    <div class="card">
      <h3>🧮 Fibonacci</h3>
      <a href="/fib?n=40">/fib?n=40</a>
      <p>CPU stress test via naive recursion</p>
    </div>
    <div class="card">
      <h3>💥 Crash Test</h3>
      <a href="/crash">/crash</a>
      <p>Trigger panic &mdash; test restart policy</p>
    </div>
    <div class="card">
      <h3>📊 Metrics</h3>
      <a href="/metrics">/metrics</a>
      <p>Prometheus-style metrics</p>
    </div>
  </div>

  <p class="footer">Built with Axum &bull; Compiled with musl &bull; Running from scratch</p>
</div>
</body>
</html>"##;

/// Host name shown when the system does not give one.
pub const UNKNOWN_HOST: &'static str = "unknown";

/// The host name to show: the one the system gave, else [`UNKNOWN_HOST`].
pub open spec fn shown_host(host: Option<Seq<char>>) -> Seq<char> {
    match host {
        Some(h) => h,
        None => UNKNOWN_HOST@,
    }
}

/// The host name to show for what the system gave.
pub fn host_or_unknown(host: Option<String>) -> (r: String)
    ensures
        r@ == shown_host(
            match host {
                Some(h) => Some(h@),
                None => None,
            },
        ),
{
    match host {
        Some(h) => h,
        None => String::from_str(UNKNOWN_HOST),
    }
}

/// The landing page for a host name, an uptime in seconds and a user id.
pub open spec fn landing_text(host: Seq<char>, uptime_seconds: u64, uid: u32) -> Seq<char> {
    PAGE_HEAD@ + host + PAGE_AFTER_HOST@ + decimal(uptime_seconds as nat) + PAGE_AFTER_UPTIME@
        + decimal(uid as nat) + PAGE_TAIL@
}

/// Writes the landing page.
pub fn render_landing_page(host: &str, uptime_seconds: u64, uid: u32) -> (r: String)
    ensures
        r@ == landing_text(host@, uptime_seconds, uid),
{
    let mut out = String::from_str(PAGE_HEAD);
    out.append(host);
    out.append(PAGE_AFTER_HOST);
    let up = decimal_text(uptime_seconds);
    out.append(up.as_str());
    out.append(PAGE_AFTER_UPTIME);
    let id = decimal_text(uid as u64);
    out.append(id.as_str());
    out.append(PAGE_TAIL);
    assert(out@ =~= landing_text(host@, uptime_seconds, uid));
    out
}

} // verus!
