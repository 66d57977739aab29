//! HTML page builders: pure functions from the data shown to the full page
//! text.
//!
//! Every page is specified exactly: its contract equates the returned
//! string with a spec-level concatenation of the named markup constants and
//! the dynamic parts, so a caller knows the whole output from the inputs
//! alone.  The markup constants themselves are shared between the bodies
//! and the specifications.

use vstd::prelude::*;

use crate::models::{category_label, category_label_spec, User, VideoWithUploader};
use crate::stats::{DashboardStats, WeeklyMinutes};
use crate::text::{
    dec_rep, first_word, first_word_spec, i64_to_string, initials, int_rep, str_eq,
    u64_to_string, word_initials,
};

verus! {

// ── Shared CSS ─────────────────────────────────────────────────────────────

pub const CSS: &'static str = r##"<style>
    :root {
        --calm-dark:  #1b4332;
        --calm-mid:   #2d6a4f;
        --calm-light: #40916c;
        --calm-pale:  #d8f3dc;
    }
    * { box-sizing: border-box; }
    body {
        background: #f0f7f4;
        font-family: 'Segoe UI', system-ui, -apple-system, sans-serif;
        min-height: 100vh;
        margin: 0;
    }
    /* ── Navbar ── */
    .navbar {
        background: linear-gradient(135deg, var(--calm-dark), var(--calm-light));
        box-shadow: 0 2px 12px rgba(0,0,0,0.18);
    }
    .navbar-brand {
        font-weight: 700;
        font-size: 1.4rem;
        letter-spacing: -0.4px;
    }
    .nav-link { color: rgba(255,255,255,0.85) !important; transition: color .2s; }
    .nav-link:hover { color: #fff !important; }
    /* ── Cards ── */
    .card {
        border: none;
        border-radius: 20px;
        box-shadow: 0 4px 30px rgba(0,0,0,0.07);
    }
    /* ── Buttons ── */
    .btn-calm {
        background: linear-gradient(135deg, var(--calm-mid), var(--calm-light));
        border: none;
        color: #fff;
        border-radius: 10px;
        padding: 10px 24px;
        font-weight: 500;
        transition: all .2s;
    }
    .btn-calm:hover {
        background: linear-gradient(135deg, var(--calm-dark), var(--calm-mid));
        color: #fff;
        transform: translateY(-1px);
        box-shadow: 0 4px 14px rgba(45,106,79,.35);
    }
    /* ── Form controls ── */
    .form-control {
        border-radius: 10px;
        border: 1.5px solid #cde8d6;
        padding: 10px 16px;
    }
    .form-control:focus {
        border-color: var(--calm-light);
        box-shadow: 0 0 0 3px rgba(64,145,108,.18);
        outline: none;
    }
    .form-label { font-weight: 500; color: var(--calm-dark); }
    /* ── Utility ── */
    .text-calm  { color: var(--calm-mid)  !important; }
    .bg-calm    { background: var(--calm-pale); }
    /* ── Stat cards ── */
    .stat-card {
        background: linear-gradient(135deg, var(--calm-mid), var(--calm-light));
        color: #fff;
        border-radius: 18px;
        padding: 26px 24px;
    }
    /* ── Profile avatar ── */
    .profile-avatar {
        width: 82px; height: 82px;
        border-radius: 50%;
        background: linear-gradient(135deg, var(--calm-mid), var(--calm-light));
        display: flex; align-items: center; justify-content: center;
        font-size: 2rem; font-weight: 700; color: #fff;
        flex-shrink: 0;
    }
    /* ── Info rows ── */
    .info-row {
        background: #f0f7f4;
        border-radius: 12px;
        padding: 14px 18px;
    }
    /* ── Bar chart ── */
    .bar-wrap {
        display: flex;
        align-items: flex-end;
        gap: 8px;
        height: 90px;
    }
    .bar {
        flex: 1;
        border-radius: 6px 6px 0 0;
        background: linear-gradient(to top, #40916c, #74c69d);
        opacity: .75;
        transition: opacity .2s;
    }
    .bar:hover { opacity: 1; }
    .bar.active-bar {
        background: linear-gradient(to top, #2d6a4f, #52b788);
        opacity: 1;
    }
    /* ── Breathing circle ── */
    .breath-circle {
        width: 200px;
        height: 200px;
        border-radius: 50%;
        background: radial-gradient(circle at 40% 35%, #74c69d, #2d6a4f);
        margin: 2rem auto;
        transition: transform 4s ease-in-out, box-shadow 4s ease-in-out;
        box-shadow: 0 0 40px rgba(82,183,136,0.35);
        display: flex;
        align-items: center;
        justify-content: center;
        color: #fff;
        font-size: 2.5rem;
    }
    .breath-circle.expand {
        transform: scale(1.45);
        box-shadow: 0 0 70px rgba(82,183,136,0.55);
    }
    /* ── Meditation orb ── */
    .meditate-orb {
        width: 200px;
        height: 200px;
        border-radius: 50%;
        background: radial-gradient(circle at 40% 35%, #b39ddb, #512da8);
        margin: 2rem auto;
        animation: meditate-pulse 6s ease-in-out infinite;
        box-shadow: 0 0 50px rgba(123,63,140,0.35);
        display: flex;
        align-items: center;
        justify-content: center;
        color: #fff;
        font-size: 2.5rem;
    }
    @keyframes meditate-pulse {
        0%, 100% { transform: scale(1);    box-shadow: 0 0 40px rgba(123,63,140,0.30); }
        50%       { transform: scale(1.15); box-shadow: 0 0 80px rgba(123,63,140,0.55); }
    }
    /* ── Progress bar ── */
    .calm-progress {
        height: 8px;
        border-radius: 4px;
        background: #d8f3dc;
        overflow: hidden;
        margin: 1rem 0;
    }
    .calm-progress-bar {
        height: 100%;
        border-radius: 4px;
        background: linear-gradient(90deg, #40916c, #74c69d);
        transition: width 1s linear;
    }
    /* ── Mood picker ── */
    .mood-option input { display: none; }
    .mood-option label {
        font-size: 2.2rem;
        cursor: pointer;
        display: inline-block;
        padding: 6px 10px;
        border-radius: 12px;
        transition: transform .15s, background .15s;
        line-height: 1;
    }
    .mood-option input:checked + label,
    .mood-option label:hover {
        background: var(--calm-pale);
        transform: scale(1.25);
    }
    /* ── Session complete banner ── */
    .session-done-banner {
        display: none;
        background: linear-gradient(135deg, #d8f3dc, #b7e4c7);
        border-radius: 16px;
        padding: 20px 28px;
        text-align: center;
        border: 1.5px solid #74c69d;
        margin-top: 1.5rem;
    }
    /* ── Video cards ── */
    .video-card {
        border-radius: 20px;
        overflow: hidden;
        box-shadow: 0 4px 30px rgba(0,0,0,0.08);
        transition: transform .2s, box-shadow .2s;
        background: #fff;
        border: none;
        height: 100%;
    }
    .video-card:hover {
        transform: translateY(-4px);
        box-shadow: 0 10px 40px rgba(0,0,0,0.13);
    }
    .video-thumb {
        width: 100%;
        aspect-ratio: 16/9;
        object-fit: cover;
        background: #e8f5e9;
        display: flex;
        align-items: center;
        justify-content: center;
        font-size: 3rem;
    }
    .video-thumb img {
        width: 100%;
        height: 100%;
        object-fit: cover;
    }
    .category-badge {
        display: inline-block;
        padding: 3px 12px;
        border-radius: 20px;
        font-size: .78rem;
        font-weight: 600;
        letter-spacing: .3px;
    }
    .cat-breathing     { background:#d8f3dc; color:#1b4332; }
    .cat-meditation    { background:#ede7f6; color:#4a148c; }
    .cat-nutrition     { background:#fff3e0; color:#e65100; }
    .cat-exercise      { background:#e3f2fd; color:#0d47a1; }
    .cat-mental-health { background:#e0f2f1; color:#004d40; }
    .cat-general       { background:#f5f5f5; color:#424242; }
    /* ── Filter pills ── */
    .filter-pill {
        border: 1.5px solid #cde8d6;
        border-radius: 20px;
        padding: 5px 16px;
        font-size: .85rem;
        font-weight: 500;
        cursor: pointer;
        background: #fff;
        color: var(--calm-mid);
        transition: all .15s;
    }
    .filter-pill:hover,
    .filter-pill.active {
        background: var(--calm-mid);
        color: #fff;
        border-color: var(--calm-mid);
    }
    /* ── Video player ── */
    .video-player-wrap {
        border-radius: 16px;
        overflow: hidden;
        background: #000;
        box-shadow: 0 8px 40px rgba(0,0,0,0.18);
    }
    .video-player-wrap video {
        width: 100%;
        display: block;
        max-height: 520px;
    }
</style>"##;

// ── Shared base layout ─────────────────────────────────────────────────────

pub const NAV_LOGGED_IN: &'static str = r##"<li class="nav-item">
              <a class="nav-link" href="/dashboard">
                  <svg xmlns="http://www.w3.org/2000/svg" width="16" height="16" fill="currentColor" viewBox="0 0 16 16" style="margin-right:4px"><path d="M8 4a.5.5 0 0 1 .5.5V6a.5.5 0 0 1-1 0V4.5A.5.5 0 0 1 8 4zM3.732 5.732a.5.5 0 0 1 .707 0l.915.914a.5.5 0 1 1-.708.708l-.914-.915a.5.5 0 0 1 0-.707zM2 10a.5.5 0 0 1 .5-.5h1.586a.5.5 0 0 1 0 1H2.5A.5.5 0 0 1 2 10zm9.5 0a.5.5 0 0 1 .5-.5h1.5a.5.5 0 0 1 0 1H12a.5.5 0 0 1-.5-.5zm.754-4.246a.389.389 0 0 0-.527-.02L9.650 7.292a.999.999 0 1 0 1.122 1.657l2.244-2.02a.389.389 0 0 0 .069-.527A.5.5 0 0 1 11.5 6.268z"/></svg>
                  Dashboard
              </a>
           </li>
           <li class="nav-item">
              <a class="nav-link" href="/videos">
                  <svg xmlns="http://www.w3.org/2000/svg" width="16" height="16" fill="currentColor" viewBox="0 0 16 16" style="margin-right:4px"><path d="M0 1a1 1 0 0 1 1-1h14a1 1 0 0 1 1 1v14a1 1 0 0 1-1 1H1a1 1 0 0 1-1-1V1zm4 0v6h6V1H4zm6 8H4v6h6V9zm-6-1h2v1H4V8zm0-3h2v1H4V5zm6 3h2v1h-2V8zm0-3h2v1h-2V5zM1 1v2h2V1H1zm2 3H1v2h2V4zM1 8v2h2V8H1zm2 3H1v2h2v-2z"/></svg>
                  Videos
              </a>
           </li>
           <li class="nav-item">
              <a class="nav-link" href="/profile">
                  <svg xmlns="http://www.w3.org/2000/svg" width="16" height="16" fill="currentColor" viewBox="0 0 16 16" style="margin-right:4px"><path d="M8 8a3 3 0 1 0 0-6 3 3 0 0 0 0 6zm2-3a2 2 0 1 1-4 0 2 2 0 0 1 4 0zm4 8c0 1-1 1-1 1H3s-1 0-1-1 1-4 6-4 6 3 6 4zm-1-.004c-.001-.246-.154-.986-.832-1.664C11.516 10.68 10.289 10 8 10c-2.29 0-3.516.68-4.168 1.332-.678.678-.83 1.418-.832 1.664h10z"/></svg>
                  Profile
              </a>
           </li>
           <li class="nav-item">
              <a class="nav-link" href="/logout">
                  <svg xmlns="http://www.w3.org/2000/svg" width="16" height="16" fill="currentColor" viewBox="0 0 16 16" style="margin-right:4px"><path fill-rule="evenodd" d="M10 12.5a.5.5 0 0 1-.5.5h-8a.5.5 0 0 1-.5-.5v-9a.5.5 0 0 1 .5-.5h8a.5.5 0 0 1 .5.5v2a.5.5 0 0 0 1 0v-2A1.5 1.5 0 0 0 9.5 2h-8A1.5 1.5 0 0 0 0 3.5v9A1.5 1.5 0 0 0 1.5 14h8a1.5 1.5 0 0 0 1.5-1.5v-2a.5.5 0 0 0-1 0v2z"/><path fill-rule="evenodd" d="M15.854 8.354a.5.5 0 0 0 0-.708l-3-3a.5.5 0 0 0-.708.708L14.293 7.5H5.5a.5.5 0 0 0 0 1h8.793l-2.147 2.146a.5.5 0 0 0 .708.708l3-3z"/></svg>
                  Logout
              </a>
           </li>"##;

pub const NAV_LOGGED_OUT: &'static str = r##"<li class="nav-item">
              <a class="nav-link" href="/login">
                  <svg xmlns="http://www.w3.org/2000/svg" width="16" height="16" fill="currentColor" viewBox="0 0 16 16" style="margin-right:4px"><path fill-rule="evenodd" d="M6 3.5a.5.5 0 0 1 .5-.5h8a.5.5 0 0 1 .5.5v9a.5.5 0 0 1-.5.5h-8a.5.5 0 0 1-.5-.5v-2a.5.5 0 0 0-1 0v2A1.5 1.5 0 0 0 6.5 14h8a1.5 1.5 0 0 0 1.5-1.5v-9A1.5 1.5 0 0 0 14.5 2h-8A1.5 1.5 0 0 0 5 3.5v2a.5.5 0 0 0 1 0v-2z"/><path fill-rule="evenodd" d="M11.854 8.354a.5.5 0 0 0 0-.708l-3-3a.5.5 0 0 0-.708.708L10.293 7.5H1.5a.5.5 0 0 0 0 1h8.793l-2.147 2.146a.5.5 0 0 0 .708.708l3-3z"/></svg>
                  Login
              </a>
           </li>
           <li class="nav-item">
              <a class="nav-link" href="/register">
                  <svg xmlns="http://www.w3.org/2000/svg" width="16" height="16" fill="currentColor" viewBox="0 0 16 16" style="margin-right:4px"><path d="M6 8a3 3 0 1 0 0-6 3 3 0 0 0 0 6zm2-3a2 2 0 1 1-4 0 2 2 0 0 1 4 0zm4 8c0 1-1 1-1 1H1s-1 0-1-1 1-4 6-4 6 3 6 4zm-1-.004c-.001-.246-.154-.986-.832-1.664C9.516 10.68 8.289 10 6 10c-2.29 0-3.516.68-4.168 1.332-.678.678-.83 1.418-.832 1.664h10z"/><path fill-rule="evenodd" d="M13.5 5a.5.5 0 0 1 .5.5V7h1.5a.5.5 0 0 1 0 1H14v1.5a.5.5 0 0 1-1 0V8h-1.5a.5.5 0 0 1 0-1H13V5.5a.5.5 0 0 1 .5-.5z"/></svg>
                  Register
              </a>
           </li>"##;

pub const LAYOUT_OPEN: &'static str = r##"<!DOCTYPE html>
<html lang="en">
<head>
    <meta charset="UTF-8">
    <meta name="viewport" content="width=device-width, initial-scale=1.0">
    <title>"##;

pub const LAYOUT_AFTER_TITLE: &'static str = r##" — CalmControl</title>
    <link
        href="https://cdn.jsdelivr.net/npm/bootstrap@5.3.2/dist/css/bootstrap.min.css"
        rel="stylesheet"
        integrity="sha384-T3c6CoIi6uLrA9TneNEoa7RxnatzjcDSCmG1MXxSR1GAsXEV/Dwwykc2MPK8M2HN"
        crossorigin="anonymous">
    "##;

pub const LAYOUT_AFTER_CSS: &'static str = r##"
</head>
<body>
<nav class="navbar navbar-expand-lg navbar-dark mb-5">
    <div class="container">
        <a class="navbar-brand text-white" href="/">&#127807; CalmControl</a>
        <button class="navbar-toggler" type="button"
                data-bs-toggle="collapse" data-bs-target="#navMain"
                aria-controls="navMain" aria-expanded="false" aria-label="Toggle navigation">
            <span class="navbar-toggler-icon"></span>
        </button>
        <div class="collapse navbar-collapse" id="navMain">
            <ul class="navbar-nav ms-auto gap-1">
                "##;

pub const LAYOUT_AFTER_NAV: &'static str = r##"
            </ul>
        </div>
    </div>
</nav>
<main class="container pb-5">
    "##;

pub const LAYOUT_TAIL: &'static str = r##"
</main>
<script
    src="https://cdn.jsdelivr.net/npm/bootstrap@5.3.2/dist/js/bootstrap.bundle.min.js"
    integrity="sha384-C6RzsynM9kWDrMNeT87bh95OGNyZPhcTNXj1NW7RuBCsyN/o0jlpcV8Qyq46cDfL"
    crossorigin="anonymous"></script>
</body>
</html>"##;

/// The navigation items shown: the member menu when logged in, otherwise
/// login/register.
pub open spec fn nav_items_spec(logged_in: bool) -> Seq<char> {
    if logged_in {
        NAV_LOGGED_IN@
    } else {
        NAV_LOGGED_OUT@
    }
}

/// The whole page around a title and a content block.
pub open spec fn base_layout_spec(title: Seq<char>, content: Seq<char>, logged_in: bool) -> Seq<
    char,
> {
    LAYOUT_OPEN@ + title + LAYOUT_AFTER_TITLE@ + CSS@ + LAYOUT_AFTER_CSS@ + nav_items_spec(
        logged_in,
    ) + LAYOUT_AFTER_NAV@ + content + LAYOUT_TAIL@
}

/// Wrap a content block in the shared page chrome.
pub fn base_layout(title: &str, content: &str, logged_in: bool) -> (r: String)
    ensures
        r@ == base_layout_spec(title@, content@, logged_in),
{
    let mut s = String::from_str(LAYOUT_OPEN);
    s.append(title);
    s.append(LAYOUT_AFTER_TITLE);
    s.append(CSS);
    s.append(LAYOUT_AFTER_CSS);
    if logged_in {
        s.append(NAV_LOGGED_IN);
    } else {
        s.append(NAV_LOGGED_OUT);
    }
    s.append(LAYOUT_AFTER_NAV);
    s.append(content);
    s.append(LAYOUT_TAIL);
    s
}

// ── Alert helper ───────────────────────────────────────────────────────────

pub const ALERT_OPEN: &'static str = r##"<div class="alert alert-danger d-flex align-items-center gap-2 rounded-3 mb-4" role="alert">
            <svg xmlns="http://www.w3.org/2000/svg" width="18" height="18" fill="currentColor" viewBox="0 0 16 16">
                <path d="M8.982 1.566a1.13 1.13 0 0 0-1.96 0L.165 13.233c-.457.778.091 1.767.98 1.767h13.713c.889 0 1.438-.99.98-1.767L8.982 1.566zM8 5c.535 0 .954.462.9.995l-.35 3.507a.552.552 0 0 1-1.1 0L7.1 5.995A.905.905 0 0 1 8 5zm.002 6a1 1 0 1 1 0 2 1 1 0 0 1 0-2z"/>
            </svg>
            <span>"##;

pub const ALERT_CLOSE: &'static str = r##"</span>
        </div>"##;

/// The red alert box around an error message.
pub open spec fn error_alert_spec(msg: Seq<char>) -> Seq<char> {
    ALERT_OPEN@ + msg + ALERT_CLOSE@
}

/// Render the red alert box around an error message.
pub fn error_alert(msg: &str) -> (r: String)
    ensures
        r@ == error_alert_spec(msg@),
{
    let mut s = String::from_str(ALERT_OPEN);
    s.append(msg);
    s.append(ALERT_CLOSE);
    s
}

/// The alert block of a page: the alert box around the message when there
/// is one, otherwise nothing.
pub open spec fn alert_opt_spec(error: Option<&str>) -> Seq<char> {
    match error {
        Some(e) => error_alert_spec(e@),
        None => Seq::empty(),
    }
}

fn alert_opt(error: Option<&str>) -> (r: String)
    ensures
        r@ == alert_opt_spec(error),
{
    match error {
        Some(e) => error_alert(e),
        None => String::new(),
    }
}

// ── Login page ─────────────────────────────────────────────────────────────

pub const LOGIN_BEFORE_ALERT: &'static str = r##"<div class="row justify-content-center">
    <div class="col-12 col-sm-10 col-md-7 col-lg-5 col-xl-4">

        <div class="text-center mb-4">
            <div style="font-size:3rem;line-height:1">&#127807;</div>
            <h2 class="fw-bold text-calm mt-2 mb-1">Welcome back</h2>
            <p class="text-muted mb-0">Sign in to your CalmControl account</p>
        </div>

        <div class="card p-4 p-md-5">
            "##;

pub const LOGIN_AFTER_ALERT: &'static str = r##"
            <form method="POST" action="/login" novalidate>
                <div class="mb-3">
                    <label class="form-label" for="email">Email address</label>
                    <input
                        type="email" class="form-control" id="email" name="email"
                        placeholder="you@example.com" autocomplete="email" required>
                </div>
                <div class="mb-4">
                    <label class="form-label" for="password">Password</label>
                    <input
                        type="password" class="form-control" id="password" name="password"
                        placeholder="&bull;&bull;&bull;&bull;&bull;&bull;&bull;&bull;"
                        autocomplete="current-password" required>
                </div>
                <button type="submit" class="btn btn-calm w-100 py-2">
                    Sign In
                </button>
            </form>

            <hr class="my-4">
            <p class="text-center text-muted mb-0" style="font-size:.95rem">
                Don&apos;t have an account?
                <a href="/register" class="text-calm fw-semibold">Create one</a>
            </p>
        </div>

    </div>
</div>"##;

pub open spec fn login_page_spec(error: Option<&str>) -> Seq<char> {
    base_layout_spec(
        "Login"@,
        LOGIN_BEFORE_ALERT@ + alert_opt_spec(error) + LOGIN_AFTER_ALERT@,
        false,
    )
}

/// The sign-in page, with an optional error message in its alert box.
pub fn login_page(error: Option<&str>) -> (r: String)
    ensures
        r@ == login_page_spec(error),
{
    let alert = alert_opt(error);
    let mut content = String::from_str(LOGIN_BEFORE_ALERT);
    content.append(alert.as_str());
    content.append(LOGIN_AFTER_ALERT);
    base_layout("Login", content.as_str(), false)
}

// ── Register page ──────────────────────────────────────────────────────────

pub const REGISTER_BEFORE_ALERT: &'static str = r##"<div class="row justify-content-center">
    <div class="col-12 col-sm-10 col-md-8 col-lg-6 col-xl-5">

        <div class="text-center mb-4">
            <div style="font-size:3rem;line-height:1">&#127807;</div>
            <h2 class="fw-bold text-calm mt-2 mb-1">Create your account</h2>
            <p class="text-muted mb-0">Start your journey to calm &amp; clarity</p>
        </div>

        <div class="card p-4 p-md-5">
            "##;

pub const REGISTER_AFTER_ALERT: &'static str = r##"
            <form method="POST" action="/register" novalidate>
                <div class="mb-3">
                    <label class="form-label" for="name">Full Name</label>
                    <input
                        type="text" class="form-control" id="name" name="name"
                        placeholder="Your name" autocomplete="name" required>
                </div>
                <div class="mb-3">
                    <label class="form-label" for="email">Email address</label>
                    <input
                        type="email" class="form-control" id="email" name="email"
                        placeholder="you@example.com" autocomplete="email" required>
                </div>
                <div class="mb-3">
                    <label class="form-label" for="password">Password</label>
                    <input
                        type="password" class="form-control" id="password" name="password"
                        placeholder="Minimum 8 characters"
                        autocomplete="new-password" required>
                </div>
                <div class="mb-4">
                    <label class="form-label" for="confirm_password">Confirm Password</label>
                    <input
                        type="password" class="form-control"
                        id="confirm_password" name="confirm_password"
                        placeholder="Repeat your password"
                        autocomplete="new-password" required>
                </div>
                <button type="submit" class="btn btn-calm w-100 py-2">
                    Create Account
                </button>
            </form>

            <hr class="my-4">
            <p class="text-center text-muted mb-0" style="font-size:.95rem">
                Already have an account?
                <a href="/login" class="text-calm fw-semibold">Sign in</a>
            </p>
        </div>

    </div>
</div>"##;

pub open spec fn register_page_spec(error: Option<&str>) -> Seq<char> {
    base_layout_spec(
        "Register"@,
        REGISTER_BEFORE_ALERT@ + alert_opt_spec(error) + REGISTER_AFTER_ALERT@,
        false,
    )
}

/// The account creation page, with an optional error message in its alert
/// box.
pub fn register_page(error: Option<&str>) -> (r: String)
    ensures
        r@ == register_page_spec(error),
{
    let alert = alert_opt(error);
    let mut content = String::from_str(REGISTER_BEFORE_ALERT);
    content.append(alert.as_str());
    content.append(REGISTER_AFTER_ALERT);
    base_layout("Register", content.as_str(), false)
}

// ── Breathing page ─────────────────────────────────────────────────────────

pub const BREATHE_CONTENT: &'static str = r##"<div class="row justify-content-center">
    <div class="col-12 col-md-7 col-lg-5 text-center">

        <h2 class="fw-bold text-calm mb-1">&#128168;&nbsp; Breathing Exercise</h2>
        <p class="text-muted mb-0">Box breathing &mdash; 4 seconds each phase &bull; 5 cycles</p>

        <!-- Breathing circle -->
        <div id="breath-circle" class="breath-circle">&#127807;</div>

        <!-- Phase label + countdown -->
        <div id="phase-text" class="fw-bold fs-4 mb-1" style="color:var(--calm-mid)">Get Ready&hellip;</div>
        <div id="countdown" class="display-6 fw-bold text-calm mb-3">&nbsp;</div>

        <!-- Progress -->
        <div class="d-flex justify-content-between mb-1">
            <small class="text-muted">Cycle <span id="cycle-count">0</span> of 5</small>
            <small class="text-muted" id="progress-label">0%</small>
        </div>
        <div class="calm-progress mb-4">
            <div id="progress-bar" class="calm-progress-bar" style="width:0%"></div>
        </div>

        <!-- Complete banner (hidden until done) -->
        <div id="session-done" class="session-done-banner">
            <div style="font-size:2.5rem">&#127881;</div>
            <h5 class="fw-bold text-calm mt-2 mb-1">Session Complete!</h5>
            <p class="text-muted mb-3">You completed 5 rounds of box breathing. Well done!</p>
            <form method="POST" action="/breathe/complete">
                <button type="submit" class="btn btn-calm px-5 py-2">
                    &#10003;&nbsp; Save &amp; Return to Dashboard
                </button>
            </form>
        </div>

        <!-- Back link -->
        <div class="mt-4">
            <a href="/dashboard" class="text-muted" style="font-size:.9rem">&#8592; Back to Dashboard</a>
        </div>

    </div>
</div>

<script>
(function () {
    const PHASES = [
        { name: "Inhale",  seconds: 4, expand: true  },
        { name: "Hold",    seconds: 4, expand: true  },
        { name: "Exhale",  seconds: 4, expand: false },
        { name: "Hold",    seconds: 4, expand: false },
    ];
    const TOTAL_CYCLES = 5;
    const TOTAL_STEPS  = TOTAL_CYCLES * PHASES.length; // 20

    let cycle    = 0;
    let phaseIdx = 0;
    let tick     = PHASES[0].seconds; // seconds remaining in current phase

    const circle      = document.getElementById('breath-circle');
    const phaseText   = document.getElementById('phase-text');
    const countdownEl = document.getElementById('countdown');
    const cycleEl     = document.getElementById('cycle-count');
    const progressBar = document.getElementById('progress-bar');
    const progressLbl = document.getElementById('progress-label');
    const doneDiv     = document.getElementById('session-done');

    function applyCircle(expand) {
        if (expand) {
            circle.classList.add('expand');
        } else {
            circle.classList.remove('expand');
        }
    }

    function render() {
        const phase = PHASES[phaseIdx];
        phaseText.textContent = phase.name;
        countdownEl.textContent = tick;
        cycleEl.textContent = cycle + 1;
        applyCircle(phase.expand);

        const completedSteps = cycle * PHASES.length + phaseIdx;
        const pct = Math.round(completedSteps / TOTAL_STEPS * 100);
        progressBar.style.width = pct + '%';
        progressLbl.textContent = pct + '%';
    }

    // Small delay so first CSS transition fires
    setTimeout(() => {
        render();

        const timer = setInterval(() => {
            tick--;
            if (tick <= 0) {
                phaseIdx++;
                if (phaseIdx >= PHASES.length) {
                    phaseIdx = 0;
                    cycle++;
                }
                if (cycle >= TOTAL_CYCLES) {
                    clearInterval(timer);
                    progressBar.style.width = '100%';
                    progressLbl.textContent = '100%';
                    phaseText.textContent = 'Well done!';
                    countdownEl.textContent = '';
                    doneDiv.style.display = 'block';
                    return;
                }
                tick = PHASES[phaseIdx].seconds;
            }
            render();
        }, 1000);
    }, 300);
}());
</script>"##;

pub open spec fn breathe_page_spec() -> Seq<char> {
    base_layout_spec("Breathing Exercise"@, BREATHE_CONTENT@, true)
}

/// The guided box-breathing session page.
pub fn breathe_page() -> (r: String)
    ensures
        r@ == breathe_page_spec(),
{
    base_layout("Breathing Exercise", BREATHE_CONTENT, true)
}

// ── Meditation page ────────────────────────────────────────────────────────

pub const MEDITATE_CONTENT: &'static str = r##"<div class="row justify-content-center">
    <div class="col-12 col-md-7 col-lg-5 text-center">

        <h2 class="fw-bold mb-1" style="color:#512da8">&#127774;&nbsp; Guided Meditation</h2>
        <p class="text-muted mb-0">Find a comfortable position, close your eyes, and breathe naturally</p>

        <!-- Meditation orb -->
        <div class="meditate-orb">&#129445;</div>

        <!-- Timer display -->
        <div id="timer-display" class="display-4 fw-bold mb-1" style="color:#512da8; font-variant-numeric: tabular-nums;">10:00</div>
        <p id="timer-label" class="text-muted mb-3">remaining</p>

        <!-- Progress -->
        <div class="calm-progress mb-2" style="background:#ede7f6;">
            <div id="progress-bar" class="calm-progress-bar" style="width:0%; background:linear-gradient(90deg,#7b3f8c,#b39ddb);"></div>
        </div>

        <!-- Cycling affirmation -->
        <p id="affirmation" class="fst-italic text-muted mb-4" style="font-size:.95rem; min-height:1.5em;">&ldquo;You are present. You are calm.&rdquo;</p>

        <!-- Complete banner -->
        <div id="session-done" class="session-done-banner" style="border-color:#b39ddb; background:linear-gradient(135deg,#ede7f6,#d1c4e9);">
            <div style="font-size:2.5rem">&#129309;</div>
            <h5 class="fw-bold mt-2 mb-1" style="color:#512da8">Meditation Complete!</h5>
            <p class="text-muted mb-3">10 mindful minutes. Your mind thanks you.</p>
            <form method="POST" action="/meditate/complete">
                <button type="submit" class="btn px-5 py-2"
                        style="background:linear-gradient(135deg,#7b3f8c,#9b59b6);color:#fff;border:none;border-radius:10px;font-weight:500;">
                    &#10003;&nbsp; Save &amp; Return to Dashboard
                </button>
            </form>
        </div>

        <!-- Skip / complete early -->
        <form method="POST" action="/meditate/complete" class="mt-3" id="skip-form" style="display:none;">
            <button type="submit" class="btn btn-sm"
                    style="border:1.5px solid #9b59b6;color:#9b59b6;border-radius:8px;font-size:.85rem;">
                &#9654;&nbsp; Mark Complete Early
            </button>
        </form>

        <div class="mt-3">
            <a href="/dashboard" class="text-muted" style="font-size:.9rem">&#8592; Back to Dashboard</a>
        </div>

    </div>
</div>

<script>
(function () {
    const TOTAL = 600; // 10 minutes in seconds
    let remaining = TOTAL;
    let started = false;

    const affirmations = [
        "\u201cYou are present. You are calm.\u201d",
        "\u201cLet thoughts pass like clouds.\u201d",
        "\u201cBreathe in peace, breathe out tension.\u201d",
        "\u201cThis moment is enough.\u201d",
        "\u201cYou are safe. You are still.\u201d",
        "\u201cEvery breath brings clarity.\u201d",
        "\u201cYou deserve this time for yourself.\u201d",
    ];
    let affirmIdx = 0;

    const timerEl   = document.getElementById('timer-display');
    const labelEl   = document.getElementById('timer-label');
    const bar       = document.getElementById('progress-bar');
    const doneDiv   = document.getElementById('session-done');
    const skipForm  = document.getElementById('skip-form');
    const affirmEl  = document.getElementById('affirmation');

    function fmt(s) {
        const m = Math.floor(s / 60);
        const sec = s % 60;
        return m + ':' + String(sec).padStart(2, '0');
    }

    // Show skip button after 30 seconds
    setTimeout(() => { skipForm.style.display = 'block'; }, 30000);

    // Rotate affirmations every 30s
    setInterval(() => {
        affirmIdx = (affirmIdx + 1) % affirmations.length;
        affirmEl.style.opacity = '0';
        setTimeout(() => {
            affirmEl.textContent = affirmations[affirmIdx];
            affirmEl.style.opacity = '1';
        }, 500);
    }, 30000);
    affirmEl.style.transition = 'opacity .5s';

    const timer = setInterval(() => {
        remaining--;
        timerEl.textContent = fmt(remaining);
        bar.style.width = ((TOTAL - remaining) / TOTAL * 100) + '%';

        if (remaining <= 0) {
            clearInterval(timer);
            timerEl.textContent = '0:00';
            labelEl.textContent = 'complete';
            skipForm.style.display = 'none';
            doneDiv.style.display = 'block';
        }
    }, 1000);
}());
</script>"##;

pub open spec fn meditate_page_spec() -> Seq<char> {
    base_layout_spec("Guided Meditation"@, MEDITATE_CONTENT@, true)
}

/// The guided meditation session page.
pub fn meditate_page() -> (r: String)
    ensures
        r@ == meditate_page_spec(),
{
    base_layout("Guided Meditation", MEDITATE_CONTENT, true)
}

// ── Journal page ───────────────────────────────────────────────────────────

pub const JOURNAL_AFTER_ALERT: &'static str = r##"

<div class="row justify-content-center">
    <div class="col-12 col-md-8 col-lg-6">

        <h2 class="fw-bold text-calm mb-1">&#128221;&nbsp; Daily Mood Journal</h2>
        <p class="text-muted mb-4">Take a moment to check in with yourself</p>

        <form method="POST" action="/journal">

            <!-- Mood picker -->
            <div class="card p-4 mb-4">
                <h5 class="fw-bold text-calm mb-3">How are you feeling right now?</h5>
                <div class="d-flex justify-content-around">
                    <div class="mood-option">
                        <input type="radio" name="mood" id="m1" value="1" required>
                        <label for="m1" title="Struggling">&#128542;</label>
                    </div>
                    <div class="mood-option">
                        <input type="radio" name="mood" id="m2" value="2">
                        <label for="m2" title="Not great">&#128533;</label>
                    </div>
                    <div class="mood-option">
                        <input type="radio" name="mood" id="m3" value="3">
                        <label for="m3" title="Okay">&#128528;</label>
                    </div>
                    <div class="mood-option">
                        <input type="radio" name="mood" id="m4" value="4">
                        <label for="m4" title="Good">&#128512;</label>
                    </div>
                    <div class="mood-option">
                        <input type="radio" name="mood" id="m5" value="5">
                        <label for="m5" title="Great">&#128513;</label>
                    </div>
                </div>
                <p id="mood-label" class="text-muted text-center mt-3 mb-0" style="font-size:.9rem; min-height:1.2em;"></p>
            </div>

            <!-- Notes -->
            <div class="card p-4 mb-4">
                <h5 class="fw-bold text-calm mb-3">Any thoughts to capture? <span class="text-muted fw-normal" style="font-size:.85rem">(optional)</span></h5>
                <textarea
                    name="note"
                    class="form-control"
                    rows="5"
                    placeholder="What's on your mind today? What are you grateful for? What felt hard?"
                    style="resize:vertical;"
                ></textarea>
            </div>

            <div class="d-grid">
                <button type="submit" class="btn btn-calm py-3 fs-5">
                    &#128221;&nbsp; Save Journal Entry
                </button>
            </div>

        </form>

        <div class="text-center mt-4">
            <a href="/dashboard" class="text-muted" style="font-size:.9rem">&#8592; Back to Dashboard</a>
        </div>

    </div>
</div>

<script>
const labels = ['', 'Struggling \u2014 it\'s okay, you showed up', 'Not great \u2014 acknowledging it is the first step', 'Okay \u2014 steady and present', 'Good \u2014 keep that energy', 'Great \u2014 wonderful!'];
document.querySelectorAll('input[name="mood"]').forEach(radio => {
    radio.addEventListener('change', () => {
        document.getElementById('mood-label').textContent = labels[radio.value] || '';
    });
});
</script>"##;

pub open spec fn journal_page_spec(error: Option<&str>) -> Seq<char> {
    base_layout_spec("Journal"@, alert_opt_spec(error) + JOURNAL_AFTER_ALERT@, true)
}

/// The mood journal page, with an optional error message in its alert box.
pub fn journal_page(error: Option<&str>) -> (r: String)
    ensures
        r@ == journal_page_spec(error),
{
    let mut content = alert_opt(error);
    content.append(JOURNAL_AFTER_ALERT);
    base_layout("Journal", content.as_str(), true)
}

// ── Dashboard page ─────────────────────────────────────────────────────────

pub const TIP_NO_SESSION: &'static str =
    "&#128161; Complete your first session today to start tracking progress!";

pub const TIP_LONG_STREAK: &'static str =
    "&#127942; Amazing! You're on a 7+ day streak. Keep it up!";

pub const TIP_SHORT_STREAK: &'static str = "&#128293; You're on a roll! Keep the streak going.";

pub const TIP_DEFAULT: &'static str = "&#10024; Great work today! Every session counts.";

/// The encouragement line under the weekly chart, picked from today's
/// count and the streak.
pub open spec fn weekly_tip_spec(stats: DashboardStats) -> Seq<char> {
    if stats.sessions_today == 0 {
        TIP_NO_SESSION@
    } else if stats.streak >= 7 {
        TIP_LONG_STREAK@
    } else if stats.streak >= 3 {
        TIP_SHORT_STREAK@
    } else {
        TIP_DEFAULT@
    }
}

/// Pick the encouragement line shown under the weekly chart.
pub fn weekly_tip(stats: &DashboardStats) -> (r: &'static str)
    ensures
        r@ == weekly_tip_spec(*stats),
{
    if stats.sessions_today == 0 {
        TIP_NO_SESSION
    } else if stats.streak >= 7 {
        TIP_LONG_STREAK
    } else if stats.streak >= 3 {
        TIP_SHORT_STREAK
    } else {
        TIP_DEFAULT
    }
}

/// The largest entry of a day list (the sole entry when there is one).
pub open spec fn seq_max(s: Seq<i64>) -> int
    decreases s.len(),
{
    if s.len() == 0 {
        0
    } else if s.len() == 1 {
        s[0] as int
    } else {
        let m = seq_max(s.drop_last());
        if s.last() as int > m {
            s.last() as int
        } else {
            m
        }
    }
}

proof fn lemma_seq_max_bound(s: Seq<i64>, i: int)
    requires
        0 <= i < s.len(),
    ensures
        s[i] as int <= seq_max(s),
    decreases s.len(),
{
    if s.len() > 1 && i < s.len() - 1 {
        lemma_seq_max_bound(s.drop_last(), i);
    }
}

fn seq_max_exec(w: &WeeklyMinutes) -> (mx: i64)
    ensures
        mx as int == seq_max(w@),
{
    let mut mx: i64 = w[0];
    proof {
        assert(w@.take(1).len() == 1);
        assert(w@.take(1)[0] == w@[0]);
    }
    let mut i: usize = 1;
    while i < 7
        invariant
            1 <= i <= 7,
            w@.len() == 7,
            mx as int == seq_max(w@.take(i as int)),
        decreases 7 - i,
    {
        proof {
            let t = w@.take(i as int + 1);
            assert(t.drop_last() =~= w@.take(i as int));
            assert(t.last() == w@[i as int]);
        }
        if w[i] > mx {
            mx = w[i];
        }
        i = i + 1;
    }
    proof {
        assert(w@.take(7) =~= w@);
    }
    mx
}

/// The percentage height of a bar: 5 when the week is empty (so the chart
/// still shows resting stubs), otherwise the day's share of the busiest
/// day, scaled into 10..=100; a negative total renders flat.
pub open spec fn bar_height(m: int, mx: int) -> int {
    if mx <= 0 {
        5
    } else if m < 0 {
        0
    } else {
        (m * 90) / mx + 10
    }
}

fn bar_height_exec(m: i64, mx: i64) -> (h: u64)
    requires
        m as int <= mx as int || mx <= 0,
    ensures
        h as int == bar_height(m as int, mx as int),
{
    if mx <= 0 {
        5
    } else if m < 0 {
        0
    } else {
        let num: u128 = (m as u64 as u128) * 90;
        let den: u128 = mx as u64 as u128;
        let q: u128 = num / den;
        proof {
            vstd::arithmetic::mul::lemma_mul_inequality(m as int, mx as int, 90);
            vstd::arithmetic::div_mod::lemma_div_is_ordered(
                m as int * 90,
                mx as int * 90,
                mx as int,
            );
            vstd::arithmetic::div_mod::lemma_div_by_multiple(90, mx as int);
            vstd::arithmetic::div_mod::lemma_div_pos_is_pos(m as int * 90, mx as int);
        }
        (q as u64) + 10
    }
}

pub const BAR_SEP: &'static str = "\n                ";

pub const BAR_OPEN: &'static str = r##"<div class="bar"##;

pub const BAR_ACTIVE: &'static str = " active-bar";

pub const BAR_MID: &'static str = r##"" style="height:"##;

pub const BAR_TITLE: &'static str = r##"%" title=""##;

pub const BAR_CLOSE: &'static str = r##""></div>"##;

pub const BAR_LABEL_NONE: &'static str = "No activity";

pub const BAR_LABEL_MIN: &'static str = " min";

/// One bar of the weekly chart: active styling for a day with activity, the
/// computed height, and the tooltip label.
pub open spec fn bar_div_spec(m: i64, mx: int) -> Seq<char> {
    BAR_OPEN@ + (if m > 0 {
        BAR_ACTIVE@
    } else {
        Seq::<char>::empty()
    }) + BAR_MID@ + dec_rep(bar_height(m as int, mx)) + BAR_TITLE@ + (if m == 0 {
        BAR_LABEL_NONE@
    } else {
        int_rep(m as int) + BAR_LABEL_MIN@
    }) + BAR_CLOSE@
}

/// The first `k` bars, separated by the chart's line break.
pub open spec fn bars_prefix(s: Seq<i64>, mx: int, k: int) -> Seq<char>
    decreases k,
{
    if k <= 0 {
        Seq::empty()
    } else if k == 1 {
        bar_div_spec(s[0], mx)
    } else {
        bars_prefix(s, mx, k - 1) + BAR_SEP@ + bar_div_spec(s[k - 1], mx)
    }
}

/// The seven bars of the weekly chart, scaled against the busiest day.
pub open spec fn weekly_bars_spec(s: Seq<i64>) -> Seq<char> {
    bars_prefix(s, seq_max(s), s.len() as int)
}

/// Render the seven bar chart columns driven by real weekly data.
pub fn weekly_bars(minutes: &WeeklyMinutes) -> (r: String)
    ensures
        r@ == weekly_bars_spec(minutes@),
{
    let mx = seq_max_exec(minutes);
    let mut out = String::new();
    let mut i: usize = 0;
    while i < 7
        invariant
            0 <= i <= 7,
            minutes@.len() == 7,
            mx as int == seq_max(minutes@),
            out@ == bars_prefix(minutes@, seq_max(minutes@), i as int),
        decreases 7 - i,
    {
        if i > 0 {
            out.append(BAR_SEP);
        }
        let m = minutes[i];
        proof {
            lemma_seq_max_bound(minutes@, i as int);
        }
        out.append(BAR_OPEN);
        if m > 0 {
            out.append(BAR_ACTIVE);
        }
        out.append(BAR_MID);
        let h = bar_height_exec(m, mx);
        let hs = u64_to_string(h);
        out.append(hs.as_str());
        out.append(BAR_TITLE);
        if m == 0 {
            out.append(BAR_LABEL_NONE);
        } else {
            let ms = i64_to_string(m);
            out.append(ms.as_str());
            out.append(BAR_LABEL_MIN);
        }
        out.append(BAR_CLOSE);
        proof {
            assert(out@ =~= bars_prefix(minutes@, seq_max(minutes@), i as int + 1));
        }
        i = i + 1;
    }
    out
}

pub const DASH_BEFORE_NAME: &'static str = r##"<!-- Header row -->
<div class="d-flex flex-wrap align-items-center justify-content-between gap-3 mb-5">
    <div>
        <h1 class="fw-bold text-calm mb-1">Good day, "##;

pub const DASH_AFTER_NAME: &'static str = r##"! &#128075;</h1>
        <p class="text-muted mb-0">Here&apos;s your CalmControl overview</p>
    </div>
    <a href="/profile" class="btn btn-calm px-4">
        &#128100;&nbsp; My Profile
    </a>
</div>

<!-- Stat cards -->
<div class="row g-4 mb-5">
    <div class="col-12 col-sm-4">
        <div class="stat-card h-100">
            <div class="d-flex justify-content-between align-items-start mb-3">
                <span class="fw-semibold" style="font-size:1.05rem">Sessions Today</span>
                <span style="font-size:1.5rem">&#128197;</span>
            </div>
            <div class="display-6 fw-bold">"##;

pub const DASH_AFTER_SESSIONS: &'static str = r##"</div>
            <small style="opacity:.75">Completed sessions</small>
        </div>
    </div>
    <div class="col-12 col-sm-4">
        <div class="stat-card h-100" style="background:linear-gradient(135deg,#1a6985,#2196a6)">
            <div class="d-flex justify-content-between align-items-start mb-3">
                <span class="fw-semibold" style="font-size:1.05rem">Day Streak</span>
                <span style="font-size:1.5rem">&#128293;</span>
            </div>
            <div class="display-6 fw-bold">"##;

pub const DASH_AFTER_STREAK: &'static str = r##"</div>
            <small style="opacity:.75">Consecutive days</small>
        </div>
    </div>
    <div class="col-12 col-sm-4">
        <div class="stat-card h-100" style="background:linear-gradient(135deg,#7b3f8c,#9b59b6)">
            <div class="d-flex justify-content-between align-items-start mb-3">
                <span class="fw-semibold" style="font-size:1.05rem">Mindful Minutes</span>
                <span style="font-size:1.5rem">&#9200;</span>
            </div>
            <div class="display-6 fw-bold">"##;

pub const DASH_AFTER_TOTAL: &'static str = r##"</div>
            <small style="opacity:.75">Total time practised</small>
        </div>
    </div>
</div>

<!-- Quick-start & chart row -->
<div class="row g-4">
    <div class="col-12 col-md-6">
        <div class="card p-4 h-100">
            <h5 class="fw-bold text-calm mb-3">&#9889;&nbsp; Quick Start</h5>
            <div class="d-grid gap-2">
                <a href="/breathe" class="btn btn-outline-success rounded-3 text-start py-3 px-4" style="border-color:#cde8d6">
                    &#128168;&nbsp; 5-min Breathing Exercise
                </a>
                <a href="/meditate" class="btn btn-outline-success rounded-3 text-start py-3 px-4" style="border-color:#cde8d6">
                    &#127774;&nbsp; 10-min Guided Meditation
                </a>
                <a href="/journal" class="btn btn-outline-success rounded-3 text-start py-3 px-4" style="border-color:#cde8d6">
                    &#128221;&nbsp; Daily Mood Journal
                </a>
            </div>
        </div>
    </div>

    <div class="col-12 col-md-6">
        <div class="card p-4 h-100">
            <h5 class="fw-bold text-calm mb-3">&#128202;&nbsp; Weekly Activity</h5>
            <div class="bar-wrap">
                "##;

pub const DASH_AFTER_BARS: &'static str = r##"
            </div>
            <div class="d-flex justify-content-between mt-2">
                <small class="text-muted">Mon</small>
                <small class="text-muted">Tue</small>
                <small class="text-muted">Wed</small>
                <small class="text-muted">Thu</small>
                <small class="text-muted">Fri</small>
                <small class="text-muted">Sat</small>
                <small class="text-muted">Sun</small>
            </div>
            <p class="text-muted mt-3 mb-0" style="font-size:.85rem">
                "##;

pub const DASH_AFTER_TIP: &'static str = r##"
            </p>
        </div>
    </div>
</div>"##;

pub open spec fn dashboard_page_spec(user: User, stats: DashboardStats, weekly: Seq<i64>) -> Seq<
    char,
> {
    base_layout_spec(
        "Dashboard"@,
        DASH_BEFORE_NAME@ + first_word_spec(user.name@) + DASH_AFTER_NAME@ + int_rep(
            stats.sessions_today as int,
        ) + DASH_AFTER_SESSIONS@ + int_rep(stats.streak as int) + DASH_AFTER_STREAK@ + int_rep(
            stats.total_minutes as int,
        ) + DASH_AFTER_TOTAL@ + weekly_bars_spec(weekly) + DASH_AFTER_BARS@ + weekly_tip_spec(
            stats,
        ) + DASH_AFTER_TIP@,
        true,
    )
}

/// The dashboard: greeting, the three stat cards, the weekly bar chart and
/// the tip line, all driven by the assembled stats.
pub fn dashboard_page(user: &User, stats: &DashboardStats, weekly: &WeeklyMinutes) -> (r: String)
    ensures
        r@ == dashboard_page_spec(*user, *stats, weekly@),
{
    let first_name = first_word(user.name.as_str());
    let bars = weekly_bars(weekly);
    let tip = weekly_tip(stats);
    let sessions = i64_to_string(stats.sessions_today);
    let streak = i64_to_string(stats.streak);
    let total = i64_to_string(stats.total_minutes);
    let mut content = String::from_str(DASH_BEFORE_NAME);
    content.append(first_name);
    content.append(DASH_AFTER_NAME);
    content.append(sessions.as_str());
    content.append(DASH_AFTER_SESSIONS);
    content.append(streak.as_str());
    content.append(DASH_AFTER_STREAK);
    content.append(total.as_str());
    content.append(DASH_AFTER_TOTAL);
    content.append(bars.as_str());
    content.append(DASH_AFTER_BARS);
    content.append(tip);
    content.append(DASH_AFTER_TIP);
    base_layout("Dashboard", content.as_str(), true)
}

// ── 404 Not Found page ─────────────────────────────────────────────────────

pub const NOT_FOUND_CONTENT: &'static str = r##"<div class="row justify-content-center text-center">
    <div class="col-12 col-md-6">
        <div style="font-size:6rem;line-height:1">&#127807;</div>
        <h1 class="fw-bold text-calm mt-3 mb-2" style="font-size:5rem">404</h1>
        <h2 class="fw-semibold mb-3">Page Not Found</h2>
        <p class="text-muted mb-5">
            Looks like this path doesn't exist yet.<br>
            Take a breath and head back to somewhere familiar.
        </p>
        <div class="d-flex justify-content-center gap-3">
            <a href="/dashboard" class="btn btn-calm px-4 py-2">
                &#128202;&nbsp; Dashboard
            </a>
            <a href="/login" class="btn py-2 px-4"
               style="border:1.5px solid #2d6a4f;color:#2d6a4f;border-radius:10px;font-weight:500">
                &#128274;&nbsp; Login
            </a>
        </div>
    </div>
</div>"##;

pub open spec fn not_found_page_spec() -> Seq<char> {
    base_layout_spec("404 Not Found"@, NOT_FOUND_CONTENT@, false)
}

/// The fallback page for unknown paths.
pub fn not_found_page() -> (r: String)
    ensures
        r@ == not_found_page_spec(),
{
    base_layout("404 Not Found", NOT_FOUND_CONTENT, false)
}

// ── Profile page ───────────────────────────────────────────────────────────

pub const PROFILE_BEFORE_INITIALS: &'static str = r##"<div class="row justify-content-center">
    <div class="col-12 col-md-8 col-lg-6">

        <h2 class="fw-bold text-calm mb-4">&#128100;&nbsp; My Profile</h2>

        <!-- Avatar + name card -->
        <div class="card p-4 mb-4">
            <div class="d-flex align-items-center gap-4 mb-4">
                <div class="profile-avatar">"##;

pub const PROFILE_AFTER_INITIALS: &'static str = r##"</div>
                <div>
                    <h4 class="fw-bold mb-1">"##;

pub const PROFILE_AFTER_HEADING: &'static str = r##"</h4>
                    <span class="badge"
                          style="background:#d8f3dc;color:#1b4332;border:1px solid #b7e4c7;
                                 border-radius:20px;padding:4px 14px;font-size:.85rem;font-weight:500">
                        &#10003;&nbsp;Active Member
                    </span>
                </div>
            </div>

            <!-- Info rows -->
            <div class="d-flex flex-column gap-3">
                <div class="info-row">
                    <div class="text-muted mb-1" style="font-size:.82rem">&#128100;&nbsp; FULL NAME</div>
                    <div class="fw-semibold">"##;

pub const PROFILE_AFTER_NAME: &'static str = r##"</div>
                </div>
                <div class="info-row">
                    <div class="text-muted mb-1" style="font-size:.82rem">&#9993;&nbsp; EMAIL ADDRESS</div>
                    <div class="fw-semibold">"##;

pub const PROFILE_AFTER_EMAIL: &'static str = r##"</div>
                </div>
                <div class="info-row">
                    <div class="text-muted mb-1" style="font-size:.82rem">&#128273;&nbsp; USER ID</div>
                    <div class="fw-semibold text-muted" style="font-size:.88rem;word-break:break-all">"##;

pub const PROFILE_AFTER_ID: &'static str = r##"</div>
                </div>
            </div>
        </div>

        <!-- Action buttons -->
        <div class="d-flex gap-3">
            <a href="/dashboard" class="btn btn-calm flex-fill py-2">
                &#128202;&nbsp; Dashboard
            </a>
            <a href="/logout"
               class="btn flex-fill py-2"
               style="border:1.5px solid #dc3545;color:#dc3545;border-radius:10px;font-weight:500;transition:all .2s"
               onmouseover="this.style.background='#dc3545';this.style.color='#fff'"
               onmouseout="this.style.background='';this.style.color='#dc3545'">
                &#128682;&nbsp; Logout
            </a>
        </div>

    </div>
</div>"##;

pub open spec fn profile_page_spec(user: User) -> Seq<char> {
    base_layout_spec(
        "Profile"@,
        PROFILE_BEFORE_INITIALS@ + word_initials(user.name@, 2) + PROFILE_AFTER_INITIALS@
            + user.name@ + PROFILE_AFTER_HEADING@ + user.name@ + PROFILE_AFTER_NAME@
            + user.email@ + PROFILE_AFTER_EMAIL@ + user.id@ + PROFILE_AFTER_ID@,
        true,
    )
}

/// The member profile page: avatar initials, display name, email and id.
pub fn profile_page(user: &User) -> (r: String)
    ensures
        r@ == profile_page_spec(*user),
{
    let avatar = initials(user.name.as_str());
    let mut content = String::from_str(PROFILE_BEFORE_INITIALS);
    content.append(avatar.as_str());
    content.append(PROFILE_AFTER_INITIALS);
    content.append(user.name.as_str());
    content.append(PROFILE_AFTER_HEADING);
    content.append(user.name.as_str());
    content.append(PROFILE_AFTER_NAME);
    content.append(user.email.as_str());
    content.append(PROFILE_AFTER_EMAIL);
    content.append(user.id.as_str());
    content.append(PROFILE_AFTER_ID);
    base_layout("Profile", content.as_str(), true)
}

// ── Videos browse page ─────────────────────────────────────────────────────

pub const NO_VIDEOS_BLOCK: &'static str = r##"<div class="col-12 text-center py-5">
    <div style="font-size:4rem">🎬</div>
    <h4 class="fw-bold text-calm mt-3 mb-2">No videos yet</h4>
    <p class="text-muted mb-4">Be the first to share a health video with the community.</p>
    <a href="/videos/new" class="btn btn-calm px-4">&#43; Add First Video</a>
</div>"##;

pub const THUMB_ICON_OPEN: &'static str = r##"<div class="video-thumb">"##;

pub const THUMB_ICON_CLOSE: &'static str = r##"</div>"##;

pub const THUMB_IMG_OPEN: &'static str = r##"<div class="video-thumb"><img src=""##;

pub const THUMB_IMG_CLOSE: &'static str = r##"" alt="thumbnail" loading="lazy"></div>"##;

/// The placeholder emoji for a category when a video has no thumbnail.
pub open spec fn category_icon_spec(slug: Seq<char>) -> Seq<char> {
    if slug == "breathing"@ {
        "🌬️"@
    } else if slug == "meditation"@ {
        "🧘"@
    } else if slug == "nutrition"@ {
        "🥗"@
    } else if slug == "exercise"@ {
        "💪"@
    } else if slug == "mental-health"@ {
        "🧠"@
    } else {
        "🌿"@
    }
}

fn category_icon(slug: &str) -> (r: &'static str)
    ensures
        r@ == category_icon_spec(slug@),
{
    if str_eq(slug, "breathing") {
        "🌬️"
    } else if str_eq(slug, "meditation") {
        "🧘"
    } else if str_eq(slug, "nutrition") {
        "🥗"
    } else if str_eq(slug, "exercise") {
        "💪"
    } else if str_eq(slug, "mental-health") {
        "🧠"
    } else {
        "🌿"
    }
}

/// A card's thumbnail block: the image when a thumbnail URL is set,
/// otherwise the category's placeholder emoji.
pub open spec fn thumb_spec(v: VideoWithUploader) -> Seq<char> {
    if v.thumbnail_url@.len() == 0 {
        THUMB_ICON_OPEN@ + category_icon_spec(v.category@) + THUMB_ICON_CLOSE@
    } else {
        THUMB_IMG_OPEN@ + v.thumbnail_url@ + THUMB_IMG_CLOSE@
    }
}

fn thumb_block(v: &VideoWithUploader) -> (r: String)
    ensures
        r@ == thumb_spec(*v),
{
    if v.thumbnail_url.as_str().is_empty() {
        let mut s = String::from_str(THUMB_ICON_OPEN);
        s.append(category_icon(v.category.as_str()));
        s.append(THUMB_ICON_CLOSE);
        s
    } else {
        let mut s = String::from_str(THUMB_IMG_OPEN);
        s.append(v.thumbnail_url.as_str());
        s.append(THUMB_IMG_CLOSE);
        s
    }
}

pub const DESC_OPEN: &'static str =
    r##"<p class="text-muted mb-3" style="font-size:.88rem;line-height:1.5">"##;

pub const DESC_ELLIPSIS: &'static str = "…";

pub const DESC_CLOSE: &'static str = "</p>";

/// A card's description block: nothing when the description is empty,
/// otherwise the first 90 characters, with an ellipsis when it was cut.
pub open spec fn desc_spec(d: Seq<char>) -> Seq<char> {
    if d.len() == 0 {
        Seq::empty()
    } else if d.len() > 90 {
        DESC_OPEN@ + d.subrange(0, 90) + DESC_ELLIPSIS@ + DESC_CLOSE@
    } else {
        DESC_OPEN@ + d + DESC_CLOSE@
    }
}

fn desc_block(description: &str) -> (r: String)
    ensures
        r@ == desc_spec(description@),
{
    let n = description.unicode_len();
    if n == 0 {
        proof {
            assert(description@ =~= Seq::<char>::empty());
        }
        String::new()
    } else if n > 90 {
        let mut s = String::from_str(DESC_OPEN);
        s.append(description.substring_char(0, 90));
        s.append(DESC_ELLIPSIS);
        s.append(DESC_CLOSE);
        s
    } else {
        let mut s = String::from_str(DESC_OPEN);
        s.append(description);
        s.append(DESC_CLOSE);
        s
    }
}

pub const CARD_BEFORE_CATEGORY: &'static str =
    r##"<div class="col-12 col-sm-6 col-lg-4 video-item" data-category=""##;

pub const CARD_AFTER_CATEGORY: &'static str = r##"">
    <div class="video-card">
        <a href="/videos/"##;

pub const CARD_AFTER_ID: &'static str = r##"" style="text-decoration:none;color:inherit;">
            "##;

pub const CARD_AFTER_THUMB: &'static str = r##"
            <div class="p-3">
                <span class="category-badge cat-"##;

pub const CARD_AFTER_BADGE_SLUG: &'static str = r##" mb-2">"##;

pub const CARD_AFTER_LABEL: &'static str = r##"</span>
                <h6 class="fw-bold mt-2 mb-1" style="line-height:1.35">"##;

pub const CARD_AFTER_TITLE: &'static str = r##"</h6>
                "##;

pub const CARD_AFTER_DESC: &'static str = r##"
                <div class="d-flex justify-content-between align-items-center mt-auto">
                    <small class="text-muted">&#128100; "##;

pub const CARD_AFTER_UPLOADER: &'static str = r##"</small>
                    <small class="text-muted">"##;

pub const CARD_AFTER_DATE: &'static str = r##"</small>
                </div>
            </div>
        </a>
    </div>
</div>"##;

/// One video card of the browse grid.
pub open spec fn video_card_spec(v: VideoWithUploader) -> Seq<char> {
    CARD_BEFORE_CATEGORY@ + v.category@ + CARD_AFTER_CATEGORY@ + v.id@ + CARD_AFTER_ID@
        + thumb_spec(v) + CARD_AFTER_THUMB@ + v.category@ + CARD_AFTER_BADGE_SLUG@
        + category_label_spec(v.category@) + CARD_AFTER_LABEL@ + v.title@ + CARD_AFTER_TITLE@
        + desc_spec(v.description@) + CARD_AFTER_DESC@ + v.uploader_name@ + CARD_AFTER_UPLOADER@
        + v.created_at@.subrange(0, 10) + CARD_AFTER_DATE@
}

fn video_card(v: &VideoWithUploader) -> (r: String)
    requires
        v.created_at@.len() >= 10,
    ensures
        r@ == video_card_spec(*v),
{
    let thumb = thumb_block(v);
    let desc = desc_block(v.description.as_str());
    let label = category_label(v.category.as_str());
    let mut s = String::from_str(CARD_BEFORE_CATEGORY);
    s.append(v.category.as_str());
    s.append(CARD_AFTER_CATEGORY);
    s.append(v.id.as_str());
    s.append(CARD_AFTER_ID);
    s.append(thumb.as_str());
    s.append(CARD_AFTER_THUMB);
    s.append(v.category.as_str());
    s.append(CARD_AFTER_BADGE_SLUG);
    s.append(label);
    s.append(CARD_AFTER_LABEL);
    s.append(v.title.as_str());
    s.append(CARD_AFTER_TITLE);
    s.append(desc.as_str());
    s.append(CARD_AFTER_DESC);
    s.append(v.uploader_name.as_str());
    s.append(CARD_AFTER_UPLOADER);
    s.append(v.created_at.as_str().substring_char(0, 10));
    s.append(CARD_AFTER_DATE);
    s
}

pub const CARDS_SEP: &'static str = "\n";

/// The first `k` video cards, one per line.
pub open spec fn cards_prefix(vs: Seq<VideoWithUploader>, k: int) -> Seq<char>
    decreases k,
{
    if k <= 0 {
        Seq::empty()
    } else if k == 1 {
        video_card_spec(vs[0])
    } else {
        cards_prefix(vs, k - 1) + CARDS_SEP@ + video_card_spec(vs[k - 1])
    }
}

/// The browse grid: the empty-state block when there are no videos,
/// otherwise all the cards.
pub open spec fn video_grid_spec(vs: Seq<VideoWithUploader>) -> Seq<char> {
    if vs.len() == 0 {
        NO_VIDEOS_BLOCK@
    } else {
        cards_prefix(vs, vs.len() as int)
    }
}

pub const CATEGORY_PILLS: &'static str = r##"<button class="filter-pill active me-2 mb-2" onclick="filterVideos('all', this)">All</button><button class="filter-pill me-2 mb-2" onclick="filterVideos('breathing', this)">🌬️  Breathing</button><button class="filter-pill me-2 mb-2" onclick="filterVideos('meditation', this)">🧘  Meditation</button><button class="filter-pill me-2 mb-2" onclick="filterVideos('nutrition', this)">🥗  Nutrition</button><button class="filter-pill me-2 mb-2" onclick="filterVideos('exercise', this)">💪  Exercise</button><button class="filter-pill me-2 mb-2" onclick="filterVideos('mental-health', this)">🧠  Mental Health</button><button class="filter-pill me-2 mb-2" onclick="filterVideos('general', this)">🌿  General</button>"##;

pub const VIDEOS_BEFORE_PILLS: &'static str = r##"<!-- Header -->
<div class="d-flex flex-wrap align-items-center justify-content-between gap-3 mb-4">
    <div>
        <h2 class="fw-bold text-calm mb-1">&#127909;&nbsp; Health Videos</h2>
        <p class="text-muted mb-0">Curated wellness content from our community</p>
    </div>
    <a href="/videos/new" class="btn btn-calm px-4">&#43;&nbsp; Add Video</a>
</div>

<!-- Category filter -->
<div class="mb-4">
    "##;

pub const VIDEOS_AFTER_PILLS: &'static str = r##"
</div>

<!-- Grid -->
<div class="row g-4" id="video-grid">
    "##;

pub const VIDEOS_AFTER_GRID: &'static str = r##"
</div>

<script>
function filterVideos(cat, btn) {
    document.querySelectorAll('.filter-pill').forEach(p => p.classList.remove('active'));
    btn.classList.add('active');
    document.querySelectorAll('.video-item').forEach(el => {
        el.style.display = (cat === 'all' || el.dataset.category === cat) ? '' : 'none';
    });
}
</script>"##;

pub open spec fn videos_page_spec(vs: Seq<VideoWithUploader>) -> Seq<char> {
    base_layout_spec(
        "Videos"@,
        VIDEOS_BEFORE_PILLS@ + CATEGORY_PILLS@ + VIDEOS_AFTER_PILLS@ + video_grid_spec(vs)
            + VIDEOS_AFTER_GRID@,
        true,
    )
}

/// The video browse page: filter pills and one card per video, or the
/// empty-state block.
pub fn videos_page(videos: &Vec<VideoWithUploader>) -> (r: String)
    requires
        forall|i: int|
            0 <= i < videos@.len() ==> (#[trigger] videos@[i]).created_at@.len() >= 10,
    ensures
        r@ == videos_page_spec(videos@),
{
    let mut grid: String;
    if videos.len() == 0 {
        grid = String::from_str(NO_VIDEOS_BLOCK);
    } else {
        grid = String::new();
        let mut i: usize = 0;
        while i < videos.len()
            invariant
                0 <= i <= videos@.len(),
                forall|k: int|
                    0 <= k < videos@.len() ==> (#[trigger] videos@[k]).created_at@.len() >= 10,
                grid@ == cards_prefix(videos@, i as int),
            decreases videos@.len() - i,
        {
            if i > 0 {
                grid.append(CARDS_SEP);
            }
            let card = video_card(&videos[i]);
            grid.append(card.as_str());
            proof {
                assert(grid@ =~= cards_prefix(videos@, i as int + 1));
            }
            i = i + 1;
        }
    }
    let mut content = String::from_str(VIDEOS_BEFORE_PILLS);
    content.append(CATEGORY_PILLS);
    content.append(VIDEOS_AFTER_PILLS);
    content.append(grid.as_str());
    content.append(VIDEOS_AFTER_GRID);
    base_layout("Videos", content.as_str(), true)
}

// ── New video form ─────────────────────────────────────────────────────────

pub const CATEGORY_OPTIONS: &'static str = r##"<option value="breathing">🌬️  Breathing</option>
<option value="meditation">🧘  Meditation</option>
<option value="nutrition">🥗  Nutrition</option>
<option value="exercise">💪  Exercise</option>
<option value="mental-health">🧠  Mental Health</option>
<option value="general">🌿  General</option>"##;

pub const NEW_VIDEO_AFTER_ALERT: &'static str = r##"

<div class="row justify-content-center">
    <div class="col-12 col-md-8 col-lg-7">

        <h2 class="fw-bold text-calm mb-1">&#127909;&nbsp; Add a Health Video</h2>
        <p class="text-muted mb-4">Share a wellness video with the community. Paste a direct video URL&nbsp;(.mp4, .webm, etc.).</p>

        <form method="POST" action="/videos">

            <div class="card p-4 mb-4">
                <!-- Title -->
                <div class="mb-3">
                    <label class="form-label" for="title">Title <span class="text-danger">*</span></label>
                    <input type="text" id="title" name="title" class="form-control"
                           placeholder="e.g. 5-Minute Morning Stretch" required maxlength="120">
                </div>

                <!-- Category -->
                <div class="mb-3">
                    <label class="form-label" for="category">Category <span class="text-danger">*</span></label>
                    <select id="category" name="category" class="form-control" required>
                        <option value="" disabled selected>Select a category&hellip;</option>
                        "##;

pub const NEW_VIDEO_AFTER_OPTIONS: &'static str = r##"
                    </select>
                </div>

                <!-- Video URL -->
                <div class="mb-3">
                    <label class="form-label" for="video_url">Video URL <span class="text-danger">*</span></label>
                    <input type="url" id="video_url" name="video_url" class="form-control"
                           placeholder="https://example.com/video.mp4" required>
                    <div class="form-text">Paste a direct link to an .mp4 or .webm file.</div>
                </div>

                <!-- Thumbnail URL -->
                <div class="mb-3">
                    <label class="form-label" for="thumbnail_url">Thumbnail URL <span class="text-muted fw-normal">(optional)</span></label>
                    <input type="url" id="thumbnail_url" name="thumbnail_url" class="form-control"
                           placeholder="https://example.com/thumb.jpg">
                    <div class="form-text">A preview image for the video card. Leave blank for a default icon.</div>
                </div>

                <!-- Description -->
                <div class="mb-0">
                    <label class="form-label" for="description">Description <span class="text-muted fw-normal">(optional)</span></label>
                    <textarea id="description" name="description" class="form-control" rows="4"
                              placeholder="What does this video cover? Who is it for?" style="resize:vertical;"></textarea>
                </div>
            </div>

            <div class="d-flex gap-3">
                <button type="submit" class="btn btn-calm flex-fill py-3">
                    &#127909;&nbsp; Add Video
                </button>
                <a href="/videos" class="btn flex-fill py-3"
                   style="border:1.5px solid #2d6a4f;color:#2d6a4f;border-radius:10px;font-weight:500;">
                    Cancel
                </a>
            </div>

        </form>

    </div>
</div>"##;

pub open spec fn new_video_page_spec(error: Option<&str>) -> Seq<char> {
    base_layout_spec(
        "Add Video"@,
        alert_opt_spec(error) + NEW_VIDEO_AFTER_ALERT@ + CATEGORY_OPTIONS@
            + NEW_VIDEO_AFTER_OPTIONS@,
        true,
    )
}

/// The video upload form page, with an optional error message in its alert
/// box.
pub fn new_video_page(error: Option<&str>) -> (r: String)
    ensures
        r@ == new_video_page_spec(error),
{
    let mut content = alert_opt(error);
    content.append(NEW_VIDEO_AFTER_ALERT);
    content.append(CATEGORY_OPTIONS);
    content.append(NEW_VIDEO_AFTER_OPTIONS);
    base_layout("Add Video", content.as_str(), true)
}

// ── Video player page ──────────────────────────────────────────────────────

pub const ABOUT_OPEN: &'static str = r##"<div class="card p-4 mb-4">
    <h5 class="fw-bold text-calm mb-2">About this video</h5>
    <p class="mb-0" style="line-height:1.7">"##;

pub const ABOUT_CLOSE: &'static str = r##"</p>
</div>"##;

/// The "about" card under the player: absent when the description is empty.
pub open spec fn about_spec(description: Seq<char>) -> Seq<char> {
    if description.len() == 0 {
        Seq::empty()
    } else {
        ABOUT_OPEN@ + description + ABOUT_CLOSE@
    }
}

pub const PLAYER_BEFORE_URL: &'static str = r##"<div class="row justify-content-center">
    <div class="col-12 col-lg-9">

        <!-- Player -->
        <div class="video-player-wrap mb-4">
            <video controls autoplay preload="metadata">
                <source src=""##;

pub const PLAYER_AFTER_URL: &'static str = r##"">
                Your browser does not support the HTML5 video tag.
            </video>
        </div>

        <!-- Meta -->
        <div class="d-flex flex-wrap align-items-start justify-content-between gap-2 mb-3">
            <div>
                <span class="category-badge cat-"##;

pub const PLAYER_AFTER_CATEGORY: &'static str = r##" mb-2">"##;

pub const PLAYER_AFTER_LABEL: &'static str = r##"</span>
                <h3 class="fw-bold mt-2 mb-1">"##;

pub const PLAYER_AFTER_TITLE: &'static str = r##"</h3>
                <small class="text-muted">&#128100; "##;

pub const PLAYER_AFTER_UPLOADER: &'static str = r##" &nbsp;&bull;&nbsp; "##;

pub const PLAYER_AFTER_DATE: &'static str = r##"</small>
            </div>
            <a href="/videos" class="btn py-2 px-4"
               style="border:1.5px solid var(--calm-mid);color:var(--calm-mid);border-radius:10px;font-weight:500;white-space:nowrap;">
                &#8592;&nbsp; All Videos
            </a>
        </div>

        "##;

pub const PLAYER_AFTER_ABOUT: &'static str = r##"

    </div>
</div>"##;

pub open spec fn video_player_page_spec(v: VideoWithUploader) -> Seq<char> {
    base_layout_spec(
        v.title@,
        PLAYER_BEFORE_URL@ + v.video_url@ + PLAYER_AFTER_URL@ + v.category@
            + PLAYER_AFTER_CATEGORY@ + category_label_spec(v.category@) + PLAYER_AFTER_LABEL@
            + v.title@ + PLAYER_AFTER_TITLE@ + v.uploader_name@ + PLAYER_AFTER_UPLOADER@
            + v.created_at@.subrange(0, 10) + PLAYER_AFTER_DATE@ + about_spec(v.description@)
            + PLAYER_AFTER_ABOUT@,
        true,
    )
}

/// The single-video player page.
pub fn video_player_page(video: &VideoWithUploader) -> (r: String)
    requires
        video.created_at@.len() >= 10,
    ensures
        r@ == video_player_page_spec(*video),
{
    let label = category_label(video.category.as_str());
    let mut content = String::from_str(PLAYER_BEFORE_URL);
    content.append(video.video_url.as_str());
    content.append(PLAYER_AFTER_URL);
    content.append(video.category.as_str());
    content.append(PLAYER_AFTER_CATEGORY);
    content.append(label);
    content.append(PLAYER_AFTER_LABEL);
    content.append(video.title.as_str());
    content.append(PLAYER_AFTER_TITLE);
    content.append(video.uploader_name.as_str());
    content.append(PLAYER_AFTER_UPLOADER);
    content.append(video.created_at.as_str().substring_char(0, 10));
    content.append(PLAYER_AFTER_DATE);
    if video.description.as_str().is_empty() {
        proof {
            assert(about_spec(video.description@) =~= Seq::<char>::empty());
            assert(content@ + about_spec(video.description@) =~= content@);
        }
    } else {
        content.append(ABOUT_OPEN);
        content.append(video.description.as_str());
        content.append(ABOUT_CLOSE);
    }
    content.append(PLAYER_AFTER_ABOUT);
    proof {
        assert(content@ =~= PLAYER_BEFORE_URL@ + video.video_url@ + PLAYER_AFTER_URL@
            + video.category@ + PLAYER_AFTER_CATEGORY@ + category_label_spec(video.category@)
            + PLAYER_AFTER_LABEL@ + video.title@ + PLAYER_AFTER_TITLE@ + video.uploader_name@
            + PLAYER_AFTER_UPLOADER@ + video.created_at@.subrange(0, 10) + PLAYER_AFTER_DATE@
            + about_spec(video.description@) + PLAYER_AFTER_ABOUT@);
    }
    base_layout(video.title.as_str(), content.as_str(), true)
}

} // verus!
