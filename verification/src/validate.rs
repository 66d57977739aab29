//! Input validation for the request handlers: registration, the mood
//! journal, the video upload form, newsletter subscription, and the
//! newsletter API's key guard.
//!
//! Each check is the pure half of a handler: it consumes the decoded form
//! fields, normalizes them (trimming, lowercasing an email), and either
//! hands back the cleaned values or the exact error message the page shows.

use vstd::prelude::*;

use crate::models::VideoForm;
use crate::text::{
    contains_char, lower_of, lowercase, str_eq, trim_spec, trim_str,
};

verus! {

// ── Registration ───────────────────────────────────────────────────────────

/// The error message registration gets, if any: all three fields must be
/// present, the passwords must agree, and the password needs at least eight
/// characters.
pub open spec fn registration_verdict(
    name: Seq<char>,
    email: Seq<char>,
    password: Seq<char>,
    confirm_password: Seq<char>,
) -> Option<Seq<char>> {
    if trim_spec(name).len() == 0 || lower_of(trim_spec(email)).len() == 0 || password.len()
        == 0 {
        Some("All fields are required."@)
    } else if password != confirm_password {
        Some("Passwords do not match."@)
    } else if password.len() < 8 {
        Some("Password must be at least 8 characters long."@)
    } else {
        None
    }
}

/// Check a registration form.  On success the cleaned display name and the
/// normalized (trimmed, lowercased) email come back; otherwise the message
/// to show.
pub fn validate_registration(
    name: &str,
    email: &str,
    password: &str,
    confirm_password: &str,
) -> (r: Result<(String, String), &'static str>)
    ensures
        match r {
            Ok(cleaned) => {
                &&& registration_verdict(name@, email@, password@, confirm_password@) is None
                &&& cleaned.0@ == trim_spec(name@)
                &&& cleaned.1@ == lower_of(trim_spec(email@))
            },
            Err(m) => registration_verdict(name@, email@, password@, confirm_password@) == Some(
                m@,
            ),
        },
{
    let clean_name = String::from_str(trim_str(name));
    let clean_email = lowercase(trim_str(email));
    if clean_name.as_str().is_empty() || clean_email.as_str().is_empty()
        || password.is_empty() {
        return Err("All fields are required.");
    }
    if !str_eq(password, confirm_password) {
        return Err("Passwords do not match.");
    }
    if password.unicode_len() < 8 {
        return Err("Password must be at least 8 characters long.");
    }
    Ok((clean_name, clean_email))
}

// ── Mood journal ───────────────────────────────────────────────────────────

/// A journal mood is one of the five faces.
pub fn mood_in_range(mood: i64) -> (ok: bool)
    ensures
        ok == (1 <= mood <= 5),
{
    1 <= mood && mood <= 5
}

// ── Video upload ───────────────────────────────────────────────────────────

/// The category slugs a video may carry.
pub open spec fn valid_category(slug: Seq<char>) -> bool {
    ||| slug == "breathing"@
    ||| slug == "meditation"@
    ||| slug == "nutrition"@
    ||| slug == "exercise"@
    ||| slug == "mental-health"@
    ||| slug == "general"@
}

/// The error message the video form gets, if any: a title and a video URL
/// are required, and the category must be a known slug.
pub open spec fn video_verdict(
    title: Seq<char>,
    video_url: Seq<char>,
    category: Seq<char>,
) -> Option<Seq<char>> {
    if trim_spec(title).len() == 0 {
        Some("Title is required."@)
    } else if trim_spec(video_url).len() == 0 {
        Some("Video URL is required."@)
    } else if !valid_category(trim_spec(category)) {
        Some("Please select a valid category."@)
    } else {
        None
    }
}

/// Check a video upload form.  On success every field comes back trimmed;
/// otherwise the message to show.
pub fn validate_video_form(form: &VideoForm) -> (r: Result<VideoForm, &'static str>)
    ensures
        match r {
            Ok(cleaned) => {
                &&& video_verdict(form.title@, form.video_url@, form.category@) is None
                &&& cleaned.title@ == trim_spec(form.title@)
                &&& cleaned.description@ == trim_spec(form.description@)
                &&& cleaned.video_url@ == trim_spec(form.video_url@)
                &&& cleaned.thumbnail_url@ == trim_spec(form.thumbnail_url@)
                &&& cleaned.category@ == trim_spec(form.category@)
            },
            Err(m) => video_verdict(form.title@, form.video_url@, form.category@) == Some(m@),
        },
{
    let title = trim_str(form.title.as_str());
    let video_url = trim_str(form.video_url.as_str());
    let category = trim_str(form.category.as_str());
    if title.is_empty() {
        return Err("Title is required.");
    }
    if video_url.is_empty() {
        return Err("Video URL is required.");
    }
    let known = str_eq(category, "breathing") || str_eq(category, "meditation") || str_eq(
        category,
        "nutrition",
    ) || str_eq(category, "exercise") || str_eq(category, "mental-health") || str_eq(
        category,
        "general",
    );
    if !known {
        return Err("Please select a valid category.");
    }
    Ok(
        VideoForm {
            title: String::from_str(title),
            description: String::from_str(trim_str(form.description.as_str())),
            video_url: String::from_str(video_url),
            thumbnail_url: String::from_str(trim_str(form.thumbnail_url.as_str())),
            category: String::from_str(category),
        },
    )
}

// ── Newsletter subscription ────────────────────────────────────────────────

/// Normalize a subscriber email and check it: after trimming and
/// lowercasing it must be non-empty and contain an `@`.
pub fn validate_subscriber_email(email: &str) -> (r: Result<String, &'static str>)
    ensures
        match r {
            Ok(e) => {
                &&& e@ == lower_of(trim_spec(email@))
                &&& e@.len() > 0
                &&& e@.contains('@')
            },
            Err(m) => {
                &&& m@ == "Please enter a valid email address."@
                &&& (lower_of(trim_spec(email@)).len() == 0 || !lower_of(
                    trim_spec(email@),
                ).contains('@'))
            },
        },
{
    let normalized = lowercase(trim_str(email));
    if normalized.as_str().is_empty() || !contains_char(normalized.as_str(), '@') {
        return Err("Please enter a valid email address.");
    }
    Ok(normalized)
}

/// The error message the newsletter publishing API gets, if any: a title is
/// required.
pub open spec fn article_verdict(title: Seq<char>) -> Option<Seq<char>> {
    if trim_spec(title).len() == 0 {
        Some("title is required"@)
    } else {
        None
    }
}

/// Check an article payload's title; on success it comes back trimmed.
pub fn validate_article_title(title: &str) -> (r: Result<String, &'static str>)
    ensures
        match r {
            Ok(t) => article_verdict(title@) is None && t@ == trim_spec(title@),
            Err(m) => article_verdict(title@) == Some(m@),
        },
{
    let t = trim_str(title);
    if t.is_empty() {
        return Err("title is required");
    }
    Ok(String::from_str(t))
}

// ── Newsletter API key guard ───────────────────────────────────────────────

/// Whether a request carries the configured API key: either
/// `Authorization: Bearer <key>` or `X-Api-Key: <key>`.  An empty configured
/// key locks the API entirely.
pub open spec fn api_key_match(
    expected: Seq<char>,
    authorization: Option<&str>,
    x_api_key: Option<&str>,
) -> bool {
    &&& expected.len() > 0
    &&& {
        ||| (authorization matches Some(a) && a@ == "Bearer "@ + expected)
        ||| (x_api_key matches Some(x) && x@ == expected)
    }
}

/// Decide whether a request to the newsletter API is authorized, given the
/// configured key and the two header values as received.
pub fn api_key_valid(expected: &str, authorization: Option<&str>, x_api_key: Option<&str>) -> (ok:
    bool)
    ensures
        ok == api_key_match(expected@, authorization, x_api_key),
{
    if expected.is_empty() {
        return false;
    }
    let mut bearer = String::from_str("Bearer ");
    bearer.append(expected);
    let from_auth = match authorization {
        Some(a) => str_eq(a, bearer.as_str()),
        None => false,
    };
    let from_header = match x_api_key {
        Some(x) => str_eq(x, expected),
        None => false,
    };
    from_auth || from_header
}

} // verus!
