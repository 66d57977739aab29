//! The plain data records the application passes around: users, videos,
//! newsletter rows, and the request forms the handlers decode.
//!
//! These are bare value types; persistence and (de)serialization live with
//! the surrounding application, which converts to and from its own wire
//! types.

use vstd::prelude::*;

use crate::text::str_eq;

verus! {

/// A registered account.  The password hash is opaque text produced and
/// checked by the surrounding application's credential layer.
#[derive(Clone, Debug)]
pub struct User {
    pub id: String,
    pub name: String,
    pub email: String,
    pub password_hash: String,
}

/// A video row as stored.
#[derive(Clone, Debug)]
pub struct Video {
    pub id: String,
    pub user_id: String,
    pub title: String,
    pub description: String,
    pub video_url: String,
    pub thumbnail_url: String,
    pub category: String,
    pub created_at: String,
}

/// A video joined with the uploader's display name.
#[derive(Clone, Debug)]
pub struct VideoWithUploader {
    pub id: String,
    pub user_id: String,
    pub title: String,
    pub description: String,
    pub video_url: String,
    pub thumbnail_url: String,
    pub category: String,
    pub created_at: String,
    pub uploader_name: String,
}

/// A newsletter subscriber row.
#[derive(Clone, Debug)]
pub struct NewsletterSubscriber {
    pub id: String,
    pub email: String,
    pub name: String,
    pub unsubscribe_token: String,
    pub subscribed_at: String,
}

/// A published newsletter article row.
#[derive(Clone, Debug)]
pub struct NewsletterArticle {
    pub id: String,
    pub title: String,
    pub summary: String,
    pub content_html: String,
    pub source_urls: String,
    pub published_at: String,
}

/// The login form fields.
#[derive(Clone, Debug)]
pub struct LoginForm {
    pub email: String,
    pub password: String,
}

/// The registration form fields.
#[derive(Clone, Debug)]
pub struct RegisterForm {
    pub name: String,
    pub email: String,
    pub password: String,
    pub confirm_password: String,
}

/// The newsletter subscription form fields.
#[derive(Clone, Debug)]
pub struct SubscribeForm {
    pub email: String,
    pub name: String,
}

/// The unsubscribe link's query parameter.
#[derive(Clone, Debug)]
pub struct UnsubscribeQuery {
    pub token: String,
}

/// The newsletter publishing API's request body.
#[derive(Clone, Debug)]
pub struct ArticlePayload {
    pub title: String,
    pub summary: String,
    pub content_html: String,
    pub source_urls: String,
}

/// The mood journal form fields.
#[derive(Clone, Debug)]
pub struct JournalForm {
    pub mood: i64,
    pub note: String,
}

/// The video upload form fields.
#[derive(Clone, Debug)]
pub struct VideoForm {
    pub title: String,
    pub description: String,
    pub video_url: String,
    pub thumbnail_url: String,
    pub category: String,
}

/// The emoji-and-label text shown for a category slug; unknown slugs fall
/// back to the general label.
pub open spec fn category_label_spec(slug: Seq<char>) -> Seq<char> {
    if slug == "breathing"@ {
        "🌬️  Breathing"@
    } else if slug == "meditation"@ {
        "🧘  Meditation"@
    } else if slug == "nutrition"@ {
        "🥗  Nutrition"@
    } else if slug == "exercise"@ {
        "💪  Exercise"@
    } else if slug == "mental-health"@ {
        "🧠  Mental Health"@
    } else {
        "🌿  General"@
    }
}

/// Return the emoji + label for a category slug, falling back gracefully.
pub fn category_label(slug: &str) -> (r: &'static str)
    ensures
        r@ == category_label_spec(slug@),
{
    if str_eq(slug, "breathing") {
        "🌬️  Breathing"
    } else if str_eq(slug, "meditation") {
        "🧘  Meditation"
    } else if str_eq(slug, "nutrition") {
        "🥗  Nutrition"
    } else if str_eq(slug, "exercise") {
        "💪  Exercise"
    } else if str_eq(slug, "mental-health") {
        "🧠  Mental Health"
    } else {
        "🌿  General"
    }
}

} // verus!
