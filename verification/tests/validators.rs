//! The form validators and the API key guard.

use calmcontrol::models::VideoForm;
use calmcontrol::validate::{
    api_key_valid, mood_in_range, validate_article_title, validate_registration,
    validate_subscriber_email, validate_video_form,
};

#[test]
fn registration_requires_all_fields() {
    let r = validate_registration("  ", "a@b.c", "password1", "password1");
    assert_eq!(r.unwrap_err(), "All fields are required.");
    let r = validate_registration("Ada", "   ", "password1", "password1");
    assert_eq!(r.unwrap_err(), "All fields are required.");
    let r = validate_registration("Ada", "a@b.c", "", "");
    assert_eq!(r.unwrap_err(), "All fields are required.");
}

#[test]
fn registration_requires_matching_passwords() {
    let r = validate_registration("Ada", "a@b.c", "password1", "password2");
    assert_eq!(r.unwrap_err(), "Passwords do not match.");
}

#[test]
fn registration_requires_a_long_enough_password() {
    let r = validate_registration("Ada", "a@b.c", "short", "short");
    assert_eq!(r.unwrap_err(), "Password must be at least 8 characters long.");
}

#[test]
fn registration_trims_the_name_and_normalizes_the_email() {
    let (name, email) =
        validate_registration("  Ada Lovelace ", " Ada@Example.COM ", "password1", "password1")
            .unwrap();
    assert_eq!(name, "Ada Lovelace");
    assert_eq!(email, "ada@example.com");
}

#[test]
fn mood_must_be_one_of_the_five_faces() {
    assert!(!mood_in_range(0));
    assert!(mood_in_range(1));
    assert!(mood_in_range(3));
    assert!(mood_in_range(5));
    assert!(!mood_in_range(6));
    assert!(!mood_in_range(-2));
}

fn form(title: &str, url: &str, category: &str) -> VideoForm {
    VideoForm {
        title: title.to_string(),
        description: "  desc  ".to_string(),
        video_url: url.to_string(),
        thumbnail_url: " thumb ".to_string(),
        category: category.to_string(),
    }
}

#[test]
fn video_form_requires_a_title_and_a_url() {
    let r = validate_video_form(&form("  ", "http://v", "general"));
    assert_eq!(r.unwrap_err(), "Title is required.");
    let r = validate_video_form(&form("T", "   ", "general"));
    assert_eq!(r.unwrap_err(), "Video URL is required.");
}

#[test]
fn video_form_rejects_unknown_categories() {
    let r = validate_video_form(&form("T", "http://v", "gardening"));
    assert_eq!(r.unwrap_err(), "Please select a valid category.");
}

#[test]
fn video_form_trims_every_field_on_success() {
    let cleaned = validate_video_form(&form(" T ", " http://v ", " mental-health ")).unwrap();
    assert_eq!(cleaned.title, "T");
    assert_eq!(cleaned.description, "desc");
    assert_eq!(cleaned.video_url, "http://v");
    assert_eq!(cleaned.thumbnail_url, "thumb");
    assert_eq!(cleaned.category, "mental-health");
}

#[test]
fn subscriber_email_is_normalized_and_checked() {
    assert_eq!(validate_subscriber_email(" News@Example.ORG ").unwrap(), "news@example.org");
    assert_eq!(
        validate_subscriber_email("   ").unwrap_err(),
        "Please enter a valid email address."
    );
    assert_eq!(
        validate_subscriber_email("no-at-sign").unwrap_err(),
        "Please enter a valid email address."
    );
}

#[test]
fn article_title_is_required_and_trimmed() {
    assert_eq!(validate_article_title("  Calm news  ").unwrap(), "Calm news");
    assert_eq!(validate_article_title("   ").unwrap_err(), "title is required");
}

#[test]
fn api_key_guard_accepts_either_header_form() {
    assert!(api_key_valid("sekret", Some("Bearer sekret"), None));
    assert!(api_key_valid("sekret", None, Some("sekret")));
    assert!(api_key_valid("sekret", Some("Bearer wrong"), Some("sekret")));
}

#[test]
fn api_key_guard_rejects_wrong_or_missing_keys() {
    assert!(!api_key_valid("sekret", Some("Bearer wrong"), None));
    assert!(!api_key_valid("sekret", Some("sekret"), None));
    assert!(!api_key_valid("sekret", None, Some("Sekret")));
    assert!(!api_key_valid("sekret", None, None));
}

#[test]
fn api_key_guard_locks_when_no_key_is_configured() {
    assert!(!api_key_valid("", Some("Bearer "), Some("")));
}
