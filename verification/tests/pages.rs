//! The page builders and text utilities on concrete values.

use calmcontrol::models::{category_label, User, VideoWithUploader};
use calmcontrol::stats::DashboardStats;
use calmcontrol::templates::{
    breathe_page, dashboard_page, error_alert, journal_page, login_page, meditate_page,
    new_video_page, not_found_page, profile_page, register_page, video_player_page, videos_page,
    weekly_bars, weekly_tip,
};
use calmcontrol::text::{
    contains_char, first_word, i64_to_string, initials, str_eq, trim_str, u64_to_string,
};

fn user() -> User {
    User {
        id: "u-1".to_string(),
        name: "Ada Lovelace".to_string(),
        email: "ada@example.com".to_string(),
        password_hash: "hash".to_string(),
    }
}

fn video() -> VideoWithUploader {
    VideoWithUploader {
        id: "v-1".to_string(),
        user_id: "u-1".to_string(),
        title: "Morning Stretch".to_string(),
        description: "A gentle start.".to_string(),
        video_url: "https://example.com/v.mp4".to_string(),
        thumbnail_url: String::new(),
        category: "exercise".to_string(),
        created_at: "2024-03-10 08:00:00".to_string(),
        uploader_name: "Ada".to_string(),
    }
}

#[test]
fn text_utilities_behave_on_concrete_values() {
    assert_eq!(u64_to_string(0), "0");
    assert_eq!(u64_to_string(1234567890), "1234567890");
    assert_eq!(i64_to_string(-42), "-42");
    assert_eq!(i64_to_string(7), "7");
    assert_eq!(trim_str("  hi there \n"), "hi there");
    assert_eq!(trim_str("   "), "");
    assert_eq!(first_word(" Ada Lovelace"), "Ada");
    assert_eq!(first_word("   "), "   ");
    assert_eq!(initials("ada lovelace"), "AL");
    assert_eq!(initials("grace"), "G");
    assert_eq!(initials("  "), "");
    assert!(str_eq("abc", "abc"));
    assert!(!str_eq("abc", "abd"));
    assert!(contains_char("a@b", '@'));
    assert!(!contains_char("ab", '@'));
}

#[test]
fn category_labels_cover_known_slugs_and_fall_back() {
    assert_eq!(category_label("breathing"), "🌬️  Breathing");
    assert_eq!(category_label("mental-health"), "🧠  Mental Health");
    assert_eq!(category_label("anything-else"), "🌿  General");
}

#[test]
fn weekly_tip_picks_the_right_message() {
    let s = |sessions, streak| DashboardStats {
        sessions_today: sessions,
        streak,
        total_minutes: 0,
    };
    assert!(weekly_tip(&s(0, 9)).contains("first session"));
    assert!(weekly_tip(&s(1, 7)).contains("7+ day streak"));
    assert!(weekly_tip(&s(1, 3)).contains("on a roll"));
    assert!(weekly_tip(&s(1, 2)).contains("Every session counts"));
}

#[test]
fn weekly_bars_scale_against_the_busiest_day() {
    let bars = weekly_bars(&[30, 0, 0, 0, 0, 0, 60]);
    assert!(bars.contains("height:55%"));
    assert!(bars.contains("height:100%"));
    assert!(bars.contains("title=\"30 min\""));
    assert!(bars.contains("title=\"No activity\""));
    assert!(bars.contains("active-bar"));
}

#[test]
fn weekly_bars_of_an_empty_week_are_resting_stubs() {
    let bars = weekly_bars(&[0, 0, 0, 0, 0, 0, 0]);
    assert_eq!(bars.matches("height:5%").count(), 7);
    assert!(!bars.contains("active-bar"));
}

#[test]
fn dashboard_page_shows_the_stats_and_greets_by_first_name() {
    let stats = DashboardStats { sessions_today: 2, streak: 5, total_minutes: 125 };
    let page = dashboard_page(&user(), &stats, &[0, 0, 0, 0, 0, 10, 20]);
    assert!(page.contains("Good day, Ada! &#128075;"));
    assert!(page.contains(">2</div>"));
    assert!(page.contains(">5</div>"));
    assert!(page.contains(">125</div>"));
    assert!(page.contains("Weekly Activity"));
    assert!(page.contains("<title>Dashboard — CalmControl</title>"));
}

#[test]
fn profile_page_shows_initials_and_account_details() {
    let page = profile_page(&user());
    assert!(page.contains("profile-avatar\">AL</div>"));
    assert!(page.contains("Ada Lovelace"));
    assert!(page.contains("ada@example.com"));
    assert!(page.contains("u-1"));
}

#[test]
fn auth_pages_show_an_alert_only_when_there_is_an_error() {
    assert!(!login_page(None).contains("alert-danger"));
    assert!(login_page(Some("Invalid email or password. Please try again."))
        .contains("Invalid email or password"));
    assert!(!register_page(None).contains("alert-danger"));
    assert!(register_page(Some("Passwords do not match.")).contains("Passwords do not match."));
    assert!(journal_page(Some("Please select a mood.")).contains("Please select a mood."));
    assert!(error_alert("boom").contains("boom"));
}

#[test]
fn session_pages_carry_their_fixed_content() {
    assert!(breathe_page().contains("Box breathing"));
    assert!(meditate_page().contains("Guided Meditation"));
    assert!(not_found_page().contains("404"));
    assert!(new_video_page(None).contains("Add a Health Video"));
    assert!(new_video_page(None).contains("<option value=\"meditation\">"));
}

#[test]
fn videos_page_lists_cards_or_the_empty_state() {
    let empty = videos_page(&vec![]);
    assert!(empty.contains("No videos yet"));
    let page = videos_page(&vec![video()]);
    assert!(page.contains("Morning Stretch"));
    assert!(page.contains("data-category=\"exercise\""));
    assert!(page.contains("2024-03-10"));
    assert!(page.contains("💪"));
}

#[test]
fn videos_page_truncates_long_descriptions() {
    let mut v = video();
    v.description = "x".repeat(200);
    let page = videos_page(&vec![v]);
    let expected = format!("{}…</p>", "x".repeat(90));
    assert!(page.contains(&expected));
}

#[test]
fn video_player_page_embeds_the_video_and_its_metadata() {
    let page = video_player_page(&video());
    assert!(page.contains("<source src=\"https://example.com/v.mp4\">"));
    assert!(page.contains("<title>Morning Stretch — CalmControl</title>"));
    assert!(page.contains("About this video"));
    let mut v = video();
    v.description = String::new();
    assert!(!video_player_page(&v).contains("About this video"));
}
