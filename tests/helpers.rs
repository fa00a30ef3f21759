use shelfily::client::{next_page, AudiobookshelfClient, PAGE_SIZE};
use shelfily::credentials::{restore_plan, StoredSession};
use shelfily::display::{
    chapter_status, detail_cover_size, detail_shows_pause, format_chapter_length, format_length,
    format_time, grid_layout, is_compact, play_label, ChapterStatus,
};
use shelfily::error::ApiError;
use shelfily::library::first_occurrences;
use shelfily::models::DeviceInfo;
use shelfily::oauth::{extract_access_token, extract_url_param};

#[test]
fn format_time_minutes() {
    assert_eq!(format_time(0), "0:00");
    assert_eq!(format_time(65), "1:05");
    assert_eq!(format_time(3599), "59:59");
}

#[test]
fn format_time_hours() {
    assert_eq!(format_time(3600), "1:00:00");
    assert_eq!(format_time(3725), "1:02:05");
    assert_eq!(format_time(36000 + 59), "10:00:59");
}

#[test]
fn url_param_from_query() {
    assert_eq!(
        extract_url_param("app://cb?code=1&access_token=abc&x=2", "access_token"),
        Some("abc".to_string())
    );
    assert_eq!(extract_url_param("app://cb?access_token=&x=2", "access_token"), None);
    assert_eq!(extract_url_param("app://cb", "x"), None);
}

#[test]
fn url_param_from_fragment() {
    assert_eq!(extract_url_param("app://cb#token=t1", "token"), Some("t1".to_string()));
    assert_eq!(extract_url_param("app://cb?a=1#token=t2&b=3", "token"), Some("t2".to_string()));
    assert_eq!(extract_url_param("app://cb?token=q#token=f", "token"), Some("q#token=f".to_string()));
}

#[test]
fn url_param_value_may_hold_equals() {
    assert_eq!(extract_url_param("x?k=a=b", "k"), Some("a=b".to_string()));
}

#[test]
fn access_token_names() {
    assert_eq!(extract_access_token("cb?accessToken=A"), Some("A".to_string()));
    assert_eq!(extract_access_token("cb?token=T&access_token=B"), Some("B".to_string()));
    assert_eq!(extract_access_token("cb#token=T"), Some("T".to_string()));
    assert_eq!(extract_access_token("cb?code=1"), None);
}

#[test]
fn server_url_drops_trailing_slashes() {
    let mut c = AudiobookshelfClient::new();
    assert!(!c.is_authenticated());
    c.set_server("https://abs.example.org//");
    assert_eq!(c.server_url(), "https://abs.example.org");
    assert_eq!(c.endpoint("/login"), "https://abs.example.org/login");
    assert_eq!(c.authorization(), None);
    c.set_token("tok");
    assert!(c.is_authenticated());
    assert_eq!(c.token(), Some("tok".to_string()));
    assert_eq!(c.authorization(), Some("Bearer tok".to_string()));
}

#[test]
fn stream_url_relative_and_absolute() {
    let mut c = AudiobookshelfClient::new();
    c.set_server("http://h");
    assert_eq!(c.audio_stream_url("/a/b.mp3"), "http://h/a/b.mp3");
    c.set_token("T");
    assert_eq!(c.audio_stream_url("/a/b.mp3"), "http://h/a/b.mp3?token=T");
    assert_eq!(c.audio_stream_url("/a/b.mp3?x=1"), "http://h/a/b.mp3?x=1&token=T");
    assert_eq!(c.audio_stream_url("https://cdn/x.mp3"), "https://cdn/x.mp3?token=T");
}

#[test]
fn pages_until_total() {
    assert_eq!(PAGE_SIZE, 100);
    assert_eq!(next_page(0, 100, 250), Some(100));
    assert_eq!(next_page(200, 50, 250), None);
    assert_eq!(next_page(0, 0, 250), None);
    assert_eq!(next_page(0, 10, 0), None);
}

#[test]
fn layouts_by_width() {
    let narrow = grid_layout(500);
    assert_eq!((narrow.min_columns, narrow.max_columns, narrow.spacing, narrow.card_width), (1, 2, 10, 126));
    let middle = grid_layout(800);
    assert_eq!((middle.min_columns, middle.max_columns, middle.spacing, middle.card_width), (2, 4, 12, 142));
    let wide = grid_layout(1200);
    assert_eq!((wide.min_columns, wide.max_columns, wide.spacing, wide.card_width), (2, 6, 16, 160));
    assert!(is_compact(819));
    assert!(!is_compact(820));
    assert_eq!(detail_cover_size(true), 160);
    assert_eq!(detail_cover_size(false), 220);
}

#[test]
fn detail_button_state() {
    assert!(detail_shows_pause(Some("b1"), Some("b1"), true));
    assert!(!detail_shows_pause(Some("b1"), Some("b1"), false));
    assert!(!detail_shows_pause(Some("b1"), Some("b2"), true));
    assert!(!detail_shows_pause(None, None, true));
}

#[test]
fn restore_prefers_keyring_token() {
    let saved = StoredSession {
        server_url: "http://h".to_string(),
        library_id: "lib".to_string(),
        token: "file-token".to_string(),
    };
    let plan = restore_plan(saved.clone(), "key-token").unwrap();
    assert_eq!(plan.token, "key-token");
    assert_eq!(plan.library_id, Some("lib".to_string()));
    let plan = restore_plan(saved, "").unwrap();
    assert_eq!(plan.token, "file-token");
}

#[test]
fn restore_needs_server_and_token() {
    let mut saved = StoredSession::empty();
    saved.token = "t".to_string();
    assert!(restore_plan(saved, "").is_none());
    let saved = StoredSession { server_url: "http://h".to_string(), library_id: String::new(), token: String::new() };
    assert!(restore_plan(saved, "").is_none());
}

#[test]
fn settings_override_file() {
    let file = StoredSession { server_url: "a".to_string(), library_id: "l1".to_string(), token: "t".to_string() };
    let merged = file.with_settings("b", "");
    assert_eq!(merged.server_url, "b");
    assert_eq!(merged.library_id, "l1");
    assert_eq!(merged.token, "t");
}

#[test]
fn repeated_ids_dropped() {
    let ids: Vec<String> = ["a", "b", "a", "c", "b"].iter().map(|s| s.to_string()).collect();
    assert_eq!(first_occurrences(&ids), vec![0, 1, 3]);
    assert_eq!(first_occurrences(&Vec::new()), Vec::<usize>::new());
}

#[test]
fn error_text() {
    assert_eq!(ApiError::Network("timeout".to_string()).describe(), "Network error: timeout");
    assert_eq!(ApiError::Auth("HTTP 401".to_string()).describe(), "Authentication error: HTTP 401");
    assert_eq!(ApiError::Parse("bad".to_string()).describe(), "Parse error: bad");
    assert_eq!(ApiError::Server("HTTP 500".to_string()).describe(), "Server error: HTTP 500");
    assert_eq!(ApiError::Server("x".to_string()).detail(), "x");
}

#[test]
fn device_info_fields() {
    let d = DeviceInfo::for_device("host1".to_string());
    assert_eq!(d.device_id, "shelfily-desktop-gtk");
    assert_eq!(d.client_name, "Shelfily Desktop GTK");
    assert_eq!(d.client_version, "0.1.0");
    assert_eq!(d.device_name, "host1");
    assert_eq!(d.device_type, "desktop");
}

#[test]
fn chapter_states() {
    assert_eq!(chapter_status(100, 0, 60, false), ChapterStatus::Done);
    assert_eq!(chapter_status(60, 0, 60, false), ChapterStatus::Done);
    assert_eq!(chapter_status(30, 0, 60, false), ChapterStatus::Current);
    assert_eq!(chapter_status(10, 60, 120, false), ChapterStatus::Ahead);
    assert_eq!(chapter_status(10, 60, 120, true), ChapterStatus::Done);
}

#[test]
fn length_texts() {
    assert_eq!(format_length(3 * 3600 + 25 * 60 + 9), "3 h 25 min");
    assert_eq!(format_length(59 * 60 + 59), "59 min");
    assert_eq!(format_chapter_length(754), "12 min 34 sec");
    assert_eq!(format_chapter_length(5), "0 min 5 sec");
    assert_eq!(play_label(true), "Continue");
    assert_eq!(play_label(false), "Start Listening");
}
