use dag_monitor::assets::{asset_name, index_stands_in};
use dag_monitor::instant::{
    accepted_instant, current_instant, datetime_label, format_datetime, is_supported_instant,
};
use dag_monitor::models::{TaskStatus, Theme, DAG};
use dag_monitor::text::{
    char_code, chars_eq_ignore_ascii_case, contains_text, digit, push_decimal, text_eq, text_less,
    to_chars,
};

fn chars(s: &str) -> Vec<char> {
    s.chars().collect()
}

fn record() -> DAG {
    DAG {
        id: 0,
        dag_id: "wf".to_string(),
        description: None,
        file_path: String::new(),
        owner: String::new(),
        paused: false,
        last_run: None,
        next_run: None,
        runs_count: 0,
        success_count: 0,
        failed_count: 0,
        running_count: 0,
        schedule_interval: String::new(),
        tags: Vec::new(),
        created_at: 0,
        updated_at: 0,
    }
}

#[test]
fn decimal_numerals() {
    for (n, text) in [(0usize, "0"), (9, "9"), (10, "10"), (105, "105"), (usize::MAX, "")] {
        let mut s = String::from("n=");
        push_decimal(&mut s, n);
        let expected = if text.is_empty() { format!("n={}", usize::MAX) } else { format!("n={text}") };
        assert_eq!(s, expected);
    }
    assert_eq!(digit(0), '0');
    assert_eq!(digit(9), '9');
    assert_eq!(char_code('A'), 65);
    assert_eq!(char_code('\u{10FFFF}'), 0x10FFFF);
}

#[test]
fn characters_of_a_string() {
    assert_eq!(to_chars("a\u{00E9}\u{1F600}"), vec!['a', '\u{00E9}', '\u{1F600}']);
    assert!(to_chars("").is_empty());
}

#[test]
fn text_equality() {
    assert!(text_eq("", ""));
    assert!(text_eq("paused", "paused"));
    assert!(!text_eq("paused", "Paused"));
    assert!(!text_eq("paused", "pause"));
    assert!(!text_eq("pause", "paused"));
}

#[test]
fn equality_ignoring_ascii_case() {
    assert!(chars_eq_ignore_ascii_case(&chars("Production"), &chars("pRODUCTION")));
    assert!(chars_eq_ignore_ascii_case(&chars(""), &chars("")));
    assert!(!chars_eq_ignore_ascii_case(&chars("etl"), &chars("etl ")));
    assert!(!chars_eq_ignore_ascii_case(&chars("@"), &chars("`")));
    assert!(!chars_eq_ignore_ascii_case(&chars("["), &chars("{")));
    assert!(!chars_eq_ignore_ascii_case(&chars("\u{00C9}"), &chars("\u{00E9}")));
    for (a, b) in [("Az", "aZ"), ("a1", "A1"), ("x", "y"), ("K", "\u{212A}")] {
        assert_eq!(chars_eq_ignore_ascii_case(&chars(a), &chars(b)), a.eq_ignore_ascii_case(b));
    }
}

#[test]
fn lexicographic_order() {
    let words = ["", "a", "A", "ab", "abc", "abd", "b", "Z", "z", "\u{00E9}", "e", "\u{1F600}", "a\u{0}"];
    for a in words {
        for b in words {
            assert_eq!(text_less(a, b), a < b, "{a:?} against {b:?}");
        }
    }
}

#[test]
fn substring_search() {
    assert!(contains_text("etl_daily_001", "daily"));
    assert!(contains_text("etl_daily_001", ""));
    assert!(contains_text("", ""));
    assert!(contains_text("abc", "abc"));
    assert!(contains_text("aab", "ab"));
    assert!(contains_text("abc", "c"));
    assert!(!contains_text("abc", "abcd"));
    assert!(!contains_text("", "a"));
    assert!(!contains_text("etl_daily_001", "Daily"));
    assert!(!contains_text("abab", "bb"));
}

#[test]
fn status_colours_labels_and_names() {
    let table = [
        (TaskStatus::SUCCEEDED, "#4caf50", "Succeeded", "SUCCEEDED"),
        (TaskStatus::FAILED, "#f44336", "Failed", "FAILED"),
        (TaskStatus::RUNNING, "#2196f3", "Running", "RUNNING"),
        (TaskStatus::PENDING, "#9e9e9e", "Pending", "PENDING"),
        (TaskStatus::QUEUED, "#ff9800", "Queued", "QUEUED"),
        (TaskStatus::SKIPPED, "#673ab7", "Skipped", "SKIPPED"),
        (TaskStatus::PAUSED, "#795548", "Paused", "PAUSED"),
    ];
    for (status, color, label, tag) in table {
        assert_eq!(status.color(), color);
        assert_eq!(status.label(), label);
        assert_eq!(status.name(), tag);
        assert_eq!(format!("{status:?}"), tag);
    }
}

#[test]
fn workflow_state_word() {
    let mut d = record();
    assert_eq!(d.status(), "none");
    d.success_count = 1;
    assert_eq!(d.status(), "success");
    d.failed_count = 1;
    assert_eq!(d.status(), "failed");
    d.running_count = 1;
    assert_eq!(d.status(), "running");
    d.paused = true;
    assert_eq!(d.status(), "paused");
}

#[test]
fn theme_toggles_between_two_classes() {
    assert_eq!(Theme::Light.toggle(), Theme::Dark);
    assert_eq!(Theme::Dark.toggle(), Theme::Light);
    assert_eq!(Theme::Light.toggle().toggle(), Theme::Light);
    assert_eq!(Theme::Light.css_class(), "light-theme");
    assert_eq!(Theme::Dark.css_class(), "dark-theme");
}

#[test]
fn instants_are_formatted_in_utc() {
    assert_eq!(format_datetime(None), "N/A");
    assert_eq!(format_datetime(Some(0)), "1970-01-01 00:00:00");
    assert_eq!(format_datetime(Some(1_700_000_000_000)), "2023-11-14 22:13:20");
    assert_eq!(format_datetime(Some(-1)), "1969-12-31 23:59:59");
    assert_eq!(format_datetime(Some(i64::MAX)), "N/A");
    assert_eq!(datetime_label(Some(5), Some("text".to_string())), "text");
    assert_eq!(datetime_label(Some(5), None), "N/A");
    assert_eq!(datetime_label(None, Some("text".to_string())), "N/A");
}

#[test]
fn supported_instants() {
    assert!(is_supported_instant(0));
    assert!(is_supported_instant(1_700_000_000_000));
    assert!(is_supported_instant(i64::MAX - 2_592_000_000));
    assert!(!is_supported_instant(i64::MAX - 2_591_999_999));
    assert!(is_supported_instant(i64::MIN + 2_592_000_000));
    assert!(!is_supported_instant(i64::MIN));
    let now = current_instant().unwrap();
    assert!(now > 1_600_000_000_000);
}

#[test]
fn substring_search_agrees_with_the_standard_search() {
    let words = ["", "a", "ab", "ba", "aba", "abab", "bab", "abc", "\u{00E9}a", "a\u{00E9}"];
    for hay in words {
        for needle in words {
            assert_eq!(contains_text(hay, needle), hay.contains(needle), "{needle:?} in {hay:?}");
            assert_eq!(text_eq(hay, needle), hay == needle);
        }
    }
}

#[test]
fn request_paths_name_embedded_files() {
    assert_eq!(asset_name(""), "index.html");
    assert_eq!(asset_name("/"), "index.html");
    assert_eq!(asset_name("index.html"), "index.html");
    assert_eq!(asset_name("/app.js"), "app.js");
    assert_eq!(asset_name("//assets/app.css"), "assets/app.css");
    assert_eq!(asset_name("assets//x/"), "assets//x/");
    assert_eq!(asset_name("//"), "");
    for path in ["", "/", "a", "/a/b", "///x", "\u{00E9}/"] {
        let expected = if path.is_empty() || path == "/" {
            "index.html"
        } else {
            path.trim_start_matches('/')
        };
        assert_eq!(asset_name(path), expected);
    }
    assert!(index_stands_in("dag/tiny_dag_5/graph"));
    assert!(index_stands_in(""));
    assert!(!index_stands_in("index.html"));
}

#[test]
fn clock_readings_are_accepted_within_the_window() {
    assert_eq!(accepted_instant(0), Some(0));
    assert_eq!(accepted_instant(-7), Some(-7));
    assert_eq!(accepted_instant(i64::MAX - 2_592_000_000), Some(i64::MAX - 2_592_000_000));
    assert_eq!(accepted_instant(i64::MAX - 2_591_999_999), None);
    assert_eq!(accepted_instant(i64::MIN + 2_592_000_000), Some(i64::MIN + 2_592_000_000));
    assert_eq!(accepted_instant(i64::MIN + 2_591_999_999), None);
    assert_eq!(accepted_instant(i64::MAX), None);
    let a = current_instant().unwrap();
    let b = current_instant().unwrap();
    assert!((b - a).abs() < 60_000);
}
