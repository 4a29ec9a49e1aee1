use focustrail::file_picker::{
    osascript_file_script, repository_picker_title, rest_overlay_html_request,
    rest_overlay_image_request, selected_path_from_output, zenity_file_arguments,
};
use focustrail::text::{decimal_text, text_eq_ignore_ascii_case, trim, wide_null};
use focustrail::time::{is_weekend, local_day_and_minute, seconds_between, LocalTime, Timestamp};

#[test]
fn decimal_and_trim() {
    assert_eq!(decimal_text(0), "0");
    assert_eq!(decimal_text(1234567890), "1234567890");
    assert_eq!(decimal_text(u64::MAX), "18446744073709551615");
    assert_eq!(trim("\u{3000} a b\t\n"), "a b");
    assert_eq!(trim("   "), "");
    assert!(text_eq_ignore_ascii_case("JsOnL", "jsonl"));
    assert!(!text_eq_ignore_ascii_case("jsonl", "jsonx"));
}

#[test]
fn wide_strings_end_with_zero() {
    assert_eq!(wide_null("ab"), vec![97, 98, 0]);
    assert_eq!(wide_null("\u{1F600}"), vec![0xD83D, 0xDE00, 0]);
    assert_eq!(wide_null(""), vec![0]);
}

#[test]
fn pickers_ask_for_the_right_files() {
    let image = rest_overlay_image_request();
    assert_eq!(image.title, "Select rest screen image");
    assert_eq!(
        zenity_file_arguments(&image),
        vec![
            "--file-selection",
            "--title=Select rest screen image",
            "--file-filter=Image files | *.png *.jpg *.jpeg *.webp *.gif *.bmp *.svg"
        ]
    );
    let html = rest_overlay_html_request();
    assert_eq!(html.filter.name, "HTML files");
    assert_eq!(html.filter.patterns, vec!["*.html", "*.htm"]);
    assert_eq!(
        osascript_file_script(&html),
        "POSIX path of (choose file with prompt \"Select rest screen HTML\")"
    );
    assert_eq!(repository_picker_title(), "Select Git repository root for FocusTrail sync");
    assert_eq!(selected_path_from_output(b"  /home/u/a.png\n"), Some("/home/u/a.png".to_string()));
    assert_eq!(selected_path_from_output(b"\n"), None);
}

#[test]
fn calendar_arithmetic() {
    let t = LocalTime { secs: 1778644800, nanos: 0, offset_seconds: 3600 };
    assert_eq!(local_day_and_minute(t), (20586, 300));
    let before_epoch = LocalTime { secs: -1, nanos: 0, offset_seconds: 0 };
    assert_eq!(local_day_and_minute(before_epoch), (-1, 1439));
    assert!(is_weekend(20589));
    assert!(is_weekend(20590));
    assert!(!is_weekend(20591));
    assert!(!is_weekend(0));
    assert!(is_weekend(-4));
    let a = Timestamp { secs: 10, nanos: 500 };
    assert_eq!(seconds_between(a, Timestamp { secs: 12, nanos: 499 }), 1);
    assert_eq!(seconds_between(a, Timestamp { secs: 12, nanos: 500 }), 2);
    assert_eq!(seconds_between(a, Timestamp { secs: 9, nanos: 0 }), 0);
}
