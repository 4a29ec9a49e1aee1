use focustrail::overlay::{
    asset_mismatch_message, base64_encode, check_chosen_asset, check_overlay_html_file,
    check_overlay_image_file, html_read_error, image_read_error, image_data_url, normalize_rest_overlay_duration,
    rest_overlay_asset_matches, rest_overlay_html_source, rest_overlay_image_mime,
    rest_overlay_image_source, OverlaySource, RestOverlayMode, RestOverlayRuntime,
};

#[test]
fn overlay_duration_defaults_and_caps() {
    assert_eq!(normalize_rest_overlay_duration(0), 180);
    assert_eq!(normalize_rest_overlay_duration(1), 1);
    assert_eq!(normalize_rest_overlay_duration(300), 300);
    assert_eq!(normalize_rest_overlay_duration(7200), 7200);
    assert_eq!(normalize_rest_overlay_duration(7201), 7200);
}

#[test]
fn each_show_is_a_new_request() {
    let mut o = RestOverlayRuntime::new();
    let a = o.show(0);
    assert_eq!(a.request_id, 1);
    assert!(a.visible);
    assert_eq!(a.duration_seconds, 180);
    let b = o.show(10_000);
    assert_eq!(b.request_id, 2);
    assert_eq!(b.duration_seconds, 7200);
    o.conceal();
    let c = o.current_request();
    assert_eq!(c.request_id, 2);
    assert!(!c.visible);
    assert_eq!(c.duration_seconds, 7200);
    let mut full = RestOverlayRuntime { request_id: u64::MAX, visible: false, duration_seconds: 5 };
    assert_eq!(full.show(5).request_id, u64::MAX);
}

#[test]
fn assets_are_matched_by_extension() {
    assert!(rest_overlay_asset_matches(RestOverlayMode::Image, "/p/cat.PNG"));
    assert!(rest_overlay_asset_matches(RestOverlayMode::Image, "a.jpeg"));
    assert!(rest_overlay_asset_matches(RestOverlayMode::Image, "a.svg"));
    assert!(!rest_overlay_asset_matches(RestOverlayMode::Image, "a.html"));
    assert!(rest_overlay_asset_matches(RestOverlayMode::Html, "page.HTM"));
    assert!(!rest_overlay_asset_matches(RestOverlayMode::Html, "page.txt"));
    assert!(rest_overlay_asset_matches(RestOverlayMode::Blur, "x.anything"));
    assert!(!rest_overlay_asset_matches(RestOverlayMode::Blur, "noextension"));
}

#[test]
fn image_types_follow_extensions() {
    assert_eq!(rest_overlay_image_mime("a.png"), Some("image/png"));
    assert_eq!(rest_overlay_image_mime("a.JPG"), Some("image/jpeg"));
    assert_eq!(rest_overlay_image_mime("a.jpeg"), Some("image/jpeg"));
    assert_eq!(rest_overlay_image_mime("a.webp"), Some("image/webp"));
    assert_eq!(rest_overlay_image_mime("a.gif"), Some("image/gif"));
    assert_eq!(rest_overlay_image_mime("a.bmp"), Some("image/bmp"));
    assert_eq!(rest_overlay_image_mime("a.svg"), Some("image/svg+xml"));
    assert_eq!(rest_overlay_image_mime("a.tiff"), None);
    assert_eq!(rest_overlay_image_mime("a"), None);
}

#[test]
fn mismatches_name_the_expected_file() {
    assert_eq!(asset_mismatch_message(RestOverlayMode::Blur), "Please choose a file.");
    assert_eq!(asset_mismatch_message(RestOverlayMode::Image), "Please choose an image file.");
    assert_eq!(asset_mismatch_message(RestOverlayMode::Html), "Please choose an HTML file.");
}

#[test]
fn base64_matches_the_standard_alphabet() {
    assert_eq!(base64_encode(b""), "");
    assert_eq!(base64_encode(b"f"), "Zg==");
    assert_eq!(base64_encode(b"fo"), "Zm8=");
    assert_eq!(base64_encode(b"foo"), "Zm9v");
    assert_eq!(base64_encode(b"foobar"), "Zm9vYmFy");
    assert_eq!(base64_encode(&[0xfb, 0xff, 0xfe]), "+//+");
    assert_eq!(base64_encode(&[0u8; 7]).len(), 12);
    assert_eq!(image_data_url("image/png", b"hi"), "data:image/png;base64,aGk=");
}

#[test]
fn overlay_sources_tell_inline_from_files() {
    assert!(matches!(rest_overlay_html_source(&None), OverlaySource::Nothing));
    assert!(matches!(rest_overlay_html_source(&Some("   ".to_string())), OverlaySource::Nothing));
    assert!(matches!(rest_overlay_html_source(&Some(" <p>hi</p> ".to_string())), OverlaySource::Inline(ref s) if s == "<p>hi</p>"));
    assert!(matches!(rest_overlay_html_source(&Some("/x/rest.html".to_string())), OverlaySource::File(ref s) if s == "/x/rest.html"));
    assert!(matches!(rest_overlay_image_source(&Some("https://e.com/a.png".to_string())), OverlaySource::Inline(_)));
    assert!(matches!(rest_overlay_image_source(&Some("data:image/png;base64,AA".to_string())), OverlaySource::Inline(_)));
    assert!(matches!(rest_overlay_image_source(&Some("blob:x".to_string())), OverlaySource::Inline(_)));
    assert!(matches!(rest_overlay_image_source(&Some("http:x".to_string())), OverlaySource::Inline(_)));
    assert!(matches!(rest_overlay_image_source(&Some("C:\\a.png".to_string())), OverlaySource::File(ref s) if s == "C:\\a.png"));
    assert!(matches!(rest_overlay_image_source(&None), OverlaySource::Nothing));
}

#[test]
fn chosen_files_are_checked_for_existence_then_kind() {
    assert_eq!(check_chosen_asset(RestOverlayMode::Image, "/p/a.png", false).unwrap_err(), "Please choose a file.");
    assert_eq!(
        check_chosen_asset(RestOverlayMode::Image, "/p/a.txt", true).unwrap_err(),
        "Please choose an image file."
    );
    assert_eq!(
        check_chosen_asset(RestOverlayMode::Html, "/p/a.png", true).unwrap_err(),
        "Please choose an HTML file."
    );
    assert!(check_chosen_asset(RestOverlayMode::Html, "/p/a.HTM", true).is_ok());
    assert!(check_chosen_asset(RestOverlayMode::Blur, "/p/a.txt", true).is_ok());
}

#[test]
fn configured_files_are_checked_before_reading() {
    assert_eq!(
        check_overlay_html_file("/p/rest.html", false).unwrap_err(),
        "The selected HTML file does not exist."
    );
    assert_eq!(check_overlay_html_file("/p/rest.txt", true).unwrap_err(), "Please choose an HTML file.");
    assert!(check_overlay_html_file("/p/rest.html", true).is_ok());
    assert_eq!(
        check_overlay_image_file("/p/a.png", false).unwrap_err(),
        "The selected image file does not exist."
    );
    assert_eq!(check_overlay_image_file("/p/a.html", true).unwrap_err(), "Please choose an image file.");
    assert_eq!(check_overlay_image_file("/p/a.JPG", true).unwrap(), "image/jpeg");
    assert_eq!(html_read_error("gone"), "Failed to read rest screen HTML: gone");
    assert_eq!(image_read_error("gone"), "Failed to read rest screen image: gone");
}
