//! The rest screen: its duration, its show/hide requests, the files it may
//! show and the data URL of an image.

use vstd::prelude::*;
use crate::git_sync::path_extension_of;
use crate::storage::clamp_u32;
use crate::text::{eq_ignore_ascii_case, owned, push_char, push_text, text_eq_ignore_ascii_case, trim, trimmed};

verus! {

/// Rest screen length used when rest is skipped (three minutes).
pub const DEFAULT_SKIPPED_REST_OVERLAY_SECONDS: u32 = 180u32;

/// Longest rest screen (two hours).
pub const MAX_REST_OVERLAY_SECONDS: u32 = 7200u32;

#[derive(Clone, Copy, Debug, PartialEq, Eq, Structural)]
pub enum RestOverlayMode {
    Blur,
    Image,
    Html,
}

/// The rest screen's length: the skipped-rest default for zero, else at
/// most two hours.
pub open spec fn overlay_duration_spec(duration_seconds: u32) -> u32 {
    if duration_seconds == 0 {
        DEFAULT_SKIPPED_REST_OVERLAY_SECONDS
    } else if duration_seconds > MAX_REST_OVERLAY_SECONDS {
        MAX_REST_OVERLAY_SECONDS
    } else {
        duration_seconds
    }
}

pub fn normalize_rest_overlay_duration(duration_seconds: u32) -> (r: u32)
    ensures
        r == overlay_duration_spec(duration_seconds),
{
    if duration_seconds == 0 {
        return DEFAULT_SKIPPED_REST_OVERLAY_SECONDS;
    }
    clamp_u32(duration_seconds, 1, MAX_REST_OVERLAY_SECONDS)
}

/// The rest screen's state: the number of the latest show request, whether
/// it is shown, and for how long.
#[derive(Clone, Copy, Debug, PartialEq, Eq, Structural)]
pub struct RestOverlayRuntime {
    pub request_id: u64,
    pub visible: bool,
    pub duration_seconds: u32,
}

/// What the rest screen window is told.
#[derive(Clone, Copy, Debug, PartialEq, Eq, Structural)]
pub struct RestOverlayRequest {
    pub request_id: u64,
    pub visible: bool,
    pub duration_seconds: u32,
}

impl RestOverlayRuntime {
    pub fn new() -> (r: RestOverlayRuntime)
        ensures
            r == (RestOverlayRuntime { request_id: 0, visible: false, duration_seconds: 0 }),
    {
        RestOverlayRuntime { request_id: 0, visible: false, duration_seconds: 0 }
    }

    /// A new show request: the next request number (saturating), shown, for
    /// the normalised duration.
    pub fn show(&mut self, duration_seconds: u32) -> (r: RestOverlayRequest)
        ensures
            final(self).request_id == if old(self).request_id == u64::MAX {
                u64::MAX
            } else {
                (old(self).request_id + 1) as u64
            },
            final(self).visible,
            final(self).duration_seconds == overlay_duration_spec(duration_seconds),
            r == final(self).request(),
    {
        let duration = normalize_rest_overlay_duration(duration_seconds);
        self.request_id = self.request_id.saturating_add(1);
        self.visible = true;
        self.duration_seconds = duration;
        RestOverlayRequest {
            request_id: self.request_id,
            visible: self.visible,
            duration_seconds: self.duration_seconds,
        }
    }

    /// Hides the rest screen, keeping the last request's number and length.
    pub fn conceal(&mut self)
        ensures
            *final(self) == (RestOverlayRuntime { visible: false, ..*old(self) }),
    {
        self.visible = false;
    }

    pub open spec fn request(self) -> RestOverlayRequest {
        RestOverlayRequest {
            request_id: self.request_id,
            visible: self.visible,
            duration_seconds: self.duration_seconds,
        }
    }

    /// The current request, for a window that opens late.
    pub fn current_request(&self) -> (r: RestOverlayRequest)
        ensures
            r == self.request(),
    {
        RestOverlayRequest {
            request_id: self.request_id,
            visible: self.visible,
            duration_seconds: self.duration_seconds,
        }
    }
}

/// An extension equal, without regard to ASCII case, to one of the listed ones.
pub open spec fn ext_is(e: Seq<char>, a: Seq<char>) -> bool {
    eq_ignore_ascii_case(e, a)
}

pub open spec fn image_extension(e: Seq<char>) -> bool {
    ext_is(e, "png"@) || ext_is(e, "jpg"@) || ext_is(e, "jpeg"@) || ext_is(e, "webp"@) || ext_is(e, "gif"@)
        || ext_is(e, "bmp"@) || ext_is(e, "svg"@)
}

pub open spec fn html_extension(e: Seq<char>) -> bool {
    ext_is(e, "html"@) || ext_is(e, "htm"@)
}

/// Whether a file suits the rest screen mode: it has an extension, and for
/// images and HTML one of the accepted ones.
pub open spec fn asset_matches(mode: RestOverlayMode, path: Seq<char>) -> bool {
    match path_extension_of(path) {
        None => false,
        Some(e) => match mode {
            RestOverlayMode::Blur => true,
            RestOverlayMode::Image => image_extension(e),
            RestOverlayMode::Html => html_extension(e),
        },
    }
}

fn extension_of(path: &str) -> (r: Option<String>)
    ensures
        match r {
            Some(e) => path_extension_of(path@) == Some(e@),
            None => path_extension_of(path@) is None,
        },
{
    crate::git_sync::path_extension(path)
}

pub fn rest_overlay_asset_matches(mode: RestOverlayMode, path: &str) -> (r: bool)
    ensures
        r == asset_matches(mode, path@),
{
    let extension = match extension_of(path) {
        Some(e) => e,
        None => return false,
    };
    let e = extension.as_str();
    match mode {
        RestOverlayMode::Blur => true,
        RestOverlayMode::Image => text_eq_ignore_ascii_case(e, "png") || text_eq_ignore_ascii_case(e, "jpg")
            || text_eq_ignore_ascii_case(e, "jpeg") || text_eq_ignore_ascii_case(e, "webp")
            || text_eq_ignore_ascii_case(e, "gif") || text_eq_ignore_ascii_case(e, "bmp")
            || text_eq_ignore_ascii_case(e, "svg"),
        RestOverlayMode::Html => text_eq_ignore_ascii_case(e, "html") || text_eq_ignore_ascii_case(
            e,
            "htm",
        ),
    }
}

/// The MIME type of an image file by its extension.
pub open spec fn image_mime(path: Seq<char>) -> Option<Seq<char>> {
    match path_extension_of(path) {
        None => None,
        Some(e) => if ext_is(e, "png"@) {
            Some("image/png"@)
        } else if ext_is(e, "jpg"@) || ext_is(e, "jpeg"@) {
            Some("image/jpeg"@)
        } else if ext_is(e, "webp"@) {
            Some("image/webp"@)
        } else if ext_is(e, "gif"@) {
            Some("image/gif"@)
        } else if ext_is(e, "bmp"@) {
            Some("image/bmp"@)
        } else if ext_is(e, "svg"@) {
            Some("image/svg+xml"@)
        } else {
            None
        },
    }
}

pub fn rest_overlay_image_mime(path: &str) -> (r: Option<&'static str>)
    ensures
        match r {
            Some(m) => image_mime(path@) == Some(m@),
            None => image_mime(path@) is None,
        },
{
    let extension = match extension_of(path) {
        Some(e) => e,
        None => return None,
    };
    let e = extension.as_str();
    if text_eq_ignore_ascii_case(e, "png") {
        Some("image/png")
    } else if text_eq_ignore_ascii_case(e, "jpg") || text_eq_ignore_ascii_case(e, "jpeg") {
        Some("image/jpeg")
    } else if text_eq_ignore_ascii_case(e, "webp") {
        Some("image/webp")
    } else if text_eq_ignore_ascii_case(e, "gif") {
        Some("image/gif")
    } else if text_eq_ignore_ascii_case(e, "bmp") {
        Some("image/bmp")
    } else if text_eq_ignore_ascii_case(e, "svg") {
        Some("image/svg+xml")
    } else {
        None
    }
}

/// The message for a chosen file that does not suit the mode.
pub open spec fn mismatch_text(mode: RestOverlayMode) -> Seq<char> {
    match mode {
        RestOverlayMode::Blur => "Please choose a file."@,
        RestOverlayMode::Image => "Please choose an image file."@,
        RestOverlayMode::Html => "Please choose an HTML file."@,
    }
}

pub fn asset_mismatch_message(mode: RestOverlayMode) -> (r: String)
    ensures
        r@ == mismatch_text(mode),
{
    match mode {
        RestOverlayMode::Blur => owned("Please choose a file."),
        RestOverlayMode::Image => owned("Please choose an image file."),
        RestOverlayMode::Html => owned("Please choose an HTML file."),
    }
}

/// The checks on a file chosen for the rest screen, in order: it must be a
/// file, and its extension must suit the mode.
pub open spec fn chosen_asset_check(mode: RestOverlayMode, path: Seq<char>, is_file: bool) -> Result<
    (),
    Seq<char>,
> {
    if !is_file {
        Err("Please choose a file."@)
    } else if !asset_matches(mode, path) {
        Err(mismatch_text(mode))
    } else {
        Ok(())
    }
}

/// Checks a chosen file (see `chosen_asset_check`), given whether the path
/// is a file.
pub fn check_chosen_asset(mode: RestOverlayMode, path: &str, is_file: bool) -> (r: Result<(), String>)
    ensures
        match chosen_asset_check(mode, path@, is_file) {
            Ok(()) => r is Ok,
            Err(e) => r is Err && r->Err_0@ == e,
        },
{
    if !is_file {
        return Err(owned("Please choose a file."));
    }
    if !rest_overlay_asset_matches(mode, path) {
        return Err(asset_mismatch_message(mode));
    }
    Ok(())
}

/// The checks on the configured HTML file before it is read, in order: it
/// must be a file, and have an HTML extension.
pub open spec fn html_file_check(path: Seq<char>, is_file: bool) -> Result<(), Seq<char>> {
    if !is_file {
        Err("The selected HTML file does not exist."@)
    } else if !asset_matches(RestOverlayMode::Html, path) {
        Err("Please choose an HTML file."@)
    } else {
        Ok(())
    }
}

/// Checks the configured HTML file (see `html_file_check`), given whether
/// the path is a file.
pub fn check_overlay_html_file(path: &str, is_file: bool) -> (r: Result<(), String>)
    ensures
        match html_file_check(path@, is_file) {
            Ok(()) => r is Ok,
            Err(e) => r is Err && r->Err_0@ == e,
        },
{
    if !is_file {
        return Err(owned("The selected HTML file does not exist."));
    }
    if !rest_overlay_asset_matches(RestOverlayMode::Html, path) {
        return Err(owned("Please choose an HTML file."));
    }
    Ok(())
}

/// The checks on the configured image file before it is read, in order: it
/// must be a file, have an image extension and a known MIME type, which is
/// the result.
pub open spec fn image_file_check(path: Seq<char>, is_file: bool) -> Result<Seq<char>, Seq<char>> {
    if !is_file {
        Err("The selected image file does not exist."@)
    } else if !asset_matches(RestOverlayMode::Image, path) {
        Err("Please choose an image file."@)
    } else {
        match image_mime(path) {
            Some(m) => Ok(m),
            None => Err("Please choose an image file."@),
        }
    }
}

/// Checks the configured image file (see `image_file_check`), given whether
/// the path is a file; returns its MIME type.
pub fn check_overlay_image_file(path: &str, is_file: bool) -> (r: Result<&'static str, String>)
    ensures
        match image_file_check(path@, is_file) {
            Ok(m) => r is Ok && r->Ok_0@ == m,
            Err(e) => r is Err && r->Err_0@ == e,
        },
{
    if !is_file {
        return Err(owned("The selected image file does not exist."));
    }
    if !rest_overlay_asset_matches(RestOverlayMode::Image, path) {
        return Err(owned("Please choose an image file."));
    }
    match rest_overlay_image_mime(path) {
        Some(m) => Ok(m),
        None => Err(owned("Please choose an image file.")),
    }
}

/// The error when the rest screen HTML file cannot be read.
pub fn html_read_error(error: &str) -> (r: String)
    ensures
        r@ == "Failed to read rest screen HTML: "@ + error@,
{
    let mut s = owned("Failed to read rest screen HTML: ");
    push_text(&mut s, error);
    s
}

/// The error when the rest screen image file cannot be read.
pub fn image_read_error(error: &str) -> (r: String)
    ensures
        r@ == "Failed to read rest screen image: "@ + error@,
{
    let mut s = owned("Failed to read rest screen image: ");
    push_text(&mut s, error);
    s
}

/// Where the rest screen content comes from: nothing configured, content
/// given inline (markup, or a URL), or a file to read.
#[derive(Clone, Debug)]
pub enum OverlaySource {
    Nothing,
    Inline(String),
    File(String),
}

pub enum SourceView {
    Nothing,
    Inline(Seq<char>),
    File(Seq<char>),
}

impl View for OverlaySource {
    type V = SourceView;

    open spec fn view(&self) -> SourceView {
        match self {
            OverlaySource::Nothing => SourceView::Nothing,
            OverlaySource::Inline(s) => SourceView::Inline(s@),
            OverlaySource::File(s) => SourceView::File(s@),
        }
    }
}

pub open spec fn starts_with(s: Seq<char>, p: Seq<char>) -> bool {
    p.len() <= s.len() && s.subrange(0, p.len() as int) == p
}

fn text_starts_with(s: &str, p: &str) -> (r: bool)
    ensures
        r == starts_with(s@, p@),
{
    let sc = crate::text::chars_of(s);
    let pc = crate::text::chars_of(p);
    if pc.len() > sc.len() {
        return false;
    }
    let mut i: usize = 0;
    while i < pc.len()
        invariant
            i <= pc@.len(),
            pc@.len() <= sc@.len(),
            sc@ == s@,
            pc@ == p@,
            forall|j: int| 0 <= j < i ==> sc@[j] == pc@[j],
        decreases pc@.len() - i,
    {
        if sc[i] != pc[i] {
            assert(s@.subrange(0, p@.len() as int)[i as int] != p@[i as int]);
            return false;
        }
        i = i + 1;
    }
    assert(s@.subrange(0, p@.len() as int) =~= p@);
    true
}

/// The configured HTML for the rest screen: markup when the trimmed setting
/// starts with `<`, else a file path.
pub open spec fn html_source_spec(setting: Option<Seq<char>>) -> SourceView {
    match setting {
        None => SourceView::Nothing,
        Some(s) => {
            let t = trimmed(s);
            if t.len() == 0 {
                SourceView::Nothing
            } else if starts_with(t, "<"@) {
                SourceView::Inline(t)
            } else {
                SourceView::File(t)
            }
        },
    }
}

pub open spec fn opt_view(o: Option<String>) -> Option<Seq<char>> {
    match o {
        Some(s) => Some(s@),
        None => None,
    }
}

pub fn rest_overlay_html_source(setting: &Option<String>) -> (r: OverlaySource)
    ensures
        r@ == html_source_spec(opt_view(*setting)),
{
    let t = match setting {
        Some(s) => trim(s.as_str()),
        None => return OverlaySource::Nothing,
    };
    if t.as_str().is_empty() {
        OverlaySource::Nothing
    } else if text_starts_with(t.as_str(), "<") {
        OverlaySource::Inline(t)
    } else {
        OverlaySource::File(t)
    }
}

/// The configured image for the rest screen: a URL (http, https, data or
/// blob) used as it is, else a file path.
pub open spec fn image_source_spec(setting: Option<Seq<char>>) -> SourceView {
    match setting {
        None => SourceView::Nothing,
        Some(s) => {
            let t = trimmed(s);
            if t.len() == 0 {
                SourceView::Nothing
            } else if starts_with(t, "http:"@) || starts_with(t, "https:"@) || starts_with(t, "data:"@)
                || starts_with(t, "blob:"@) {
                SourceView::Inline(t)
            } else {
                SourceView::File(t)
            }
        },
    }
}

pub fn rest_overlay_image_source(setting: &Option<String>) -> (r: OverlaySource)
    ensures
        r@ == image_source_spec(opt_view(*setting)),
{
    let t = match setting {
        Some(s) => trim(s.as_str()),
        None => return OverlaySource::Nothing,
    };
    if t.as_str().is_empty() {
        OverlaySource::Nothing
    } else if text_starts_with(t.as_str(), "http:") || text_starts_with(t.as_str(), "https:")
        || text_starts_with(t.as_str(), "data:") || text_starts_with(t.as_str(), "blob:") {
        OverlaySource::Inline(t)
    } else {
        OverlaySource::File(t)
    }
}

/// The base64 alphabet.
pub open spec fn b64_symbol(i: int) -> char {
    if i < 26 {
        (65 + i) as char
    } else if i < 52 {
        (97 + i - 26) as char
    } else if i < 62 {
        (48 + i - 52) as char
    } else if i == 62 {
        '+'
    } else {
        '/'
    }
}

/// Standard base64 with `=` padding, three bytes to four symbols.
pub open spec fn base64(b: Seq<u8>) -> Seq<char>
    decreases b.len(),
{
    if b.len() == 0 {
        Seq::empty()
    } else {
        let x = b[0] as int;
        let y = if b.len() > 1 {
            b[1] as int
        } else {
            0
        };
        let z = if b.len() > 2 {
            b[2] as int
        } else {
            0
        };
        let group = seq![
            b64_symbol(x / 4),
            b64_symbol((x % 4) * 16 + y / 16),
            if b.len() > 1 {
                b64_symbol((y % 16) * 4 + z / 64)
            } else {
                '='
            },
            if b.len() > 2 {
                b64_symbol(z % 64)
            } else {
                '='
            },
        ];
        if b.len() > 3 {
            group + base64(b.skip(3))
        } else {
            group
        }
    }
}

fn symbol(i: u8) -> (c: char)
    requires
        i < 64,
    ensures
        c == b64_symbol(i as int),
{
    if i < 26 {
        (65u8 + i) as char
    } else if i < 52 {
        (97u8 + (i - 26)) as char
    } else if i < 62 {
        (48u8 + (i - 52)) as char
    } else if i == 62 {
        '+'
    } else {
        '/'
    }
}

/// Encodes bytes as standard base64 with padding.
pub fn base64_encode(bytes: &[u8]) -> (r: String)
    ensures
        r@ == base64(bytes@),
{
    let mut output = String::new();
    let n = bytes.len();
    let mut i: usize = 0;
    assert(bytes@.skip(0) =~= bytes@);
    while i < n
        invariant
            i <= n,
            n == bytes@.len(),
            base64(bytes@) == output@ + base64(bytes@.skip(i as int)),
        decreases n - i,
    {
        let ghost rest = bytes@.skip(i as int);
        let first = bytes[i];
        let second: u8 = if n - i > 1 {
            bytes[i + 1]
        } else {
            0
        };
        let third: u8 = if n - i > 2 {
            bytes[i + 2]
        } else {
            0
        };
        let a: u8 = first >> 2;
        let b: u8 = ((first & 0b0000_0011) << 4) | (second >> 4);
        let c: u8 = ((second & 0b0000_1111) << 2) | (third >> 6);
        let d: u8 = third & 0b0011_1111;
        proof {
            assert(a == first / 4 && a < 64) by (bit_vector)
                requires
                    a == first >> 2,
            ;
            assert(b == (first % 4) * 16 + second / 16 && b < 64) by (bit_vector)
                requires
                    b == ((first & 3) << 4) | (second >> 4),
            ;
            assert(c == (second % 16) * 4 + third / 64 && c < 64) by (bit_vector)
                requires
                    c == ((second & 15) << 2) | (third >> 6),
            ;
            assert(d == third % 64) by (bit_vector)
                requires
                    d == third & 63,
            ;
        }
        let ghost before = output@;
        push_char(&mut output, symbol(a));
        push_char(&mut output, symbol(b));
        if n - i > 1 {
            push_char(&mut output, symbol(c));
        } else {
            push_char(&mut output, '=');
        }
        if n - i > 2 {
            push_char(&mut output, symbol(d));
        } else {
            push_char(&mut output, '=');
        }
        proof {
            assert(rest[0] == first);
            if n - i > 1 {
                assert(rest[1] == second);
            }
            if n - i > 2 {
                assert(rest[2] == third);
                assert(rest.skip(3) =~= bytes@.skip(i + 3));
            }
            if rest.len() == 1 {
                assert(second == 0);
            }
            if rest.len() == 2 {
                assert(third == 0);
            }
        }
        if n - i > 3 {
            i = i + 3;
        } else {
            proof {
                assert(bytes@.skip(n as int) =~= Seq::<u8>::empty());
            }
            i = n;
        }
        assert(output@ + base64(bytes@.skip(i as int)) =~= before + base64(rest));
    }
    assert(bytes@.skip(n as int) =~= Seq::<u8>::empty());
    assert(output@ + Seq::<char>::empty() =~= output@);
    output
}

/// The image as a data URL.
pub open spec fn data_url(mime: Seq<char>, bytes: Seq<u8>) -> Seq<char> {
    "data:"@ + mime + ";base64,"@ + base64(bytes)
}

pub fn image_data_url(mime: &str, bytes: &[u8]) -> (r: String)
    ensures
        r@ == data_url(mime@, bytes@),
{
    let mut s = owned("data:");
    push_text(&mut s, mime);
    push_text(&mut s, ";base64,");
    let encoded = base64_encode(bytes);
    push_text(&mut s, encoded.as_str());
    s
}

/// An optional setting text: trimmed, and none when that leaves nothing.
pub open spec fn optional_text_spec(value: Option<Seq<char>>) -> Option<Seq<char>> {
    match value {
        None => None,
        Some(v) => if trimmed(v).len() == 0 {
            None
        } else {
            Some(trimmed(v))
        },
    }
}

pub fn normalize_optional_text(value: Option<String>) -> (r: Option<String>)
    ensures
        opt_view(r) == optional_text_spec(opt_view(value)),
{
    match value {
        None => None,
        Some(v) => {
            let t = trim(v.as_str());
            if t.as_str().is_empty() {
                None
            } else {
                Some(t)
            }
        },
    }
}

} // verus!
