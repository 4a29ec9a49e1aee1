//! The file and folder choosers: what they ask for, the command lines of the
//! desktop tools that show them, and the path read back from a tool.

use vstd::prelude::*;
use crate::git_sync::utf8_lossy;
use crate::text::{owned, push_text, push_string, push_word, texts, trim, trimmed};
use crate::git_sync::lossy_utf8;

verus! {

/// A named set of file patterns.
#[derive(Clone, Debug)]
pub struct FileFilter {
    pub name: String,
    pub patterns: Vec<String>,
}

impl FileFilter {
    pub fn new(name: String, patterns: Vec<String>) -> (f: FileFilter)
        ensures
            f.name == name,
            f.patterns == patterns,
    {
        FileFilter { name, patterns }
    }
}

/// A file to ask the user for: the dialog title and the accepted files.
#[derive(Clone, Debug)]
pub struct FileRequest {
    pub title: String,
    pub filter: FileFilter,
}

/// The chooser for the rest screen image.
pub fn rest_overlay_image_request() -> (r: FileRequest)
    ensures
        r.title@ == "Select rest screen image"@,
        r.filter.name@ == "Image files"@,
        texts(r.filter.patterns@) == seq!["*.png"@, "*.jpg"@, "*.jpeg"@, "*.webp"@, "*.gif"@, "*.bmp"@, "*.svg"@],
{
    let mut patterns: Vec<String> = Vec::new();
    push_word(&mut patterns, "*.png");
    push_word(&mut patterns, "*.jpg");
    push_word(&mut patterns, "*.jpeg");
    push_word(&mut patterns, "*.webp");
    push_word(&mut patterns, "*.gif");
    push_word(&mut patterns, "*.bmp");
    push_word(&mut patterns, "*.svg");
    assert(texts(patterns@) =~= seq!["*.png"@, "*.jpg"@, "*.jpeg"@, "*.webp"@, "*.gif"@, "*.bmp"@, "*.svg"@]);
    FileRequest {
        title: owned("Select rest screen image"),
        filter: FileFilter::new(owned("Image files"), patterns),
    }
}

/// The chooser for the rest screen HTML file.
pub fn rest_overlay_html_request() -> (r: FileRequest)
    ensures
        r.title@ == "Select rest screen HTML"@,
        r.filter.name@ == "HTML files"@,
        texts(r.filter.patterns@) == seq!["*.html"@, "*.htm"@],
{
    let mut patterns: Vec<String> = Vec::new();
    push_word(&mut patterns, "*.html");
    push_word(&mut patterns, "*.htm");
    assert(texts(patterns@) =~= seq!["*.html"@, "*.htm"@]);
    FileRequest {
        title: owned("Select rest screen HTML"),
        filter: FileFilter::new(owned("HTML files"), patterns),
    }
}

/// The patterns separated by single spaces.
pub open spec fn spaced(v: Seq<Seq<char>>) -> Seq<char>
    decreases v.len(),
{
    if v.len() == 0 {
        Seq::empty()
    } else if v.len() == 1 {
        v[0]
    } else {
        spaced(v.drop_last()) + " "@ + v.last()
    }
}

fn join_spaced(v: &Vec<String>) -> (r: String)
    ensures
        r@ == spaced(texts(v@)),
{
    let mut s = String::new();
    let mut i: usize = 0;
    while i < v.len()
        invariant
            i <= v@.len(),
            s@ == spaced(texts(v@).take(i as int)),
        decreases v@.len() - i,
    {
        if i > 0 {
            push_text(&mut s, " ");
        }
        push_text(&mut s, v[i].as_str());
        proof {
            let t = texts(v@);
            assert(t.take(i + 1).drop_last() =~= t.take(i as int));
            assert(t.take(i + 1).last() == v@[i as int]@);
            if i == 0 {
                assert(t.take(1) =~= seq![v@[0]@]);
            }
        }
        i = i + 1;
    }
    assert(texts(v@).take(v@.len() as int) =~= texts(v@));
    s
}

/// The arguments of `zenity` showing a file chooser.
pub fn zenity_file_arguments(request: &FileRequest) -> (r: Vec<String>)
    ensures
        texts(r@) == seq![
            "--file-selection"@,
            "--title="@ + request.title@,
            "--file-filter="@ + request.filter.name@ + " | "@ + spaced(texts(request.filter.patterns@)),
        ],
{
    let mut v: Vec<String> = Vec::new();
    push_word(&mut v, "--file-selection");
    let mut title = owned("--title=");
    push_text(&mut title, request.title.as_str());
    let mut filter = owned("--file-filter=");
    push_text(&mut filter, request.filter.name.as_str());
    push_text(&mut filter, " | ");
    let joined = join_spaced(&request.filter.patterns);
    push_text(&mut filter, joined.as_str());
    push_string(&mut v, title);
    push_string(&mut v, filter);
    assert(texts(v@) =~= seq![
        "--file-selection"@,
        "--title="@ + request.title@,
        "--file-filter="@ + request.filter.name@ + " | "@ + spaced(texts(request.filter.patterns@)),
    ]);
    v
}

/// The AppleScript that shows a file chooser with the request's title.
pub fn osascript_file_script(request: &FileRequest) -> (r: String)
    ensures
        r@ == "POSIX path of (choose file with prompt \""@ + request.title@ + "\")"@,
{
    let mut s = owned("POSIX path of (choose file with prompt \"");
    push_text(&mut s, request.title.as_str());
    push_text(&mut s, "\")");
    s
}

/// The title of the repository folder chooser.
pub fn repository_picker_title() -> (r: String)
    ensures
        r@ == "Select Git repository root for FocusTrail sync"@,
{
    owned("Select Git repository root for FocusTrail sync")
}

/// The path a chooser tool printed: its output decoded and trimmed, none when empty.
pub open spec fn selected_path_spec(stdout: Seq<u8>) -> Option<Seq<char>> {
    selected_path_of_text(lossy_utf8(stdout))
}

/// The path in a chooser tool's decoded output: the output trimmed, none
/// when empty.
pub open spec fn selected_path_of_text(text: Seq<char>) -> Option<Seq<char>> {
    let t = trimmed(text);
    if t.len() == 0 {
        None
    } else {
        Some(t)
    }
}

pub fn selected_path_from_output(stdout: &[u8]) -> (r: Option<String>)
    ensures
        match r {
            Some(p) => selected_path_spec(stdout@) == Some(p@),
            None => selected_path_spec(stdout@) is None,
        },
        vstd::utf8::valid_utf8(stdout@) ==> match r {
            Some(p) => selected_path_of_text(vstd::utf8::decode_utf8(stdout@)) == Some(p@),
            None => selected_path_of_text(vstd::utf8::decode_utf8(stdout@)) is None,
        },
{
    let text = utf8_lossy(stdout);
    let selected = trim(text.as_str());
    if selected.as_str().is_empty() {
        None
    } else {
        Some(selected)
    }
}

} // verus!
