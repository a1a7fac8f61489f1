//! Full-content clipboard snapshot and restore. Before the transcript overwrites the
//! clipboard every readable format is captured, and afterwards the richest one is put back:
//! a clipboard accepts one state per write.
use vstd::prelude::*;
use std::path::PathBuf;

verus! {

/// `std::path::PathBuf`, carried through unread.
#[verifier::external_type_specification]
#[verifier::external_body]
pub struct ExPathBuf(PathBuf);

/// An RGBA8 image captured from the clipboard.
#[derive(Clone, Debug, PartialEq, Eq)]
pub struct ClipboardImage {
    pub width: usize,
    pub height: usize,
    /// RGBA8 pixel data, row-major, `width * height * 4` bytes.
    pub bytes: Vec<u8>,
}

/// Everything readable off the clipboard before overwriting it.
#[derive(Clone, Debug, PartialEq)]
pub struct ClipboardContent {
    pub text: Option<String>,
    pub html: Option<String>,
    pub image: Option<ClipboardImage>,
    pub files: Option<Vec<PathBuf>>,
}

impl Default for ClipboardContent {
    fn default() -> (r: Self)
        ensures
            r.text is None,
            r.html is None,
            r.image is None,
            r.files is None,
    {
        ClipboardContent { text: None, html: None, image: None, files: None }
    }
}

impl ClipboardContent {
    /// True when the snapshot holds text and nothing else.
    pub fn is_text_only(&self) -> (r: bool)
        ensures
            r == (self.text is Some && self.html is None && self.image is None && self.files is None),
    {
        self.text.is_some() && self.html.is_none() && self.image.is_none() && self.files.is_none()
    }
}

/// A clipboard state as contracts see it: the text and HTML by their characters.
pub struct ClipboardView {
    pub text: Option<Seq<char>>,
    pub html: Option<Seq<char>>,
    pub image: Option<ClipboardImage>,
    pub files: Option<Seq<PathBuf>>,
}

/// The characters of an optional string.
pub open spec fn opt_chars(s: Option<String>) -> Option<Seq<char>> {
    match s {
        Some(t) => Some(t@),
        None => None,
    }
}

/// The characters of an optional string slice.
pub open spec fn opt_str_chars(s: Option<&str>) -> Option<Seq<char>> {
    match s {
        Some(t) => Some(t@),
        None => None,
    }
}

/// The elements of an optional file list.
pub open spec fn opt_files(f: Option<Vec<PathBuf>>) -> Option<Seq<PathBuf>> {
    match f {
        Some(v) => Some(v@),
        None => None,
    }
}

/// The empty clipboard.
pub open spec fn empty_view() -> ClipboardView {
    ClipboardView { text: None, html: None, image: None, files: None }
}

/// The clipboard holding text alone.
pub open spec fn text_state(text: Option<Seq<char>>) -> ClipboardView {
    ClipboardView { text, ..empty_view() }
}

/// The clipboard holding HTML and its optional plain-text alternate.
pub open spec fn html_state(html: Option<Seq<char>>, text: Option<Seq<char>>) -> ClipboardView {
    ClipboardView { html, text, ..empty_view() }
}

/// The clipboard holding an image alone.
pub open spec fn image_state(image: Option<ClipboardImage>) -> ClipboardView {
    ClipboardView { image, ..empty_view() }
}

/// The clipboard holding a file list alone.
pub open spec fn files_state(files: Option<Seq<PathBuf>>) -> ClipboardView {
    ClipboardView { files, ..empty_view() }
}

impl ClipboardContent {
    /// The snapshot as a clipboard state.
    pub open spec fn view_spec(&self) -> ClipboardView {
        ClipboardView {
            text: opt_chars(self.text),
            html: opt_chars(self.html),
            image: self.image,
            files: opt_files(self.files),
        }
    }
}

/// The seam over the OS clipboard, so capture and restore work on any clipboard. `held` is
/// the clipboard's state. A read returns that state's format and changes nothing; each
/// successful write replaces the whole state with what it wrote.
pub trait ClipboardBackend {
    spec fn held(&self) -> ClipboardContent;

    /// Every write made so far: which kind it was and whether it succeeded.
    spec fn write_log(&self) -> Vec<(RestoreStep, bool)>;

    fn read_text(&mut self) -> (r: Option<String>)
        ensures
            opt_chars(r) == old(self).held().view_spec().text,
            final(self).held().view_spec() == old(self).held().view_spec(),
            final(self).write_log()@ == old(self).write_log()@,
    ;

    fn read_html(&mut self) -> (r: Option<String>)
        ensures
            opt_chars(r) == old(self).held().view_spec().html,
            final(self).held().view_spec() == old(self).held().view_spec(),
            final(self).write_log()@ == old(self).write_log()@,
    ;

    fn read_image(&mut self) -> (r: Option<ClipboardImage>)
        ensures
            r == old(self).held().view_spec().image,
            final(self).held().view_spec() == old(self).held().view_spec(),
            final(self).write_log()@ == old(self).write_log()@,
    ;

    fn read_files(&mut self) -> (r: Option<Vec<PathBuf>>)
        ensures
            opt_files(r) == old(self).held().view_spec().files,
            final(self).held().view_spec() == old(self).held().view_spec(),
            final(self).write_log()@ == old(self).write_log()@,
    ;

    fn write_text(&mut self, text: &str) -> (r: Result<(), String>)
        ensures
            r is Ok ==> final(self).held().view_spec() == text_state(Some(text@)),
            final(self).write_log()@ == old(self).write_log()@.push((RestoreStep::Text, r is Ok)),
    ;

    /// Writes HTML plus an optional plain-text alternate in one clipboard state.
    fn write_html(&mut self, html: &str, alt_text: Option<&str>) -> (r: Result<(), String>)
        ensures
            r is Ok ==> final(self).held().view_spec() == html_state(Some(html@), opt_str_chars(alt_text)),
            final(self).write_log()@ == old(self).write_log()@.push((RestoreStep::Html, r is Ok)),
    ;

    fn write_image(&mut self, image: &ClipboardImage) -> (r: Result<(), String>)
        ensures
            r is Ok ==> final(self).held().view_spec() == image_state(Some(*image)),
            final(self).write_log()@ == old(self).write_log()@.push((RestoreStep::Image, r is Ok)),
    ;

    fn write_files(&mut self, files: &[PathBuf]) -> (r: Result<(), String>)
        ensures
            r is Ok ==> final(self).held().view_spec() == files_state(Some(files@)),
            final(self).write_log()@ == old(self).write_log()@.push((RestoreStep::Files, r is Ok)),
    ;

    fn clear(&mut self) -> (r: Result<(), String>)
        ensures
            r is Ok ==> final(self).held().view_spec() == empty_view(),
            final(self).write_log()@ == old(self).write_log()@.push((RestoreStep::Clear, r is Ok)),
    ;
}

/// Which single write puts a snapshot back.
#[derive(Clone, Copy, Debug, PartialEq, Eq, Structural)]
pub enum RestoreStep {
    /// The file list.
    Files,
    /// The image (chosen only when no text was captured).
    Image,
    /// The HTML, with the captured text, if any, as its plain-text alternate.
    Html,
    /// The text.
    Text,
    /// Nothing was captured: clear rather than write an empty string.
    Clear,
}

/// The richest format of a snapshot: file list, then image when no text was captured,
/// then HTML, then text; an empty snapshot clears.
pub open spec fn restore_step_spec(c: ClipboardContent) -> RestoreStep {
    if c.files is Some {
        RestoreStep::Files
    } else if c.text is None && c.image is Some {
        RestoreStep::Image
    } else if c.html is Some {
        RestoreStep::Html
    } else if c.text is Some {
        RestoreStep::Text
    } else {
        RestoreStep::Clear
    }
}

/// Chooses the write that restores `content`.
pub fn restore_step(content: &ClipboardContent) -> (r: RestoreStep)
    ensures
        r == restore_step_spec(*content),
{
    if content.files.is_some() {
        RestoreStep::Files
    } else if content.text.is_none() && content.image.is_some() {
        RestoreStep::Image
    } else if content.html.is_some() {
        RestoreStep::Html
    } else if content.text.is_some() {
        RestoreStep::Text
    } else {
        RestoreStep::Clear
    }
}

/// The state a successful restore of `c` leaves: the format [`restore_step_spec`] picks, with
/// the captured text as the HTML's plain-text alternate.
pub open spec fn restored_view(c: ClipboardView) -> ClipboardView {
    if c.files is Some {
        files_state(c.files)
    } else if c.text is None && c.image is Some {
        image_state(c.image)
    } else if c.html is Some {
        html_state(c.html, c.text)
    } else if c.text is Some {
        text_state(c.text)
    } else {
        empty_view()
    }
}

/// A clipboard state that one write can reproduce: a file list, an image, HTML with or
/// without its text, text, or nothing, each alone.
pub open spec fn single_state(c: ClipboardView) -> bool {
    ||| c == files_state(c.files)
    ||| c == image_state(c.image)
    ||| c == html_state(c.html, c.text)
}

/// A restore reproduces a snapshot exactly when the snapshot is a state one write can make;
/// otherwise the richest format wins (text over an image, for instance).
pub proof fn law_restore_round_trip(c: ClipboardView)
    ensures
        restored_view(c) == c <==> single_state(c),
{
}

/// Reads a snapshot of the current clipboard: exactly what the four reads return, with
/// nothing written.
pub fn capture<B: ClipboardBackend + ?Sized>(backend: &mut B) -> (r: ClipboardContent)
    ensures
        r.view_spec() == old(backend).held().view_spec(),
        final(backend).held().view_spec() == old(backend).held().view_spec(),
        final(backend).write_log()@ == old(backend).write_log()@,
{
    let text = backend.read_text();
    let html = backend.read_html();
    let image = backend.read_image();
    let files = backend.read_files();
    ClipboardContent { text, html, image, files }
}

/// Restores a captured snapshot with the single write [`restore_step`] chooses, and
/// returns that write's result. On success the clipboard holds [`restored_view`] of the
/// snapshot.
pub fn restore<B: ClipboardBackend + ?Sized>(backend: &mut B, content: &ClipboardContent) -> (r: Result<
    (),
    String,
>)
    ensures
        final(backend).write_log()@ == old(backend).write_log()@.push(
            (restore_step_spec(*content), r is Ok),
        ),
        r is Ok ==> final(backend).held().view_spec() == restored_view(content.view_spec()),
{
    match restore_step(content) {
        RestoreStep::Files => match &content.files {
            Some(files) => backend.write_files(files.as_slice()),
            None => backend.clear(),
        },
        RestoreStep::Image => match &content.image {
            Some(image) => backend.write_image(image),
            None => backend.clear(),
        },
        RestoreStep::Html => {
            let alt = match &content.text {
                Some(t) => Some(t.as_str()),
                None => None,
            };
            match &content.html {
                Some(html) => backend.write_html(html.as_str(), alt),
                None => backend.clear(),
            }
        },
        RestoreStep::Text => match &content.text {
            Some(text) => backend.write_text(text.as_str()),
            None => backend.clear(),
        },
        RestoreStep::Clear => backend.clear(),
    }
}

} // verus!
