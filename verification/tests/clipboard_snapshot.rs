use audiobud::clipboard_snapshot::{
    capture, restore, restore_step, ClipboardBackend, ClipboardContent, ClipboardImage,
    RestoreStep,
};
use std::path::PathBuf;

/// In-memory clipboard with real replace semantics: every write replaces the whole state.
#[derive(Default)]
struct FakeClipboard {
    text: Option<String>,
    html: Option<String>,
    image: Option<ClipboardImage>,
    files: Option<Vec<PathBuf>>,
    writes: Vec<(RestoreStep, bool)>,
}

impl ClipboardBackend for FakeClipboard {
    fn held(&self) -> ClipboardContent {
        ClipboardContent {
            text: self.text.clone(),
            html: self.html.clone(),
            image: self.image.clone(),
            files: self.files.clone(),
        }
    }

    fn write_log(&self) -> Vec<(RestoreStep, bool)> {
        self.writes.clone()
    }

    fn read_text(&mut self) -> Option<String> {
        self.text.clone()
    }

    fn read_html(&mut self) -> Option<String> {
        self.html.clone()
    }

    fn read_image(&mut self) -> Option<ClipboardImage> {
        self.image.clone()
    }

    fn read_files(&mut self) -> Option<Vec<PathBuf>> {
        self.files.clone()
    }

    fn write_text(&mut self, text: &str) -> Result<(), String> {
        let writes = std::mem::take(&mut self.writes);
        *self = Self::default();
        self.writes = writes;
        self.writes.push((RestoreStep::Text, true));
        self.text = Some(text.to_string());
        Ok(())
    }

    fn write_html(&mut self, html: &str, alt_text: Option<&str>) -> Result<(), String> {
        let writes = std::mem::take(&mut self.writes);
        *self = Self::default();
        self.writes = writes;
        self.writes.push((RestoreStep::Html, true));
        self.html = Some(html.to_string());
        self.text = alt_text.map(str::to_string);
        Ok(())
    }

    fn write_image(&mut self, image: &ClipboardImage) -> Result<(), String> {
        let writes = std::mem::take(&mut self.writes);
        *self = Self::default();
        self.writes = writes;
        self.writes.push((RestoreStep::Image, true));
        self.image = Some(image.clone());
        Ok(())
    }

    fn write_files(&mut self, files: &[PathBuf]) -> Result<(), String> {
        let writes = std::mem::take(&mut self.writes);
        *self = Self::default();
        self.writes = writes;
        self.writes.push((RestoreStep::Files, true));
        self.files = Some(files.to_vec());
        Ok(())
    }

    fn clear(&mut self) -> Result<(), String> {
        let writes = std::mem::take(&mut self.writes);
        *self = Self::default();
        self.writes = writes;
        self.writes.push((RestoreStep::Clear, true));
        Ok(())
    }
}

fn test_image() -> ClipboardImage {
    ClipboardImage {
        width: 2,
        height: 1,
        bytes: vec![255, 0, 0, 255, 0, 255, 0, 255],
    }
}

/// The paste round trip: capture, overwrite with the transcript, restore.
fn round_trip(clipboard: &mut FakeClipboard) {
    let snapshot = capture(clipboard);
    clipboard.write_text("the transcript").unwrap();
    restore(clipboard, &snapshot).unwrap();
}

#[test]
fn image_only_clipboard_survives_paste_round_trip() {
    let mut clipboard = FakeClipboard {
        image: Some(test_image()),
        ..Default::default()
    };
    round_trip(&mut clipboard);
    assert_eq!(clipboard.image, Some(test_image()));
    assert_eq!(clipboard.text, None);
}

#[test]
fn empty_clipboard_stays_empty_after_paste_round_trip() {
    let mut clipboard = FakeClipboard::default();
    round_trip(&mut clipboard);
    assert_eq!(clipboard.text, None);
    assert_eq!(clipboard.html, None);
    assert_eq!(clipboard.image, None);
    assert_eq!(clipboard.files, None);
}

#[test]
fn plain_text_clipboard_survives_paste_round_trip() {
    let mut clipboard = FakeClipboard {
        text: Some("original text".to_string()),
        ..Default::default()
    };
    round_trip(&mut clipboard);
    assert_eq!(clipboard.text, Some("original text".to_string()));
}

#[test]
fn html_clipboard_restores_html_with_text_alternate() {
    let mut clipboard = FakeClipboard {
        html: Some("<b>hello</b>".to_string()),
        text: Some("hello".to_string()),
        ..Default::default()
    };
    round_trip(&mut clipboard);
    assert_eq!(clipboard.html, Some("<b>hello</b>".to_string()));
    assert_eq!(clipboard.text, Some("hello".to_string()));
}

#[test]
fn file_list_clipboard_survives_paste_round_trip() {
    let files = vec![PathBuf::from("/tmp/a.txt"), PathBuf::from("/tmp/b.png")];
    let mut clipboard = FakeClipboard {
        files: Some(files.clone()),
        ..Default::default()
    };
    round_trip(&mut clipboard);
    assert_eq!(clipboard.files, Some(files));
}

#[test]
fn image_with_html_and_no_text_restores_the_image() {
    let mut clipboard = FakeClipboard {
        image: Some(test_image()),
        html: Some("<img src=\"https://example.com/x.png\">".to_string()),
        ..Default::default()
    };
    round_trip(&mut clipboard);
    assert_eq!(clipboard.image, Some(test_image()));
}

#[test]
fn image_alongside_text_restores_the_text_side() {
    let mut clipboard = FakeClipboard {
        image: Some(test_image()),
        text: Some("A1\tB1".to_string()),
        ..Default::default()
    };
    round_trip(&mut clipboard);
    assert_eq!(clipboard.text, Some("A1\tB1".to_string()));
}

#[test]
fn is_text_only_requires_exactly_text() {
    assert!(ClipboardContent {
        text: Some("t".to_string()),
        ..Default::default()
    }
    .is_text_only());
    assert!(!ClipboardContent::default().is_text_only());
    assert!(!ClipboardContent {
        text: Some("t".to_string()),
        image: Some(test_image()),
        ..Default::default()
    }
    .is_text_only());
}

#[test]
fn the_richest_format_is_restored() {
    let files = ClipboardContent {
        files: Some(vec![PathBuf::from("/tmp/a.txt")]),
        text: Some("t".to_string()),
        ..Default::default()
    };
    assert_eq!(restore_step(&files), RestoreStep::Files);
    let image_and_text = ClipboardContent {
        image: Some(test_image()),
        text: Some("t".to_string()),
        ..Default::default()
    };
    assert_eq!(restore_step(&image_and_text), RestoreStep::Text);
    assert_eq!(restore_step(&ClipboardContent::default()), RestoreStep::Clear);
}

#[test]
fn restore_makes_exactly_the_chosen_write() {
    let mut clipboard = FakeClipboard {
        html: Some("<b>hi</b>".to_string()),
        text: Some("hi".to_string()),
        ..Default::default()
    };
    let snapshot = capture(&mut clipboard);
    assert!(clipboard.writes.is_empty());
    clipboard.write_text("the transcript").unwrap();
    assert_eq!(restore(&mut clipboard, &snapshot), Ok(()));
    assert_eq!(
        clipboard.writes,
        vec![(RestoreStep::Text, true), (RestoreStep::Html, true)]
    );
}
