use egui_demo::demo::{dropped_file_label, hovered_files_text, DroppedFileInfo, HoveredFileInfo};
use egui_demo::MyApp;

fn dropped(path: Option<&str>, name: &str, byte_len: Option<usize>) -> DroppedFileInfo {
    DroppedFileInfo { path: path.map(String::from), name: String::from(name), byte_len }
}

#[test]
fn demo_opens_with_defaults() {
    let app = MyApp::new();
    assert_eq!(app.name, "Zzrk");
    assert_eq!(app.age, 18);
    assert_eq!(app.text, "Edit this text field if you want");
    assert!(!app.allowed_to_close);
    assert!(!app.show_confirmation_dialog);
    assert!(app.dropped_files.is_empty());
    assert!(app.picked_path.is_none());
    let d = MyApp::default();
    assert_eq!(d.age, 18);
}

#[test]
fn close_needs_confirmation() {
    let mut app = MyApp::new();
    assert!(!app.on_close_event());
    assert!(app.show_confirmation_dialog);
    app.cancel_close();
    assert!(!app.show_confirmation_dialog);
    assert!(!app.on_close_event());
    app.confirm_close();
    assert!(app.on_close_event());
}

#[test]
fn demo_greeting_and_click() {
    let mut app = MyApp::new();
    app.click_year();
    assert_eq!(app.age, 19);
    assert_eq!(app.greeting(), "Hello 'Zzrk', age 19");
}

#[test]
fn dropped_files_kept_until_replaced() {
    let mut app = MyApp::new();
    app.take_dropped_files(vec![dropped(Some("/a"), "", None)]);
    assert_eq!(app.dropped_files.len(), 1);
    app.take_dropped_files(Vec::new());
    assert_eq!(app.dropped_files.len(), 1);
    app.take_dropped_files(vec![dropped(None, "x", None), dropped(None, "y", None)]);
    assert_eq!(app.dropped_files.len(), 2);
}

#[test]
fn picked_path_kept_when_dialog_cancelled() {
    let mut app = MyApp::new();
    app.take_picked_path(Some(String::from("/tmp/f.txt")));
    app.take_picked_path(None);
    assert_eq!(app.picked_path.as_deref(), Some("/tmp/f.txt"));
}

#[test]
fn dropped_file_labels() {
    assert_eq!(dropped_file_label(&dropped(Some("/x/y.png"), "", None)), "/x/y.png");
    assert_eq!(
        dropped_file_label(&dropped(Some("/x/y.png"), "image/png", Some(42))),
        "/x/y.png (type: image/png, 42 bytes)"
    );
    assert_eq!(dropped_file_label(&dropped(None, "notes", None)), "notes (type: notes)");
    assert_eq!(dropped_file_label(&dropped(None, "", Some(0))), "??? (0 bytes)");
    assert_eq!(dropped_file_label(&dropped(None, "", None)), "???");
}

#[test]
fn hovered_text_lists_each_file() {
    let files = vec![
        HoveredFileInfo { path: Some(String::from("/a.txt")), mime: String::new() },
        HoveredFileInfo { path: None, mime: String::from("text/plain") },
        HoveredFileInfo { path: None, mime: String::new() },
    ];
    assert_eq!(hovered_files_text(&files), "Dropping files:\n\n/a.txt\ntext/plain\n???");
    assert_eq!(hovered_files_text(&Vec::new()), "Dropping files:\n");
}
