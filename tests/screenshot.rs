use egui_demo::ScreenshotApp;

#[test]
fn screenshot_requests() {
    let mut app = ScreenshotApp::new();
    assert!(!app.frame_requests_screenshot(false, false));
    assert!(app.frame_requests_screenshot(false, true));
    assert!(!app.save_to_file);
    app.continuously_take_screenshots = true;
    assert!(app.frame_requests_screenshot(false, false));
}

#[test]
fn save_applies_to_the_next_screenshot_only() {
    let mut app = ScreenshotApp::default();
    assert!(app.frame_requests_screenshot(true, false));
    assert!(app.save_to_file);
    assert!(app.screenshot_arrived());
    assert!(!app.screenshot_arrived());
}
