//! The screenshot demo: when to ask the window for a screenshot, and when a
//! screenshot that arrives is to be saved.
use vstd::prelude::*;

verus! {

/// The screenshot demo's settings.
pub struct ScreenshotApp {
    /// Whether every frame asks for a screenshot.
    pub continuously_take_screenshots: bool,
    /// Whether the next screenshot is to be saved to a file.
    pub save_to_file: bool,
}

impl ScreenshotApp {
    /// Nothing asked for yet.
    pub fn new() -> (r: Self)
        ensures
            !r.continuously_take_screenshots,
            !r.save_to_file,
    {
        ScreenshotApp { continuously_take_screenshots: false, save_to_file: false }
    }

    /// The buttons of one frame have been read. Returns whether this frame asks
    /// for a screenshot: when "save" or "take" was clicked, or every frame while
    /// screenshots are taken continuously. A click on "save" marks the next
    /// screenshot for saving.
    pub fn frame_requests_screenshot(&mut self, save_clicked: bool, take_clicked: bool) -> (r:
        bool)
        ensures
            r == (save_clicked || take_clicked || old(self).continuously_take_screenshots),
            final(self).save_to_file == (old(self).save_to_file || save_clicked),
            final(self).continuously_take_screenshots
                == old(self).continuously_take_screenshots,
    {
        if save_clicked {
            self.save_to_file = true;
        }
        save_clicked || take_clicked || self.continuously_take_screenshots
    }

    /// A screenshot has arrived. Returns whether it is to be saved; it is the
    /// last one that is, until "save" is clicked again.
    pub fn screenshot_arrived(&mut self) -> (r: bool)
        ensures
            r == old(self).save_to_file,
            !final(self).save_to_file,
            final(self).continuously_take_screenshots
                == old(self).continuously_take_screenshots,
    {
        let save = self.save_to_file;
        self.save_to_file = false;
        save
    }
}

impl Default for ScreenshotApp {
    fn default() -> (r: Self)
        ensures
            !r.continuously_take_screenshots,
            !r.save_to_file,
    {
        ScreenshotApp::new()
    }
}

} // verus!
