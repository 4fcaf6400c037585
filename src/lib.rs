//! Logic of a set of small immediate-mode GUI demos: the panel-worker pool
//! that drives one background thread per floating window, the per-panel
//! state, and the decisions and texts of the single-window demos.
pub mod demo;
pub mod panel;
pub mod pool;
pub mod screenshot;
pub mod text;
pub mod worker;

pub use demo::MyApp;
pub use panel::ThreadState;
pub use pool::ThreadApp;
pub use screenshot::ScreenshotApp;
