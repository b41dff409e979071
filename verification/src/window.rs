//! The settings a window backend consumes when it creates a window.
//!
//! The runtime never creates windows itself; it only carries these plain
//! values to the backend, behind a `create_window(settings)` boundary.

use vstd::prelude::*;

verus! {

/// How a window covers the screen when it is not an ordinary window.
#[derive(Clone, Copy, Debug, PartialEq, Eq, Structural)]
pub enum FullscreenMode {
    Fullscreen,
    Borderless,
}

/// The settings handed to the window backend: title, size, fullscreen mode
/// (`None` means an ordinary window) and resizability.
#[derive(Debug)]
pub struct WindowSettings {
    pub title: String,
    pub width: usize,
    pub height: usize,
    pub fullscreen_mode: Option<FullscreenMode>,
    pub is_resizable: bool,
}

impl WindowSettings {
    /// Two settings are the same when every field agrees; the titles are
    /// compared by their characters.
    pub open spec fn same_settings(self, other: Self) -> bool {
        &&& self.title@ == other.title@
        &&& self.width == other.width
        &&& self.height == other.height
        &&& self.fullscreen_mode == other.fullscreen_mode
        &&& self.is_resizable == other.is_resizable
    }

    /// Creates the default settings.
    pub fn new() -> (settings: Self)
        ensures
            settings.title@ == "Wolf Engine - Untitled Window"@,
            settings.width == 1280,
            settings.height == 720,
            settings.fullscreen_mode is None,
            settings.is_resizable,
    {
        Self::default()
    }

    /// Replaces the window title.
    pub fn with_title(self, title: &str) -> (settings: Self)
        ensures
            settings.title@ == title@,
            settings.width == self.width,
            settings.height == self.height,
            settings.fullscreen_mode == self.fullscreen_mode,
            settings.is_resizable == self.is_resizable,
    {
        let mut settings = self;
        settings.title = title.to_owned();
        settings
    }

    /// Replaces the window size with `(width, height)`.
    pub fn with_size(self, size: (usize, usize)) -> (settings: Self)
        ensures
            settings.width == size.0,
            settings.height == size.1,
            settings.title@ == self.title@,
            settings.fullscreen_mode == self.fullscreen_mode,
            settings.is_resizable == self.is_resizable,
    {
        let mut settings = self;
        settings.width = size.0;
        settings.height = size.1;
        settings
    }

    /// Makes the window fullscreen.
    pub fn with_fullscreen(self) -> (settings: Self)
        ensures
            settings.fullscreen_mode == Option::Some(FullscreenMode::Fullscreen),
            settings.title@ == self.title@,
            settings.width == self.width,
            settings.height == self.height,
            settings.is_resizable == self.is_resizable,
    {
        self.with_fullscreen_mode(Option::Some(FullscreenMode::Fullscreen))
    }

    /// Makes the window borderless fullscreen.
    pub fn with_borderless_fullscreen(self) -> (settings: Self)
        ensures
            settings.fullscreen_mode == Option::Some(FullscreenMode::Borderless),
            settings.title@ == self.title@,
            settings.width == self.width,
            settings.height == self.height,
            settings.is_resizable == self.is_resizable,
    {
        self.with_fullscreen_mode(Option::Some(FullscreenMode::Borderless))
    }

    /// Replaces the fullscreen mode; `None` makes an ordinary window.
    pub fn with_fullscreen_mode(self, fullscreen_mode: Option<FullscreenMode>) -> (settings: Self)
        ensures
            settings.fullscreen_mode == fullscreen_mode,
            settings.title@ == self.title@,
            settings.width == self.width,
            settings.height == self.height,
            settings.is_resizable == self.is_resizable,
    {
        let mut settings = self;
        settings.fullscreen_mode = fullscreen_mode;
        settings
    }

    /// Makes the window an ordinary window.
    pub fn with_windowed(self) -> (settings: Self)
        ensures
            settings.fullscreen_mode is None,
            settings.title@ == self.title@,
            settings.width == self.width,
            settings.height == self.height,
            settings.is_resizable == self.is_resizable,
    {
        self.with_fullscreen_mode(Option::None)
    }

    /// Sets whether the window can be resized.
    pub fn with_resizable(self, is_resizable: bool) -> (settings: Self)
        ensures
            settings.is_resizable == is_resizable,
            settings.title@ == self.title@,
            settings.width == self.width,
            settings.height == self.height,
            settings.fullscreen_mode == self.fullscreen_mode,
    {
        let mut settings = self;
        settings.is_resizable = is_resizable;
        settings
    }
}

impl Default for WindowSettings {
    /// The default window: 1280 by 720, resizable, windowed, with a default
    /// title.
    fn default() -> (settings: Self)
        ensures
            settings.title@ == "Wolf Engine - Untitled Window"@,
            settings.width == 1280,
            settings.height == 720,
            settings.fullscreen_mode is None,
            settings.is_resizable,
    {
        Self {
            title: "Wolf Engine - Untitled Window".to_owned(),
            width: 1280,
            height: 720,
            fullscreen_mode: Option::None,
            is_resizable: true,
        }
    }
}

impl PartialEq for WindowSettings {
    /// Settings compare equal exactly when every field agrees.
    fn eq(&self, other: &Self) -> (equal: bool) {
        let same_mode = match (self.fullscreen_mode, other.fullscreen_mode) {
            (Option::None, Option::None) => true,
            (Option::Some(FullscreenMode::Fullscreen), Option::Some(FullscreenMode::Fullscreen)) =>
                true,
            (Option::Some(FullscreenMode::Borderless), Option::Some(FullscreenMode::Borderless)) =>
                true,
            _ => false,
        };
        self.title == other.title && self.width == other.width && self.height == other.height
            && same_mode && self.is_resizable == other.is_resizable
    }
}

impl vstd::std_specs::cmp::PartialEqSpecImpl for WindowSettings {
    open spec fn obeys_eq_spec() -> bool {
        true
    }

    open spec fn eq_spec(&self, other: &WindowSettings) -> bool {
        self.same_settings(*other)
    }
}

} // verus!
