//! The window's logical properties and how prop values resolve to them.

use vstd::prelude::*;

verus! {

/// Width, in logical pixels, given to a window when no width prop is supplied.
pub const DEFAULT_WIDTH: u32 = 500;

/// Height, in logical pixels, given to a window when no height prop is supplied.
pub const DEFAULT_HEIGHT: u32 = 500;

/// Title given to a window when no title prop is supplied.
pub open spec fn spec_default_title() -> Seq<char> {
    "Winit Window"@
}

/// What a dimension prop resolves to: the supplied value, or the default.
pub open spec fn spec_dimension(given: Option<u32>, default: u32) -> u32 {
    match given {
        Option::Some(v) => v,
        Option::None => default,
    }
}

/// What a title prop resolves to: the supplied text, or the default title.
pub open spec fn spec_title(given: Option<String>) -> Seq<char> {
    match given {
        Option::Some(t) => t@,
        Option::None => spec_default_title(),
    }
}

/// The logical properties of the embedded window: its inner size in logical
/// pixels and its title (shown in practice as the canvas element's alt text).
#[derive(Clone, Debug)]
pub struct WindowConfig {
    pub width: u32,
    pub height: u32,
    pub title: String,
}

impl WindowConfig {
    /// The configuration a window is first built with: the supplied props,
    /// with the default filled in for each absent one.
    pub fn initial(width: Option<u32>, height: Option<u32>, title: Option<String>) -> (c: WindowConfig)
        ensures
            c.width == spec_dimension(width, DEFAULT_WIDTH),
            c.height == spec_dimension(height, DEFAULT_HEIGHT),
            c.title@ == spec_title(title),
    {
        let w: u32 = match width {
            Some(v) => v,
            None => DEFAULT_WIDTH,
        };
        let h: u32 = match height {
            Some(v) => v,
            None => DEFAULT_HEIGHT,
        };
        let t: String = match title {
            Some(t) => t,
            None => default_title(),
        };
        WindowConfig { width: w, height: h, title: t }
    }

    /// What the window's size setter is handed when a size signal changes:
    /// the new logical inner size. The title is untouched.
    pub fn set_inner_size(&mut self, width: u32, height: u32)
        ensures
            final(self).width == width,
            final(self).height == height,
            final(self).title == old(self).title,
    {
        self.width = width;
        self.height = height;
    }

    /// What the window's title setter is handed when the title signal changes.
    /// The size is untouched.
    pub fn set_title(&mut self, title: String)
        ensures
            final(self).width == old(self).width,
            final(self).height == old(self).height,
            final(self).title@ == title@,
    {
        self.title = title;
    }

    /// One run of the reactive effect: the current value of every tracked
    /// signal is pushed onto the window, size first, then title. Afterwards
    /// the window's properties equal the signals' values, whatever they were
    /// before.
    pub fn sync(&mut self, width: u32, height: u32, title: String)
        ensures
            final(self).width == width,
            final(self).height == height,
            final(self).title@ == title@,
    {
        self.set_inner_size(width, height);
        self.set_title(title);
    }
}

/// The title used when no title prop is supplied.
pub fn default_title() -> (t: String)
    ensures
        t@ == spec_default_title(),
{
    String::from_str("Winit Window")
}

} // verus!
