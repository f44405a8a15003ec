//! What the shell records of one open window.

use vstd::prelude::*;

verus! {

/// Width and height of a window, in logical pixels.
#[derive(Clone, Copy, Debug, PartialEq, Eq, Structural)]
pub struct Geometry {
    pub width: u32,
    pub height: u32,
}

/// One open window, as far as the shell's rules read it.
#[derive(Clone, Debug, PartialEq, Eq)]
pub struct WindowState {
    /// The label that identifies the window.
    pub label: String,
    /// The address the window was opened on.
    pub url: String,
    pub geometry: Geometry,
    pub always_on_top: bool,
}

/// The mathematical value of a [`WindowState`].
pub struct WindowView {
    pub label: Seq<char>,
    pub url: Seq<char>,
    pub geometry: Geometry,
    pub always_on_top: bool,
}

impl View for WindowState {
    type V = WindowView;

    open spec fn view(&self) -> WindowView {
        WindowView {
            label: self.label@,
            url: self.url@,
            geometry: self.geometry,
            always_on_top: self.always_on_top,
        }
    }
}

impl WindowState {
    /// A window that has just been opened: not pinned above the others.
    pub fn new(label: &str, url: &str, geometry: Geometry) -> (w: WindowState)
        ensures
            w@ == (WindowView { label: label@, url: url@, geometry, always_on_top: false }),
    {
        WindowState { label: label.to_owned(), url: url.to_owned(), geometry, always_on_top: false }
    }

    /// A copy with the same value.
    pub fn duplicate(&self) -> (w: WindowState)
        ensures
            w@ == self@,
    {
        WindowState {
            label: self.label.clone(),
            url: self.url.clone(),
            geometry: self.geometry,
            always_on_top: self.always_on_top,
        }
    }
}

} // verus!
