//! The About window's state: its title and whether it is shown.

use vstd::prelude::*;

verus! {

/// The About window shows who made the application and what it is built on.
pub struct AboutWindow {
    name: String,
    /// Whether the window is shown.
    pub is_open: bool,
}

/// The contents of an [`AboutWindow`].
pub struct AboutWindowView {
    pub name: Seq<char>,
    pub is_open: bool,
}

impl View for AboutWindow {
    type V = AboutWindowView;

    closed spec fn view(&self) -> AboutWindowView {
        AboutWindowView { name: self.name@, is_open: self.is_open }
    }
}

impl AboutWindow {
    /// The window's title.
    pub fn name(&self) -> (r: &str)
        ensures
            r@ == self@.name,
    {
        self.name.as_str()
    }

    /// Whether the window is shown.
    pub fn is_open(&self) -> (r: bool)
        ensures
            r == self@.is_open,
    {
        self.is_open
    }

    /// Shows a hidden window and hides a shown one.
    pub fn toggle(&mut self)
        ensures
            final(self)@ == (AboutWindowView { is_open: !old(self)@.is_open, ..old(self)@ }),
    {
        self.is_open = !self.is_open;
    }
}

impl Default for AboutWindow {
    /// A closed window titled "About".
    fn default() -> (r: Self)
        ensures
            r@ == (AboutWindowView { name: "About"@, is_open: false }),
    {
        AboutWindow { name: "About".to_owned(), is_open: false }
    }
}

} // verus!
