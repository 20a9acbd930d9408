//! The menu-bar collaborator's interface: the kinds of submenu the
//! application installs. Building and showing native menus is platform work
//! performed outside this crate; the core only decides which kind of menu a
//! context-menu request may show.

use vstd::prelude::*;

verus! {

/// The submenus of the application menu bar.
#[derive(Clone, Copy, Debug, PartialEq, Eq, Hash, Structural)]
pub enum SubMenuKind {
    /// The application menu, present on platforms that have one.
    App,
    Edit,
    File,
    Help,
    Window,
    View,
    Custom,
}

impl SubMenuKind {
    /// Only the custom submenu may be shown as a context menu; requests for
    /// any other kind are ignored.
    pub fn shows_context_menu(&self) -> (r: bool)
        ensures
            r == (*self is Custom),
    {
        match self {
            SubMenuKind::Custom => true,
            _ => false,
        }
    }
}

} // verus!
