//! The tray controller's data: the two fixed menu items and the boundary
//! that turns the toolkit's opaque event identifiers into a closed
//! enumeration.

use vstd::prelude::*;

verus! {

/// The identity of a tray menu event, as a closed enumeration. Any
/// identifier other than the two the menu was built with is `Unknown`,
/// a forward-compatible no-op.
#[derive(Clone, Copy, Debug, PartialEq, Eq, Structural)]
pub enum MenuId {
    Show,
    Quit,
    Unknown,
}

/// The mouse button of a tray icon click.
#[derive(Clone, Copy, Debug, PartialEq, Eq, Structural)]
pub enum TrayButton {
    Left,
    Right,
    Middle,
}

/// A tray menu entry: a stable string identity and a display label,
/// created once at startup and immutable thereafter.
#[derive(Debug)]
pub struct TrayMenuItem {
    pub id: String,
    pub label: String,
}

/// The identifier the menu gives its "Show" entry.
pub open spec fn show_menu_id() -> Seq<char> {
    "tray_show"@
}

/// The identifier the menu gives its "Quit" entry.
pub open spec fn quit_menu_id() -> Seq<char> {
    "tray_quit"@
}

/// The menu identity that a raw event identifier denotes.
pub open spec fn spec_menu_id(id: Seq<char>) -> MenuId {
    if id == show_menu_id() {
        MenuId::Show
    } else if id == quit_menu_id() {
        MenuId::Quit
    } else {
        MenuId::Unknown
    }
}

/// Classify a raw menu event identifier at the boundary.
pub fn menu_id_from_str(id: &str) -> (m: MenuId)
    ensures
        m == spec_menu_id(id@),
{
    let owned: String = id.to_owned();
    if owned == String::from_str("tray_show") {
        MenuId::Show
    } else if owned == String::from_str("tray_quit") {
        MenuId::Quit
    } else {
        MenuId::Unknown
    }
}

/// The tray's context menu: exactly two entries, "Show" then "Quit",
/// under their stable identifiers.
pub fn tray_menu_items() -> (items: Vec<TrayMenuItem>)
    ensures
        items@.len() == 2,
        items@[0].id@ == show_menu_id(),
        items@[0].label@ == "Show"@,
        items@[1].id@ == quit_menu_id(),
        items@[1].label@ == "Quit"@,
{
    let mut items: Vec<TrayMenuItem> = Vec::new();
    items.push(TrayMenuItem { id: String::from_str("tray_show"), label: String::from_str("Show") });
    items.push(TrayMenuItem { id: String::from_str("tray_quit"), label: String::from_str("Quit") });
    items
}

} // verus!
