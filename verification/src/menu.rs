//! The context menu of the secondary window: its entries and what each does.

use vstd::prelude::*;
use crate::text::text_eq;

verus! {

/// One entry of a context menu.
#[derive(Clone, Debug, PartialEq, Eq)]
pub struct MenuEntry {
    /// The identifier that a click on the entry reports.
    pub id: String,
    /// The text that the entry shows.
    pub title: String,
}

/// The value of a [`MenuEntry`].
pub struct MenuEntryView {
    pub id: Seq<char>,
    pub title: Seq<char>,
}

impl View for MenuEntry {
    type V = MenuEntryView;

    open spec fn view(&self) -> MenuEntryView {
        MenuEntryView { id: self.id@, title: self.title@ }
    }
}

/// What a click on an entry of the context menu asks for.
#[derive(Clone, Copy, Debug, PartialEq, Eq, Structural)]
pub enum MenuAction {
    /// Keep the window above all others.
    Pin,
    /// Let the window go behind others again.
    Unpin,
    /// Report the page that the window shows.
    OpenCurrentPage,
}

/// The identifier of the entry that pins the window.
pub const PIN_ID: &'static str = "top";

/// The identifier of the entry that unpins the window.
pub const UNPIN_ID: &'static str = "cancel_top";

/// The identifier of the entry that reports the current page.
pub const OPEN_PAGE_ID: &'static str = "open_post";

/// The event on which the current page is reported.
pub const PAGE_EVENT: &'static str = "post_mhy_client";

/// The tag that marks a report of the current page.
pub const PAGE_METHOD: &'static str = "teyvat_open";

/// The entries of the secondary window's context menu, in order.
pub open spec fn menu_entries() -> Seq<MenuEntryView> {
    seq![
        MenuEntryView { id: PIN_ID@, title: "置顶"@ },
        MenuEntryView { id: UNPIN_ID@, title: "取消置顶"@ },
        MenuEntryView { id: OPEN_PAGE_ID@, title: "打开帖子"@ },
    ]
}

/// The values of a list of entries.
pub open spec fn entry_views(entries: Seq<MenuEntry>) -> Seq<MenuEntryView> {
    Seq::new(entries.len(), |i: int| entries[i]@)
}

/// The action that an identifier stands for; none for an identifier that
/// the menu does not define.
pub open spec fn menu_action_of(id: Seq<char>) -> Option<MenuAction> {
    if id == PIN_ID@ {
        Some(MenuAction::Pin)
    } else if id == UNPIN_ID@ {
        Some(MenuAction::Unpin)
    } else if id == OPEN_PAGE_ID@ {
        Some(MenuAction::OpenCurrentPage)
    } else {
        None
    }
}

impl MenuEntry {
    /// An entry with the given identifier and text.
    pub fn new(id: &str, title: &str) -> (entry: MenuEntry)
        ensures
            entry@ == (MenuEntryView { id: id@, title: title@ }),
    {
        MenuEntry { id: id.to_owned(), title: title.to_owned() }
    }
}

/// Builds the context menu of the secondary window.
pub fn create_mhy_menu() -> (menu: Vec<MenuEntry>)
    ensures
        entry_views(menu@) == menu_entries(),
{
    let mut menu: Vec<MenuEntry> = Vec::new();
    menu.push(MenuEntry::new(PIN_ID, "置顶"));
    menu.push(MenuEntry::new(UNPIN_ID, "取消置顶"));
    menu.push(MenuEntry::new(OPEN_PAGE_ID, "打开帖子"));
    assert(entry_views(menu@) =~= menu_entries());
    menu
}

/// Reads the identifier that a click reports.
pub fn parse_menu_action(id: &str) -> (action: Option<MenuAction>)
    ensures
        action == menu_action_of(id@),
{
    if text_eq(id, PIN_ID) {
        Some(MenuAction::Pin)
    } else if text_eq(id, UNPIN_ID) {
        Some(MenuAction::Unpin)
    } else if text_eq(id, OPEN_PAGE_ID) {
        Some(MenuAction::OpenCurrentPage)
    } else {
        None
    }
}

} // verus!
