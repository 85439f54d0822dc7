//! The tray menu: exactly two items, "Open WebUI" and "Close", and the
//! mapping from a clicked item's id to its action.

use vstd::prelude::*;

verus! {

/// Menu id of "Open WebUI".
pub const OPEN_WEBUI_ID: u32 = 1;

/// Menu id of "Close".
pub const CLOSE_ID: u32 = 2;

/// What a tray menu click asks for.
#[derive(Debug, Clone, Copy, PartialEq, Eq, Structural)]
pub enum TrayAction {
    /// Open the web UI in the browser.
    OpenWebUi,
    /// Shut the application down.
    Close,
}

/// One tray menu entry.
#[derive(Debug, Clone, Copy, PartialEq, Eq)]
pub struct TrayMenuItem {
    pub id: u32,
    pub label: &'static str,
}

/// The tray menu, in display order.
pub fn tray_menu_items() -> (items: Vec<TrayMenuItem>)
    ensures
        items@.len() == 2,
        items@[0] == (TrayMenuItem { id: OPEN_WEBUI_ID, label: "Open WebUI" }),
        items@[1] == (TrayMenuItem { id: CLOSE_ID, label: "Close" }),
{
    let mut items: Vec<TrayMenuItem> = Vec::new();
    items.push(TrayMenuItem { id: OPEN_WEBUI_ID, label: "Open WebUI" });
    items.push(TrayMenuItem { id: CLOSE_ID, label: "Close" });
    items
}

/// The action of a clicked menu id; unknown ids do nothing.
pub fn tray_action(id: u32) -> (a: Option<TrayAction>)
    ensures
        a == (if id == OPEN_WEBUI_ID {
            Some(TrayAction::OpenWebUi)
        } else if id == CLOSE_ID {
            Some(TrayAction::Close)
        } else {
            None
        }),
{
    if id == OPEN_WEBUI_ID {
        Some(TrayAction::OpenWebUi)
    } else if id == CLOSE_ID {
        Some(TrayAction::Close)
    } else {
        None
    }
}

} // verus!
