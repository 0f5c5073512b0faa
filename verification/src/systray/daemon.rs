//! The `com.wayle.SystemTray1` D-Bus interface: listing, finding and counting items.
use vstd::prelude::*;

use crate::text::str_eq;

verus! {

/// What the interface reads of a tray item.
#[derive(Debug, Clone, PartialEq, Eq)]
pub struct TrayItemSummary {
    /// Item identifier.
    pub id: String,
    /// Item title.
    pub title: String,
    /// Icon name, if the item names one.
    pub icon_name: Option<String>,
    /// Status, as text (`Passive`, `Active`, `NeedsAttention`).
    pub status: String,
}

/// Errors answered to D-Bus callers of the interface.
#[derive(Debug, Clone, PartialEq, Eq)]
pub enum DaemonError {
    /// The arguments name nothing that exists.
    InvalidArgs(String),
    /// The request failed.
    Failed(String),
}

/// The row listed for an item: id, title, icon name (empty if none), status.
pub open spec fn row_spec(item: TrayItemSummary) -> (Seq<char>, Seq<char>, Seq<char>, Seq<char>) {
    (
        item.id@,
        item.title@,
        match item.icon_name {
            Some(n) => n@,
            None => Seq::empty(),
        },
        item.status@,
    )
}

/// The text views of a listed row.
pub open spec fn row_view(row: (String, String, String, String)) -> (Seq<char>, Seq<char>, Seq<char>, Seq<char>) {
    (row.0@, row.1@, row.2@, row.3@)
}

/// Lists all current system tray items as (id, title, icon_name, status).
pub fn list(items: &Vec<TrayItemSummary>) -> (res: Vec<(String, String, String, String)>)
    ensures
        res@.len() == items@.len(),
        forall|i: int| 0 <= i < items@.len() ==> row_view(#[trigger] res@[i]) == row_spec(items@[i]),
{
    let mut rows: Vec<(String, String, String, String)> = Vec::new();
    let mut i: usize = 0;
    while i < items.len()
        invariant
            i <= items@.len(),
            rows@.len() == i,
            forall|k: int| 0 <= k < i ==> row_view(#[trigger] rows@[k]) == row_spec(items@[k]),
        decreases items.len() - i,
    {
        let item = &items[i];
        let icon = match &item.icon_name {
            Some(n) => n.clone(),
            None => String::new(),
        };
        rows.push((item.id.clone(), item.title.clone(), icon, item.status.clone()));
        i = i + 1;
    }
    rows
}

/// Finds the item to activate by id: the first item with that id.
pub fn find_item(items: &Vec<TrayItemSummary>, id: &str) -> (res: Result<usize, DaemonError>)
    ensures
        match res {
            Ok(i) => i < items@.len() && items@[i as int].id@ == id@ && forall|k: int|
                0 <= k < i ==> items@[k].id@ != id@,
            Err(e) => (e matches DaemonError::InvalidArgs(m) && m@ == "Tray item not found: "@ + id@)
                && forall|k: int| 0 <= k < items@.len() ==> items@[k].id@ != id@,
        },
{
    let mut i: usize = 0;
    while i < items.len()
        invariant
            i <= items@.len(),
            forall|k: int| 0 <= k < i ==> items@[k].id@ != id@,
        decreases items.len() - i,
    {
        if str_eq(items[i].id.as_str(), id) {
            return Ok(i);
        }
        i = i + 1;
    }
    let mut m = String::from_str("Tray item not found: ");
    m.append(id);
    Err(DaemonError::InvalidArgs(m))
}

/// Number of current tray items, as `len as u32` (wrapping beyond `u32::MAX`).
pub fn count(items: &Vec<TrayItemSummary>) -> (res: u32)
    ensures
        res == items@.len() as u32,
{
    items.len() as u32
}

} // verus!
