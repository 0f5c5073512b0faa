//! The freedesktop.org notification daemon: ids, capabilities and server information.
use vstd::prelude::*;

use crate::text::strings_view;

verus! {

/// The daemon's id counter: the id the next new notification gets.
#[derive(Debug)]
pub struct NotificationDaemon {
    counter: u32,
}

/// The id after `id`, wrapping to 0 after `u32::MAX` as the atomic counter does.
pub open spec fn successor(id: u32) -> u32 {
    if id == u32::MAX {
        0
    } else {
        (id + 1) as u32
    }
}

/// What `notify` decides: the id answered to the caller, and whether the notification
/// is published (it is not when its application is blocked).
#[derive(Debug, Clone, Copy, PartialEq, Eq)]
pub struct NotifyDecision {
    pub id: u32,
    pub publish: bool,
}

impl NotificationDaemon {
    /// The id the next new notification gets.
    pub closed spec fn next_id(&self) -> u32 {
        self.counter
    }

    /// A daemon whose first new notification gets `first_id`.
    pub fn new(first_id: u32) -> (res: Self)
        ensures
            res.next_id() == first_id,
    {
        NotificationDaemon { counter: first_id }
    }

    /// Assigns the id of a notification and decides whether it is published.
    ///
    /// A notification that replaces another (`replaces_id > 0`) keeps that id and leaves
    /// the counter alone; a new one takes the counter's id and advances it. `blocked`
    /// says whether the sending application matched the blocklist; a blocked
    /// notification still gets its id but is not published.
    pub fn notify(&mut self, replaces_id: u32, blocked: bool) -> (res: NotifyDecision)
        ensures
            replaces_id > 0 ==> res.id == replaces_id && final(self).next_id() == old(self).next_id(),
            replaces_id == 0 ==> res.id == old(self).next_id() && final(self).next_id() == successor(
                old(self).next_id(),
            ),
            res.publish == !blocked,
    {
        let id = if replaces_id > 0 {
            replaces_id
        } else {
            let id = self.counter;
            self.counter = if id == u32::MAX { 0 } else { id + 1 };
            id
        };
        NotifyDecision { id, publish: !blocked }
    }

    /// The optional features this server implements.
    pub fn get_capabilities(&self) -> (res: Vec<String>)
        ensures
            strings_view(res@) == seq![
                "body"@,
                "body-markup"@,
                "actions"@,
                "icon-static"@,
                "persistence"@,
            ],
    {
        let mut caps: Vec<String> = Vec::new();
        caps.push(String::from_str("body"));
        caps.push(String::from_str("body-markup"));
        caps.push(String::from_str("actions"));
        caps.push(String::from_str("icon-static"));
        caps.push(String::from_str("persistence"));
        assert(strings_view(caps@) =~= seq!["body"@, "body-markup"@, "actions"@, "icon-static"@, "persistence"@]);
        caps
    }

    /// Name, vendor, version and specification version of this server; `version` is the
    /// version of the running program.
    pub fn get_server_information(&self, version: &str) -> (res: (String, String, String, String))
        ensures
            res.0@ == "wayle"@,
            res.1@ == "jaskir"@,
            res.2@ == version@,
            res.3@ == "1.2"@,
    {
        (String::from_str("wayle"), String::from_str("jaskir"), String::from_str(version), String::from_str("1.2"))
    }
}

} // verus!
