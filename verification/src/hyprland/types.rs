//! Plain data types of the Hyprland service.
use vstd::prelude::*;

verus! {

/// Hexadecimal window address as Hyprland prints it (for example `0x55d1c2a0`).
#[derive(Debug, Clone, PartialEq, Eq)]
pub struct Address(pub String);

impl View for Address {
    type V = Seq<char>;

    open spec fn view(&self) -> Seq<char> {
        self.0@
    }
}

impl Address {
    /// Wraps the textual address.
    pub fn new(address: String) -> (res: Self)
        ensures
            res@ == address@,
    {
        Address(address)
    }

    /// The textual address.
    pub fn as_str(&self) -> (res: &str)
        ensures
            res@ == self@,
    {
        self.0.as_str()
    }
}

/// Numeric workspace identifier (special workspaces are negative).
pub type WorkspaceId = i64;

/// Who is being shared by a screencast.
#[derive(Debug, Clone, Copy, PartialEq, Eq)]
pub enum ScreencastOwner {
    /// A whole monitor is shared (`0` on the event socket).
    Monitor,
    /// A single window is shared (`1` on the event socket).
    Window,
}

/// Keybind configuration from Hyprland.
#[derive(Debug, Clone, PartialEq)]
pub struct BindData {
    /// Bind works even when the screen is locked.
    pub locked: bool,
    /// Mouse button bind.
    pub mouse: bool,
    /// Triggers on key release instead of press.
    pub release: bool,
    /// Repeats while key is held down.
    pub repeat: bool,
    /// Triggers after a long press.
    pub long_press: bool,
    /// Non-consuming bind allows other binds to trigger.
    pub non_consuming: bool,
    /// Bind has a description.
    pub has_description: bool,
    /// Bitmask of modifier keys.
    pub modmask: u32,
    /// Submap this bind belongs to.
    pub submap: String,
    /// Key name.
    pub key: String,
    /// Numerical keycode.
    pub keycode: i32,
    /// Catches all unmatched keys.
    pub catch_all: bool,
    /// Human-readable description.
    pub description: String,
    /// Dispatcher command to execute.
    pub dispatcher: String,
    /// Arguments for the dispatcher.
    pub arg: String,
}

/// What a snapshot query for one client needs: its address and the IPC handle `M`.
pub struct ClientParams<'a, M> {
    /// Address of the client window.
    pub address: Address,
    /// Handle to Hyprland's command socket.
    pub hypr_messenger: &'a M,
}

/// What a snapshot query for one monitor needs: its name and the IPC handle `M`.
pub struct MonitorParams<'a, M> {
    /// Connector name of the monitor (for example `DP-1`).
    pub name: String,
    /// Handle to Hyprland's command socket.
    pub hypr_messenger: &'a M,
}

/// What a snapshot query for one workspace needs: its id and the IPC handle `M`.
pub struct WorkspaceParams<'a, M> {
    /// Workspace identifier.
    pub id: WorkspaceId,
    /// Handle to Hyprland's command socket.
    pub hypr_messenger: &'a M,
}

} // verus!
