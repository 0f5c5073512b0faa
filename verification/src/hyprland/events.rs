//! The Hyprland event socket: lines of the form `EVENT>>DATA`, the table that routes
//! each event name to its handler, and the handlers that turn data into events.
use vstd::prelude::*;

use crate::hyprland::types::{Address, ScreencastOwner};
use crate::text::{concat, split_once, split_once_spec, str_eq};

verus! {

/// Events published by the Hyprland service.
#[derive(Debug, Clone, PartialEq)]
pub enum HyprlandEvent {
    /// A window entered (`true`) or left (`false`) fullscreen.
    Fullscreen { fullscreen: bool },
    /// The keyboard layout changed.
    ActiveLayout { keyboard: String, layout: String },
    /// The active submap changed (empty name: default submap).
    Submap { name: String },
    /// A screencast started (`true`) or stopped (`false`).
    Screencast { state: bool, owner: ScreencastOwner },
    /// Group lock is ignored (`true`) or honoured (`false`).
    IgnoreGroupLock { ignore: bool },
    /// Groups were locked (`true`) or unlocked (`false`).
    LockGroups { locked: bool },
    /// The configuration was reloaded.
    ConfigReloaded,
    /// A bell rang, for a window or for none.
    Bell { address: Option<Address> },
    /// A layer surface was opened.
    OpenLayer { namespace: String },
    /// A layer surface was closed.
    CloseLayer { namespace: String },
}

/// An event with its texts taken as character sequences.
pub enum EventView {
    Fullscreen(bool),
    ActiveLayout(Seq<char>, Seq<char>),
    Submap(Seq<char>),
    Screencast(bool, ScreencastOwner),
    IgnoreGroupLock(bool),
    LockGroups(bool),
    ConfigReloaded,
    Bell(Option<Seq<char>>),
    OpenLayer(Seq<char>),
    CloseLayer(Seq<char>),
}

impl View for HyprlandEvent {
    type V = EventView;

    open spec fn view(&self) -> EventView {
        match self {
            HyprlandEvent::Fullscreen { fullscreen } => EventView::Fullscreen(*fullscreen),
            HyprlandEvent::ActiveLayout { keyboard, layout } => EventView::ActiveLayout(
                keyboard@,
                layout@,
            ),
            HyprlandEvent::Submap { name } => EventView::Submap(name@),
            HyprlandEvent::Screencast { state, owner } => EventView::Screencast(*state, *owner),
            HyprlandEvent::IgnoreGroupLock { ignore } => EventView::IgnoreGroupLock(*ignore),
            HyprlandEvent::LockGroups { locked } => EventView::LockGroups(*locked),
            HyprlandEvent::ConfigReloaded => EventView::ConfigReloaded,
            HyprlandEvent::Bell { address } => EventView::Bell(
                match address {
                    Some(a) => Some(a@),
                    None => None,
                },
            ),
            HyprlandEvent::OpenLayer { namespace } => EventView::OpenLayer(namespace@),
            HyprlandEvent::CloseLayer { namespace } => EventView::CloseLayer(namespace@),
        }
    }
}

/// Errors of the Hyprland service.
#[derive(Debug, Clone, PartialEq)]
pub enum HyprlandError {
    /// `HYPRLAND_INSTANCE_SIGNATURE` is not set.
    HyprlandNotRunning,
    /// The instance signature or runtime directory cannot be used.
    InvalidInstanceSignature(String),
    /// A Hyprland socket could not be connected.
    IpcConnectionFailed { socket_type: String, reason: String },
    /// An event line carried data that its handler does not accept.
    EventParseError { event_data: String, reason: String },
    /// The owner field of a screencast event is neither `0` nor `1`.
    InvalidScreencastOwner(String),
    /// An event could not be published to subscribers.
    EventSendFailed(String),
}

/// An error with its texts taken as character sequences.
pub enum ErrorView {
    HyprlandNotRunning,
    InvalidInstanceSignature(Seq<char>),
    IpcConnectionFailed(Seq<char>, Seq<char>),
    EventParseError(Seq<char>, Seq<char>),
    InvalidScreencastOwner(Seq<char>),
    EventSendFailed(Seq<char>),
}

impl View for HyprlandError {
    type V = ErrorView;

    open spec fn view(&self) -> ErrorView {
        match self {
            HyprlandError::HyprlandNotRunning => ErrorView::HyprlandNotRunning,
            HyprlandError::InvalidInstanceSignature(s) => ErrorView::InvalidInstanceSignature(s@),
            HyprlandError::IpcConnectionFailed { socket_type, reason } => ErrorView::IpcConnectionFailed(
                socket_type@,
                reason@,
            ),
            HyprlandError::EventParseError { event_data, reason } => ErrorView::EventParseError(
                event_data@,
                reason@,
            ),
            HyprlandError::InvalidScreencastOwner(s) => ErrorView::InvalidScreencastOwner(s@),
            HyprlandError::EventSendFailed(s) => ErrorView::EventSendFailed(s@),
        }
    }
}

/// A handler's result, with texts taken as character sequences.
pub open spec fn result_view(r: Result<HyprlandEvent, HyprlandError>) -> Result<EventView, ErrorView> {
    match r {
        Ok(e) => Ok(e@),
        Err(e) => Err(e@),
    }
}

/// The separator between event name and data on the event socket.
pub open spec fn event_separator() -> Seq<char> {
    ">>"@
}

/// `event>>data`, as quoted in parse errors.
pub open spec fn event_data_spec(event: Seq<char>, data: Seq<char>) -> Seq<char> {
    event + event_separator() + data
}

/// `0` is `false`, `1` is `true`; nothing else is a flag.
pub open spec fn flag_spec(data: Seq<char>) -> Option<bool> {
    if data == "0"@ {
        Some(false)
    } else if data == "1"@ {
        Some(true)
    } else {
        None
    }
}

/// A parse error for `event>>data` with the given reason.
pub open spec fn parse_error_spec(event: Seq<char>, data: Seq<char>, reason: Seq<char>) -> ErrorView {
    ErrorView::EventParseError(event_data_spec(event, data), reason)
}

/// `invalid <what> value: <value>`.
pub open spec fn invalid_value_reason(what: Seq<char>, value: Seq<char>) -> Seq<char> {
    "invalid "@ + what + " value: "@ + value
}

/// What a flag handler gives: the flag wrapped by `make`, or a parse error naming `what`.
pub open spec fn flag_outcome(
    event: Seq<char>,
    data: Seq<char>,
    what: Seq<char>,
    make: spec_fn(bool) -> EventView,
) -> Result<EventView, ErrorView> {
    match flag_spec(data) {
        Some(b) => Ok(make(b)),
        None => Err(parse_error_spec(event, data, invalid_value_reason(what, data))),
    }
}

/// `0` is a monitor share, `1` a window share.
pub open spec fn screencast_owner_spec(owner: Seq<char>) -> Option<ScreencastOwner> {
    if owner == "0"@ {
        Some(ScreencastOwner::Monitor)
    } else if owner == "1"@ {
        Some(ScreencastOwner::Window)
    } else {
        None
    }
}

/// What the `activelayout` handler gives.
pub open spec fn active_layout_outcome(event: Seq<char>, data: Seq<char>) -> Result<EventView, ErrorView> {
    match split_once_spec(data, ","@) {
        Some((keyboard, layout)) => Ok(EventView::ActiveLayout(keyboard, layout)),
        None => Err(
            parse_error_spec(event, data, "expected comma-separated keyboard,layout"@),
        ),
    }
}

/// What the `screencast` handler gives.
pub open spec fn screencast_outcome(event: Seq<char>, data: Seq<char>) -> Result<EventView, ErrorView> {
    match split_once_spec(data, ","@) {
        None => Err(parse_error_spec(event, data, "expected comma-separated state,owner"@)),
        Some((state, owner)) => match flag_spec(state) {
            None => Err(parse_error_spec(event, data, invalid_value_reason("state"@, state))),
            Some(b) => match screencast_owner_spec(owner) {
                Some(o) => Ok(EventView::Screencast(b, o)),
                None => Err(ErrorView::InvalidScreencastOwner(owner)),
            },
        },
    }
}

/// What the `bell` handler gives: no address for empty data.
pub open spec fn bell_outcome(data: Seq<char>) -> Result<EventView, ErrorView> {
    if data.len() == 0 {
        Ok(EventView::Bell(None))
    } else {
        Ok(EventView::Bell(Some(data)))
    }
}

impl ScreencastOwner {
    /// Reads the owner field of a screencast event.
    pub fn parse(owner: &str) -> (res: Result<ScreencastOwner, HyprlandError>)
        ensures
            match screencast_owner_spec(owner@) {
                Some(o) => res == Ok::<ScreencastOwner, HyprlandError>(o),
                None => res matches Err(e) && e@ == ErrorView::InvalidScreencastOwner(owner@),
            },
    {
        if str_eq(owner, "0") {
            Ok(ScreencastOwner::Monitor)
        } else if str_eq(owner, "1") {
            Ok(ScreencastOwner::Window)
        } else {
            Err(HyprlandError::InvalidScreencastOwner(String::from_str(owner)))
        }
    }
}

/// `event>>data`.
fn event_data(event: &str, data: &str) -> (res: String)
    ensures
        res@ == event_data_spec(event@, data@),
{
    let mut r = concat(event, ">>");
    r.append(data);
    r
}

/// Reads a `0`/`1` flag.
fn parse_flag(data: &str) -> (res: Option<bool>)
    ensures
        res == flag_spec(data@),
{
    if str_eq(data, "0") {
        Some(false)
    } else if str_eq(data, "1") {
        Some(true)
    } else {
        None
    }
}

/// A parse error for `event>>data`: `invalid <what> value: <value>`.
fn invalid_value(event: &str, data: &str, what: &str, value: &str) -> (res: HyprlandError)
    ensures
        res@ == parse_error_spec(event@, data@, invalid_value_reason(what@, value@)),
{
    let mut reason = concat("invalid ", what);
    reason.append(" value: ");
    reason.append(value);
    HyprlandError::EventParseError { event_data: event_data(event, data), reason }
}

/// `fullscreen>>0|1`.
pub fn handle_fullscreen(event: &str, data: &str) -> (res: Result<HyprlandEvent, HyprlandError>)
    ensures
        result_view(res) == flag_outcome(
            event@,
            data@,
            "fullscreen"@,
            |b: bool| EventView::Fullscreen(b),
        ),
{
    match parse_flag(data) {
        Some(fullscreen) => Ok(HyprlandEvent::Fullscreen { fullscreen }),
        None => Err(invalid_value(event, data, "fullscreen", data)),
    }
}

/// `ignoregrouplock>>0|1`.
pub fn handle_ignore_group_lock(event: &str, data: &str) -> (res: Result<HyprlandEvent, HyprlandError>)
    ensures
        result_view(res) == flag_outcome(
            event@,
            data@,
            "ignore"@,
            |b: bool| EventView::IgnoreGroupLock(b),
        ),
{
    match parse_flag(data) {
        Some(ignore) => Ok(HyprlandEvent::IgnoreGroupLock { ignore }),
        None => Err(invalid_value(event, data, "ignore", data)),
    }
}

/// `lockgroups>>0|1`.
pub fn handle_lock_groups(event: &str, data: &str) -> (res: Result<HyprlandEvent, HyprlandError>)
    ensures
        result_view(res) == flag_outcome(
            event@,
            data@,
            "locked"@,
            |b: bool| EventView::LockGroups(b),
        ),
{
    match parse_flag(data) {
        Some(locked) => Ok(HyprlandEvent::LockGroups { locked }),
        None => Err(invalid_value(event, data, "locked", data)),
    }
}

/// `activelayout>>KEYBOARD,LAYOUT`.
pub fn handle_active_layout(event: &str, data: &str) -> (res: Result<HyprlandEvent, HyprlandError>)
    ensures
        result_view(res) == active_layout_outcome(event@, data@),
{
    match split_once(data, ",") {
        Some((keyboard, layout)) => Ok(HyprlandEvent::ActiveLayout { keyboard, layout }),
        None => Err(
            HyprlandError::EventParseError {
                event_data: event_data(event, data),
                reason: String::from_str("expected comma-separated keyboard,layout"),
            },
        ),
    }
}

/// `submap>>NAME`.
pub fn handle_submap(data: &str) -> (res: Result<HyprlandEvent, HyprlandError>)
    ensures
        result_view(res) == Ok::<EventView, ErrorView>(EventView::Submap(data@)),
{
    Ok(HyprlandEvent::Submap { name: String::from_str(data) })
}

/// `screencast>>STATE,OWNER`.
pub fn handle_screencast(event: &str, data: &str) -> (res: Result<HyprlandEvent, HyprlandError>)
    ensures
        result_view(res) == screencast_outcome(event@, data@),
{
    let (state, owner) = match split_once(data, ",") {
        Some(parts) => parts,
        None => {
            return Err(
                HyprlandError::EventParseError {
                    event_data: event_data(event, data),
                    reason: String::from_str("expected comma-separated state,owner"),
                },
            );
        },
    };
    let state = match parse_flag(state.as_str()) {
        Some(b) => b,
        None => {
            return Err(invalid_value(event, data, "state", state.as_str()));
        },
    };
    let owner = ScreencastOwner::parse(owner.as_str())?;
    Ok(HyprlandEvent::Screencast { state, owner })
}

/// `configreloaded>>`.
pub fn handle_config_reloaded() -> (res: Result<HyprlandEvent, HyprlandError>)
    ensures
        result_view(res) == Ok::<EventView, ErrorView>(EventView::ConfigReloaded),
{
    Ok(HyprlandEvent::ConfigReloaded)
}

/// `bell>>ADDRESS`, where the address may be empty.
pub fn handle_bell(data: &str) -> (res: Result<HyprlandEvent, HyprlandError>)
    ensures
        result_view(res) == bell_outcome(data@),
{
    let address = if data.unicode_len() == 0 {
        None
    } else {
        Some(Address::new(String::from_str(data)))
    };
    Ok(HyprlandEvent::Bell { address })
}

/// `openlayer>>NAMESPACE`.
pub fn handle_open_layer(data: &str) -> (res: Result<HyprlandEvent, HyprlandError>)
    ensures
        result_view(res) == Ok::<EventView, ErrorView>(EventView::OpenLayer(data@)),
{
    Ok(HyprlandEvent::OpenLayer { namespace: String::from_str(data) })
}

/// `closelayer>>NAMESPACE`.
pub fn handle_close_layer(data: &str) -> (res: Result<HyprlandEvent, HyprlandError>)
    ensures
        result_view(res) == Ok::<EventView, ErrorView>(EventView::CloseLayer(data@)),
{
    Ok(HyprlandEvent::CloseLayer { namespace: String::from_str(data) })
}

/// The handlers of the event socket, one per event name.
#[derive(Debug, Clone, Copy, PartialEq, Eq)]
pub enum EventHandler {
    /// `workspace`
    Workspace,
    /// `workspacev2`
    WorkspaceV2,
    /// `focusedmon`
    FocusedMon,
    /// `focusedmonv2`
    FocusedMonV2,
    /// `activewindow`
    ActiveWindow,
    /// `activewindowv2`
    ActiveWindowV2,
    /// `fullscreen`
    Fullscreen,
    /// `monitorremoved`
    MonitorRemoved,
    /// `monitorremovedv2`
    MonitorRemovedV2,
    /// `monitoradded`
    MonitorAdded,
    /// `monitoraddedv2`
    MonitorAddedV2,
    /// `createworkspace`
    CreateWorkspace,
    /// `createworkspacev2`
    CreateWorkspaceV2,
    /// `destroyworkspace`
    DestroyWorkspace,
    /// `destroyworkspacev2`
    DestroyWorkspaceV2,
    /// `moveworkspace`
    MoveWorkspace,
    /// `moveworkspacev2`
    MoveWorkspaceV2,
    /// `renameworkspace`
    RenameWorkspace,
    /// `activespecial`
    ActiveSpecial,
    /// `activespecialv2`
    ActiveSpecialV2,
    /// `activelayout`
    ActiveLayout,
    /// `openwindow`
    OpenWindow,
    /// `closewindow`
    CloseWindow,
    /// `movewindow`
    MoveWindow,
    /// `movewindowv2`
    MoveWindowV2,
    /// `openlayer`
    OpenLayer,
    /// `closelayer`
    CloseLayer,
    /// `submap`
    Submap,
    /// `changefloatingmode`
    ChangeFloatingMode,
    /// `urgent`
    Urgent,
    /// `screencast`
    Screencast,
    /// `windowtitle`
    WindowTitle,
    /// `windowtitlev2`
    WindowTitleV2,
    /// `togglegroup`
    ToggleGroup,
    /// `moveintogroup`
    MoveIntoGroup,
    /// `moveoutofgroup`
    MoveOutOfGroup,
    /// `ignoregrouplock`
    IgnoreGroupLock,
    /// `lockgroups`
    LockGroups,
    /// `configreloaded`
    ConfigReloaded,
    /// `pin`
    Pin,
    /// `minimized`
    Minimized,
    /// `bell`
    Bell,
}

/// The handler that the event name selects, if the name is known.
pub open spec fn handler_spec(event: Seq<char>) -> Option<EventHandler> {
    if event == "workspace"@ {
        Some(EventHandler::Workspace)
    } else if event == "workspacev2"@ {
        Some(EventHandler::WorkspaceV2)
    } else if event == "focusedmon"@ {
        Some(EventHandler::FocusedMon)
    } else if event == "focusedmonv2"@ {
        Some(EventHandler::FocusedMonV2)
    } else if event == "activewindow"@ {
        Some(EventHandler::ActiveWindow)
    } else if event == "activewindowv2"@ {
        Some(EventHandler::ActiveWindowV2)
    } else if event == "fullscreen"@ {
        Some(EventHandler::Fullscreen)
    } else if event == "monitorremoved"@ {
        Some(EventHandler::MonitorRemoved)
    } else if event == "monitorremovedv2"@ {
        Some(EventHandler::MonitorRemovedV2)
    } else if event == "monitoradded"@ {
        Some(EventHandler::MonitorAdded)
    } else if event == "monitoraddedv2"@ {
        Some(EventHandler::MonitorAddedV2)
    } else if event == "createworkspace"@ {
        Some(EventHandler::CreateWorkspace)
    } else if event == "createworkspacev2"@ {
        Some(EventHandler::CreateWorkspaceV2)
    } else if event == "destroyworkspace"@ {
        Some(EventHandler::DestroyWorkspace)
    } else if event == "destroyworkspacev2"@ {
        Some(EventHandler::DestroyWorkspaceV2)
    } else if event == "moveworkspace"@ {
        Some(EventHandler::MoveWorkspace)
    } else if event == "moveworkspacev2"@ {
        Some(EventHandler::MoveWorkspaceV2)
    } else if event == "renameworkspace"@ {
        Some(EventHandler::RenameWorkspace)
    } else if event == "activespecial"@ {
        Some(EventHandler::ActiveSpecial)
    } else if event == "activespecialv2"@ {
        Some(EventHandler::ActiveSpecialV2)
    } else if event == "activelayout"@ {
        Some(EventHandler::ActiveLayout)
    } else if event == "openwindow"@ {
        Some(EventHandler::OpenWindow)
    } else if event == "closewindow"@ {
        Some(EventHandler::CloseWindow)
    } else if event == "movewindow"@ {
        Some(EventHandler::MoveWindow)
    } else if event == "movewindowv2"@ {
        Some(EventHandler::MoveWindowV2)
    } else if event == "openlayer"@ {
        Some(EventHandler::OpenLayer)
    } else if event == "closelayer"@ {
        Some(EventHandler::CloseLayer)
    } else if event == "submap"@ {
        Some(EventHandler::Submap)
    } else if event == "changefloatingmode"@ {
        Some(EventHandler::ChangeFloatingMode)
    } else if event == "urgent"@ {
        Some(EventHandler::Urgent)
    } else if event == "screencast"@ {
        Some(EventHandler::Screencast)
    } else if event == "windowtitle"@ {
        Some(EventHandler::WindowTitle)
    } else if event == "windowtitlev2"@ {
        Some(EventHandler::WindowTitleV2)
    } else if event == "togglegroup"@ {
        Some(EventHandler::ToggleGroup)
    } else if event == "moveintogroup"@ {
        Some(EventHandler::MoveIntoGroup)
    } else if event == "moveoutofgroup"@ {
        Some(EventHandler::MoveOutOfGroup)
    } else if event == "ignoregrouplock"@ {
        Some(EventHandler::IgnoreGroupLock)
    } else if event == "lockgroups"@ {
        Some(EventHandler::LockGroups)
    } else if event == "configreloaded"@ {
        Some(EventHandler::ConfigReloaded)
    } else if event == "pin"@ {
        Some(EventHandler::Pin)
    } else if event == "minimized"@ {
        Some(EventHandler::Minimized)
    } else if event == "bell"@ {
        Some(EventHandler::Bell)
    } else {
        None
    }
}

/// What a handler of this module gives for `event>>data`; `None` for the handlers of
/// the window, workspace and monitor modules of the service.
pub open spec fn local_outcome(h: EventHandler, event: Seq<char>, data: Seq<char>) -> Option<Result<EventView, ErrorView>> {
    match h {
        EventHandler::Fullscreen => Some(flag_outcome(event, data, "fullscreen"@, |b: bool| EventView::Fullscreen(b))),
        EventHandler::ActiveLayout => Some(active_layout_outcome(event, data)),
        EventHandler::OpenLayer => Some(Ok(EventView::OpenLayer(data))),
        EventHandler::CloseLayer => Some(Ok(EventView::CloseLayer(data))),
        EventHandler::Submap => Some(Ok(EventView::Submap(data))),
        EventHandler::Screencast => Some(screencast_outcome(event, data)),
        EventHandler::IgnoreGroupLock => Some(flag_outcome(event, data, "ignore"@, |b: bool| EventView::IgnoreGroupLock(b))),
        EventHandler::LockGroups => Some(flag_outcome(event, data, "locked"@, |b: bool| EventView::LockGroups(b))),
        EventHandler::ConfigReloaded => Some(Ok(EventView::ConfigReloaded)),
        EventHandler::Bell => Some(bell_outcome(data)),
        _ => None,
    }
}

/// Looks up the handler for an event name.
pub fn handler_for(event: &str) -> (res: Option<EventHandler>)
    ensures
        res == handler_spec(event@),
{
    if str_eq(event, "workspace") {
        Some(EventHandler::Workspace)
    } else if str_eq(event, "workspacev2") {
        Some(EventHandler::WorkspaceV2)
    } else if str_eq(event, "focusedmon") {
        Some(EventHandler::FocusedMon)
    } else if str_eq(event, "focusedmonv2") {
        Some(EventHandler::FocusedMonV2)
    } else if str_eq(event, "activewindow") {
        Some(EventHandler::ActiveWindow)
    } else if str_eq(event, "activewindowv2") {
        Some(EventHandler::ActiveWindowV2)
    } else if str_eq(event, "fullscreen") {
        Some(EventHandler::Fullscreen)
    } else if str_eq(event, "monitorremoved") {
        Some(EventHandler::MonitorRemoved)
    } else if str_eq(event, "monitorremovedv2") {
        Some(EventHandler::MonitorRemovedV2)
    } else if str_eq(event, "monitoradded") {
        Some(EventHandler::MonitorAdded)
    } else if str_eq(event, "monitoraddedv2") {
        Some(EventHandler::MonitorAddedV2)
    } else if str_eq(event, "createworkspace") {
        Some(EventHandler::CreateWorkspace)
    } else if str_eq(event, "createworkspacev2") {
        Some(EventHandler::CreateWorkspaceV2)
    } else if str_eq(event, "destroyworkspace") {
        Some(EventHandler::DestroyWorkspace)
    } else if str_eq(event, "destroyworkspacev2") {
        Some(EventHandler::DestroyWorkspaceV2)
    } else if str_eq(event, "moveworkspace") {
        Some(EventHandler::MoveWorkspace)
    } else if str_eq(event, "moveworkspacev2") {
        Some(EventHandler::MoveWorkspaceV2)
    } else if str_eq(event, "renameworkspace") {
        Some(EventHandler::RenameWorkspace)
    } else if str_eq(event, "activespecial") {
        Some(EventHandler::ActiveSpecial)
    } else if str_eq(event, "activespecialv2") {
        Some(EventHandler::ActiveSpecialV2)
    } else if str_eq(event, "activelayout") {
        Some(EventHandler::ActiveLayout)
    } else if str_eq(event, "openwindow") {
        Some(EventHandler::OpenWindow)
    } else if str_eq(event, "closewindow") {
        Some(EventHandler::CloseWindow)
    } else if str_eq(event, "movewindow") {
        Some(EventHandler::MoveWindow)
    } else if str_eq(event, "movewindowv2") {
        Some(EventHandler::MoveWindowV2)
    } else if str_eq(event, "openlayer") {
        Some(EventHandler::OpenLayer)
    } else if str_eq(event, "closelayer") {
        Some(EventHandler::CloseLayer)
    } else if str_eq(event, "submap") {
        Some(EventHandler::Submap)
    } else if str_eq(event, "changefloatingmode") {
        Some(EventHandler::ChangeFloatingMode)
    } else if str_eq(event, "urgent") {
        Some(EventHandler::Urgent)
    } else if str_eq(event, "screencast") {
        Some(EventHandler::Screencast)
    } else if str_eq(event, "windowtitle") {
        Some(EventHandler::WindowTitle)
    } else if str_eq(event, "windowtitlev2") {
        Some(EventHandler::WindowTitleV2)
    } else if str_eq(event, "togglegroup") {
        Some(EventHandler::ToggleGroup)
    } else if str_eq(event, "moveintogroup") {
        Some(EventHandler::MoveIntoGroup)
    } else if str_eq(event, "moveoutofgroup") {
        Some(EventHandler::MoveOutOfGroup)
    } else if str_eq(event, "ignoregrouplock") {
        Some(EventHandler::IgnoreGroupLock)
    } else if str_eq(event, "lockgroups") {
        Some(EventHandler::LockGroups)
    } else if str_eq(event, "configreloaded") {
        Some(EventHandler::ConfigReloaded)
    } else if str_eq(event, "pin") {
        Some(EventHandler::Pin)
    } else if str_eq(event, "minimized") {
        Some(EventHandler::Minimized)
    } else if str_eq(event, "bell") {
        Some(EventHandler::Bell)
    } else {
        None
    }
}

/// Where an event line goes.
#[derive(Debug, Clone, PartialEq)]
pub enum Dispatch {
    /// A handler of this module produced an event to publish.
    Emit(HyprlandEvent),
    /// The event belongs to a handler of the window, workspace or monitor modules.
    External(EventHandler),
    /// The event name is unknown; it is logged and skipped.
    Ignored,
}

/// `res` is what `handle_event` owes for `event>>data`.
pub open spec fn dispatch_spec(res: Result<Dispatch, HyprlandError>, event: Seq<char>, data: Seq<char>) -> bool {
    match handler_spec(event) {
        None => res == Ok::<Dispatch, HyprlandError>(Dispatch::Ignored),
        Some(h) => match local_outcome(h, event, data) {
            Some(expected) => match (res, expected) {
                (Ok(Dispatch::Emit(e)), Ok(v)) => e@ == v,
                (Err(e), Err(v)) => e@ == v,
                _ => false,
            },
            None => res == Ok::<Dispatch, HyprlandError>(Dispatch::External(h)),
        },
    }
}

/// Routes one event to its handler.
pub fn handle_event(event: &str, data: &str) -> (res: Result<Dispatch, HyprlandError>)
    ensures
        dispatch_spec(res, event@, data@),
{
    let handler = match handler_for(event) {
        Some(h) => h,
        None => return Ok(Dispatch::Ignored),
    };
    let produced = match handler {
        EventHandler::Fullscreen => handle_fullscreen(event, data),
        EventHandler::ActiveLayout => handle_active_layout(event, data),
        EventHandler::OpenLayer => handle_open_layer(data),
        EventHandler::CloseLayer => handle_close_layer(data),
        EventHandler::Submap => handle_submap(data),
        EventHandler::Screencast => handle_screencast(event, data),
        EventHandler::IgnoreGroupLock => handle_ignore_group_lock(event, data),
        EventHandler::LockGroups => handle_lock_groups(event, data),
        EventHandler::ConfigReloaded => handle_config_reloaded(),
        EventHandler::Bell => handle_bell(data),
        other => return Ok(Dispatch::External(other)),
    };
    match produced {
        Ok(e) => Ok(Dispatch::Emit(e)),
        Err(e) => Err(e),
    }
}

/// What a line of the event socket splits into: the name and the data around the first `>>`.
pub open spec fn split_event_line_spec(line: Seq<char>) -> Option<(Seq<char>, Seq<char>)> {
    split_once_spec(line, ">>"@)
}

/// Splits a line of the event socket into event name and data.
pub fn split_event_line(line: &str) -> (res: Option<(String, String)>)
    ensures
        match res {
            Some((e, d)) => split_event_line_spec(line@) == Some((e@, d@)),
            None => split_event_line_spec(line@) is None,
        },
{
    split_once(line, ">>")
}

/// Handles one line of the event socket: a line without the `>>` separator is skipped
/// (`None`); any other line is split at its first `>>` and routed by `handle_event`.
/// Nothing depends on the lines before it.
pub fn handle_line(line: &str) -> (res: Option<Result<Dispatch, HyprlandError>>)
    ensures
        match split_event_line_spec(line@) {
            None => res is None,
            Some((event, data)) => res matches Some(r) && dispatch_spec(r, event, data),
        },
{
    match split_event_line(line) {
        Some((event, data)) => Some(handle_event(event.as_str(), data.as_str())),
        None => None,
    }
}

/// The path of Hyprland's event socket, from `HYPRLAND_INSTANCE_SIGNATURE` and
/// `XDG_RUNTIME_DIR`: `<runtime_dir>/hypr/<signature>/.socket2.sock`. Without a
/// signature Hyprland is not running; without a runtime directory the signature is of
/// no use.
pub open spec fn event_socket_path_spec(
    instance_signature: Option<Seq<char>>,
    runtime_dir: Option<Seq<char>>,
) -> Result<Seq<char>, ErrorView> {
    match instance_signature {
        None => Err(ErrorView::HyprlandNotRunning),
        Some(his) => match runtime_dir {
            None => Err(ErrorView::InvalidInstanceSignature("XDG_RUNTIME_DIR not set"@)),
            Some(dir) => Ok(dir + "/hypr/"@ + his + "/.socket2.sock"@),
        },
    }
}

/// The text view of an optional string.
pub open spec fn opt_view(s: Option<String>) -> Option<Seq<char>> {
    match s {
        Some(x) => Some(x@),
        None => None,
    }
}

/// Locates the event socket from the two environment variables (`None`: unset).
pub fn event_socket_path(instance_signature: Option<String>, runtime_dir: Option<String>) -> (res: Result<String, HyprlandError>)
    ensures
        match (res, event_socket_path_spec(opt_view(instance_signature), opt_view(runtime_dir))) {
            (Ok(p), Ok(q)) => p@ == q,
            (Err(e), Err(v)) => e@ == v,
            _ => false,
        },
{
    let his = match instance_signature {
        Some(h) => h,
        None => return Err(HyprlandError::HyprlandNotRunning),
    };
    let dir = match runtime_dir {
        Some(d) => d,
        None => return Err(HyprlandError::InvalidInstanceSignature(String::from_str("XDG_RUNTIME_DIR not set"))),
    };
    let mut path = dir;
    path.append("/hypr/");
    path.append(his.as_str());
    path.append("/.socket2.sock");
    Ok(path)
}

/// Text with no comma, then a comma, then anything, splits at that comma.
proof fn lemma_split_at_comma(first: Seq<char>, rest: Seq<char>)
    requires
        forall|i: int| 0 <= i < first.len() ==> first[i] != ',',
    ensures
        split_once_spec(first + ","@ + rest, ","@) == Some((first, rest)),
{
    reveal_strlit(",");
    let sep = ","@;
    assert(sep =~= seq![',']);
    let text = first + sep + rest;
    let n = first.len() as int;
    assert(text.subrange(n, n + 1) =~= sep);
    assert forall|j: int| 0 <= j < n implies !crate::text::occurs_at(text, sep, j) by {
        assert(text[j] == first[j]);
        if crate::text::occurs_at(text, sep, j) {
            assert(text.subrange(j, j + 1)[0] == sep[0]);
        }
    }
    crate::text::lemma_first_occurrence(text, sep, n);
    assert(text.subrange(0, n) =~= first);
    assert(text.subrange(n + 1, text.len() as int) =~= rest);
}

/// A screencast event `STATE,OWNER` with `0`/`1` fields reports the state from the first
/// field and the owner from the second alone: owner `1` is a window share and `0` a
/// monitor share, whatever the state.
pub proof fn lemma_screencast_fields(event: Seq<char>, state: Seq<char>, owner: Seq<char>)
    requires
        state == "0"@ || state == "1"@,
        owner == "0"@ || owner == "1"@,
    ensures
        screencast_outcome(event, state + ","@ + owner) == Ok::<EventView, ErrorView>(
            EventView::Screencast(
                state == "1"@,
                if owner == "1"@ {
                    ScreencastOwner::Window
                } else {
                    ScreencastOwner::Monitor
                },
            ),
        ),
{
    reveal_strlit("0");
    reveal_strlit("1");
    reveal_strlit(",");
    assert("0"@ != "1"@) by {
        assert("0"@[0] != "1"@[0]);
    }
    assert forall|i: int| 0 <= i < state.len() implies state[i] != ',' by {}
    lemma_split_at_comma(state, owner);
}

/// Each event name handled in this module selects its own handler.
pub proof fn lemma_local_event_names()
    ensures
        handler_spec("fullscreen"@) == Some(EventHandler::Fullscreen),
        handler_spec("activelayout"@) == Some(EventHandler::ActiveLayout),
        handler_spec("openlayer"@) == Some(EventHandler::OpenLayer),
        handler_spec("closelayer"@) == Some(EventHandler::CloseLayer),
        handler_spec("submap"@) == Some(EventHandler::Submap),
        handler_spec("screencast"@) == Some(EventHandler::Screencast),
        handler_spec("ignoregrouplock"@) == Some(EventHandler::IgnoreGroupLock),
        handler_spec("lockgroups"@) == Some(EventHandler::LockGroups),
        handler_spec("configreloaded"@) == Some(EventHandler::ConfigReloaded),
        handler_spec("bell"@) == Some(EventHandler::Bell),
{
    reveal_strlit("workspace");
    assert("workspace"@ =~= seq!['w', 'o', 'r', 'k', 's', 'p', 'a', 'c', 'e']);
    reveal_strlit("workspacev2");
    assert("workspacev2"@ =~= seq!['w', 'o', 'r', 'k', 's', 'p', 'a', 'c', 'e', 'v', '2']);
    reveal_strlit("focusedmon");
    assert("focusedmon"@ =~= seq!['f', 'o', 'c', 'u', 's', 'e', 'd', 'm', 'o', 'n']);
    reveal_strlit("focusedmonv2");
    assert("focusedmonv2"@ =~= seq!['f', 'o', 'c', 'u', 's', 'e', 'd', 'm', 'o', 'n', 'v', '2']);
    reveal_strlit("activewindow");
    assert("activewindow"@ =~= seq!['a', 'c', 't', 'i', 'v', 'e', 'w', 'i', 'n', 'd', 'o', 'w']);
    reveal_strlit("activewindowv2");
    assert("activewindowv2"@ =~= seq!['a', 'c', 't', 'i', 'v', 'e', 'w', 'i', 'n', 'd', 'o', 'w', 'v', '2']);
    reveal_strlit("fullscreen");
    assert("fullscreen"@ =~= seq!['f', 'u', 'l', 'l', 's', 'c', 'r', 'e', 'e', 'n']);
    reveal_strlit("monitorremoved");
    assert("monitorremoved"@ =~= seq!['m', 'o', 'n', 'i', 't', 'o', 'r', 'r', 'e', 'm', 'o', 'v', 'e', 'd']);
    reveal_strlit("monitorremovedv2");
    assert("monitorremovedv2"@ =~= seq!['m', 'o', 'n', 'i', 't', 'o', 'r', 'r', 'e', 'm', 'o', 'v', 'e', 'd', 'v', '2']);
    reveal_strlit("monitoradded");
    assert("monitoradded"@ =~= seq!['m', 'o', 'n', 'i', 't', 'o', 'r', 'a', 'd', 'd', 'e', 'd']);
    reveal_strlit("monitoraddedv2");
    assert("monitoraddedv2"@ =~= seq!['m', 'o', 'n', 'i', 't', 'o', 'r', 'a', 'd', 'd', 'e', 'd', 'v', '2']);
    reveal_strlit("createworkspace");
    assert("createworkspace"@ =~= seq!['c', 'r', 'e', 'a', 't', 'e', 'w', 'o', 'r', 'k', 's', 'p', 'a', 'c', 'e']);
    reveal_strlit("createworkspacev2");
    assert("createworkspacev2"@ =~= seq!['c', 'r', 'e', 'a', 't', 'e', 'w', 'o', 'r', 'k', 's', 'p', 'a', 'c', 'e', 'v', '2']);
    reveal_strlit("destroyworkspace");
    assert("destroyworkspace"@ =~= seq!['d', 'e', 's', 't', 'r', 'o', 'y', 'w', 'o', 'r', 'k', 's', 'p', 'a', 'c', 'e']);
    reveal_strlit("destroyworkspacev2");
    assert("destroyworkspacev2"@ =~= seq!['d', 'e', 's', 't', 'r', 'o', 'y', 'w', 'o', 'r', 'k', 's', 'p', 'a', 'c', 'e', 'v', '2']);
    reveal_strlit("moveworkspace");
    assert("moveworkspace"@ =~= seq!['m', 'o', 'v', 'e', 'w', 'o', 'r', 'k', 's', 'p', 'a', 'c', 'e']);
    reveal_strlit("moveworkspacev2");
    assert("moveworkspacev2"@ =~= seq!['m', 'o', 'v', 'e', 'w', 'o', 'r', 'k', 's', 'p', 'a', 'c', 'e', 'v', '2']);
    reveal_strlit("renameworkspace");
    assert("renameworkspace"@ =~= seq!['r', 'e', 'n', 'a', 'm', 'e', 'w', 'o', 'r', 'k', 's', 'p', 'a', 'c', 'e']);
    reveal_strlit("activespecial");
    assert("activespecial"@ =~= seq!['a', 'c', 't', 'i', 'v', 'e', 's', 'p', 'e', 'c', 'i', 'a', 'l']);
    reveal_strlit("activespecialv2");
    assert("activespecialv2"@ =~= seq!['a', 'c', 't', 'i', 'v', 'e', 's', 'p', 'e', 'c', 'i', 'a', 'l', 'v', '2']);
    reveal_strlit("activelayout");
    assert("activelayout"@ =~= seq!['a', 'c', 't', 'i', 'v', 'e', 'l', 'a', 'y', 'o', 'u', 't']);
    reveal_strlit("openwindow");
    assert("openwindow"@ =~= seq!['o', 'p', 'e', 'n', 'w', 'i', 'n', 'd', 'o', 'w']);
    reveal_strlit("closewindow");
    assert("closewindow"@ =~= seq!['c', 'l', 'o', 's', 'e', 'w', 'i', 'n', 'd', 'o', 'w']);
    reveal_strlit("movewindow");
    assert("movewindow"@ =~= seq!['m', 'o', 'v', 'e', 'w', 'i', 'n', 'd', 'o', 'w']);
    reveal_strlit("movewindowv2");
    assert("movewindowv2"@ =~= seq!['m', 'o', 'v', 'e', 'w', 'i', 'n', 'd', 'o', 'w', 'v', '2']);
    reveal_strlit("openlayer");
    assert("openlayer"@ =~= seq!['o', 'p', 'e', 'n', 'l', 'a', 'y', 'e', 'r']);
    reveal_strlit("closelayer");
    assert("closelayer"@ =~= seq!['c', 'l', 'o', 's', 'e', 'l', 'a', 'y', 'e', 'r']);
    reveal_strlit("submap");
    assert("submap"@ =~= seq!['s', 'u', 'b', 'm', 'a', 'p']);
    reveal_strlit("changefloatingmode");
    assert("changefloatingmode"@ =~= seq!['c', 'h', 'a', 'n', 'g', 'e', 'f', 'l', 'o', 'a', 't', 'i', 'n', 'g', 'm', 'o', 'd', 'e']);
    reveal_strlit("urgent");
    assert("urgent"@ =~= seq!['u', 'r', 'g', 'e', 'n', 't']);
    reveal_strlit("screencast");
    assert("screencast"@ =~= seq!['s', 'c', 'r', 'e', 'e', 'n', 'c', 'a', 's', 't']);
    reveal_strlit("windowtitle");
    assert("windowtitle"@ =~= seq!['w', 'i', 'n', 'd', 'o', 'w', 't', 'i', 't', 'l', 'e']);
    reveal_strlit("windowtitlev2");
    assert("windowtitlev2"@ =~= seq!['w', 'i', 'n', 'd', 'o', 'w', 't', 'i', 't', 'l', 'e', 'v', '2']);
    reveal_strlit("togglegroup");
    assert("togglegroup"@ =~= seq!['t', 'o', 'g', 'g', 'l', 'e', 'g', 'r', 'o', 'u', 'p']);
    reveal_strlit("moveintogroup");
    assert("moveintogroup"@ =~= seq!['m', 'o', 'v', 'e', 'i', 'n', 't', 'o', 'g', 'r', 'o', 'u', 'p']);
    reveal_strlit("moveoutofgroup");
    assert("moveoutofgroup"@ =~= seq!['m', 'o', 'v', 'e', 'o', 'u', 't', 'o', 'f', 'g', 'r', 'o', 'u', 'p']);
    reveal_strlit("ignoregrouplock");
    assert("ignoregrouplock"@ =~= seq!['i', 'g', 'n', 'o', 'r', 'e', 'g', 'r', 'o', 'u', 'p', 'l', 'o', 'c', 'k']);
    reveal_strlit("lockgroups");
    assert("lockgroups"@ =~= seq!['l', 'o', 'c', 'k', 'g', 'r', 'o', 'u', 'p', 's']);
    reveal_strlit("configreloaded");
    assert("configreloaded"@ =~= seq!['c', 'o', 'n', 'f', 'i', 'g', 'r', 'e', 'l', 'o', 'a', 'd', 'e', 'd']);
    reveal_strlit("pin");
    assert("pin"@ =~= seq!['p', 'i', 'n']);
    reveal_strlit("minimized");
    assert("minimized"@ =~= seq!['m', 'i', 'n', 'i', 'm', 'i', 'z', 'e', 'd']);
    reveal_strlit("bell");
    assert("bell"@ =~= seq!['b', 'e', 'l', 'l']);
}

/// What the router emits for the events handled in this module, in terms of the event
/// name and data alone: the flag events report `1` as `true` and `0` as `false` and
/// refuse anything else; a screencast `S,O` reports the state from `S` and the owner
/// from `O` alone; submap, layer events carry their data; a bell carries its address, if
/// any; a configuration reload is reported as such.
pub proof fn lemma_dispatch_local_events(res: Result<Dispatch, HyprlandError>, event: Seq<char>, data: Seq<char>)
    requires
        dispatch_spec(res, event, data),
    ensures
        event == "fullscreen"@ && (data == "0"@ || data == "1"@) ==> (res matches Ok(Dispatch::Emit(e))
            && e@ == EventView::Fullscreen(data == "1"@)),
        event == "ignoregrouplock"@ && (data == "0"@ || data == "1"@) ==> (res matches Ok(Dispatch::Emit(e))
            && e@ == EventView::IgnoreGroupLock(data == "1"@)),
        event == "lockgroups"@ && (data == "0"@ || data == "1"@) ==> (res matches Ok(Dispatch::Emit(e))
            && e@ == EventView::LockGroups(data == "1"@)),
        (event == "fullscreen"@ || event == "ignoregrouplock"@ || event == "lockgroups"@) && data != "0"@
            && data != "1"@ ==> res is Err,
        event == "screencast"@ && data.len() == 3 && data[1] == ',' && (data[0] == '0' || data[0] == '1')
            && (data[2] == '0' || data[2] == '1') ==> (res matches Ok(Dispatch::Emit(e)) && e@
            == EventView::Screencast(
            data[0] == '1',
            if data[2] == '1' {
                ScreencastOwner::Window
            } else {
                ScreencastOwner::Monitor
            },
        )),
        event == "submap"@ ==> (res matches Ok(Dispatch::Emit(e)) && e@ == EventView::Submap(data)),
        event == "openlayer"@ ==> (res matches Ok(Dispatch::Emit(e)) && e@ == EventView::OpenLayer(data)),
        event == "closelayer"@ ==> (res matches Ok(Dispatch::Emit(e)) && e@ == EventView::CloseLayer(data)),
        event == "configreloaded"@ ==> (res matches Ok(Dispatch::Emit(e)) && e@ == EventView::ConfigReloaded),
        event == "bell"@ && data.len() == 0 ==> (res matches Ok(Dispatch::Emit(e)) && e@ == EventView::Bell(None)),
        event == "bell"@ && data.len() > 0 ==> (res matches Ok(Dispatch::Emit(e)) && e@ == EventView::Bell(Some(data))),
{
    lemma_local_event_names();
    reveal_strlit("0");
    reveal_strlit("1");
    assert("0"@ != "1"@) by {
        assert("0"@[0] != "1"@[0]);
    }
    if event == "screencast"@ && data.len() == 3 && data[1] == ',' && (data[0] == '0' || data[0] == '1')
        && (data[2] == '0' || data[2] == '1') {
        reveal_strlit(",");
        let state = data.subrange(0, 1);
        let owner = data.subrange(2, 3);
        assert(data =~= state + ","@ + owner);
        if data[0] == '0' {
            assert(state =~= "0"@);
        } else {
            assert(state =~= "1"@);
        }
        if data[2] == '0' {
            assert(owner =~= "0"@);
        } else {
            assert(owner =~= "1"@);
        }
        lemma_screencast_fields(event, state, owner);
    }
}

/// An `activelayout` event `KEYBOARD,LAYOUT`, whose keyboard name holds no comma, is
/// emitted with that keyboard and that layout (which may itself hold commas).
pub proof fn lemma_dispatch_active_layout(res: Result<Dispatch, HyprlandError>, keyboard: Seq<char>, layout: Seq<char>)
    requires
        dispatch_spec(res, "activelayout"@, keyboard + ","@ + layout),
        forall|i: int| 0 <= i < keyboard.len() ==> keyboard[i] != ',',
    ensures
        res matches Ok(Dispatch::Emit(e)) && e@ == EventView::ActiveLayout(keyboard, layout),
{
    lemma_local_event_names();
    lemma_split_at_comma(keyboard, layout);
}

/// A line written as `EVENT>>DATA`, where the event name holds no `>`, splits back into
/// exactly that name and that data, whatever the data holds (it may contain `>>` itself).
pub proof fn lemma_event_line_roundtrip(event: Seq<char>, data: Seq<char>)
    requires
        forall|i: int| 0 <= i < event.len() ==> event[i] != '>',
    ensures
        split_event_line_spec(event + ">>"@ + data) == Some((event, data)),
{
    reveal_strlit(">>");
    let sep = ">>"@;
    assert(sep =~= seq!['>', '>']);
    let line = event + sep + data;
    let n = event.len() as int;
    assert(line.subrange(n, n + 2) =~= sep);
    assert forall|j: int| 0 <= j < n implies !crate::text::occurs_at(line, sep, j) by {
        assert(line[j] == event[j]);
        if crate::text::occurs_at(line, sep, j) {
            assert(line.subrange(j, j + 2)[0] == sep[0]);
        }
    }
    crate::text::lemma_first_occurrence(line, sep, n);
    assert(line.subrange(0, n) =~= event);
    assert(line.subrange(n + 2, line.len() as int) =~= data);
}

} // verus!
