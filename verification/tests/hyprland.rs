use wayle::hyprland::events::{
    event_socket_path, handle_line, handle_event, handler_for, split_event_line, Dispatch, EventHandler,
    HyprlandError, HyprlandEvent,
};
use wayle::hyprland::discovery::{keep_started, listed_or_none, HyprlandDiscovery};
use wayle::hyprland::types::{Address, ScreencastOwner};

fn emitted(event: &str, data: &str) -> HyprlandEvent {
    match handle_event(event, data) {
        Ok(Dispatch::Emit(e)) => e,
        other => panic!("expected an event for {event}>>{data}, got {other:?}"),
    }
}

fn parse_error(event: &str, data: &str) -> (String, String) {
    match handle_event(event, data) {
        Err(HyprlandError::EventParseError { event_data, reason }) => (event_data, reason),
        other => panic!("expected a parse error for {event}>>{data}, got {other:?}"),
    }
}

#[test]
fn flag_events_accept_zero_and_one() {
    assert_eq!(emitted("fullscreen", "1"), HyprlandEvent::Fullscreen { fullscreen: true });
    assert_eq!(emitted("fullscreen", "0"), HyprlandEvent::Fullscreen { fullscreen: false });
    assert_eq!(emitted("ignoregrouplock", "1"), HyprlandEvent::IgnoreGroupLock { ignore: true });
    assert_eq!(emitted("lockgroups", "0"), HyprlandEvent::LockGroups { locked: false });
}

#[test]
fn flag_events_reject_other_values() {
    assert_eq!(
        parse_error("fullscreen", "2"),
        ("fullscreen>>2".to_string(), "invalid fullscreen value: 2".to_string())
    );
    assert_eq!(
        parse_error("ignoregrouplock", "yes"),
        ("ignoregrouplock>>yes".to_string(), "invalid ignore value: yes".to_string())
    );
    assert_eq!(
        parse_error("lockgroups", ""),
        ("lockgroups>>".to_string(), "invalid locked value: ".to_string())
    );
    assert_eq!(parse_error("fullscreen", "01").1, "invalid fullscreen value: 01");
}

#[test]
fn active_layout_splits_at_the_first_comma() {
    assert_eq!(
        emitted("activelayout", "at-translated-set-2-keyboard,English (US)"),
        HyprlandEvent::ActiveLayout {
            keyboard: "at-translated-set-2-keyboard".to_string(),
            layout: "English (US)".to_string()
        }
    );
    assert_eq!(
        emitted("activelayout", "kb,German, Swiss"),
        HyprlandEvent::ActiveLayout { keyboard: "kb".to_string(), layout: "German, Swiss".to_string() }
    );
    assert_eq!(
        parse_error("activelayout", "no-comma"),
        (
            "activelayout>>no-comma".to_string(),
            "expected comma-separated keyboard,layout".to_string()
        )
    );
}

#[test]
fn screencast_reads_state_and_owner() {
    assert_eq!(
        emitted("screencast", "1,0"),
        HyprlandEvent::Screencast { state: true, owner: ScreencastOwner::Monitor }
    );
    assert_eq!(
        emitted("screencast", "0,1"),
        HyprlandEvent::Screencast { state: false, owner: ScreencastOwner::Window }
    );
    assert_eq!(
        parse_error("screencast", "1"),
        ("screencast>>1".to_string(), "expected comma-separated state,owner".to_string())
    );
    assert_eq!(
        parse_error("screencast", "on,0"),
        ("screencast>>on,0".to_string(), "invalid state value: on".to_string())
    );
    assert_eq!(
        handle_event("screencast", "1,2"),
        Err(HyprlandError::InvalidScreencastOwner("2".to_string()))
    );
}

#[test]
fn plain_data_events() {
    assert_eq!(emitted("submap", "resize"), HyprlandEvent::Submap { name: "resize".to_string() });
    assert_eq!(emitted("submap", ""), HyprlandEvent::Submap { name: String::new() });
    assert_eq!(emitted("openlayer", "waybar"), HyprlandEvent::OpenLayer { namespace: "waybar".to_string() });
    assert_eq!(emitted("closelayer", "rofi"), HyprlandEvent::CloseLayer { namespace: "rofi".to_string() });
    assert_eq!(emitted("configreloaded", ""), HyprlandEvent::ConfigReloaded);
}

#[test]
fn bell_address_is_optional() {
    assert_eq!(emitted("bell", ""), HyprlandEvent::Bell { address: None });
    assert_eq!(
        emitted("bell", "55d1c2a0"),
        HyprlandEvent::Bell { address: Some(Address::new("55d1c2a0".to_string())) }
    );
}

#[test]
fn events_of_other_modules_are_routed_to_their_handlers() {
    assert_eq!(handle_event("workspacev2", "1,main"), Ok(Dispatch::External(EventHandler::WorkspaceV2)));
    assert_eq!(handle_event("openwindow", "x"), Ok(Dispatch::External(EventHandler::OpenWindow)));
    assert_eq!(handle_event("minimized", "a,1"), Ok(Dispatch::External(EventHandler::Minimized)));
    assert_eq!(handler_for("monitoraddedv2"), Some(EventHandler::MonitorAddedV2));
    assert_eq!(handler_for("bell"), Some(EventHandler::Bell));
}

#[test]
fn unknown_events_are_ignored() {
    assert_eq!(handle_event("somethingnew", "data"), Ok(Dispatch::Ignored));
    assert_eq!(handle_event("Fullscreen", "1"), Ok(Dispatch::Ignored));
    assert_eq!(handle_event("", ""), Ok(Dispatch::Ignored));
    assert_eq!(handler_for("workspacev3"), None);
}

#[test]
fn event_lines_split_at_the_first_separator() {
    assert_eq!(
        split_event_line("activewindow>>kitty,~"),
        Some(("activewindow".to_string(), "kitty,~".to_string()))
    );
    assert_eq!(
        split_event_line("windowtitle>>a>>b"),
        Some(("windowtitle".to_string(), "a>>b".to_string()))
    );
    assert_eq!(split_event_line("configreloaded>>"), Some(("configreloaded".to_string(), String::new())));
    assert_eq!(split_event_line("no separator here"), None);
    assert_eq!(split_event_line("a>b"), None);
}

#[test]
fn event_line_roundtrip_example() {
    let event = "activelayout";
    let data = "kb>>odd,layout>>";
    let line = format!("{event}>>{data}");
    assert_eq!(split_event_line(&line), Some((event.to_string(), data.to_string())));
}

#[test]
fn event_socket_path_from_environment() {
    assert_eq!(
        event_socket_path(Some("abc_123".to_string()), Some("/run/user/1000".to_string())),
        Ok("/run/user/1000/hypr/abc_123/.socket2.sock".to_string())
    );
    assert_eq!(
        event_socket_path(None, Some("/run/user/1000".to_string())),
        Err(HyprlandError::HyprlandNotRunning)
    );
    assert_eq!(
        event_socket_path(Some("abc".to_string()), None),
        Err(HyprlandError::InvalidInstanceSignature("XDG_RUNTIME_DIR not set".to_string()))
    );
}

#[test]
fn screencast_owner_field() {
    assert_eq!(ScreencastOwner::parse("0"), Ok(ScreencastOwner::Monitor));
    assert_eq!(ScreencastOwner::parse("1"), Ok(ScreencastOwner::Window));
    assert_eq!(
        ScreencastOwner::parse(" 1"),
        Err(HyprlandError::InvalidScreencastOwner(" 1".to_string()))
    );
}

#[test]
fn address_keeps_its_text() {
    let a = Address::new("0xdeadbeef".to_string());
    assert_eq!(a.as_str(), "0xdeadbeef");
}

#[test]
fn discovery_keeps_only_started_models_in_listing_order() {
    let found = HyprlandDiscovery::new(
        vec!["bar", "notifications"],
        vec![10u32, 11, 12],
        &vec![true, false, true],
        vec!["DP-1", "HDMI-A-1"],
        &vec![false, true],
        vec![1i64, 2, 3],
        &vec![true, true, true],
    );
    assert_eq!(found.layers, vec!["bar", "notifications"]);
    assert_eq!(found.clients, vec![10, 12]);
    assert_eq!(found.monitors, vec!["HDMI-A-1"]);
    assert_eq!(found.workspaces, vec![1, 2, 3]);
}

#[test]
fn discovery_drops_everything_when_nothing_started() {
    assert_eq!(keep_started(vec![1u8, 2, 3], &vec![false, false, false]), Vec::<u8>::new());
    assert_eq!(keep_started(Vec::<u8>::new(), &vec![]), Vec::<u8>::new());
}

#[test]
fn failed_listing_counts_as_empty() {
    let failed: Result<Vec<u8>, String> = Err("socket closed".to_string());
    assert!(listed_or_none(failed).is_empty());
    let listed: Result<Vec<u8>, String> = Ok(vec![4, 5]);
    assert_eq!(listed_or_none(listed), vec![4, 5]);
}

#[test]
fn each_socket_line_is_split_at_its_first_separator() {
    assert!(handle_line("no separator here").is_none());
    assert_eq!(handle_line("submap>>resize>>extra"), Some(handle_event("submap", "resize>>extra")));
    assert_eq!(handle_line("configreloaded>>"), Some(handle_event("configreloaded", "")));
    assert_eq!(handle_line("nosuchevent>>x"), Some(Ok(Dispatch::Ignored)));
}
