use wayle::systray::daemon::{count, find_item, list, DaemonError, TrayItemSummary};
use wayle::systray::watcher::{StatusNotifierWatcher, WatcherError};

#[test]
fn bus_names_register_as_given() {
    let mut w = StatusNotifierWatcher::with_initial_host("org.wayle.Host".to_string());
    let r = w.register_status_notifier_item(Some(":1.42".to_string()), "org.app.Tray".to_string());
    assert_eq!(r, Ok(Some("org.app.Tray".to_string())));
    assert_eq!(w.registered_status_notifier_items(), vec!["org.app.Tray".to_string()]);
}

#[test]
fn object_paths_are_prefixed_by_the_sender() {
    let mut w = StatusNotifierWatcher::with_initial_host("h".to_string());
    let r = w.register_status_notifier_item(Some(":1.7".to_string()), "/StatusNotifierItem".to_string());
    assert_eq!(r, Ok(Some(":1.7/StatusNotifierItem".to_string())));
    let missing = w.register_status_notifier_item(None, "/Other".to_string());
    assert_eq!(missing, Err(WatcherError::Failed("No sender in D-Bus message header".to_string())));
    assert_eq!(w.registered_status_notifier_items(), vec![":1.7/StatusNotifierItem".to_string()]);
}

#[test]
fn registering_twice_is_registering_once() {
    let mut w = StatusNotifierWatcher::with_initial_host("h".to_string());
    assert_eq!(w.register_status_notifier_item(None, "a".to_string()), Ok(Some("a".to_string())));
    assert_eq!(w.register_status_notifier_item(None, "b".to_string()), Ok(Some("b".to_string())));
    assert_eq!(w.register_status_notifier_item(None, "a".to_string()), Ok(None));
    assert_eq!(w.registered_status_notifier_items(), vec!["a".to_string(), "b".to_string()]);
}

#[test]
fn host_signal_only_for_the_first_host() {
    let mut w = StatusNotifierWatcher::with_initial_host("first".to_string());
    assert!(w.is_status_notifier_host_registered());
    // a host is already registered, so no signal is owed
    assert!(!w.register_status_notifier_host("second".to_string()));
    assert!(!w.register_status_notifier_host("first".to_string()));
    assert!(w.is_status_notifier_host_registered());
    assert_eq!(w.protocol_version(), 0);
}

fn item(id: &str, icon: Option<&str>) -> TrayItemSummary {
    TrayItemSummary {
        id: id.to_string(),
        title: format!("{id} title"),
        icon_name: icon.map(str::to_string),
        status: "Active".to_string(),
    }
}

#[test]
fn daemon_lists_items_with_empty_icon_names() {
    let items = vec![item("nm-applet", Some("network-wireless")), item("steam", None)];
    assert_eq!(
        list(&items),
        vec![
            (
                "nm-applet".to_string(),
                "nm-applet title".to_string(),
                "network-wireless".to_string(),
                "Active".to_string()
            ),
            ("steam".to_string(), "steam title".to_string(), String::new(), "Active".to_string()),
        ]
    );
    assert_eq!(count(&items), 2);
    assert_eq!(count(&vec![]), 0);
}

#[test]
fn daemon_finds_items_by_id() {
    let items = vec![item("a", None), item("b", None), item("b", Some("x"))];
    assert_eq!(find_item(&items, "b"), Ok(1));
    assert_eq!(
        find_item(&items, "c"),
        Err(DaemonError::InvalidArgs("Tray item not found: c".to_string()))
    );
}
