use wayle::audio::error::{DeviceType, Error as AudioError, StreamType};
use wayle::cava::audio_output::AudioOutput;
use wayle::cava::error::Error as CavaError;
use wayle::cava::plan::Plan;
use wayle::media::builder::MediaServiceBuilder;
use wayle::network::monitoring::{
    handle_wifi_removed, handle_wired_removed, update_primary_connection, ConnectionType,
    DeviceSnapshot,
};
use wayle::notification::builder::{initial_counter, NotificationServiceBuilder};
use wayle::notification::daemon::{NotificationDaemon, NotifyDecision};

#[test]
fn media_builder_collects_ignored_players() {
    let b = MediaServiceBuilder::new()
        .ignore_player("firefox".to_string())
        .ignored_players(vec!["spotify".to_string(), "vlc*".to_string()])
        .ignore_player("mpv".to_string());
    assert_eq!(
        b.into_ignored_players(),
        vec!["spotify".to_string(), "vlc*".to_string(), "mpv".to_string()]
    );
    assert!(MediaServiceBuilder::default().into_ignored_players().is_empty());
}

#[test]
fn notification_builder_defaults_and_setters() {
    let b = NotificationServiceBuilder::new();
    assert_eq!(b.popup_duration_ms(), 5000);
    assert!(!b.is_dnd());
    assert!(b.removes_expired());
    assert!(!b.registers_wayle_daemon());
    let b = b.popup_duration(1500).dnd(true).remove_expired(false).with_daemon();
    assert_eq!(b.popup_duration_ms(), 1500);
    assert!(b.is_dnd());
    assert!(!b.removes_expired());
    assert!(b.registers_wayle_daemon());
    assert_eq!(NotificationServiceBuilder::default().popup_duration_ms(), 5000);
}

#[test]
fn ids_continue_after_stored_notifications() {
    assert_eq!(initial_counter(&vec![]), 1);
    assert_eq!(initial_counter(&vec![4, 17, 9]), 18);
    assert_eq!(initial_counter(&vec![u32::MAX - 1]), u32::MAX);
}

#[test]
fn notify_assigns_ids() {
    let mut d = NotificationDaemon::new(initial_counter(&vec![3]));
    assert_eq!(d.notify(0, false), NotifyDecision { id: 4, publish: true });
    assert_eq!(d.notify(0, false), NotifyDecision { id: 5, publish: true });
    // a replacement keeps its id and does not advance the counter
    assert_eq!(d.notify(4, false), NotifyDecision { id: 4, publish: true });
    // a blocked notification still consumes an id
    assert_eq!(d.notify(0, true), NotifyDecision { id: 6, publish: false });
    assert_eq!(d.notify(0, false).id, 7);
}

#[test]
fn notify_counter_wraps() {
    let mut d = NotificationDaemon::new(u32::MAX);
    assert_eq!(d.notify(0, false).id, u32::MAX);
    assert_eq!(d.notify(0, false).id, 0);
}

#[test]
fn server_capabilities_and_information() {
    let d = NotificationDaemon::new(1);
    assert_eq!(
        d.get_capabilities(),
        vec!["body", "body-markup", "actions", "icon-static", "persistence"]
    );
    assert_eq!(
        d.get_server_information("0.3.1"),
        ("wayle".to_string(), "jaskir".to_string(), "0.3.1".to_string(), "1.2".to_string())
    );
}

fn device(path: &str, active: &str) -> Option<DeviceSnapshot> {
    Some(DeviceSnapshot { object_path: path.to_string(), active_connection: active.to_string() })
}

#[test]
fn primary_connection_type() {
    let wifi = device("/org/freedesktop/NetworkManager/Devices/3", "/org/freedesktop/NetworkManager/ActiveConnection/7");
    let wired = device("/org/freedesktop/NetworkManager/Devices/2", "/org/freedesktop/NetworkManager/ActiveConnection/5");
    assert_eq!(update_primary_connection("/org/freedesktop/NetworkManager/ActiveConnection/7", &wifi, &wired), ConnectionType::Wifi);
    assert_eq!(update_primary_connection("/org/freedesktop/NetworkManager/ActiveConnection/5", &wifi, &wired), ConnectionType::Wired);
    assert_eq!(update_primary_connection("/org/freedesktop/NetworkManager/ActiveConnection/9", &wifi, &wired), ConnectionType::Unknown);
    assert_eq!(update_primary_connection("/", &device("a", "/"), &None), ConnectionType::Unknown);
    assert_eq!(update_primary_connection("", &device("a", ""), &None), ConnectionType::Unknown);
    assert_eq!(update_primary_connection("/c/1", &None, &None), ConnectionType::Unknown);
    // WiFi wins when both devices claim the connection
    assert_eq!(update_primary_connection("/c/1", &device("w", "/c/1"), &device("e", "/c/1")), ConnectionType::Wifi);
}

#[test]
fn removed_devices_are_forgotten() {
    let mut wifi = device("/dev/3", "/c/1");
    handle_wifi_removed("/dev/4", &mut wifi);
    assert_eq!(wifi, device("/dev/3", "/c/1"));
    handle_wifi_removed("/dev/3", &mut wifi);
    assert_eq!(wifi, None);
    let mut wired = None;
    handle_wired_removed("/dev/2", &mut wired);
    assert_eq!(wired, None);
    let mut wired = device("/dev/2", "/c/2");
    handle_wired_removed("/dev/2", &mut wired);
    assert_eq!(wired, None);
}

#[test]
fn cava_audio_output_starts_empty() {
    let out = AudioOutput::new(64);
    assert_eq!(out.number_of_bars, 64);
    assert_eq!((out.channels, out.output_channels, out.height, out.lines, out.width, out.remainder), (0, 0, 0, 0, 0, 0));
    assert_eq!(AudioOutput::new(i32::MAX as usize + 1).number_of_bars, i32::MIN);
    assert_eq!(AudioOutput::init_result(0), Ok(()));
    assert_eq!(AudioOutput::init_result(-3), Err(CavaError::AudioRawInitFailed(-3)));
}

#[test]
fn cava_plan_status() {
    let ok = Plan::from_raw(0, String::new());
    assert_eq!(ok.status(), 0);
    assert_eq!(ok.error_message(), None);
    assert_eq!(Plan::new(Some(ok.clone())), Ok(ok));
    let bad = Plan::from_raw(1, "fftw failed".to_string());
    assert_eq!(bad.error_message(), Some("fftw failed".to_string()));
    assert_eq!(Plan::new(Some(bad)), Err(CavaError::InitFailed("fftw failed".to_string())));
    assert_eq!(Plan::new(None), Err(CavaError::NullPlan));
}

#[test]
fn audio_errors_carry_their_details() {
    let e = AudioError::DeviceNotFound { index: 3, device_type: DeviceType::Output };
    assert_eq!(e.clone(), AudioError::DeviceNotFound { index: 3, device_type: DeviceType::Output });
    assert_ne!(
        AudioError::StreamNotFound { index: 1, stream_type: StreamType::Playback },
        AudioError::StreamNotFound { index: 1, stream_type: StreamType::Record }
    );
}
