use voidlink::app::{App, AppAction, InputMode, Popup};
use voidlink::config::{Config, KeyCode, KeyPress, SearchMode, SortMode};
use voidlink::types::{Address, BtCommand, BtEvent, DeviceInfo};

fn addr(last: u8) -> Address {
    Address::new([0xAA, 0xBB, 0xCC, 0x00, 0x11, last])
}

fn device(last: u8, name: Option<&str>, rssi: Option<i16>) -> DeviceInfo {
    DeviceInfo {
        address: addr(last),
        name: name.map(|n| n.to_string()),
        alias: format!("alias-{last}"),
        icon: None,
        rssi,
        tx_power: None,
        battery: None,
        paired: false,
        trusted: false,
        connected: false,
        class: None,
    }
}

fn key(c: char) -> KeyPress {
    KeyPress { code: KeyCode::Char(c), ctrl: false }
}

fn special(code: KeyCode) -> KeyPress {
    KeyPress { code, ctrl: false }
}

fn app() -> App {
    App::new(Config::standard())
}

fn app_with(hide_unnamed: bool, mode: SearchMode) -> App {
    let mut cfg = Config::standard();
    cfg.general.hide_unnamed_devices = hide_unnamed;
    cfg.general.search_mode = mode;
    App::new(cfg)
}

#[test]
fn second_sighting_replaces_the_first() {
    let mut a = app();
    a.handle_bt_event(BtEvent::DeviceFound(device(1, Some("Headset"), Some(-40))));
    a.handle_bt_event(BtEvent::DeviceFound(device(1, Some("Headset"), Some(-90))));
    assert_eq!(a.devices.len(), 1);
    assert_eq!(a.devices[0].rssi, Some(-90));
}

#[test]
fn found_then_updated_matches_found_alone() {
    let mut once = app();
    once.handle_bt_event(BtEvent::DeviceFound(device(2, Some("Pad"), Some(-50))));
    once.handle_bt_event(BtEvent::DeviceFound(device(1, Some("Mouse"), Some(-60))));
    let mut twice = app();
    twice.handle_bt_event(BtEvent::DeviceFound(device(2, Some("Pad"), Some(-50))));
    twice.handle_bt_event(BtEvent::DeviceFound(device(1, Some("Mouse"), Some(-60))));
    twice.handle_bt_event(BtEvent::DeviceUpdated(device(1, Some("Mouse"), Some(-60))));
    assert_eq!(once.devices.len(), twice.devices.len());
    for (x, y) in once.devices.iter().zip(twice.devices.iter()) {
        assert_eq!(x.address, y.address);
        assert_eq!(x.rssi, y.rssi);
        assert_eq!(x.name, y.name);
    }
}

#[test]
fn updated_for_unknown_address_appends() {
    let mut a = app();
    a.handle_bt_event(BtEvent::DeviceUpdated(device(7, Some("Watch"), None)));
    assert_eq!(a.devices.len(), 1);
}

#[test]
fn selection_is_clamped_after_removal() {
    let mut a = app();
    for i in 0..3u8 {
        a.handle_bt_event(BtEvent::DeviceFound(device(i, Some("dev"), Some(-50 - i as i16))));
    }
    a.handle_key(key('G'));
    assert_eq!(a.selected_index, 2);
    let last = a.devices[2].address;
    a.handle_bt_event(BtEvent::DeviceRemoved(last));
    assert_eq!(a.devices.len(), 2);
    assert_eq!(a.selected_index, 1);
    let rest: Vec<Address> = a.devices.iter().map(|d| d.address).collect();
    for r in rest {
        a.handle_bt_event(BtEvent::DeviceRemoved(r));
    }
    assert_eq!(a.devices.len(), 0);
    assert_eq!(a.selected_index, 0);
}

#[test]
fn navigation_stays_inside_the_view() {
    let mut a = app();
    a.handle_bt_event(BtEvent::DeviceFound(device(1, Some("a"), Some(-40))));
    a.handle_bt_event(BtEvent::DeviceFound(device(2, Some("b"), Some(-50))));
    a.handle_key(key('j'));
    a.handle_key(key('j'));
    a.handle_key(special(KeyCode::Down));
    assert_eq!(a.selected_index, 1);
    a.handle_key(key('k'));
    a.handle_key(special(KeyCode::Up));
    assert_eq!(a.selected_index, 0);
    a.handle_key(key('G'));
    assert_eq!(a.selected_index, 1);
    a.handle_key(key('g'));
    assert_eq!(a.selected_index, 0);
}

#[test]
fn unnamed_devices_are_hidden_whatever_the_query() {
    let mut a = app_with(true, SearchMode::Plain);
    a.handle_bt_event(BtEvent::DeviceFound(device(1, None, Some(-40))));
    a.handle_bt_event(BtEvent::DeviceFound(device(2, Some("Speaker"), Some(-40))));
    assert_eq!(a.filtered_devices().len(), 1);
    a.handle_key(key('/'));
    for c in "alias".chars() {
        a.handle_key(key(c));
    }
    assert_eq!(a.filtered_devices().len(), 0);
}

#[test]
fn plain_search_ignores_case_and_matches_address() {
    let mut a = app_with(false, SearchMode::Plain);
    a.handle_bt_event(BtEvent::DeviceFound(device(1, Some("Keyboard"), Some(-40))));
    a.handle_bt_event(BtEvent::DeviceFound(device(2, Some("Mouse"), Some(-40))));
    a.handle_key(key('/'));
    assert_eq!(a.input_mode, InputMode::Search);
    for c in "KEY".chars() {
        a.handle_key(key(c));
    }
    let v = a.filtered_devices();
    assert_eq!(v.len(), 1);
    assert_eq!(v[0].display_name(), "Keyboard");
    a.handle_key(special(KeyCode::Esc));
    assert_eq!(a.search_query, "");
    a.handle_key(key('/'));
    for c in "00:11:02".chars() {
        a.handle_key(key(c));
    }
    assert_eq!(a.filtered_devices().len(), 1);
}

#[test]
fn smart_search_pattern_after_slash() {
    let mut a = app_with(false, SearchMode::Smart);
    a.handle_bt_event(BtEvent::DeviceFound(device(1, Some("Keyboard"), Some(-40))));
    a.handle_bt_event(BtEvent::DeviceFound(device(2, Some("Desk keys"), Some(-40))));
    a.handle_key(key('/'));
    for c in "/^key".chars() {
        a.handle_key(key(c));
    }
    assert_eq!(a.search_error, "");
    let v = a.filtered_devices();
    assert_eq!(v.len(), 1);
    assert_eq!(v[0].display_name(), "Keyboard");
    a.handle_key(special(KeyCode::Enter));
    assert_eq!(a.input_mode, InputMode::Normal);
    assert_eq!(a.search_query, "/^key");
}

#[test]
fn invalid_pattern_reports_and_matches_nothing() {
    let mut a = app_with(false, SearchMode::Regex);
    a.handle_bt_event(BtEvent::DeviceFound(device(1, Some("Phone (work)"), Some(-40))));
    a.handle_key(key('/'));
    a.handle_key(key('('));
    assert!(!a.search_error.is_empty());
    assert!(a.search_error.starts_with("regex: "));
    assert_eq!(a.filtered_devices().len(), 0);
    assert!(a.selected_device().is_none());
    a.handle_key(special(KeyCode::Backspace));
    assert_eq!(a.search_error, "");
    assert_eq!(a.filtered_devices().len(), 1);
}

#[test]
fn empty_query_matches_everything() {
    let mut a = app_with(false, SearchMode::Regex);
    a.handle_bt_event(BtEvent::DeviceFound(device(1, Some("x"), None)));
    a.handle_bt_event(BtEvent::DeviceFound(device(2, None, None)));
    a.handle_key(key('/'));
    assert_eq!(a.filtered_devices().len(), 2);
}

#[test]
fn transient_popup_closes_after_duration_over_tick() {
    let mut a = app();
    a.handle_bt_event(BtEvent::Error("boom".to_string()));
    assert_eq!(a.input_mode, InputMode::Dialog);
    let ticks = 7000 / 16;
    assert_eq!(a.popup_ttl, Some(ticks));
    for _ in 0..ticks - 1 {
        a.on_tick();
    }
    assert!(a.active_popup.is_some());
    assert_eq!(a.input_mode, InputMode::Dialog);
    a.on_tick();
    assert!(a.active_popup.is_none());
    assert_eq!(a.input_mode, InputMode::Normal);
    assert_eq!(a.popup_ttl, None);
}

#[test]
fn success_popup_uses_success_duration() {
    let mut a = app();
    a.handle_bt_event(BtEvent::ConnectionResult { address: addr(1), success: true, error: None });
    assert_eq!(a.popup_ttl, Some(3000 / 16));
    match &a.active_popup {
        Some(Popup::ConnectionResult { message, success, .. }) => {
            assert!(*success);
            assert_eq!(message, "Connected to AA:BB:CC:00:11:01");
        }
        _ => panic!("expected a connection popup"),
    }
}

#[test]
fn failed_connection_popup_text() {
    let mut a = app();
    a.handle_bt_event(BtEvent::ConnectionResult { address: addr(1), success: false, error: None });
    assert_eq!(a.popup_ttl, Some(7000 / 16));
    match &a.active_popup {
        Some(Popup::ConnectionResult { message, .. }) => {
            assert_eq!(message, "Connection failed: unknown error")
        }
        _ => panic!("expected a connection popup"),
    }
}

#[test]
fn failed_pairing_opens_error_and_success_does_not() {
    let mut a = app();
    a.handle_bt_event(BtEvent::PairResult { address: addr(1), success: true, error: None });
    assert!(a.active_popup.is_none());
    a.handle_bt_event(BtEvent::PairResult {
        address: addr(1),
        success: false,
        error: Some("rejected".to_string()),
    });
    match &a.active_popup {
        Some(Popup::Error { message, .. }) => assert_eq!(message, "Pairing failed: rejected"),
        _ => panic!("expected an error popup"),
    }
}

#[test]
fn pin_popup_waits_for_the_user() {
    let mut a = app();
    a.handle_bt_event(BtEvent::PinRequest { address: addr(3), pin: "123456".to_string() });
    assert_eq!(a.popup_ttl, None);
    for _ in 0..1000 {
        a.on_tick();
    }
    assert!(a.active_popup.is_some());
    assert_eq!(a.active_popup.as_ref().map(|p| p.slide()), Some(1000));
    a.handle_key(special(KeyCode::Esc));
    assert!(a.active_popup.is_none());
    assert_eq!(a.input_mode, InputMode::Normal);
}

#[test]
fn popup_slides_in_by_the_configured_step() {
    let mut a = app();
    a.handle_bt_event(BtEvent::Error("x".to_string()));
    a.on_tick();
    assert_eq!(a.active_popup.as_ref().map(|p| p.slide()), Some(80));
    for _ in 0..20 {
        a.on_tick();
    }
    assert_eq!(a.active_popup.as_ref().map(|p| p.slide()), Some(1000));
}

#[test]
fn tick_counts_and_caches_view_size() {
    let mut a = app();
    a.handle_bt_event(BtEvent::DeviceFound(device(1, Some("a"), None)));
    assert_eq!(a.filtered_count(), 0);
    a.on_tick();
    assert_eq!(a.tick_count, 1);
    assert_eq!(a.filtered_count(), 1);
}

#[test]
fn default_order_is_tier_then_signal_and_stable() {
    let mut a = app();
    let mut far = device(1, Some("far"), Some(-80));
    far.paired = true;
    let near = device(2, Some("near"), Some(-30));
    let mut on = device(3, Some("on"), Some(-90));
    on.connected = true;
    let silent_a = device(4, Some("silent-a"), None);
    let silent_b = device(5, Some("silent-b"), None);
    let mut trusted = device(6, Some("trusted"), Some(-20));
    trusted.trusted = true;
    for d in [silent_a, far, near, on, silent_b, trusted] {
        a.handle_bt_event(BtEvent::DeviceFound(d));
    }
    let names: Vec<&str> = a.devices.iter().map(|d| d.display_name()).collect();
    assert_eq!(names, vec!["on", "trusted", "far", "near", "silent-a", "silent-b"]);
}

#[test]
fn sort_key_values() {
    let mut d = device(1, None, None);
    assert_eq!(d.sort_key(), (2, i16::MAX));
    d.rssi = Some(-42);
    d.paired = true;
    assert_eq!(d.sort_key(), (1, 42));
    d.connected = true;
    d.rssi = Some(i16::MIN);
    assert_eq!(d.sort_key(), (0, i16::MAX));
}

#[test]
fn cycling_sort_mode_resorts() {
    let mut a = app();
    a.handle_bt_event(BtEvent::DeviceFound(device(2, Some("beta"), Some(-30))));
    a.handle_bt_event(BtEvent::DeviceFound(device(1, Some("Alpha"), Some(-60))));
    a.handle_bt_event(BtEvent::DeviceFound(device(3, None, Some(-10))));
    assert_eq!(a.devices[0].display_name(), "alias-3");
    a.handle_key(key('S'));
    assert_eq!(a.sort_mode, SortMode::Name);
    let names: Vec<&str> = a.devices.iter().map(|d| d.display_name()).collect();
    assert_eq!(names, vec!["alias-3", "Alpha", "beta"]);
    a.handle_key(key('S'));
    assert_eq!(a.sort_mode, SortMode::Rssi);
    assert_eq!(a.devices[0].rssi, Some(-10));
    a.handle_key(key('S'));
    assert_eq!(a.sort_mode, SortMode::Address);
    assert_eq!(a.devices[0].address, addr(1));
    a.handle_key(key('S'));
    assert_eq!(a.sort_mode, SortMode::Default);
}

#[test]
fn rssi_order_puts_missing_last() {
    let mut cfg = Config::standard();
    cfg.general.sort_mode = SortMode::Rssi;
    let mut a = App::new(cfg);
    a.handle_bt_event(BtEvent::DeviceFound(device(1, Some("none"), None)));
    a.handle_bt_event(BtEvent::DeviceFound(device(2, Some("weak"), Some(-99))));
    a.handle_bt_event(BtEvent::DeviceFound(device(3, Some("strong"), Some(-20))));
    let names: Vec<&str> = a.devices.iter().map(|d| d.display_name()).collect();
    assert_eq!(names, vec!["strong", "weak", "none"]);
}

#[test]
fn control_c_and_quit_key_quit() {
    let mut a = app();
    assert!(matches!(a.handle_key(KeyPress { code: KeyCode::Char('c'), ctrl: true }), AppAction::Quit));
    assert!(matches!(a.handle_key(key('q')), AppAction::Quit));
    assert!(matches!(a.handle_key(key('c')), AppAction::Consumed));
    assert!(!a.dirty);
}

#[test]
fn device_keys_send_commands_for_the_selection() {
    let mut a = app();
    assert!(matches!(a.handle_key(special(KeyCode::Enter)), AppAction::Consumed));
    a.handle_bt_event(BtEvent::DeviceFound(device(9, Some("Buds"), Some(-40))));
    assert!(matches!(a.handle_key(special(KeyCode::Enter)), AppAction::BtCommand(BtCommand::Connect(x)) if x == addr(9)));
    assert!(matches!(a.handle_key(key('p')), AppAction::BtCommand(BtCommand::Pair(x)) if x == addr(9)));
    assert!(matches!(a.handle_key(key('t')), AppAction::BtCommand(BtCommand::Trust(x)) if x == addr(9)));
    assert!(matches!(a.handle_key(key('r')), AppAction::BtCommand(BtCommand::RemoveDevice(x)) if x == addr(9)));
    assert!(matches!(a.handle_key(key('R')), AppAction::BtCommand(BtCommand::RefreshDevice(x)) if x == addr(9)));
    assert!(matches!(a.handle_key(key('d')), AppAction::BtCommand(BtCommand::Disconnect(x)) if x == addr(9)));
    let mut on = device(9, Some("Buds"), Some(-40));
    on.connected = true;
    a.handle_bt_event(BtEvent::DeviceUpdated(on));
    assert!(matches!(a.handle_key(special(KeyCode::Enter)), AppAction::BtCommand(BtCommand::Disconnect(x)) if x == addr(9)));
}

#[test]
fn adapter_and_scan_toggles() {
    let mut a = app();
    assert!(matches!(a.handle_key(key('a')), AppAction::BtCommand(BtCommand::EnableAdapter)));
    assert!(matches!(a.handle_key(key('s')), AppAction::BtCommand(BtCommand::StartScan)));
    a.handle_bt_event(BtEvent::ScanningChanged(true));
    assert!(a.scanning);
    assert!(matches!(a.handle_key(key('s')), AppAction::BtCommand(BtCommand::StopScan)));
}

#[test]
fn help_opens_and_quit_key_closes() {
    let mut a = app();
    a.handle_key(key('?'));
    assert!(matches!(a.active_popup, Some(Popup::Help)));
    assert_eq!(a.input_mode, InputMode::Dialog);
    a.handle_key(key('x'));
    assert_eq!(a.input_mode, InputMode::Dialog);
    a.handle_key(key('q'));
    assert_eq!(a.input_mode, InputMode::Normal);
    assert!(a.active_popup.is_none());
}

#[test]
fn rename_sends_trimmed_alias() {
    let mut a = app();
    a.handle_key(key('A'));
    assert_eq!(a.input_mode, InputMode::Normal);
    a.handle_bt_event(BtEvent::DeviceFound(device(5, Some("Old"), Some(-40))));
    a.handle_key(key('A'));
    assert_eq!(a.input_mode, InputMode::Rename);
    assert_eq!(a.rename_buffer, "alias-5");
    for _ in 0.."alias-5".len() {
        a.handle_key(special(KeyCode::Backspace));
    }
    for c in "  New name ".chars() {
        a.handle_key(key(c));
    }
    match a.handle_key(special(KeyCode::Enter)) {
        AppAction::BtCommand(BtCommand::SetAlias(x, name)) => {
            assert_eq!(x, addr(5));
            assert_eq!(name, "New name");
        }
        _ => panic!("expected a rename command"),
    }
    assert_eq!(a.input_mode, InputMode::Normal);
    assert_eq!(a.rename_buffer, "");
    assert!(a.rename_target.is_none());
}

#[test]
fn rename_of_blank_text_sends_nothing() {
    let mut a = app();
    a.handle_bt_event(BtEvent::DeviceFound(device(5, Some("Old"), Some(-40))));
    a.handle_key(key('A'));
    for _ in 0.."alias-5".len() {
        a.handle_key(special(KeyCode::Backspace));
    }
    a.handle_key(key(' '));
    assert!(matches!(a.handle_key(special(KeyCode::Enter)), AppAction::Consumed));
    assert_eq!(a.input_mode, InputMode::Normal);
}

#[test]
fn adapter_state_is_replaced_wholesale() {
    let mut a = app();
    let info = voidlink::types::AdapterInfo {
        name: "hci0".to_string(),
        address: Some(addr(0)),
        powered: true,
        discovering: false,
        discoverable: true,
    };
    a.handle_bt_event(BtEvent::AdapterState(info));
    assert!(a.adapter.powered);
    assert_eq!(a.adapter.name, "hci0");
    assert!(matches!(a.handle_key(key('a')), AppAction::BtCommand(BtCommand::DisableAdapter)));
}

#[test]
fn push_error_sets_popup() {
    let mut a = app();
    a.push_error("bad".to_string());
    assert!(matches!(&a.active_popup, Some(Popup::Error { message, slide: 0 }) if message == "bad"));
}
