use voidlink::agent::{answer, format_passkey, AgentReply, AgentRequest};
use voidlink::config::{parse_key, Config, KeyCode, KeyPress, RawConfig, RawKeybindings, SearchMode, SortMode};
use voidlink::layout::{centered_rect, centered_rect_percent, slide_from_top, wrapped_line_count, Rect};
use voidlink::lifecycle::{timeout_message, ConnectLifecycle, ConnectOutcome, LifecycleAction, LifecycleStep};
use voidlink::multiplex::{next_event, next_tick_deadline, Event, RawInput};
use voidlink::theme::{battery_display, device_icon, rssi_bar, rssi_display, spinner_frame, Tone};
use voidlink::types::{AdapterInfo, Address, BtEvent, DeviceInfo};
use voidlink::worker::{trust_target, CommandReport, Worker};

fn addr(last: u8) -> Address {
    Address::new([0x00, 0x1A, 0x7D, 0xDA, 0x71, last])
}

fn device(last: u8) -> DeviceInfo {
    DeviceInfo {
        address: addr(last),
        name: Some("dev".to_string()),
        alias: "dev".to_string(),
        icon: None,
        rssi: Some(-50),
        tx_power: None,
        battery: None,
        paired: false,
        trusted: false,
        connected: false,
        class: None,
    }
}

fn adapter() -> AdapterInfo {
    AdapterInfo { name: "hci0".to_string(), address: None, powered: true, discovering: false, discoverable: false }
}

fn run_all(mut life: ConnectLifecycle) -> (Vec<LifecycleStep>, bool) {
    let mut ran = Vec::new();
    loop {
        match life.next_action() {
            LifecycleAction::Run(s) => {
                ran.push(s);
                life.step_finished(Ok(()));
            }
            LifecycleAction::Finish(o) => return (ran, matches!(o, ConnectOutcome::Connected)),
        }
    }
}

#[test]
fn lifecycle_pairs_trusts_then_connects() {
    let (ran, ok) = run_all(ConnectLifecycle::new(false, false, true));
    assert_eq!(ran, vec![LifecycleStep::Pair, LifecycleStep::Trust, LifecycleStep::Connect]);
    assert!(ok);
}

#[test]
fn lifecycle_skips_trust_when_policy_off() {
    let (ran, _) = run_all(ConnectLifecycle::new(false, false, false));
    assert_eq!(ran, vec![LifecycleStep::Pair, LifecycleStep::Connect]);
    let (ran, _) = run_all(ConnectLifecycle::new(true, true, true));
    assert_eq!(ran, vec![LifecycleStep::Connect]);
}

#[test]
fn lifecycle_failure_skips_the_rest() {
    let mut life = ConnectLifecycle::new(false, false, true);
    assert!(matches!(life.next_action(), LifecycleAction::Run(LifecycleStep::Pair)));
    life.step_finished(Err("Authentication Failed".to_string()));
    match life.next_action() {
        LifecycleAction::Finish(ConnectOutcome::Failed(e)) => assert_eq!(e, "Authentication Failed"),
        _ => panic!("expected failure"),
    }
}

#[test]
fn lifecycle_deadline_gives_timeout() {
    let mut life = ConnectLifecycle::new(true, true, false);
    life.deadline_passed();
    assert!(matches!(life.next_action(), LifecycleAction::Finish(ConnectOutcome::TimedOut)));
}

#[test]
fn timed_out_connect_reports_timed_out() {
    let mut w = Worker::new(true, 30);
    let events = w.finish_command(CommandReport::Connect { address: addr(1), outcome: ConnectOutcome::TimedOut, device: None });
    assert_eq!(events.len(), 1);
    match &events[0] {
        BtEvent::ConnectionResult { address, success, error } => {
            assert_eq!(*address, addr(1));
            assert!(!success);
            let e = error.as_ref().expect("error text");
            assert!(e.contains("timed out"));
            assert_eq!(e, "Connection timed out after 30s");
        }
        _ => panic!("expected a connection result"),
    }
    assert_eq!(timeout_message(120), "Connection timed out after 120s");
}

#[test]
fn successful_connect_sends_snapshot_then_result() {
    let mut w = Worker::new(true, 30);
    let events = w.finish_command(CommandReport::Connect { address: addr(1), outcome: ConnectOutcome::Connected, device: Some(device(1)) });
    assert_eq!(events.len(), 2);
    assert!(matches!(&events[0], BtEvent::DeviceUpdated(d) if d.address == addr(1)));
    assert!(matches!(&events[1], BtEvent::ConnectionResult { success: true, error: None, .. }));
}

#[test]
fn power_failure_still_reports_adapter_state() {
    let mut w = Worker::new(true, 30);
    let events = w.finish_command(CommandReport::Power { enable: true, result: Err("Blocked".to_string()), adapter: adapter() });
    assert_eq!(events.len(), 2);
    assert!(matches!(&events[0], BtEvent::Error(m) if m == "Failed to enable adapter: Blocked"));
    assert!(matches!(&events[1], BtEvent::AdapterState(a) if a.powered));
}

#[test]
fn scan_start_and_stop_events() {
    let mut w = Worker::new(true, 30);
    let on = w.finish_command(CommandReport::ScanStarted { result: Ok(()), adapter: adapter() });
    assert!(matches!(on[0], BtEvent::ScanningChanged(true)));
    let bad = w.finish_command(CommandReport::ScanStarted { result: Err("busy".to_string()), adapter: adapter() });
    assert!(matches!(&bad[0], BtEvent::Error(m) if m == "Failed to start scanning: busy"));
    let off = w.finish_command(CommandReport::ScanStopped { adapter: adapter() });
    assert!(matches!(off[0], BtEvent::ScanningChanged(false)));
}

#[test]
fn discovery_reports_found_once_then_updated() {
    let mut w = Worker::new(true, 30);
    assert!(matches!(w.on_device_added(device(4)), BtEvent::DeviceFound(_)));
    assert!(matches!(w.on_device_added(device(4)), BtEvent::DeviceUpdated(_)));
    assert!(matches!(w.on_device_removed(addr(4)), BtEvent::DeviceRemoved(a) if a == addr(4)));
    assert!(matches!(w.on_device_added(device(4)), BtEvent::DeviceFound(_)));
}

#[test]
fn known_devices_at_start_count_as_seen() {
    let mut w = Worker::new(true, 30);
    assert!(matches!(w.on_known_device(device(8)), BtEvent::DeviceFound(_)));
    assert!(matches!(w.on_device_added(device(8)), BtEvent::DeviceUpdated(_)));
}

#[test]
fn removal_forgets_only_on_success() {
    let mut w = Worker::new(true, 30);
    w.on_device_added(device(5));
    let bad = w.finish_command(CommandReport::Remove { address: addr(5), result: Err("busy".to_string()) });
    assert!(matches!(&bad[0], BtEvent::Error(m) if m == "Failed to remove device: busy"));
    assert!(matches!(w.on_device_added(device(5)), BtEvent::DeviceUpdated(_)));
    let ok = w.finish_command(CommandReport::Remove { address: addr(5), result: Ok(()) });
    assert!(matches!(ok[0], BtEvent::DeviceRemoved(a) if a == addr(5)));
    assert!(matches!(w.on_device_added(device(5)), BtEvent::DeviceFound(_)));
}

#[test]
fn missing_devices_are_reported() {
    let mut w = Worker::new(true, 30);
    let c = w.finish_command(CommandReport::ConnectTargetMissing { address: addr(1), adapter_name: "hci0".to_string(), error: "gone".to_string() });
    assert!(matches!(&c[0], BtEvent::ConnectionResult { success: false, error: Some(m), .. } if m == "Device not found on hci0: gone"));
    let p = w.finish_command(CommandReport::PairTargetMissing { address: addr(1), error: "gone".to_string() });
    assert!(matches!(&p[0], BtEvent::PairResult { success: false, error: Some(m), .. } if m == "Device not found: gone"));
    let o = w.finish_command(CommandReport::TargetMissing { error: "gone".to_string() });
    assert!(matches!(&o[0], BtEvent::Error(m) if m == "Device not found: gone"));
    assert!(w.finish_command(CommandReport::AliasSet).is_empty());
}

#[test]
fn disconnect_and_trust_always_resnapshot() {
    let mut w = Worker::new(true, 30);
    let d = w.finish_command(CommandReport::Disconnect { result: Err("x".to_string()), device: device(2) });
    assert_eq!(d.len(), 2);
    assert!(matches!(&d[0], BtEvent::Error(m) if m == "Disconnect failed: x"));
    let t = w.finish_command(CommandReport::Trust { result: Ok(()), device: device(2) });
    assert!(matches!(&t[0], BtEvent::DeviceUpdated(_)));
    let p = w.finish_command(CommandReport::Pair { address: addr(2), result: Err("no".to_string()), device: None });
    assert!(matches!(&p[0], BtEvent::PairResult { success: false, error: Some(m), .. } if m == "no"));
}

#[test]
fn trust_flips_the_flag() {
    assert!(!trust_target(Some(true)));
    assert!(trust_target(Some(false)));
    assert!(trust_target(None));
}

fn press(c: char) -> KeyPress {
    KeyPress { code: KeyCode::Char(c), ctrl: false }
}

#[test]
fn worker_events_come_first() {
    let mut bt = vec![BtEvent::ScanningChanged(true)];
    let mut input = vec![RawInput::KeyPress(press('j'))];
    assert!(matches!(next_event(&mut bt, &mut input, true), Some(Event::Bluetooth(_))));
    assert_eq!(input.len(), 1);
    assert!(matches!(next_event(&mut bt, &mut input, true), Some(Event::Key(k)) if k == press('j')));
    assert!(matches!(next_event(&mut bt, &mut input, true), Some(Event::Tick)));
    assert!(next_event(&mut bt, &mut input, false).is_none());
}

#[test]
fn releases_and_repeats_are_dropped() {
    let mut bt = Vec::new();
    let mut input = vec![RawInput::KeyRelease(press('a')), RawInput::KeyRepeat(press('a')), RawInput::Other, RawInput::Resize(80, 24), RawInput::KeyPress(press('b'))];
    assert!(matches!(next_event(&mut bt, &mut input, false), Some(Event::Resize(80, 24))));
    assert_eq!(input.len(), 1);
    let mut only_noise = vec![RawInput::KeyRelease(press('a'))];
    assert!(next_event(&mut bt, &mut only_noise, false).is_none());
    assert!(only_noise.is_empty());
}

#[test]
fn missed_ticks_are_skipped() {
    assert_eq!(next_tick_deadline(100, 16, 100), 116);
    assert_eq!(next_tick_deadline(100, 16, 150), 164);
    assert_eq!(next_tick_deadline(0, 10, 10), 20);
}

#[test]
fn signal_and_battery_display() {
    assert_eq!(rssi_bar(Some(-40)), "\u{2588}\u{2588}\u{2588}\u{2588}\u{2588}");
    assert_eq!(rssi_bar(Some(-65)), "\u{2588}\u{2588}\u{2588}\u{2591}\u{2591}");
    assert_eq!(rssi_bar(Some(-95)), "\u{2588}\u{2591}\u{2591}\u{2591}\u{2591}");
    assert_eq!(rssi_bar(None), "\u{2591}\u{2591}\u{2591}\u{2591}\u{2591}");
    assert_eq!(rssi_display(Some(-55)).1, Tone::Cyan);
    assert_eq!(rssi_display(None).1, Tone::Dim);
    assert_eq!(battery_display(Some(85)).1, Tone::Green);
    assert_eq!(battery_display(Some(10)).1, Tone::Red);
    assert_eq!(battery_display(None).1, Tone::Dim);
}

#[test]
fn icons_by_name_then_class() {
    assert_eq!(device_icon(Some("audio-headphones"), None), "\u{f025}");
    assert_eq!(device_icon(Some("phone"), Some(0x100)), "\u{f095}");
    assert_eq!(device_icon(Some("unknown-thing"), None), "\u{f00af}");
    assert_eq!(device_icon(None, Some(0x0200)), "\u{f095}");
    assert_eq!(device_icon(None, Some(0x0704)), "\u{f031a}");
    assert_eq!(device_icon(None, None), "\u{f00af}");
}

#[test]
fn spinner_cycles_every_ten_ticks() {
    assert_eq!(spinner_frame(0), "\u{280b}");
    assert_eq!(spinner_frame(10), "\u{280b}");
    assert_eq!(spinner_frame(13), "\u{2838}");
}

#[test]
fn wrapped_lines_count_each_segment() {
    assert_eq!(wrapped_line_count("hello\nworld", 3), 4);
    assert_eq!(wrapped_line_count("", 10), 1);
    assert_eq!(wrapped_line_count("a\n\nb", 10), 3);
    assert_eq!(wrapped_line_count("abcdef", 0), 6);
}

#[test]
fn rectangles_are_centred_and_slid() {
    let area = Rect { x: 0, y: 0, width: 100, height: 40 };
    assert_eq!(centered_rect(20, 10, area), Rect { x: 40, y: 15, width: 20, height: 10 });
    assert_eq!(centered_rect(200, 0, area), Rect { x: 0, y: 19, width: 100, height: 1 });
    assert_eq!(centered_rect_percent(40, 7, area), Rect { x: 30, y: 16, width: 40, height: 7 });
    let t = Rect { x: 5, y: 20, width: 10, height: 5 };
    assert_eq!(slide_from_top(t, 0).y, 0);
    assert_eq!(slide_from_top(t, 500).y, 10);
    assert_eq!(slide_from_top(t, 1000).y, 20);
}

#[test]
fn key_names_parse() {
    assert_eq!(parse_key("Enter"), KeyCode::Enter);
    assert_eq!(parse_key("PageDown"), KeyCode::PageDown);
    assert_eq!(parse_key("Space"), KeyCode::Char(' '));
    assert_eq!(parse_key("x"), KeyCode::Char('x'));
    assert_eq!(parse_key("\u{e9}"), KeyCode::Null);
    assert_eq!(parse_key("Bogus"), KeyCode::Null);
}

fn raw(tick: u64, sort: &str, search: &str) -> RawConfig {
    RawConfig {
        tick_rate_ms: tick,
        scan_on_startup: true,
        hide_unnamed_devices: true,
        device_list_percent: 95,
        sort_mode: sort.to_string(),
        search_mode: search.to_string(),
        auto_trust_on_pair: false,
        connection_timeout_secs: 1,
        success_duration_ms: 100_000,
        error_duration_ms: 1,
        slide_speed_permille: 0,
        keys: RawKeybindings {
            quit: "Esc".into(),
            nav_down: "j".into(),
            nav_up: "k".into(),
            jump_top: "g".into(),
            jump_bottom: "G".into(),
            search: "/".into(),
            help: "?".into(),
            toggle_adapter: "a".into(),
            toggle_scan: "s".into(),
            connect_toggle: "Enter".into(),
            disconnect: "d".into(),
            pair: "p".into(),
            trust: "t".into(),
            remove: "r".into(),
            refresh: "R".into(),
            cycle_sort: "S".into(),
            rename: "nope".into(),
        },
    }
}

#[test]
fn settings_are_clamped_and_named() {
    let c = Config::resolve(&raw(1, "rssi", "regex"));
    assert_eq!(c.general.tick_rate_ms, 4);
    assert_eq!(c.general.device_list_percent, 80);
    assert_eq!(c.general.sort_mode, SortMode::Rssi);
    assert_eq!(c.general.search_mode, SearchMode::Regex);
    assert_eq!(c.bluetooth.connection_timeout_secs, 5);
    assert_eq!(c.notifications.success_duration_ms, 30_000);
    assert_eq!(c.notifications.error_duration_ms, 500);
    assert_eq!(c.notifications.slide_speed_permille, 10);
    assert_eq!(c.keys.quit, KeyCode::Esc);
    assert_eq!(c.keys.rename, KeyCode::Null);
    let d = Config::resolve(&raw(1000, "weird", "plain"));
    assert_eq!(d.general.tick_rate_ms, 200);
    assert_eq!(d.general.sort_mode, SortMode::Default);
    assert_eq!(d.general.search_mode, SearchMode::Plain);
}

#[test]
fn sort_mode_ring_and_labels() {
    let mut m = SortMode::Default;
    let mut labels = Vec::new();
    for _ in 0..4 {
        labels.push(m.label());
        m = m.next();
    }
    assert_eq!(m, SortMode::Default);
    assert_eq!(labels, vec!["Default", "Name", "RSSI", "Address"]);
}

#[test]
fn passkeys_are_six_digits() {
    assert_eq!(format_passkey(42), "000042");
    assert_eq!(format_passkey(0), "000000");
    assert_eq!(format_passkey(123456), "123456");
    assert_eq!(format_passkey(1234567), "1234567");
}

#[test]
fn agent_answers_at_once() {
    let (ev, reply) = answer(AgentRequest::Confirmation { device: addr(1), passkey: 7 });
    assert!(matches!(ev, Some(BtEvent::PinRequest { pin, .. }) if pin == "000007"));
    assert!(matches!(reply, AgentReply::Accept));
    let (ev, reply) = answer(AgentRequest::RequestPasskey { device: addr(1) });
    assert!(ev.is_none());
    assert!(matches!(reply, AgentReply::Passkey(0)));
    let (ev, reply) = answer(AgentRequest::RequestPinCode { device: addr(1) });
    assert!(ev.is_none());
    assert!(matches!(reply, AgentReply::PinCode(p) if p == "0000"));
    let (ev, _) = answer(AgentRequest::DisplayPinCode { device: addr(1), pincode: "9999".to_string() });
    assert!(matches!(ev, Some(BtEvent::PinRequest { pin, .. }) if pin == "9999"));
    let (ev, reply) = answer(AgentRequest::Authorization { device: addr(1) });
    assert!(ev.is_none() && matches!(reply, AgentReply::Accept));
}

#[test]
fn addresses_print_and_round_trip() {
    let a = Address::new([0x00, 0x1A, 0x7D, 0xDA, 0x71, 0x0F]);
    assert_eq!(a.to_string(), "00:1A:7D:DA:71:0F");
    assert_eq!(a.bytes(), [0x00, 0x1A, 0x7D, 0xDA, 0x71, 0x0F]);
    assert!(Address::new([0, 0, 0, 0, 0, 1]).as_u64() < Address::new([1, 0, 0, 0, 0, 0]).as_u64());
    assert_eq!(device(0x0F).describe(), "dev [00:1A:7D:DA:71:0F]");
}
