use cosmic_caffeineland::{
    BatteryStatus, CaffeineApplet, Effect, Inhibitor, LidState, Message, Notice,
};

fn battery(percentage: f64, charging: bool) -> Option<BatteryStatus> {
    Some(BatteryStatus { percentage_bits: percentage.to_bits(), is_charging: charging })
}

fn switch_on(screensaver: bool) -> Vec<Effect> {
    vec![
        Effect::OpenConnections,
        Effect::Inhibit(Inhibitor::Idle, true),
        Effect::Inhibit(Inhibitor::Sleep, true),
        Effect::Inhibit(Inhibitor::LidSwitch, true),
        Effect::Inhibit(Inhibitor::Wayland, true),
        Effect::Inhibit(Inhibitor::Screensaver, screensaver),
    ]
}

fn switch_off() -> Vec<Effect> {
    vec![
        Effect::Inhibit(Inhibitor::Idle, false),
        Effect::Inhibit(Inhibitor::Sleep, false),
        Effect::Inhibit(Inhibitor::LidSwitch, false),
        Effect::Inhibit(Inhibitor::Wayland, false),
        Effect::Inhibit(Inhibitor::Screensaver, false),
        Effect::CloseConnections,
    ]
}

#[test]
fn starts_off() {
    let a = CaffeineApplet::init(battery(50.0, false), LidState::Open, true);
    assert!(!a.is_active && !a.user_enabled && !a.notification_sent);
    assert_eq!(a.lid_state, LidState::Open);
    assert!(a.lid_supported);
}

#[test]
fn toggle_on_and_off() {
    let mut a = CaffeineApplet::init(battery(50.0, false), LidState::Open, true);
    assert_eq!(a.update(Message::Toggle), switch_on(true));
    assert!(a.is_active && a.user_enabled);
    assert_eq!(a.update(Message::Toggle), switch_off());
    assert!(!a.is_active && !a.user_enabled);
}

#[test]
fn toggle_without_battery_reading() {
    let mut a = CaffeineApplet::init(None, LidState::Unknown, false);
    assert_eq!(a.update(Message::Toggle), switch_on(true));
    assert!(a.is_active);
}

#[test]
fn toggle_refused_on_critical_battery() {
    let mut a = CaffeineApplet::init(battery(5.0, false), LidState::Open, true);
    let fx = a.update(Message::Toggle);
    assert_eq!(fx, vec![Effect::Notify(Notice::BatteryLow)]);
    assert!(!a.is_active && !a.user_enabled && a.notification_sent);
    // the lock holds on every further click
    let fx = a.update(Message::Toggle);
    assert_eq!(fx, vec![Effect::Notify(Notice::BatteryLow)]);
    assert!(!a.is_active);
}

#[test]
fn low_battery_switches_off_with_one_notice() {
    let mut a = CaffeineApplet::init(battery(50.0, false), LidState::Open, true);
    a.update(Message::Toggle);
    let fx = a.update(Message::BatteryUpdate(battery(9.0, false)));
    let mut expected = vec![Effect::Notify(Notice::BatteryLow)];
    expected.extend(switch_off());
    assert_eq!(fx, expected);
    assert!(!a.is_active && !a.user_enabled && a.notification_sent);
    // still low: nothing more
    assert_eq!(a.update(Message::BatteryUpdate(battery(8.0, false))), vec![]);
}

#[test]
fn charger_lifts_the_lock() {
    let mut a = CaffeineApplet::init(battery(5.0, false), LidState::Open, true);
    a.update(Message::Toggle);
    assert_eq!(a.update(Message::BatteryUpdate(battery(5.0, true))), vec![]);
    assert!(!a.notification_sent);
    assert_eq!(a.update(Message::Toggle), switch_on(true));
    assert!(a.is_active);
}

#[test]
fn lid_closed_on_battery_switches_off() {
    let mut a = CaffeineApplet::init(battery(60.0, false), LidState::Open, true);
    a.update(Message::Toggle);
    let fx = a.update(Message::LidStateUpdate(LidState::Closed));
    let mut expected = switch_off();
    expected.push(Effect::Notify(Notice::LidClosed));
    assert_eq!(fx, expected);
    assert!(!a.is_active && !a.user_enabled);
    assert_eq!(a.lid_state, LidState::Closed);
}

#[test]
fn lid_closed_on_mains_switches_off() {
    let mut a = CaffeineApplet::init(battery(60.0, true), LidState::Open, true);
    a.update(Message::Toggle);
    let fx = a.update(Message::LidStateUpdate(LidState::Closed));
    let mut expected = switch_off();
    expected.push(Effect::Notify(Notice::LidClosed));
    assert_eq!(fx, expected);
    assert!(!a.is_active && !a.user_enabled);
}

#[test]
fn lid_ignored_when_not_supported() {
    let mut a = CaffeineApplet::init(battery(60.0, false), LidState::Open, false);
    a.update(Message::Toggle);
    assert_eq!(a.update(Message::LidStateUpdate(LidState::Closed)), vec![]);
    assert!(a.is_active);
}

#[test]
fn lid_open_reading_changes_nothing() {
    let mut a = CaffeineApplet::init(battery(60.0, false), LidState::Closed, true);
    a.update(Message::Toggle);
    assert_eq!(a.update(Message::LidStateUpdate(LidState::Open)), vec![]);
    assert!(a.is_active);
    assert_eq!(a.lid_state, LidState::Open);
}

#[test]
fn battery_reading_with_lid_closed_switches_off() {
    // switched on by a click while the lid was already closed, on mains power
    let mut a = CaffeineApplet::init(battery(60.0, true), LidState::Closed, true);
    a.update(Message::Toggle);
    let fx = a.update(Message::BatteryUpdate(battery(60.0, true)));
    let mut expected = vec![Effect::Notify(Notice::LidClosed)];
    expected.extend(switch_off());
    assert_eq!(fx, expected);
    assert!(!a.is_active && !a.user_enabled);
}

#[test]
fn screensaver_not_inhibited_with_lid_closed_on_mains() {
    let mut a = CaffeineApplet::init(battery(60.0, true), LidState::Closed, true);
    assert_eq!(a.update(Message::Toggle), switch_on(false));
    assert!(a.is_active);
}

#[test]
fn switching_on_with_lid_closed_on_battery_is_allowed_by_toggle() {
    // a click only looks at the battery; the lid acts when it changes
    let mut a = CaffeineApplet::init(battery(60.0, false), LidState::Closed, true);
    assert_eq!(a.update(Message::Toggle), switch_on(true));
}

#[test]
fn toggle_twice_comes_back() {
    let start = CaffeineApplet::init(battery(70.0, false), LidState::Open, true);
    let mut a = start;
    a.update(Message::Toggle);
    a.update(Message::Toggle);
    assert_eq!(a, start);
}

#[test]
fn battery_reading_lost_keeps_request() {
    let mut a = CaffeineApplet::init(battery(50.0, false), LidState::Open, true);
    a.update(Message::Toggle);
    assert_eq!(a.update(Message::BatteryUpdate(None)), vec![]);
    assert!(a.is_active);
}

#[test]
fn second_inhibitor_sync_does_nothing() {
    let mut a = CaffeineApplet::init(battery(60.0, false), LidState::Open, true);
    a.user_enabled = true;
    let mut effects = Vec::new();
    a.update_inhibitor_state(&mut effects);
    assert_eq!(effects, switch_on(true));
    let after_first = a;
    let mut again = Vec::new();
    a.update_inhibitor_state(&mut again);
    assert_eq!(again, vec![]);
    assert_eq!(a, after_first);
}
