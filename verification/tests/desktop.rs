use cosmic_caffeineland::desktop::{
    lock_mode, lock_owner, registry_binding, screensaver_application, screensaver_reason,
    wayland_step, POLL_INTERVAL_SECS,
};
use cosmic_caffeineland::{
    BatteryStatus, CaffeineApplet, CaffeineIcon, Effect, Inhibitor, LidState, Notice, Poll,
    WaylandGlobal, WaylandStep,
};

#[test]
fn registry_bindings() {
    assert_eq!(registry_binding("wl_compositor", 5), Some((WaylandGlobal::Compositor, 5)));
    assert_eq!(registry_binding("wl_compositor", 9), Some((WaylandGlobal::Compositor, 6)));
    assert_eq!(
        registry_binding("zwp_idle_inhibit_manager_v1", 3),
        Some((WaylandGlobal::IdleInhibitManager, 1))
    );
    assert_eq!(registry_binding("wl_shm", 1), None);
    assert_eq!(registry_binding("wl_compositor_x", 1), None);
}

#[test]
fn wayland_steps() {
    assert_eq!(wayland_step(true, false, true, true), WaylandStep::CreateInhibitor);
    assert_eq!(wayland_step(true, true, true, true), WaylandStep::Nothing);
    assert_eq!(wayland_step(true, false, false, true), WaylandStep::Nothing);
    assert_eq!(wayland_step(true, false, true, false), WaylandStep::Nothing);
    assert_eq!(wayland_step(false, false, false, false), WaylandStep::DestroyInhibitor);
    assert_eq!(wayland_step(false, true, true, true), WaylandStep::DestroyInhibitor);
}

#[test]
fn logind_locks() {
    assert_eq!(Inhibitor::Idle.login1_lock(), Some(("idle", "User requested to prevent idle")));
    assert_eq!(Inhibitor::Sleep.login1_lock(), Some(("sleep", "User requested to prevent sleep")));
    assert_eq!(
        Inhibitor::LidSwitch.login1_lock(),
        Some(("handle-lid-switch", "User requested to prevent lid action"))
    );
    assert_eq!(Inhibitor::Wayland.login1_lock(), None);
    assert_eq!(Inhibitor::Screensaver.login1_lock(), None);
    assert_eq!(lock_owner(), "CosmicCaffeineLand");
    assert_eq!(lock_mode(), "block");
    assert_eq!(screensaver_application(), "io.github.submax82.CosmicCaffeineLand");
    assert_eq!(screensaver_reason(), "User requested to prevent screensaver");
}

#[test]
fn notices() {
    assert_eq!(Notice::BatteryLow.body_key(), "battery-low-notification");
    assert_eq!(Notice::BatteryLow.icon_name(), "battery-caution");
    assert_eq!(Notice::LidClosed.body_key(), "lid-closed-notification");
    assert_eq!(Notice::LidClosed.icon_name(), "caffeine");
}

#[test]
fn icons() {
    let mut a = CaffeineApplet::init(
        Some(BatteryStatus { percentage_bits: 80.0f64.to_bits(), is_charging: true }),
        LidState::Open,
        false,
    );
    assert_eq!(a.icon(true), CaffeineIcon::OffDark);
    assert_eq!(a.icon(false), CaffeineIcon::OffLight);
    a.update(cosmic_caffeineland::Message::Toggle);
    assert_eq!(a.icon(true), CaffeineIcon::OnDark);
    assert_eq!(a.icon(false), CaffeineIcon::OnLight);
}

#[test]
fn polls() {
    let a = CaffeineApplet::init(None, LidState::Unknown, false);
    assert_eq!(a.subscription(), vec![Poll::Battery]);
    let b = CaffeineApplet::init(None, LidState::Open, true);
    assert_eq!(b.subscription(), vec![Poll::Battery, Poll::Lid]);
    assert_eq!(POLL_INTERVAL_SECS, 10);
}

#[test]
fn shutdown() {
    assert_eq!(
        CaffeineApplet::shutdown_effects(),
        vec![
            Effect::Inhibit(Inhibitor::Wayland, false),
            Effect::Inhibit(Inhibitor::Idle, false),
            Effect::Inhibit(Inhibitor::Sleep, false),
            Effect::Inhibit(Inhibitor::LidSwitch, false),
            Effect::Inhibit(Inhibitor::Screensaver, false),
            Effect::CloseConnections,
        ]
    );
}
