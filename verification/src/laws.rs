//! What holds of the applet across all its states and events.
use vstd::prelude::*;

use crate::applet::{
    battery_critical, switch_effects, CaffeineApplet, Effect, Inhibitor,
    Message, Notice,
};
use crate::battery::BatteryStatus;
use crate::lid::LidState;

verus! {

broadcast use {
    vstd::seq_lib::lemma_seq_concat_contains_all_elements,
    vstd::seq_lib::lemma_seq_contains_after_push,
    vstd::seq_lib::lemma_seq_empty_contains_nothing,
};

/// What the effects of a switch contain.
proof fn lemma_switch_contents(active: bool, screensaver: bool, e: Effect)
    ensures
        switch_effects(active, screensaver).contains(e) <==> (e == Effect::OpenConnections
            && active) || (e == Effect::CloseConnections && !active) || e == Effect::Inhibit(
            Inhibitor::Idle,
            active,
        ) || e == Effect::Inhibit(Inhibitor::Sleep, active) || e == Effect::Inhibit(
            Inhibitor::LidSwitch,
            active,
        ) || e == Effect::Inhibit(Inhibitor::Wayland, active) || e == Effect::Inhibit(
            Inhibitor::Screensaver,
            screensaver,
        ),
{
}

/// What bringing the inhibitors in line contains, and where it leaves the applet.
proof fn lemma_synced_contents(s: CaffeineApplet, e: Effect)
    ensures
        s.synced().0 == (CaffeineApplet { is_active: s.should_be_active(), ..s }),
        s.synced().1.contains(e) <==> s.is_active != s.should_be_active() && switch_effects(
            s.should_be_active(),
            s.should_be_active() && !s.lid_closed_on_power(),
        ).contains(e),
{
}

/// Every event keeps the applet consistent: the inhibitors are held exactly
/// when the user asked for them and the battery is not critical, and a
/// critical battery leaves no request standing.
pub proof fn lemma_update_keeps_consistent(s: CaffeineApplet, m: Message)
    requires
        s.consistent(),
    ensures
        s.after(m).0.consistent(),
{
}

/// In every state that events lead to from a consistent one, a critical
/// battery means that caffeine is off and cannot be on.
pub proof fn lemma_never_active_on_critical_battery(s: CaffeineApplet, m: Message)
    requires
        s.consistent(),
    ensures
        battery_critical(s.after(m).0.battery_status) ==> !s.after(m).0.is_active
            && !s.after(m).0.user_enabled,
{
    lemma_update_keeps_consistent(s, m);
}

/// A click with a critical battery is refused: caffeine stays off, the
/// low-battery notice is shown first, and the notice counts as shown.
pub proof fn lemma_toggle_refused_on_critical_battery(s: CaffeineApplet)
    requires
        battery_critical(s.battery_status),
    ensures
        !s.after(Message::Toggle).0.user_enabled,
        !s.after(Message::Toggle).0.is_active,
        s.after(Message::Toggle).0.notification_sent,
        s.after(Message::Toggle).1[0] == Effect::Notify(Notice::BatteryLow),
{
}

/// A battery reading that turns critical switches caffeine off; when the
/// user had asked for it and the notice was not yet shown, the low-battery
/// notice comes first.
pub proof fn lemma_battery_turning_critical_stops(s: CaffeineApplet, status: Option<BatteryStatus>)
    requires
        s.consistent(),
        battery_critical(status),
    ensures
        !s.after(Message::BatteryUpdate(status)).0.is_active,
        !s.after(Message::BatteryUpdate(status)).0.user_enabled,
        s.user_enabled && !s.notification_sent ==> s.after(Message::BatteryUpdate(status)).1[0]
            == Effect::Notify(Notice::BatteryLow),
{
}

/// The low-battery notice is shown by a battery reading only when it was not
/// shown already, and then it counts as shown.
pub proof fn lemma_battery_notice_once(s: CaffeineApplet, status: Option<BatteryStatus>)
    ensures
        s.after(Message::BatteryUpdate(status)).1.contains(Effect::Notify(Notice::BatteryLow))
            ==> !s.notification_sent && s.after(Message::BatteryUpdate(status)).0.notification_sent,
{
    let e = Effect::Notify(Notice::BatteryLow);
    let t = s.after(Message::BatteryUpdate(status)).0;
    let pre = CaffeineApplet { is_active: s.is_active, ..t };
    lemma_synced_contents(pre, e);
    lemma_switch_contents(
        pre.should_be_active(),
        pre.should_be_active() && !pre.lid_closed_on_power(),
        e,
    );
}

/// Closing a watched lid, with caffeine asked for, switches caffeine off and
/// then shows the lid notice, whatever the power source.
pub proof fn lemma_lid_closed_stops(s: CaffeineApplet)
    requires
        s.lid_supported,
        s.lid_state != LidState::Closed,
        s.user_enabled,
    ensures
        !s.after(Message::LidStateUpdate(LidState::Closed)).0.user_enabled,
        !s.after(Message::LidStateUpdate(LidState::Closed)).0.is_active,
        s.after(Message::LidStateUpdate(LidState::Closed)).0.lid_state == LidState::Closed,
        s.after(Message::LidStateUpdate(LidState::Closed)).1.last() == Effect::Notify(
            Notice::LidClosed,
        ),
{
}

/// A battery reading with a watched, closed lid leaves no request standing,
/// whatever the power source.
pub proof fn lemma_closed_lid_withdraws_on_battery_reading(
    s: CaffeineApplet,
    status: Option<BatteryStatus>,
)
    requires
        s.lid_supported,
        s.lid_state == LidState::Closed,
    ensures
        !s.after(Message::BatteryUpdate(status)).0.user_enabled,
        !s.after(Message::BatteryUpdate(status)).0.is_active,
{
}

/// What the effects of an event contain of connections and of the screen
/// saver inhibition: only what the inhibitor switch brings, and nothing when
/// the event leaves the activity as it was.
proof fn lemma_after_contents(s: CaffeineApplet, m: Message, e: Effect)
    requires
        e == Effect::OpenConnections || e == Effect::CloseConnections || e == Effect::Inhibit(
            Inhibitor::Screensaver,
            true,
        ),
    ensures
        ({
            let t = s.after(m).0;
            let pre = CaffeineApplet { is_active: s.is_active, ..t };
            &&& s.after(m).1.contains(e) ==> pre.synced().1.contains(e)
            &&& t.is_active != s.is_active ==> t == pre.synced().0 && (pre.synced().1.contains(e)
                ==> s.after(m).1.contains(e))
            &&& t.is_active == s.is_active ==> !s.after(m).1.contains(e)
        }),
{
    let t = s.after(m).0;
    let pre = CaffeineApplet { is_active: s.is_active, ..t };
    lemma_synced_contents(pre, e);
}

/// Fresh D-Bus connections are opened exactly when an event switches caffeine
/// on, and closed exactly when it switches caffeine off.
pub proof fn lemma_connections_follow_activity(s: CaffeineApplet, m: Message)
    ensures
        s.after(m).1.contains(Effect::OpenConnections) <==> !s.is_active && s.after(m).0.is_active,
        s.after(m).1.contains(Effect::CloseConnections) <==> s.is_active && !s.after(
            m,
        ).0.is_active,
{
    let t = s.after(m).0;
    let pre = CaffeineApplet { is_active: s.is_active, ..t };
    lemma_after_contents(s, m, Effect::OpenConnections);
    lemma_after_contents(s, m, Effect::CloseConnections);
    lemma_synced_contents(pre, Effect::OpenConnections);
    lemma_synced_contents(pre, Effect::CloseConnections);
    lemma_switch_contents(
        pre.should_be_active(),
        pre.should_be_active() && !pre.lid_closed_on_power(),
        Effect::OpenConnections,
    );
    lemma_switch_contents(
        pre.should_be_active(),
        pre.should_be_active() && !pre.lid_closed_on_power(),
        Effect::CloseConnections,
    );
}

/// With the lid closed on mains power, no event inhibits the screen saver.
pub proof fn lemma_no_screensaver_inhibition_lid_closed_on_mains(s: CaffeineApplet, m: Message)
    ensures
        s.after(m).1.contains(Effect::Inhibit(Inhibitor::Screensaver, true)) ==> !s.after(
            m,
        ).0.lid_closed_on_power(),
{
    let e = Effect::Inhibit(Inhibitor::Screensaver, true);
    let t = s.after(m).0;
    let pre = CaffeineApplet { is_active: s.is_active, ..t };
    lemma_after_contents(s, m, e);
    lemma_synced_contents(pre, e);
    lemma_switch_contents(
        pre.should_be_active(),
        pre.should_be_active() && !pre.lid_closed_on_power(),
        e,
    );
}

/// With a battery that is not critical, a second click undoes the first: the
/// applet is back where it was, but for the low-battery notice flag, which a
/// known battery clears.
pub proof fn lemma_toggle_twice(s: CaffeineApplet)
    requires
        s.consistent(),
        !battery_critical(s.battery_status),
    ensures
        s.after(Message::Toggle).0.after(Message::Toggle).0 == (CaffeineApplet {
            notification_sent: if s.battery_status is Some {
                false
            } else {
                s.notification_sent
            },
            ..s
        }),
{
}

/// The lid acts only when it is watched and seen closed: any other lid
/// reading is just recorded, and without lid support no event shows the lid
/// notice.
pub proof fn lemma_lid_acts_only_when_seen_closed(s: CaffeineApplet, new_state: LidState, m: Message)
    ensures
        !s.lid_supported || new_state != LidState::Closed ==> s.after(
            Message::LidStateUpdate(new_state),
        ) == (CaffeineApplet { lid_state: new_state, ..s }, Seq::<Effect>::empty()),
        !s.lid_supported ==> !s.after(m).1.contains(Effect::Notify(Notice::LidClosed)),
{
    let e = Effect::Notify(Notice::LidClosed);
    let t = s.after(m).0;
    let pre = CaffeineApplet { is_active: s.is_active, ..t };
    lemma_synced_contents(pre, e);
    lemma_switch_contents(
        pre.should_be_active(),
        pre.should_be_active() && !pre.lid_closed_on_power(),
        e,
    );
}

/// Bringing the inhibitors in line is done once and for all: a second pass
/// (`update_inhibitor_state` called again) changes no field and asks nothing
/// of the desktop.
pub proof fn lemma_inhibitor_sync_idempotent(s: CaffeineApplet)
    ensures
        s.synced().0.synced() == (s.synced().0, Seq::<Effect>::empty()),
{
}
/// An ordinary battery reading, one that is not critical, with no watched
/// closed lid, leaves caffeine as it was: the user's request and the
/// activity stay, and the desktop is asked nothing.
pub proof fn lemma_healthy_battery_reading_keeps_caffeine(
    s: CaffeineApplet,
    status: Option<BatteryStatus>,
)
    requires
        s.consistent(),
        !battery_critical(status),
        !(s.lid_supported && s.lid_state == LidState::Closed),
    ensures
        s.after(Message::BatteryUpdate(status)).0.user_enabled == s.user_enabled,
        s.after(Message::BatteryUpdate(status)).0.is_active == s.is_active,
        s.after(Message::BatteryUpdate(status)).1 == Seq::<Effect>::empty(),
{
}

/// A lid reading shows the lid notice only when it withdraws a request that
/// stood; with no request standing, a lid reading is only recorded.
pub proof fn lemma_lid_notice_only_on_withdrawal(s: CaffeineApplet, new_state: LidState)
    ensures
        s.after(Message::LidStateUpdate(new_state)).1.contains(Effect::Notify(Notice::LidClosed))
            ==> s.user_enabled && !s.after(Message::LidStateUpdate(new_state)).0.user_enabled,
        !s.user_enabled ==> s.after(Message::LidStateUpdate(new_state)) == (
            CaffeineApplet { lid_state: new_state, ..s },
            Seq::<Effect>::empty(),
        ),
{
}
} // verus!
