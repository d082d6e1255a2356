//! The applet's state machine: what a toggle, a battery reading or a lid
//! reading does to the applet, and what it asks the desktop to do.
use vstd::prelude::*;

use crate::battery::BatteryStatus;
use crate::lid::LidState;

verus! {

/// An event that the applet reacts to.
#[derive(Debug, Clone, Copy, PartialEq, Eq)]
pub enum Message {
    /// The user clicked the applet's button.
    Toggle,
    /// A new battery reading; `None` when UPower could not be asked.
    BatteryUpdate(Option<BatteryStatus>),
    /// A new lid reading.
    LidStateUpdate(LidState),
}

/// A desktop notification that the applet shows.
#[derive(Debug, Clone, Copy, PartialEq, Eq, Structural)]
pub enum Notice {
    /// Caffeine was switched off, and cannot be switched on, because the battery is low.
    BatteryLow,
    /// Caffeine was switched off because the lid was closed.
    LidClosed,
}

/// Something that keeps the desktop awake.
#[derive(Debug, Clone, Copy, PartialEq, Eq, Structural)]
pub enum Inhibitor {
    /// logind `idle` lock.
    Idle,
    /// logind `sleep` lock.
    Sleep,
    /// logind `handle-lid-switch` lock.
    LidSwitch,
    /// Wayland `zwp_idle_inhibitor_v1` on a surface of the applet.
    Wayland,
    /// `org.freedesktop.ScreenSaver` inhibition.
    Screensaver,
}

/// What the applet asks the desktop to do, in order.
#[derive(Debug, Clone, Copy, PartialEq, Eq, Structural)]
pub enum Effect {
    /// Show a notification.
    Notify(Notice),
    /// Open fresh session and system D-Bus connections.
    OpenConnections,
    /// Take (`true`) or let go of (`false`) an inhibitor.
    Inhibit(Inhibitor, bool),
    /// Close the D-Bus connections.
    CloseConnections,
}

/// The battery is known and critical.
pub open spec fn battery_critical(battery: Option<BatteryStatus>) -> bool {
    match battery {
        Some(b) => b.critical(),
        None => false,
    }
}

/// The machine is known to be on mains power.
pub open spec fn on_mains(battery: Option<BatteryStatus>) -> bool {
    match battery {
        Some(b) => b.is_charging,
        None => false,
    }
}

/// The effects of switching the inhibitors to `active`: fresh connections
/// before taking them, every inhibitor switched (the screen saver's to
/// `screensaver`), and the connections closed after letting them go.
pub open spec fn switch_effects(active: bool, screensaver: bool) -> Seq<Effect> {
    (if active {
        seq![Effect::OpenConnections]
    } else {
        Seq::empty()
    }) + seq![
        Effect::Inhibit(Inhibitor::Idle, active),
        Effect::Inhibit(Inhibitor::Sleep, active),
        Effect::Inhibit(Inhibitor::LidSwitch, active),
        Effect::Inhibit(Inhibitor::Wayland, active),
        Effect::Inhibit(Inhibitor::Screensaver, screensaver),
    ] + (if active {
        Seq::empty()
    } else {
        seq![Effect::CloseConnections]
    })
}

/// The applet's state.
#[derive(Debug, Clone, Copy, PartialEq, Eq)]
pub struct CaffeineApplet {
    /// The inhibitors are held.
    pub is_active: bool,
    /// The user asked for caffeine.
    pub user_enabled: bool,
    /// The last battery reading.
    pub battery_status: Option<BatteryStatus>,
    /// The last lid reading.
    pub lid_state: LidState,
    /// The lid can be watched on this machine.
    pub lid_supported: bool,
    /// The low-battery notification was shown for the current low-battery spell.
    pub notification_sent: bool,
}

impl CaffeineApplet {
    /// The inhibitors should be held: the user asked for them and the battery is not critical.
    pub open spec fn should_be_active(self) -> bool {
        self.user_enabled && !battery_critical(self.battery_status)
    }

    /// The lid is watched, closed, and the machine is on mains power.
    pub open spec fn lid_closed_on_power(self) -> bool {
        self.lid_supported && self.lid_state == LidState::Closed && on_mains(self.battery_status)
    }

    /// The state that every reachable applet is in: the inhibitors are held
    /// exactly when they should be, and a critical battery leaves no request
    /// from the user standing.
    pub open spec fn consistent(self) -> bool {
        &&& self.is_active == self.should_be_active()
        &&& battery_critical(self.battery_status) ==> !self.user_enabled
    }

    /// Bringing the inhibitors in line with `should_be_active`: nothing when
    /// they already are; otherwise the switch, where the screen saver is never
    /// inhibited with the lid closed on mains power.
    pub open spec fn synced(self) -> (CaffeineApplet, Seq<Effect>) {
        let target = self.should_be_active();
        if target == self.is_active {
            (self, Seq::empty())
        } else {
            (
                CaffeineApplet { is_active: target, ..self },
                switch_effects(target, target && !self.lid_closed_on_power()),
            )
        }
    }

    /// A click: with a critical battery the request is refused and the
    /// low-battery notice shown; otherwise the request flips (and a known,
    /// healthy battery clears the low-battery notice flag).
    pub open spec fn after_toggle(self) -> (CaffeineApplet, Seq<Effect>) {
        let (pre, notes) = match self.battery_status {
            Some(b) => if b.critical() {
                (
                    CaffeineApplet { user_enabled: false, notification_sent: true, ..self },
                    seq![Effect::Notify(Notice::BatteryLow)],
                )
            } else {
                (
                    CaffeineApplet {
                        user_enabled: !self.user_enabled,
                        notification_sent: false,
                        ..self
                    },
                    Seq::empty(),
                )
            },
            None => (CaffeineApplet { user_enabled: !self.user_enabled, ..self }, Seq::empty()),
        };
        (pre.synced().0, notes + pre.synced().1)
    }

    /// A battery reading: the battery turning critical withdraws the user's
    /// request (with the low-battery notice, unless it was already shown); a
    /// battery that is not critical clears the notice flag; with the lid
    /// watched and closed, a request still standing is withdrawn (with the lid
    /// notice), whatever the power source.
    pub open spec fn after_battery_update(self, status: Option<BatteryStatus>) -> (
        CaffeineApplet,
        Seq<Effect>,
    ) {
        let now = battery_critical(status);
        let cut = now && !battery_critical(self.battery_status) && self.user_enabled;
        let warn = cut && !self.notification_sent;
        let enabled = self.user_enabled && !cut;
        let lid_cut = self.lid_supported && self.lid_state == LidState::Closed && enabled;
        let pre = CaffeineApplet {
            battery_status: status,
            user_enabled: enabled && !lid_cut,
            notification_sent: if !now {
                false
            } else {
                self.notification_sent || warn
            },
            ..self
        };
        let notes = (if warn {
            seq![Effect::Notify(Notice::BatteryLow)]
        } else {
            Seq::empty()
        }) + (if lid_cut {
            seq![Effect::Notify(Notice::LidClosed)]
        } else {
            Seq::empty()
        });
        (pre.synced().0, notes + pre.synced().1)
    }

    /// The lid is newly seen closed while watched and asked for.
    pub open spec fn lid_closes(self, new_state: LidState) -> bool {
        &&& self.lid_supported
        &&& self.lid_state != LidState::Closed
        &&& new_state == LidState::Closed
        &&& self.user_enabled
    }

    /// A lid reading: it is recorded; when the lid is newly closed with the
    /// request standing, whatever the power source, the request is withdrawn,
    /// the inhibitors let go, and then the lid notice shown.
    pub open spec fn after_lid_update(self, new_state: LidState) -> (CaffeineApplet, Seq<Effect>) {
        let recorded = CaffeineApplet { lid_state: new_state, ..self };
        if self.lid_closes(new_state) {
            let pre = CaffeineApplet { user_enabled: false, ..recorded };
            (pre.synced().0, pre.synced().1.push(Effect::Notify(Notice::LidClosed)))
        } else {
            (recorded, Seq::empty())
        }
    }

    /// The state after `message`, and what the desktop is asked to do, in order.
    pub open spec fn after(self, message: Message) -> (CaffeineApplet, Seq<Effect>) {
        match message {
            Message::Toggle => self.after_toggle(),
            Message::BatteryUpdate(status) => self.after_battery_update(status),
            Message::LidStateUpdate(new_state) => self.after_lid_update(new_state),
        }
    }

    /// The applet at start: nothing asked for, nothing held, with the first
    /// battery and lid readings.
    pub fn init(battery_status: Option<BatteryStatus>, lid_state: LidState, lid_supported: bool) -> (s:
        CaffeineApplet)
        ensures
            s == (CaffeineApplet {
                is_active: false,
                user_enabled: false,
                battery_status,
                lid_state,
                lid_supported,
                notification_sent: false,
            }),
            s.consistent(),
    {
        CaffeineApplet {
            is_active: false,
            user_enabled: false,
            battery_status,
            lid_state,
            lid_supported,
            notification_sent: false,
        }
    }

    fn battery_is_critical(&self) -> (r: bool)
        ensures
            r == battery_critical(self.battery_status),
    {
        match &self.battery_status {
            Some(b) => b.is_critical(),
            None => false,
        }
    }

    /// Brings the inhibitors in line with what the state asks for, appending
    /// the effects to `effects`.
    pub fn update_inhibitor_state(&mut self, effects: &mut Vec<Effect>)
        ensures
            *final(self) == old(self).synced().0,
            final(effects)@ == old(effects)@ + old(self).synced().1,
    {
        let should_be_active = self.user_enabled && !self.battery_is_critical();
        if should_be_active != self.is_active {
            self.is_active = should_be_active;
            let on_mains = match &self.battery_status {
                Some(b) => b.is_charging,
                None => false,
            };
            let lid_closed_on_power = self.lid_supported && self.lid_state == LidState::Closed
                && on_mains;
            if should_be_active {
                effects.push(Effect::OpenConnections);
            }
            effects.push(Effect::Inhibit(Inhibitor::Idle, should_be_active));
            effects.push(Effect::Inhibit(Inhibitor::Sleep, should_be_active));
            effects.push(Effect::Inhibit(Inhibitor::LidSwitch, should_be_active));
            effects.push(Effect::Inhibit(Inhibitor::Wayland, should_be_active));
            effects.push(
                Effect::Inhibit(Inhibitor::Screensaver, should_be_active && !lid_closed_on_power),
            );
            if !should_be_active {
                effects.push(Effect::CloseConnections);
            }
            assert(final(effects)@ =~= old(effects)@ + switch_effects(
                should_be_active,
                should_be_active && !lid_closed_on_power,
            ));
        } else {
            assert(final(effects)@ =~= old(effects)@ + Seq::<Effect>::empty());
        }
    }

    /// Reacts to `message`: updates the state and returns what the desktop
    /// is to do, in order.
    pub fn update(&mut self, message: Message) -> (effects: Vec<Effect>)
        ensures
            *final(self) == old(self).after(message).0,
            effects@ == old(self).after(message).1,
    {
        let mut effects: Vec<Effect> = Vec::new();
        match message {
            Message::Toggle => {
                match &self.battery_status {
                    Some(b) => {
                        if b.is_critical() {
                            effects.push(Effect::Notify(Notice::BatteryLow));
                            self.user_enabled = false;
                            self.notification_sent = true;
                        } else {
                            self.user_enabled = !self.user_enabled;
                            self.notification_sent = false;
                        }
                    },
                    None => {
                        self.user_enabled = !self.user_enabled;
                    },
                }
                self.update_inhibitor_state(&mut effects);
            },
            Message::BatteryUpdate(status) => {
                let was_critical = self.battery_is_critical();
                self.battery_status = status;
                let is_now_critical = self.battery_is_critical();
                if is_now_critical && !was_critical && self.user_enabled {
                    self.user_enabled = false;
                    if !self.notification_sent {
                        effects.push(Effect::Notify(Notice::BatteryLow));
                        self.notification_sent = true;
                    }
                }
                if !is_now_critical {
                    self.notification_sent = false;
                }
                if self.lid_supported && self.lid_state == LidState::Closed && self.user_enabled {
                    self.user_enabled = false;
                    effects.push(Effect::Notify(Notice::LidClosed));
                }
                self.update_inhibitor_state(&mut effects);
            },
            Message::LidStateUpdate(new_state) => {
                let old_state = self.lid_state;
                self.lid_state = new_state;
                if self.lid_supported && old_state != LidState::Closed && new_state
                    == LidState::Closed {
                    if self.user_enabled {
                        self.user_enabled = false;
                        self.update_inhibitor_state(&mut effects);
                        effects.push(Effect::Notify(Notice::LidClosed));
                    }
                }
            },
        }
        effects
    }
}

} // verus!
