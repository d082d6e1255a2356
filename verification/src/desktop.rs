//! What the applet hands the desktop: the Wayland globals it binds, the
//! requests it makes of logind and of the screen saver, its notifications,
//! its icon and its polling.
use vstd::prelude::*;

use crate::applet::{CaffeineApplet, Effect, Inhibitor, Notice};
use crate::locale::{battery_low_key, lid_closed_key};
use crate::text::{chars_eq, chars_of};

verus! {

/// A Wayland global that the applet binds.
#[derive(Debug, Clone, Copy, PartialEq, Eq, Structural)]
pub enum WaylandGlobal {
    /// `wl_compositor`, bound at version 6 at most.
    Compositor,
    /// `zwp_idle_inhibit_manager_v1`, bound at version 1 at most.
    IdleInhibitManager,
}

/// The newest version of `wl_compositor` that the applet speaks.
pub const COMPOSITOR_MAX_VERSION: u32 = 6;

/// The newest version of `zwp_idle_inhibit_manager_v1` that the applet speaks.
pub const IDLE_INHIBIT_MANAGER_MAX_VERSION: u32 = 1;

/// What the applet binds for a global that the registry announces with
/// `interface` at `version`: the global and the version to bind it at.
pub open spec fn binding_of(interface: Seq<char>, version: u32) -> Option<(WaylandGlobal, u32)> {
    if interface == "wl_compositor"@ {
        Some(
            (
                WaylandGlobal::Compositor,
                if version < COMPOSITOR_MAX_VERSION {
                    version
                } else {
                    COMPOSITOR_MAX_VERSION
                },
            ),
        )
    } else if interface == "zwp_idle_inhibit_manager_v1"@ {
        Some(
            (
                WaylandGlobal::IdleInhibitManager,
                if version < IDLE_INHIBIT_MANAGER_MAX_VERSION {
                    version
                } else {
                    IDLE_INHIBIT_MANAGER_MAX_VERSION
                },
            ),
        )
    } else {
        None
    }
}

/// The applet binds exactly two globals, each under its own interface name
/// and never at a version above the announced one or its own limit; every
/// other interface is left alone.
pub proof fn lemma_binds_only_its_globals(interface: Seq<char>, version: u32)
    ensures
        binding_of(interface, version) matches Some((WaylandGlobal::Compositor, v)) ==> interface
            == "wl_compositor"@ && v <= version && v <= COMPOSITOR_MAX_VERSION,
        binding_of(interface, version) matches Some((WaylandGlobal::IdleInhibitManager, v))
            ==> interface == "zwp_idle_inhibit_manager_v1"@ && v <= version && v
            <= IDLE_INHIBIT_MANAGER_MAX_VERSION,
        interface == "wl_compositor"@ ==> binding_of(interface, version) matches Some(
            (WaylandGlobal::Compositor, _),
        ),
        interface == "zwp_idle_inhibit_manager_v1"@ ==> binding_of(interface, version) matches Some(
            (WaylandGlobal::IdleInhibitManager, _),
        ),
        interface != "wl_compositor"@ && interface != "zwp_idle_inhibit_manager_v1"@
            ==> binding_of(interface, version) is None,
{
    reveal_strlit("wl_compositor");
    reveal_strlit("zwp_idle_inhibit_manager_v1");
    assert("wl_compositor"@.len() != "zwp_idle_inhibit_manager_v1"@.len());
}

/// The global to bind, and at which version, for a registry announcement;
/// `None` for an interface that the applet does not use.
pub fn registry_binding(interface: &str, version: u32) -> (r: Option<(WaylandGlobal, u32)>)
    ensures
        r == binding_of(interface@, version),
{
    let name = chars_of(interface);
    if chars_eq(&name, &chars_of("wl_compositor")) {
        let v = if version < COMPOSITOR_MAX_VERSION {
            version
        } else {
            COMPOSITOR_MAX_VERSION
        };
        Some((WaylandGlobal::Compositor, v))
    } else if chars_eq(&name, &chars_of("zwp_idle_inhibit_manager_v1")) {
        let v = if version < IDLE_INHIBIT_MANAGER_MAX_VERSION {
            version
        } else {
            IDLE_INHIBIT_MANAGER_MAX_VERSION
        };
        Some((WaylandGlobal::IdleInhibitManager, v))
    } else {
        None
    }
}

/// What to do with the Wayland idle inhibitor.
#[derive(Debug, Clone, Copy, PartialEq, Eq, Structural)]
pub enum WaylandStep {
    /// Create a surface, commit it, and put an idle inhibitor on it.
    CreateInhibitor,
    /// Destroy the inhibitor and its surface, if there are any.
    DestroyInhibitor,
    /// Leave things as they are.
    Nothing,
}

/// Switching the Wayland inhibitor to `active`: taking it creates one only
/// when there is none yet and both the compositor and the inhibit manager are
/// bound; letting it go always destroys what there is.
pub open spec fn wayland_step_of(
    active: bool,
    has_inhibitor: bool,
    has_compositor: bool,
    has_manager: bool,
) -> WaylandStep {
    if active {
        if !has_inhibitor && has_compositor && has_manager {
            WaylandStep::CreateInhibitor
        } else {
            WaylandStep::Nothing
        }
    } else {
        WaylandStep::DestroyInhibitor
    }
}

/// The step that switches the Wayland inhibitor to `active`, given what is bound.
pub fn wayland_step(active: bool, has_inhibitor: bool, has_compositor: bool, has_manager: bool) -> (r:
    WaylandStep)
    ensures
        r == wayland_step_of(active, has_inhibitor, has_compositor, has_manager),
{
    if active {
        if !has_inhibitor && has_compositor && has_manager {
            WaylandStep::CreateInhibitor
        } else {
            WaylandStep::Nothing
        }
    } else {
        WaylandStep::DestroyInhibitor
    }
}

/// The `who` of the applet's logind locks.
pub fn lock_owner() -> (who: &'static str)
    ensures
        who@ == "CosmicCaffeineLand"@,
{
    "CosmicCaffeineLand"
}

/// The `mode` of the applet's logind locks: they block.
pub fn lock_mode() -> (mode: &'static str)
    ensures
        mode@ == "block"@,
{
    "block"
}

/// The application name that the applet gives the screen saver.
pub fn screensaver_application() -> (name: &'static str)
    ensures
        name@ == "io.github.submax82.CosmicCaffeineLand"@,
{
    "io.github.submax82.CosmicCaffeineLand"
}

/// The reason that the applet gives the screen saver.
pub fn screensaver_reason() -> (why: &'static str)
    ensures
        why@ == "User requested to prevent screensaver"@,
{
    "User requested to prevent screensaver"
}

impl Inhibitor {
    /// For a logind lock, its `what` and `why`; `None` for the Wayland and
    /// screen saver inhibitors.
    pub fn login1_lock(&self) -> (r: Option<(&'static str, &'static str)>)
        ensures
            match *self {
                Inhibitor::Idle => r matches Some((what, why)) && what@ == "idle"@ && why@
                    == "User requested to prevent idle"@,
                Inhibitor::Sleep => r matches Some((what, why)) && what@ == "sleep"@ && why@
                    == "User requested to prevent sleep"@,
                Inhibitor::LidSwitch => r matches Some((what, why)) && what@
                    == "handle-lid-switch"@ && why@ == "User requested to prevent lid action"@,
                Inhibitor::Wayland => r is None,
                Inhibitor::Screensaver => r is None,
            },
    {
        match self {
            Inhibitor::Idle => Some(("idle", "User requested to prevent idle")),
            Inhibitor::Sleep => Some(("sleep", "User requested to prevent sleep")),
            Inhibitor::LidSwitch => Some(
                ("handle-lid-switch", "User requested to prevent lid action"),
            ),
            Inhibitor::Wayland => None,
            Inhibitor::Screensaver => None,
        }
    }
}

impl Notice {
    /// The key of the notice's text in the translations.
    pub fn body_key(&self) -> (key: &'static str)
        ensures
            key@ == match *self {
                Notice::BatteryLow => battery_low_key(),
                Notice::LidClosed => lid_closed_key(),
            },
    {
        match self {
            Notice::BatteryLow => "battery-low-notification",
            Notice::LidClosed => "lid-closed-notification",
        }
    }

    /// The icon name of the notice.
    pub fn icon_name(&self) -> (icon: &'static str)
        ensures
            icon@ == match *self {
                Notice::BatteryLow => "battery-caution"@,
                Notice::LidClosed => "caffeine"@,
            },
    {
        match self {
            Notice::BatteryLow => "battery-caution",
            Notice::LidClosed => "caffeine",
        }
    }
}

/// The applet's icon: a full cup when active, an empty one when not, drawn
/// for a dark or a light theme.
#[derive(Debug, Clone, Copy, PartialEq, Eq, Structural)]
pub enum CaffeineIcon {
    OnDark,
    OffDark,
    OnLight,
    OffLight,
}

/// Something that the applet polls.
#[derive(Debug, Clone, Copy, PartialEq, Eq, Structural)]
pub enum Poll {
    /// Ask UPower for the battery.
    Battery,
    /// Read the lid state.
    Lid,
}

/// Seconds between two polls.
pub const POLL_INTERVAL_SECS: u64 = 10;

impl CaffeineApplet {
    /// The icon to show under a dark (`is_dark`) or light theme.
    pub fn icon(&self, is_dark: bool) -> (icon: CaffeineIcon)
        ensures
            icon == (if is_dark {
                if self.is_active {
                    CaffeineIcon::OnDark
                } else {
                    CaffeineIcon::OffDark
                }
            } else {
                if self.is_active {
                    CaffeineIcon::OnLight
                } else {
                    CaffeineIcon::OffLight
                }
            }),
    {
        match (is_dark, self.is_active) {
            (true, true) => CaffeineIcon::OnDark,
            (true, false) => CaffeineIcon::OffDark,
            (false, true) => CaffeineIcon::OnLight,
            (false, false) => CaffeineIcon::OffLight,
        }
    }

    /// What to poll, every `POLL_INTERVAL_SECS` seconds: the battery always,
    /// the lid only where it can be watched.
    pub fn subscription(&self) -> (polls: Vec<Poll>)
        ensures
            polls@ == (if self.lid_supported {
                seq![Poll::Battery, Poll::Lid]
            } else {
                seq![Poll::Battery]
            }),
    {
        let mut polls: Vec<Poll> = Vec::new();
        polls.push(Poll::Battery);
        if self.lid_supported {
            polls.push(Poll::Lid);
        }
        polls
    }

    /// What to do when the applet goes away: let go of the Wayland inhibitor,
    /// the logind locks and the screen saver inhibition, then close the
    /// connections.
    pub fn shutdown_effects() -> (effects: Vec<Effect>)
        ensures
            effects@ == seq![
                Effect::Inhibit(Inhibitor::Wayland, false),
                Effect::Inhibit(Inhibitor::Idle, false),
                Effect::Inhibit(Inhibitor::Sleep, false),
                Effect::Inhibit(Inhibitor::LidSwitch, false),
                Effect::Inhibit(Inhibitor::Screensaver, false),
                Effect::CloseConnections,
            ],
    {
        let mut effects: Vec<Effect> = Vec::new();
        effects.push(Effect::Inhibit(Inhibitor::Wayland, false));
        effects.push(Effect::Inhibit(Inhibitor::Idle, false));
        effects.push(Effect::Inhibit(Inhibitor::Sleep, false));
        effects.push(Effect::Inhibit(Inhibitor::LidSwitch, false));
        effects.push(Effect::Inhibit(Inhibitor::Screensaver, false));
        effects.push(Effect::CloseConnections);
        effects
    }
}

} // verus!
