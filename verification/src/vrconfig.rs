//! The hot-reloaded tracker configuration: its snapshot type and the
//! debounced watch/reload state machine.
//!
//! The snapshot is an immutable value replaced wholesale on reload; readers
//! pull the display toggles out of it through the accessors below. The watch
//! machine collapses a burst of rapid edits into a single reload: every
//! modification restarts the one pending debounce timer, and only the timer's
//! expiry reloads.
use crate::watcher::ChangeKind;
use vstd::prelude::*;

verus! {

/// Skeleton toggle switches; a missing field means "off".
#[derive(Clone, Copy, Debug, PartialEq, Eq, Structural)]
pub struct VRConfigSkeletonToggles {
    pub skating_correction: Option<bool>,
    pub floor_clip: Option<bool>,
}

/// Skeleton section of the configuration.
#[derive(Clone, Copy, Debug, PartialEq, Eq, Structural)]
pub struct VRConfigSkeleton {
    pub toggles: Option<VRConfigSkeletonToggles>,
}

/// Leg-tweak section; the correction strength is held as a whole percentage.
#[derive(Clone, Copy, Debug, PartialEq, Eq, Structural)]
pub struct VRConfigLegTweaks {
    pub correction_strength_percent: Option<u32>,
}

/// One configuration snapshot.
#[derive(Clone, Copy, Debug, PartialEq, Eq, Structural)]
pub struct VRConfig {
    pub skeleton: Option<VRConfigSkeleton>,
    pub leg_tweaks: Option<VRConfigLegTweaks>,
}

/// A missing boolean reads as false.
pub open spec fn opt_bool_or_false(o: Option<bool>) -> bool {
    match o {
        Some(b) => b,
        None => false,
    }
}

/// The floor-clip toggle the snapshot carries, off when any layer is absent.
pub open spec fn floor_clip_spec(c: VRConfig) -> bool {
    match c.skeleton {
        Some(sk) => match sk.toggles {
            Some(t) => opt_bool_or_false(t.floor_clip),
            None => false,
        },
        None => false,
    }
}

/// The skating-correction toggle, off when any layer is absent.
pub open spec fn skating_correction_spec(c: VRConfig) -> bool {
    match c.skeleton {
        Some(sk) => match sk.toggles {
            Some(t) => opt_bool_or_false(t.skating_correction),
            None => false,
        },
        None => false,
    }
}

/// The correction strength in percent, zero when absent.
pub open spec fn correction_strength_spec(c: VRConfig) -> u32 {
    match c.leg_tweaks {
        Some(lt) => match lt.correction_strength_percent {
            Some(p) => p,
            None => 0,
        },
        None => 0,
    }
}

impl VRConfig {
    /// The snapshot an absent or empty configuration file yields: every
    /// section missing.
    pub fn new() -> (c: Self)
        ensures
            c.skeleton is None,
            c.leg_tweaks is None,
    {
        VRConfig { skeleton: None, leg_tweaks: None }
    }

    /// Decides `floor_clip_spec`.
    pub fn floor_clip_on(&self) -> (r: bool)
        ensures
            r == floor_clip_spec(*self),
    {
        match &self.skeleton {
            Some(sk) => match &sk.toggles {
                Some(t) => match t.floor_clip {
                    Some(b) => b,
                    None => false,
                },
                None => false,
            },
            None => false,
        }
    }

    /// Decides `skating_correction_spec`.
    pub fn skating_correction_on(&self) -> (r: bool)
        ensures
            r == skating_correction_spec(*self),
    {
        match &self.skeleton {
            Some(sk) => match &sk.toggles {
                Some(t) => match t.skating_correction {
                    Some(b) => b,
                    None => false,
                },
                None => false,
            },
            None => false,
        }
    }

    /// Decides `correction_strength_spec`.
    pub fn correction_strength_percent(&self) -> (r: u32)
        ensures
            r == correction_strength_spec(*self),
    {
        match &self.leg_tweaks {
            Some(lt) => match lt.correction_strength_percent {
                Some(p) => p,
                None => 0,
            },
            None => 0,
        }
    }
}

/// The reload signal published to the presentation layer; it carries no
/// payload, the consumer re-reads the shared snapshot.
#[derive(Clone, Copy, Debug, PartialEq, Eq, Structural)]
pub enum Event {
    Reload,
}

/// What the config-watch supervisor just observed.
#[derive(Clone, Copy, Debug, PartialEq, Eq, Structural)]
pub enum ConfigWatchInput {
    /// The watcher was (re)created: streaming begins.
    Connected,
    /// A raw change notification arrived.
    Change(ChangeKind),
    /// The pending debounce timer expired uncancelled.
    DebounceFire,
}

/// Whether a debounce timer is pending for the watched file.
#[derive(Clone, Copy, Debug, PartialEq, Eq, Structural)]
pub struct ConfigWatchState {
    pub pending_debounce: bool,
}

/// What the runtime loop must do next.
#[derive(Clone, Copy, Debug, PartialEq, Eq, Structural)]
pub enum ConfigWatchAction {
    /// Cancel any pending debounce timer and start a fresh one.
    RestartDebounce,
    /// Reload the file and publish one reload signal.
    ReloadAndPublish,
    /// Drop the watcher and go back to connecting.
    Reconnect,
    Ignore,
}

/// One decision of the config-watch supervisor. Entering streaming reloads
/// and publishes once, so a fresh watch starts from a consistent snapshot. A
/// modification only restarts the debounce timer; the reload happens when the
/// timer expires uncancelled. An error notification reconnects; other
/// notifications are ignored.
pub open spec fn config_step_spec(s: ConfigWatchState, input: ConfigWatchInput) -> (
    ConfigWatchState,
    ConfigWatchAction,
) {
    match input {
        ConfigWatchInput::Connected => (
            ConfigWatchState { pending_debounce: false },
            ConfigWatchAction::ReloadAndPublish,
        ),
        ConfigWatchInput::Change(k) => match k {
            ChangeKind::ModifiedData | ChangeKind::ModifiedOther => (
                ConfigWatchState { pending_debounce: true },
                ConfigWatchAction::RestartDebounce,
            ),
            ChangeKind::Error => (
                ConfigWatchState { pending_debounce: false },
                ConfigWatchAction::Reconnect,
            ),
            _ => (s, ConfigWatchAction::Ignore),
        },
        ConfigWatchInput::DebounceFire => if s.pending_debounce {
            (ConfigWatchState { pending_debounce: false }, ConfigWatchAction::ReloadAndPublish)
        } else {
            (s, ConfigWatchAction::Ignore)
        },
    }
}

/// Decides `config_step_spec`.
pub fn config_watch_step(s: ConfigWatchState, input: ConfigWatchInput) -> (r: (
    ConfigWatchState,
    ConfigWatchAction,
))
    ensures
        r == config_step_spec(s, input),
{
    match input {
        ConfigWatchInput::Connected => (
            ConfigWatchState { pending_debounce: false },
            ConfigWatchAction::ReloadAndPublish,
        ),
        ConfigWatchInput::Change(k) => match k {
            ChangeKind::ModifiedData | ChangeKind::ModifiedOther => (
                ConfigWatchState { pending_debounce: true },
                ConfigWatchAction::RestartDebounce,
            ),
            ChangeKind::Error => (
                ConfigWatchState { pending_debounce: false },
                ConfigWatchAction::Reconnect,
            ),
            _ => (s, ConfigWatchAction::Ignore),
        },
        ConfigWatchInput::DebounceFire => if s.pending_debounce {
            (ConfigWatchState { pending_debounce: false }, ConfigWatchAction::ReloadAndPublish)
        } else {
            (s, ConfigWatchAction::Ignore)
        },
    }
}

/// How many of the decisions along a run reload and publish.
pub open spec fn count_reloads(s: ConfigWatchState, inputs: Seq<ConfigWatchInput>) -> int
    decreases inputs.len(),
{
    if inputs.len() == 0 {
        0
    } else {
        let (s2, a) = config_step_spec(s, inputs[0]);
        (if a is ReloadAndPublish {
            1int
        } else {
            0int
        }) + count_reloads(s2, inputs.drop_first())
    }
}

/// A burst of `n` modifications within one debounce window: the timer is
/// restarted `n` times and expires once, after the burst.
pub open spec fn modify_burst(n: nat) -> Seq<ConfigWatchInput> {
    Seq::new(n, |k: int| ConfigWatchInput::Change(ChangeKind::ModifiedData)).push(
        ConfigWatchInput::DebounceFire,
    )
}

/// Law (debounce collapsing): any burst of modifications arriving faster than
/// the debounce interval — so that only the last restarted timer expires —
/// produces exactly one reload, whatever the machine's prior state.
pub proof fn lemma_debounce_collapses(s: ConfigWatchState, n: nat)
    requires
        n >= 1,
    ensures
        count_reloads(s, modify_burst(n)) == 1,
    decreases n,
{
    let burst = modify_burst(n);
    let armed = ConfigWatchState { pending_debounce: true };
    let disarmed = ConfigWatchState { pending_debounce: false };
    if n == 1 {
        assert(burst.len() == 2);
        assert(burst[0] == ConfigWatchInput::Change(ChangeKind::ModifiedData));
        let tail = burst.drop_first();
        assert(tail.len() == 1);
        assert(tail[0] == ConfigWatchInput::DebounceFire);
        assert(count_reloads(disarmed, tail.drop_first()) == 0);
        assert(count_reloads(armed, tail) == 1);
        assert(count_reloads(s, burst) == 1);
    } else {
        assert(burst[0] == ConfigWatchInput::Change(ChangeKind::ModifiedData));
        assert(burst.drop_first() =~= modify_burst((n - 1) as nat));
        lemma_debounce_collapses(armed, (n - 1) as nat);
        assert(count_reloads(s, burst) == count_reloads(armed, modify_burst((n - 1) as nat)));
    }
}

} // verus!
