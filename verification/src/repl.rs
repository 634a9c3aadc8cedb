//! The arguments of the session console's commands: the scene, the monitor
//! state and the power state a command names.

use vstd::prelude::*;
use crate::text::str_eq;

verus! {

/// A scene of the board's display, as the console names it.
#[derive(Clone, Copy, Debug, PartialEq, Eq, Structural)]
pub enum ReplScene {
    Test,
    Log,
    Logo,
}

/// A power state of the system under test, as the console names it.
#[derive(Clone, Copy, Debug, PartialEq, Eq, Structural)]
pub enum ReplPowerState {
    On,
    Off,
    Standby,
}

/// The scene named `test`, `log` or `logo`.
pub open spec fn spec_scene_arg(s: Seq<char>) -> Option<ReplScene> {
    if s == "test"@ {
        Some(ReplScene::Test)
    } else if s == "log"@ {
        Some(ReplScene::Log)
    } else if s == "logo"@ {
        Some(ReplScene::Logo)
    } else {
        None
    }
}

/// Reads the argument of `scene`; an unknown name is reported and ignored.
pub fn scene_arg(s: &str) -> (r: Option<ReplScene>)
    ensures
        r == spec_scene_arg(s@),
{
    if str_eq(s, "test") {
        Some(ReplScene::Test)
    } else if str_eq(s, "log") {
        Some(ReplScene::Log)
    } else if str_eq(s, "logo") {
        Some(ReplScene::Logo)
    } else {
        None
    }
}

/// Whether the monitor goes to standby: `on` wakes it, `off` puts it to
/// standby.
pub open spec fn spec_monitor_standby_arg(s: Seq<char>) -> Option<bool> {
    if s == "on"@ {
        Some(false)
    } else if s == "off"@ {
        Some(true)
    } else {
        None
    }
}

/// Reads the argument of `monitor`; an unknown state is reported and
/// ignored.
pub fn monitor_standby_arg(s: &str) -> (r: Option<bool>)
    ensures
        r == spec_monitor_standby_arg(s@),
{
    if str_eq(s, "on") {
        Some(false)
    } else if str_eq(s, "off") {
        Some(true)
    } else {
        None
    }
}

/// The power state named `on`, `off` or `standby`.
pub open spec fn spec_power_arg(s: Seq<char>) -> Option<ReplPowerState> {
    if s == "on"@ {
        Some(ReplPowerState::On)
    } else if s == "off"@ {
        Some(ReplPowerState::Off)
    } else if s == "standby"@ {
        Some(ReplPowerState::Standby)
    } else {
        None
    }
}

/// Reads the argument of `psu`; an unknown state is reported and ignored.
pub fn power_arg(s: &str) -> (r: Option<ReplPowerState>)
    ensures
        r == spec_power_arg(s@),
{
    if str_eq(s, "on") {
        Some(ReplPowerState::On)
    } else if str_eq(s, "off") {
        Some(ReplPowerState::Off)
    } else if str_eq(s, "standby") {
        Some(ReplPowerState::Standby)
    } else {
        None
    }
}

} // verus!
