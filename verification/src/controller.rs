use vstd::prelude::*;

use crate::actions::{
    spec_mode_change_action, spec_switch_plan, Action, ActionView, StagedAction,
    UserActionRequired,
};
use crate::config::{GfxConfig, GfxConfigDbus};
use crate::error::GfxError;
use crate::pci_device::{GfxMode, GfxVendor};
use crate::special_asus::AsusGfxState;

verus! {

/// Where a mode switch stands. At most one switch is in flight, and a plan
/// either runs to completion or stops at its first failing step.
#[derive(Debug, Clone, Copy, PartialEq, Eq, Structural)]
pub enum SwitchState {
    Idle,
    Planning,
    UserActionReported,
    Executing,
    Completed,
    Failed,
}

/// What happens to a switch in flight.
#[derive(Debug, Clone, Copy, PartialEq, Eq, Structural)]
pub enum SwitchEvent {
    /// A `set_mode` request arrived
    Request,
    /// The planner handed back a verdict for the user
    PlannedUserAction,
    /// The planner handed back steps; the intended mode is persisted now
    PlannedSteps,
    /// The last step returned success
    LastStepDone,
    /// A step returned an error; the remainder is discarded
    StepFailed,
    /// The controller is ready for the next request
    Settled,
}

/// One transition of the per-switch state machine. Anything not in the
/// table leaves the state alone, so no event can conjure a second switch
/// while one is in flight.
pub fn switch_transition(state: SwitchState, event: SwitchEvent) -> (r: SwitchState)
    ensures
        state is Idle && event is Request ==> r is Planning,
        state is Planning && event is PlannedUserAction ==> r is UserActionReported,
        state is Planning && event is PlannedSteps ==> r is Executing,
        state is Executing && event is LastStepDone ==> r is Completed,
        state is Executing && event is StepFailed ==> r is Failed,
        (state is UserActionReported || state is Completed || state is Failed) && event
            is Settled ==> r is Idle,
        !(state is Idle && event is Request) && !(state is Planning && (event
            is PlannedUserAction || event is PlannedSteps)) && !(state is Executing && (event
            is LastStepDone || event is StepFailed)) && !((state is UserActionReported || state
            is Completed || state is Failed) && event is Settled) ==> r == state,
{
    match (state, event) {
        (SwitchState::Idle, SwitchEvent::Request) => SwitchState::Planning,
        (SwitchState::Planning, SwitchEvent::PlannedUserAction) => SwitchState::UserActionReported,
        (SwitchState::Planning, SwitchEvent::PlannedSteps) => SwitchState::Executing,
        (SwitchState::Executing, SwitchEvent::LastStepDone) => SwitchState::Completed,
        (SwitchState::Executing, SwitchEvent::StepFailed) => SwitchState::Failed,
        (SwitchState::UserActionReported, SwitchEvent::Settled) => SwitchState::Idle,
        (SwitchState::Completed, SwitchEvent::Settled) => SwitchState::Idle,
        (SwitchState::Failed, SwitchEvent::Settled) => SwitchState::Idle,
        (s, _) => s,
    }
}

/// The controller's planning step for a switch request `from -> to`.
///
/// A request for the vfio mode is refused outright while `vfio_enable` is
/// off, before any planning, and the config is left untouched. Otherwise the
/// planner decides: when it hands back steps, the intended mode and the
/// pending bookkeeping are recorded on the config now — the shell persists
/// it before executing, so a crash leaves the next boot aiming at the
/// intended mode; when it hands back a verdict for the user, nothing is
/// recorded.
pub fn request_mode_change(
    config: &mut GfxConfig,
    vendor: GfxVendor,
    from: GfxMode,
    to: GfxMode,
) -> (r: Result<Action, GfxError>)
    ensures
        to is Vfio && !old(config).vfio_enable ==> (r matches Err(e) && e is NotSupported
            && *final(config) == *old(config)),
        !(to is Vfio && !old(config).vfio_enable) ==> ({
            let plan = spec_switch_plan(
                from,
                to,
                vendor,
                old(config).hotplug_type,
                old(config).no_logind,
                old(config).always_reboot,
            );
            &&& (r matches Ok(a) && a@ =~~= plan)
            &&& (plan matches ActionView::Steps(s) ==> {
                &&& final(config).mode == to
                &&& final(config).pending_mode == Some(to)
                &&& final(config).pending_action == Some(spec_mode_change_action(to, from))
                &&& final(config).config_path == old(config).config_path
                &&& final(config).tmp_mode == old(config).tmp_mode
                &&& final(config).vfio_enable == old(config).vfio_enable
                &&& final(config).vfio_save == old(config).vfio_save
                &&& final(config).always_reboot == old(config).always_reboot
                &&& final(config).no_logind == old(config).no_logind
                &&& final(config).logout_timeout_s == old(config).logout_timeout_s
                &&& final(config).hotplug_type == old(config).hotplug_type
            })
            &&& (plan matches ActionView::User(a) ==> *final(config) == *old(config))
        }),
{
    if to == GfxMode::Vfio && !config.vfio_enable {
        return Err(
            GfxError::NotSupported("Can not switch to vfio mode if it is not enabled".to_owned()),
        );
    }
    let action = StagedAction::action_list_for_switch(config, vendor, from, to);
    match &action {
        Action::StagedActions(_) => {
            config.mode = to;
            config.pending_mode = Some(to);
            config.pending_action = Some(UserActionRequired::mode_change_action(to, from));
        }
        Action::UserAction(_) => {}
    }
    Ok(action)
}

/// The modes the daemon can offer on this machine. With the MUX wired to
/// the dgpu only the MUX mode itself and the two ways back are on the
/// table; otherwise the base pair is extended by what the vendor, the vfio
/// policy and the ASUS nodes allow.
pub open spec fn spec_supported_modes(
    vendor: GfxVendor,
    vfio_enable: bool,
    asus: AsusGfxState,
) -> Seq<GfxMode> {
    if asus.gpu_mux_exists && asus.gpu_mux_discreet {
        seq![GfxMode::AsusMuxDgpu, GfxMode::Integrated, GfxMode::Hybrid]
    } else {
        seq![GfxMode::Integrated, GfxMode::Hybrid] + (if vendor is Nvidia {
            seq![GfxMode::NvidiaNoModeset]
        } else {
            Seq::empty()
        }) + (if vfio_enable {
            seq![GfxMode::Vfio]
        } else {
            Seq::empty()
        }) + (if asus.egpu_enable_exists {
            seq![GfxMode::AsusEgpu]
        } else {
            Seq::empty()
        }) + (if asus.gpu_mux_exists {
            seq![GfxMode::AsusMuxDgpu]
        } else {
            Seq::empty()
        })
    }
}

pub fn get_supported_modes(vendor: GfxVendor, vfio_enable: bool, asus: &AsusGfxState) -> (r: Vec<
    GfxMode,
>)
    ensures
        r@ =~= spec_supported_modes(vendor, vfio_enable, *asus),
{
    if asus.gpu_mux_exists && asus.gpu_mux_discreet {
        let r = vec![GfxMode::AsusMuxDgpu, GfxMode::Integrated, GfxMode::Hybrid];
        return r;
    }
    let mut r = vec![GfxMode::Integrated, GfxMode::Hybrid];
    if vendor == GfxVendor::Nvidia {
        r.push(GfxMode::NvidiaNoModeset);
    }
    if vfio_enable {
        r.push(GfxMode::Vfio);
    }
    if asus.egpu_enable_exists {
        r.push(GfxMode::AsusEgpu);
    }
    if asus.gpu_mux_exists {
        r.push(GfxMode::AsusMuxDgpu);
    }
    r
}

/// The mode the daemon reports: the MUX in dgpu position overrides
/// everything, then a temporary mode, then the configured one.
pub fn get_gfx_mode(config: &GfxConfig, asus: &AsusGfxState) -> (r: GfxMode)
    ensures
        asus.gpu_mux_exists && asus.gpu_mux_discreet ==> r is AsusMuxDgpu,
        !(asus.gpu_mux_exists && asus.gpu_mux_discreet) ==> r == (match config.tmp_mode {
            Some(m) => m,
            None => config.mode,
        }),
{
    if asus.gpu_mux_exists && asus.gpu_mux_discreet {
        return GfxMode::AsusMuxDgpu;
    }
    match config.tmp_mode {
        Some(m) => m,
        None => config.mode,
    }
}

/// The mode a pending switch aims at, if one is in flight.
pub fn get_pending_mode(config: &GfxConfig) -> (r: GfxMode)
    ensures
        r == (match config.pending_mode {
            Some(m) => m,
            None => GfxMode::NoMode,
        }),
{
    match config.pending_mode {
        Some(m) => m,
        None => GfxMode::NoMode,
    }
}

/// Take a client's policy update into the config. The mode itself is not a
/// policy field: the caller re-applies the current mode when the client
/// named exactly that mode, which is what the result reports.
pub fn apply_config_update(config: &mut GfxConfig, update: &GfxConfigDbus) -> (r: bool)
    ensures
        r == (old(config).mode == update.mode),
        final(config).mode == old(config).mode,
        final(config).vfio_enable == update.vfio_enable,
        final(config).vfio_save == update.vfio_save,
        final(config).always_reboot == update.always_reboot,
        final(config).no_logind == update.no_logind,
        final(config).logout_timeout_s == update.logout_timeout_s,
        final(config).hotplug_type == old(config).hotplug_type,
        final(config).config_path == old(config).config_path,
        final(config).tmp_mode == old(config).tmp_mode,
        final(config).pending_mode == old(config).pending_mode,
        final(config).pending_action == old(config).pending_action,
{
    let do_mode_change = config.mode == update.mode;
    config.vfio_enable = update.vfio_enable;
    config.vfio_save = update.vfio_save;
    config.always_reboot = update.always_reboot;
    config.no_logind = update.no_logind;
    config.logout_timeout_s = update.logout_timeout_s;
    do_mode_change
}

/// The user action a pending switch still waits on, if any.
pub fn get_pending_user_action(config: &GfxConfig) -> (r: UserActionRequired)
    ensures
        r == (match config.pending_action {
            Some(a) => a,
            None => UserActionRequired::Nothing,
        }),
{
    match config.pending_action {
        Some(a) => a,
        None => UserActionRequired::Nothing,
    }
}

} // verus!
