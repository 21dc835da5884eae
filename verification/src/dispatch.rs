//! The command dispatcher: from a decoded command to its response.
//!
//! Handling a command has two verified halves around one unverified step.
//! [`plan_action`] decides what hardware work a command calls for; the
//! application layer performs it (sysfs access, spawning the external
//! tool, the other hardware subsystems) and reports a [`HwOutcome`];
//! [`respond`] builds the reply from command and outcome.  Whatever the
//! outcome — success, failure, or an outcome of the wrong kind — the
//! reply is always the response variant paired with the command
//! ([`resp_matches`], proved by [`lemma_respond_matches`]): protocol
//! shape is never sacrificed to report a failure.

use vstd::prelude::*;

verus! {

use crate::msg::{DaemonCommand, CommandView, DaemonResponse, ResponseView, GpuInfo};
use crate::mode::{
    ToolOutcome, spec_valid_mode, valid_mode, spec_invalid_mode_message,
    spec_set_mode_success_message, spec_set_mode_failed_message, spec_set_mode_not_run_message,
    set_mode_result,
};
use vstd::string::StringExecFns;

/// The hardware work one command calls for.
pub enum HwAction {
    /// No hardware is touched (an invalid mode-switch request).
    Nothing,
    /// One of the other hardware subsystems (fan, power, lighting,
    /// battery, brightness, device identity) serves the command.
    Subsystem,
    /// Run GPU discovery and the status queries behind `GetGpuStatus`.
    QueryGpuStatus,
    /// Write the discrete GPU's runtime-PM control attribute.
    WriteRuntimePm { enabled: bool },
    /// Invoke the external mode-switching tool with this (validated) mode.
    InvokeModeTool { mode: String },
}

/// What the hardware work reported back.
pub enum HwOutcome {
    /// Nothing was done.
    Nothing,
    /// A subsystem's reply values.
    Subsystem(SubsystemData),
    /// The GPU status queries' results.
    GpuStatus(GpuStatusData),
    /// Whether the runtime-PM write succeeded.
    WriteResult { ok: bool },
    /// How the external tool invocation went.
    ModeTool(ToolOutcome),
}

/// Plain reply values from the hardware subsystems outside the GPU
/// engine.  A subsystem fills the fields its command reads; `result` is
/// false when the hardware could not be reached.
pub struct SubsystemData {
    pub result: bool,
    pub rpm: i32,
    pub pwr: u8,
    pub cpu: u8,
    pub gpu: u8,
    pub logo_state: u8,
    pub rgbdata: Vec<u8>,
    pub brightness: u8,
    pub sync: bool,
    pub bho_on: bool,
    pub bho_threshold: u8,
    pub device_name: String,
    pub effect: u8,
    pub effect_params: Vec<u8>,
}

/// Everything `GetGpuStatus` reports: the ordered discovery result, the
/// discrete GPU's runtime-PM state, and the external tool's mode and
/// availability.
pub struct GpuStatusData {
    pub gpus: Vec<GpuInfo>,
    pub dgpu_runtime_pm: bool,
    pub envycontrol_mode: String,
    pub envycontrol_available: bool,
}

/// Decide the hardware work for a command.  An invalid mode-switch
/// request leads to no work at all — in particular, no process is
/// spawned for it.
pub fn plan_action(cmd: &DaemonCommand) -> (r: HwAction)
    ensures
        match cmd@ {
            CommandView::GetGpuStatus => r is QueryGpuStatus,
            CommandView::SetDgpuRuntimePM { enabled } => (r matches HwAction::WriteRuntimePm {
                enabled: e,
            } && e == enabled),
            CommandView::SetGpuMode { mode } => {
                if spec_valid_mode(mode) {
                    r matches HwAction::InvokeModeTool { mode: m } && m@ == mode
                } else {
                    r is Nothing
                }
            },
            _ => r is Subsystem,
        },
{
    match cmd {
        DaemonCommand::GetGpuStatus => HwAction::QueryGpuStatus,
        DaemonCommand::SetDgpuRuntimePM { enabled } => HwAction::WriteRuntimePm {
            enabled: *enabled,
        },
        DaemonCommand::SetGpuMode { mode } => {
            if valid_mode(mode.as_str()) {
                HwAction::InvokeModeTool { mode: mode.clone() }
            } else {
                HwAction::Nothing
            }
        },
        _ => HwAction::Subsystem,
    }
}

/// The command and the response are paired variants: the protocol-shape
/// invariant of the dispatcher.
pub open spec fn resp_matches(c: CommandView, r: ResponseView) -> bool {
    match c {
        CommandView::SetFanSpeed { .. } => r is SetFanSpeed,
        CommandView::GetFanSpeed { .. } => r is GetFanSpeed,
        CommandView::SetPowerMode { .. } => r is SetPowerMode,
        CommandView::GetPwrLevel { .. } => r is GetPwrLevel,
        CommandView::GetCPUBoost { .. } => r is GetCPUBoost,
        CommandView::GetGPUBoost { .. } => r is GetGPUBoost,
        CommandView::SetLogoLedState { .. } => r is SetLogoLedState,
        CommandView::GetLogoLedState { .. } => r is GetLogoLedState,
        CommandView::GetKeyboardRGB { .. } => r is GetKeyboardRGB,
        CommandView::SetEffect { .. } => r is SetEffect,
        CommandView::SetStandardEffect { .. } => r is SetStandardEffect,
        CommandView::SetBrightness { .. } => r is SetBrightness,
        CommandView::SetIdle { .. } => r is SetIdle,
        CommandView::GetBrightness { .. } => r is GetBrightness,
        CommandView::SetSync { .. } => r is SetSync,
        CommandView::GetSync => r is GetSync,
        CommandView::SetBatteryHealthOptimizer { .. } => r is SetBatteryHealthOptimizer,
        CommandView::GetBatteryHealthOptimizer => r is GetBatteryHealthOptimizer,
        CommandView::GetDeviceName => r is GetDeviceName,
        CommandView::GetActualFanRpm => r is GetActualFanRpm,
        CommandView::GetStandardEffect => r is GetStandardEffect,
        CommandView::GetGpuStatus => r is GetGpuStatus,
        CommandView::SetDgpuRuntimePM { .. } => r is SetDgpuRuntimePM,
        CommandView::SetGpuMode { .. } => r is SetGpuMode,
    }
}

/// The reply for a command whose hardware work reported `out`.  Every
/// command variant maps to its paired response variant; an outcome of the
/// wrong kind yields that variant's failure values.
pub open spec fn spec_respond(c: CommandView, out: HwOutcome) -> ResponseView {
    match c {
        CommandView::SetFanSpeed { .. } => ResponseView::SetFanSpeed {
            result: match out {
                HwOutcome::Subsystem(d) => d.result,
                _ => false,
            },
        },
        CommandView::GetFanSpeed { .. } => ResponseView::GetFanSpeed {
            rpm: match out {
                HwOutcome::Subsystem(d) => d.rpm,
                _ => 0,
            },
        },
        CommandView::SetPowerMode { .. } => ResponseView::SetPowerMode {
            result: match out {
                HwOutcome::Subsystem(d) => d.result,
                _ => false,
            },
        },
        CommandView::GetPwrLevel { .. } => ResponseView::GetPwrLevel {
            pwr: match out {
                HwOutcome::Subsystem(d) => d.pwr,
                _ => 0,
            },
        },
        CommandView::GetCPUBoost { .. } => ResponseView::GetCPUBoost {
            cpu: match out {
                HwOutcome::Subsystem(d) => d.cpu,
                _ => 0,
            },
        },
        CommandView::GetGPUBoost { .. } => ResponseView::GetGPUBoost {
            gpu: match out {
                HwOutcome::Subsystem(d) => d.gpu,
                _ => 0,
            },
        },
        CommandView::SetLogoLedState { .. } => ResponseView::SetLogoLedState {
            result: match out {
                HwOutcome::Subsystem(d) => d.result,
                _ => false,
            },
        },
        CommandView::GetLogoLedState { .. } => ResponseView::GetLogoLedState {
            logo_state: match out {
                HwOutcome::Subsystem(d) => d.logo_state,
                _ => 0,
            },
        },
        CommandView::GetKeyboardRGB { layer } => ResponseView::GetKeyboardRGB {
            layer,
            rgbdata: match out {
                HwOutcome::Subsystem(d) => d.rgbdata@,
                _ => Seq::empty(),
            },
        },
        CommandView::SetEffect { .. } => ResponseView::SetEffect {
            result: match out {
                HwOutcome::Subsystem(d) => d.result,
                _ => false,
            },
        },
        CommandView::SetStandardEffect { .. } => ResponseView::SetStandardEffect {
            result: match out {
                HwOutcome::Subsystem(d) => d.result,
                _ => false,
            },
        },
        CommandView::SetBrightness { .. } => ResponseView::SetBrightness {
            result: match out {
                HwOutcome::Subsystem(d) => d.result,
                _ => false,
            },
        },
        CommandView::SetIdle { .. } => ResponseView::SetIdle {
            result: match out {
                HwOutcome::Subsystem(d) => d.result,
                _ => false,
            },
        },
        CommandView::GetBrightness { .. } => ResponseView::GetBrightness {
            result: match out {
                HwOutcome::Subsystem(d) => d.brightness,
                _ => 0,
            },
        },
        CommandView::SetSync { .. } => ResponseView::SetSync {
            result: match out {
                HwOutcome::Subsystem(d) => d.result,
                _ => false,
            },
        },
        CommandView::GetSync => ResponseView::GetSync {
            sync: match out {
                HwOutcome::Subsystem(d) => d.sync,
                _ => false,
            },
        },
        CommandView::SetBatteryHealthOptimizer { .. } => ResponseView::SetBatteryHealthOptimizer {
            result: match out {
                HwOutcome::Subsystem(d) => d.result,
                _ => false,
            },
        },
        CommandView::GetBatteryHealthOptimizer => ResponseView::GetBatteryHealthOptimizer {
            is_on: match out {
                HwOutcome::Subsystem(d) => d.bho_on,
                _ => false,
            },
            threshold: match out {
                HwOutcome::Subsystem(d) => d.bho_threshold,
                _ => 0,
            },
        },
        CommandView::GetDeviceName => ResponseView::GetDeviceName {
            name: match out {
                HwOutcome::Subsystem(d) => d.device_name@,
                _ => Seq::empty(),
            },
        },
        CommandView::GetActualFanRpm => ResponseView::GetActualFanRpm {
            rpm: match out {
                HwOutcome::Subsystem(d) => d.rpm,
                _ => 0,
            },
        },
        CommandView::GetStandardEffect => ResponseView::GetStandardEffect {
            effect: match out {
                HwOutcome::Subsystem(d) => d.effect,
                _ => 0,
            },
            params: match out {
                HwOutcome::Subsystem(d) => d.effect_params@,
                _ => Seq::empty(),
            },
        },
        CommandView::GetGpuStatus => match out {
            HwOutcome::GpuStatus(d) => ResponseView::GetGpuStatus {
                gpus: d.gpus@.map_values(|g: GpuInfo| g@),
                dgpu_runtime_pm: d.dgpu_runtime_pm,
                envycontrol_mode: d.envycontrol_mode@,
                envycontrol_available: d.envycontrol_available,
            },
            _ => ResponseView::GetGpuStatus {
                gpus: Seq::empty(),
                dgpu_runtime_pm: false,
                envycontrol_mode: "unknown"@,
                envycontrol_available: false,
            },
        },
        CommandView::SetDgpuRuntimePM { .. } => ResponseView::SetDgpuRuntimePM {
            result: match out {
                HwOutcome::WriteResult { ok } => ok,
                _ => false,
            },
        },
        CommandView::SetGpuMode { mode } => {
            if !spec_valid_mode(mode) {
                ResponseView::SetGpuMode {
                    result: false,
                    message: spec_invalid_mode_message(mode),
                }
            } else {
                match out {
                    HwOutcome::ModeTool(t) => match t {
                        ToolOutcome::Finished { success, output } => {
                            if success {
                                ResponseView::SetGpuMode {
                                    result: true,
                                    message: spec_set_mode_success_message(mode),
                                }
                            } else {
                                ResponseView::SetGpuMode {
                                    result: false,
                                    message: spec_set_mode_failed_message(output@),
                                }
                            }
                        },
                        ToolOutcome::NotRun { error } => ResponseView::SetGpuMode {
                            result: false,
                            message: spec_set_mode_not_run_message(error@),
                        },
                    },
                    _ => ResponseView::SetGpuMode { result: false, message: Seq::empty() },
                }
            }
        },
    }
}

/// The protocol-shape law: whatever the command and whatever its hardware
/// work reported, the reply is the response variant paired with the
/// command.
pub proof fn lemma_respond_matches(c: CommandView, out: HwOutcome)
    ensures
        resp_matches(c, spec_respond(c, out)),
{
}

/// Build the reply for a command whose hardware work reported `out`.
pub fn respond(cmd: &DaemonCommand, out: &HwOutcome) -> (r: DaemonResponse)
    ensures
        r@ == spec_respond(cmd@, *out),
        resp_matches(cmd@, r@),
{
    proof {
        lemma_respond_matches(cmd@, *out);
    }
    match cmd {
        DaemonCommand::SetFanSpeed { .. } => DaemonResponse::SetFanSpeed {
            result: match out {
                HwOutcome::Subsystem(d) => d.result,
                _ => false,
            },
        },
        DaemonCommand::GetFanSpeed { .. } => DaemonResponse::GetFanSpeed {
            rpm: match out {
                HwOutcome::Subsystem(d) => d.rpm,
                _ => 0,
            },
        },
        DaemonCommand::SetPowerMode { .. } => DaemonResponse::SetPowerMode {
            result: match out {
                HwOutcome::Subsystem(d) => d.result,
                _ => false,
            },
        },
        DaemonCommand::GetPwrLevel { .. } => DaemonResponse::GetPwrLevel {
            pwr: match out {
                HwOutcome::Subsystem(d) => d.pwr,
                _ => 0,
            },
        },
        DaemonCommand::GetCPUBoost { .. } => DaemonResponse::GetCPUBoost {
            cpu: match out {
                HwOutcome::Subsystem(d) => d.cpu,
                _ => 0,
            },
        },
        DaemonCommand::GetGPUBoost { .. } => DaemonResponse::GetGPUBoost {
            gpu: match out {
                HwOutcome::Subsystem(d) => d.gpu,
                _ => 0,
            },
        },
        DaemonCommand::SetLogoLedState { .. } => DaemonResponse::SetLogoLedState {
            result: match out {
                HwOutcome::Subsystem(d) => d.result,
                _ => false,
            },
        },
        DaemonCommand::GetLogoLedState { .. } => DaemonResponse::GetLogoLedState {
            logo_state: match out {
                HwOutcome::Subsystem(d) => d.logo_state,
                _ => 0,
            },
        },
        DaemonCommand::GetKeyboardRGB { layer } => DaemonResponse::GetKeyboardRGB {
            layer: *layer,
            rgbdata: match out {
                HwOutcome::Subsystem(d) => dup_bytes(&d.rgbdata),
                _ => Vec::new(),
            },
        },
        DaemonCommand::SetEffect { .. } => DaemonResponse::SetEffect {
            result: match out {
                HwOutcome::Subsystem(d) => d.result,
                _ => false,
            },
        },
        DaemonCommand::SetStandardEffect { .. } => DaemonResponse::SetStandardEffect {
            result: match out {
                HwOutcome::Subsystem(d) => d.result,
                _ => false,
            },
        },
        DaemonCommand::SetBrightness { .. } => DaemonResponse::SetBrightness {
            result: match out {
                HwOutcome::Subsystem(d) => d.result,
                _ => false,
            },
        },
        DaemonCommand::SetIdle { .. } => DaemonResponse::SetIdle {
            result: match out {
                HwOutcome::Subsystem(d) => d.result,
                _ => false,
            },
        },
        DaemonCommand::GetBrightness { .. } => DaemonResponse::GetBrightness {
            result: match out {
                HwOutcome::Subsystem(d) => d.brightness,
                _ => 0,
            },
        },
        DaemonCommand::SetSync { .. } => DaemonResponse::SetSync {
            result: match out {
                HwOutcome::Subsystem(d) => d.result,
                _ => false,
            },
        },
        DaemonCommand::GetSync() => DaemonResponse::GetSync {
            sync: match out {
                HwOutcome::Subsystem(d) => d.sync,
                _ => false,
            },
        },
        DaemonCommand::SetBatteryHealthOptimizer { .. } => {
            DaemonResponse::SetBatteryHealthOptimizer {
                result: match out {
                    HwOutcome::Subsystem(d) => d.result,
                    _ => false,
                },
            }
        },
        DaemonCommand::GetBatteryHealthOptimizer() => DaemonResponse::GetBatteryHealthOptimizer {
            is_on: match out {
                HwOutcome::Subsystem(d) => d.bho_on,
                _ => false,
            },
            threshold: match out {
                HwOutcome::Subsystem(d) => d.bho_threshold,
                _ => 0,
            },
        },
        DaemonCommand::GetDeviceName => DaemonResponse::GetDeviceName {
            name: match out {
                HwOutcome::Subsystem(d) => d.device_name.clone(),
                _ => String::new(),
            },
        },
        DaemonCommand::GetActualFanRpm => DaemonResponse::GetActualFanRpm {
            rpm: match out {
                HwOutcome::Subsystem(d) => d.rpm,
                _ => 0,
            },
        },
        DaemonCommand::GetStandardEffect => DaemonResponse::GetStandardEffect {
            effect: match out {
                HwOutcome::Subsystem(d) => d.effect,
                _ => 0,
            },
            params: match out {
                HwOutcome::Subsystem(d) => dup_bytes(&d.effect_params),
                _ => Vec::new(),
            },
        },
        DaemonCommand::GetGpuStatus => match out {
            HwOutcome::GpuStatus(d) => {
                let gpus_copy = dup_gpu_vec(&d.gpus);
                proof {
                    assert(gpus_copy@.map_values(|g: GpuInfo| g@) =~= d.gpus@.map_values(
                        |g: GpuInfo| g@,
                    ));
                }
                DaemonResponse::GetGpuStatus {
                    gpus: gpus_copy,
                    dgpu_runtime_pm: d.dgpu_runtime_pm,
                    envycontrol_mode: d.envycontrol_mode.clone(),
                    envycontrol_available: d.envycontrol_available,
                }
            },
            _ => {
                let no_gpus: Vec<GpuInfo> = Vec::new();
                proof {
                    assert(no_gpus@.map_values(|g: GpuInfo| g@) =~= Seq::<
                        crate::msg::GpuInfoView,
                    >::empty());
                }
                DaemonResponse::GetGpuStatus {
                    gpus: no_gpus,
                    dgpu_runtime_pm: false,
                    envycontrol_mode: String::from_str("unknown"),
                    envycontrol_available: false,
                }
            },
        },
        DaemonCommand::SetDgpuRuntimePM { .. } => DaemonResponse::SetDgpuRuntimePM {
            result: match out {
                HwOutcome::WriteResult { ok } => *ok,
                _ => false,
            },
        },
        DaemonCommand::SetGpuMode { mode } => {
            if !valid_mode(mode.as_str()) {
                let message = String::from_str("Invalid mode '").concat(mode.as_str()).concat(
                    "'. Use: integrated, hybrid, or nvidia",
                );
                DaemonResponse::SetGpuMode { result: false, message }
            } else {
                match out {
                    HwOutcome::ModeTool(t) => {
                        let (result, message) = set_mode_result(mode.as_str(), t);
                        DaemonResponse::SetGpuMode { result, message }
                    },
                    _ => DaemonResponse::SetGpuMode { result: false, message: String::new() },
                }
            }
        },
    }
}

/// A fresh copy of a byte vector.
fn dup_bytes(v: &Vec<u8>) -> (r: Vec<u8>)
    ensures
        r@ == v@,
{
    let mut out: Vec<u8> = Vec::new();
    out.extend_from_slice(v.as_slice());
    proof {
        assert(out@ =~= v@);
    }
    out
}

/// A fresh copy of a discovery result.
fn dup_gpu_vec(gpus: &Vec<GpuInfo>) -> (r: Vec<GpuInfo>)
    ensures
        r@.len() == gpus@.len(),
        forall|i: int| 0 <= i < gpus@.len() ==> (#[trigger] r@[i])@ == gpus@[i]@,
{
    let n = gpus.len();
    let mut out: Vec<GpuInfo> = Vec::new();
    let mut k: usize = 0;
    while k < n
        invariant
            k <= n,
            n == gpus@.len(),
            out@.len() == k,
            forall|i: int| 0 <= i < k ==> (#[trigger] out@[i])@ == gpus@[i]@,
        decreases n - k,
    {
        let g = &gpus[k];
        let copy = GpuInfo {
            name: g.name.clone(),
            pci_slot: g.pci_slot.clone(),
            driver: g.driver.clone(),
            gpu_type: g.gpu_type.clone(),
            runtime_status: g.runtime_status.clone(),
        };
        out.push(copy);
        k += 1;
    }
    out
}

} // verus!
