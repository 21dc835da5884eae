//! Dispatcher tests: planning, and the paired-variant shape of replies.

use razer_control::dispatch::{
    plan_action, respond, GpuStatusData, HwAction, HwOutcome, SubsystemData,
};
use razer_control::mode::ToolOutcome;
use razer_control::msg::{DaemonCommand, DaemonResponse, GpuInfo};

fn subsystem_defaults() -> SubsystemData {
    SubsystemData {
        result: false,
        rpm: 0,
        pwr: 0,
        cpu: 0,
        gpu: 0,
        logo_state: 0,
        rgbdata: Vec::new(),
        brightness: 0,
        sync: false,
        bho_on: false,
        bho_threshold: 0,
        device_name: String::new(),
        effect: 0,
        effect_params: Vec::new(),
    }
}

fn all_commands() -> Vec<DaemonCommand> {
    vec![
        DaemonCommand::SetFanSpeed { ac: 0, rpm: 1 },
        DaemonCommand::GetFanSpeed { ac: 0 },
        DaemonCommand::SetPowerMode { ac: 0, pwr: 1, cpu: 2, gpu: 3 },
        DaemonCommand::GetPwrLevel { ac: 0 },
        DaemonCommand::GetCPUBoost { ac: 0 },
        DaemonCommand::GetGPUBoost { ac: 0 },
        DaemonCommand::SetLogoLedState { ac: 0, logo_state: 1 },
        DaemonCommand::GetLogoLedState { ac: 0 },
        DaemonCommand::GetKeyboardRGB { layer: 0 },
        DaemonCommand::SetEffect { name: String::from("static"), params: vec![1] },
        DaemonCommand::SetStandardEffect { name: String::from("wave"), params: vec![2] },
        DaemonCommand::SetBrightness { ac: 0, val: 50 },
        DaemonCommand::SetIdle { ac: 0, val: 60 },
        DaemonCommand::GetBrightness { ac: 0 },
        DaemonCommand::SetSync { sync: true },
        DaemonCommand::GetSync(),
        DaemonCommand::SetBatteryHealthOptimizer { is_on: true, threshold: 80 },
        DaemonCommand::GetBatteryHealthOptimizer(),
        DaemonCommand::GetDeviceName,
        DaemonCommand::GetActualFanRpm,
        DaemonCommand::GetStandardEffect,
        DaemonCommand::GetGpuStatus,
        DaemonCommand::SetDgpuRuntimePM { enabled: true },
        DaemonCommand::SetGpuMode { mode: String::from("hybrid") },
    ]
}

fn variants_paired(cmd: &DaemonCommand, resp: &DaemonResponse) -> bool {
    match (cmd, resp) {
        (DaemonCommand::SetFanSpeed { .. }, DaemonResponse::SetFanSpeed { .. }) => true,
        (DaemonCommand::GetFanSpeed { .. }, DaemonResponse::GetFanSpeed { .. }) => true,
        (DaemonCommand::SetPowerMode { .. }, DaemonResponse::SetPowerMode { .. }) => true,
        (DaemonCommand::GetPwrLevel { .. }, DaemonResponse::GetPwrLevel { .. }) => true,
        (DaemonCommand::GetCPUBoost { .. }, DaemonResponse::GetCPUBoost { .. }) => true,
        (DaemonCommand::GetGPUBoost { .. }, DaemonResponse::GetGPUBoost { .. }) => true,
        (DaemonCommand::SetLogoLedState { .. }, DaemonResponse::SetLogoLedState { .. }) => true,
        (DaemonCommand::GetLogoLedState { .. }, DaemonResponse::GetLogoLedState { .. }) => true,
        (DaemonCommand::GetKeyboardRGB { .. }, DaemonResponse::GetKeyboardRGB { .. }) => true,
        (DaemonCommand::SetEffect { .. }, DaemonResponse::SetEffect { .. }) => true,
        (DaemonCommand::SetStandardEffect { .. }, DaemonResponse::SetStandardEffect { .. }) => {
            true
        }
        (DaemonCommand::SetBrightness { .. }, DaemonResponse::SetBrightness { .. }) => true,
        (DaemonCommand::SetIdle { .. }, DaemonResponse::SetIdle { .. }) => true,
        (DaemonCommand::GetBrightness { .. }, DaemonResponse::GetBrightness { .. }) => true,
        (DaemonCommand::SetSync { .. }, DaemonResponse::SetSync { .. }) => true,
        (DaemonCommand::GetSync(), DaemonResponse::GetSync { .. }) => true,
        (
            DaemonCommand::SetBatteryHealthOptimizer { .. },
            DaemonResponse::SetBatteryHealthOptimizer { .. },
        ) => true,
        (
            DaemonCommand::GetBatteryHealthOptimizer(),
            DaemonResponse::GetBatteryHealthOptimizer { .. },
        ) => true,
        (DaemonCommand::GetDeviceName, DaemonResponse::GetDeviceName { .. }) => true,
        (DaemonCommand::GetActualFanRpm, DaemonResponse::GetActualFanRpm { .. }) => true,
        (DaemonCommand::GetStandardEffect, DaemonResponse::GetStandardEffect { .. }) => true,
        (DaemonCommand::GetGpuStatus, DaemonResponse::GetGpuStatus { .. }) => true,
        (DaemonCommand::SetDgpuRuntimePM { .. }, DaemonResponse::SetDgpuRuntimePM { .. }) => true,
        (DaemonCommand::SetGpuMode { .. }, DaemonResponse::SetGpuMode { .. }) => true,
        _ => false,
    }
}

#[test]
fn every_command_gets_its_paired_response_on_success_values() {
    for cmd in all_commands() {
        let outcome = match plan_action(&cmd) {
            HwAction::Nothing => HwOutcome::Nothing,
            HwAction::Subsystem => HwOutcome::Subsystem(subsystem_defaults()),
            HwAction::QueryGpuStatus => HwOutcome::GpuStatus(GpuStatusData {
                gpus: Vec::new(),
                dgpu_runtime_pm: false,
                envycontrol_mode: String::from("hybrid"),
                envycontrol_available: true,
            }),
            HwAction::WriteRuntimePm { .. } => HwOutcome::WriteResult { ok: true },
            HwAction::InvokeModeTool { .. } => HwOutcome::ModeTool(ToolOutcome::Finished {
                success: true,
                output: String::new(),
            }),
        };
        let resp = respond(&cmd, &outcome);
        assert!(variants_paired(&cmd, &resp), "mismatch for {:?}: {:?}", cmd, resp);
    }
}

#[test]
fn every_command_gets_its_paired_response_under_induced_failure() {
    for cmd in all_commands() {
        let resp = respond(&cmd, &HwOutcome::Nothing);
        assert!(variants_paired(&cmd, &resp), "mismatch for {:?}: {:?}", cmd, resp);
    }
}

#[test]
fn subsystem_values_carry_through() {
    let mut data = subsystem_defaults();
    data.rpm = 4200;
    data.result = true;
    data.device_name = String::from("Razer Blade 14");
    assert_eq!(
        respond(&DaemonCommand::GetFanSpeed { ac: 1 }, &HwOutcome::Subsystem(data)),
        DaemonResponse::GetFanSpeed { rpm: 4200 }
    );
    let mut data2 = subsystem_defaults();
    data2.device_name = String::from("Razer Blade 14");
    assert_eq!(
        respond(&DaemonCommand::GetDeviceName, &HwOutcome::Subsystem(data2)),
        DaemonResponse::GetDeviceName { name: String::from("Razer Blade 14") }
    );
}

#[test]
fn gpu_status_values_carry_through() {
    let gpu = GpuInfo {
        name: String::from("Intel GPU (i915)"),
        pci_slot: String::from("0000:00:02.0"),
        driver: String::from("i915"),
        gpu_type: String::from("igpu"),
        runtime_status: String::from("active"),
    };
    let outcome = HwOutcome::GpuStatus(GpuStatusData {
        gpus: vec![gpu.clone()],
        dgpu_runtime_pm: true,
        envycontrol_mode: String::from("hybrid"),
        envycontrol_available: true,
    });
    match respond(&DaemonCommand::GetGpuStatus, &outcome) {
        DaemonResponse::GetGpuStatus {
            gpus,
            dgpu_runtime_pm,
            envycontrol_mode,
            envycontrol_available,
        } => {
            assert_eq!(gpus, vec![gpu]);
            assert!(dgpu_runtime_pm);
            assert_eq!(envycontrol_mode, "hybrid");
            assert!(envycontrol_available);
        }
        other => panic!("wrong variant: {:?}", other),
    }
}

#[test]
fn runtime_pm_write_result_carries_through() {
    assert_eq!(
        respond(&DaemonCommand::SetDgpuRuntimePM { enabled: true }, &HwOutcome::WriteResult {
            ok: true
        }),
        DaemonResponse::SetDgpuRuntimePM { result: true }
    );
    assert_eq!(
        respond(&DaemonCommand::SetDgpuRuntimePM { enabled: true }, &HwOutcome::WriteResult {
            ok: false
        }),
        DaemonResponse::SetDgpuRuntimePM { result: false }
    );
}

#[test]
fn invalid_gpu_mode_never_reaches_the_tool_and_is_named_in_the_reply() {
    let cmd = DaemonCommand::SetGpuMode { mode: String::from("bogus") };
    assert!(matches!(plan_action(&cmd), HwAction::Nothing));
    assert_eq!(
        respond(&cmd, &HwOutcome::Nothing),
        DaemonResponse::SetGpuMode {
            result: false,
            message: String::from("Invalid mode 'bogus'. Use: integrated, hybrid, or nvidia"),
        }
    );
}

#[test]
fn missing_tool_failure_is_folded_into_the_reply() {
    let cmd = DaemonCommand::SetGpuMode { mode: String::from("nvidia") };
    assert!(matches!(plan_action(&cmd), HwAction::InvokeModeTool { .. }));
    let outcome = HwOutcome::ModeTool(ToolOutcome::NotRun {
        error: String::from("No such file or directory"),
    });
    assert_eq!(
        respond(&cmd, &outcome),
        DaemonResponse::SetGpuMode {
            result: false,
            message: String::from("Failed to run envycontrol: No such file or directory"),
        }
    );
}

#[test]
fn planning_routes_gpu_commands_to_the_gpu_engine() {
    assert!(matches!(plan_action(&DaemonCommand::GetGpuStatus), HwAction::QueryGpuStatus));
    assert!(matches!(
        plan_action(&DaemonCommand::SetDgpuRuntimePM { enabled: false }),
        HwAction::WriteRuntimePm { enabled: false }
    ));
    match plan_action(&DaemonCommand::SetGpuMode { mode: String::from("integrated") }) {
        HwAction::InvokeModeTool { mode } => assert_eq!(mode, "integrated"),
        other => panic!("wrong action: {:?}", match other {
            HwAction::Nothing => "nothing",
            HwAction::Subsystem => "subsystem",
            HwAction::QueryGpuStatus => "query",
            HwAction::WriteRuntimePm { .. } => "write",
            HwAction::InvokeModeTool { .. } => "invoke",
        }),
    }
    assert!(matches!(plan_action(&DaemonCommand::GetFanSpeed { ac: 0 }), HwAction::Subsystem));
}
