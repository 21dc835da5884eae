//! Round-trip and rejection tests for the message codec.

use razer_control::codec::{decode_command, decode_response, encode_command, encode_response};
use razer_control::msg::{DaemonCommand, DaemonResponse, GpuInfo};

fn round_trip_command(cmd: DaemonCommand) {
    let bytes = encode_command(&cmd);
    let back = decode_command(bytes.as_slice());
    assert_eq!(back, Some(cmd));
}

fn round_trip_response(resp: DaemonResponse) {
    let bytes = encode_response(&resp);
    let back = decode_response(bytes.as_slice());
    assert_eq!(back, Some(resp));
}

#[test]
fn command_round_trip_set_fan_speed() {
    round_trip_command(DaemonCommand::SetFanSpeed { ac: 1, rpm: 5300 });
    round_trip_command(DaemonCommand::SetFanSpeed { ac: 0, rpm: -1 });
    round_trip_command(DaemonCommand::SetFanSpeed { ac: usize::MAX, rpm: i32::MIN });
}

#[test]
fn command_round_trip_get_fan_speed() {
    round_trip_command(DaemonCommand::GetFanSpeed { ac: 0 });
}

#[test]
fn command_round_trip_set_power_mode() {
    round_trip_command(DaemonCommand::SetPowerMode { ac: 1, pwr: 4, cpu: 3, gpu: 2 });
}

#[test]
fn command_round_trip_get_pwr_level() {
    round_trip_command(DaemonCommand::GetPwrLevel { ac: 1 });
}

#[test]
fn command_round_trip_get_cpu_boost() {
    round_trip_command(DaemonCommand::GetCPUBoost { ac: 0 });
}

#[test]
fn command_round_trip_get_gpu_boost() {
    round_trip_command(DaemonCommand::GetGPUBoost { ac: 1 });
}

#[test]
fn command_round_trip_set_logo_led_state() {
    round_trip_command(DaemonCommand::SetLogoLedState { ac: 0, logo_state: 2 });
}

#[test]
fn command_round_trip_get_logo_led_state() {
    round_trip_command(DaemonCommand::GetLogoLedState { ac: 1 });
}

#[test]
fn command_round_trip_get_keyboard_rgb() {
    round_trip_command(DaemonCommand::GetKeyboardRGB { layer: -7 });
}

#[test]
fn command_round_trip_set_effect() {
    round_trip_command(DaemonCommand::SetEffect {
        name: String::from("static"),
        params: vec![255, 0, 128],
    });
    round_trip_command(DaemonCommand::SetEffect { name: String::new(), params: Vec::new() });
}

#[test]
fn command_round_trip_set_standard_effect() {
    round_trip_command(DaemonCommand::SetStandardEffect {
        name: String::from("wave \u{00e9}\u{4e2d}"),
        params: vec![1, 2, 3, 4],
    });
}

#[test]
fn command_round_trip_set_brightness() {
    round_trip_command(DaemonCommand::SetBrightness { ac: 1, val: 180 });
}

#[test]
fn command_round_trip_set_idle() {
    round_trip_command(DaemonCommand::SetIdle { ac: 0, val: 900 });
}

#[test]
fn command_round_trip_get_brightness() {
    round_trip_command(DaemonCommand::GetBrightness { ac: 0 });
}

#[test]
fn command_round_trip_set_sync() {
    round_trip_command(DaemonCommand::SetSync { sync: true });
    round_trip_command(DaemonCommand::SetSync { sync: false });
}

#[test]
fn command_round_trip_get_sync() {
    round_trip_command(DaemonCommand::GetSync());
}

#[test]
fn command_round_trip_set_battery_health_optimizer() {
    round_trip_command(DaemonCommand::SetBatteryHealthOptimizer { is_on: true, threshold: 80 });
}

#[test]
fn command_round_trip_get_battery_health_optimizer() {
    round_trip_command(DaemonCommand::GetBatteryHealthOptimizer());
}

#[test]
fn command_round_trip_get_device_name() {
    round_trip_command(DaemonCommand::GetDeviceName);
}

#[test]
fn command_round_trip_get_actual_fan_rpm() {
    round_trip_command(DaemonCommand::GetActualFanRpm);
}

#[test]
fn command_round_trip_get_standard_effect() {
    round_trip_command(DaemonCommand::GetStandardEffect);
}

#[test]
fn command_round_trip_get_gpu_status() {
    round_trip_command(DaemonCommand::GetGpuStatus);
}

#[test]
fn command_round_trip_set_dgpu_runtime_pm() {
    round_trip_command(DaemonCommand::SetDgpuRuntimePM { enabled: true });
    round_trip_command(DaemonCommand::SetDgpuRuntimePM { enabled: false });
}

#[test]
fn command_round_trip_set_gpu_mode() {
    round_trip_command(DaemonCommand::SetGpuMode { mode: String::from("nvidia") });
    round_trip_command(DaemonCommand::SetGpuMode { mode: String::from("hybrid") });
}

#[test]
fn response_round_trip_scalars() {
    round_trip_response(DaemonResponse::SetFanSpeed { result: true });
    round_trip_response(DaemonResponse::GetFanSpeed { rpm: -300 });
    round_trip_response(DaemonResponse::SetPowerMode { result: false });
    round_trip_response(DaemonResponse::GetPwrLevel { pwr: 2 });
    round_trip_response(DaemonResponse::GetCPUBoost { cpu: 3 });
    round_trip_response(DaemonResponse::GetGPUBoost { gpu: 1 });
    round_trip_response(DaemonResponse::SetLogoLedState { result: true });
    round_trip_response(DaemonResponse::GetLogoLedState { logo_state: 1 });
    round_trip_response(DaemonResponse::SetEffect { result: true });
    round_trip_response(DaemonResponse::SetStandardEffect { result: false });
    round_trip_response(DaemonResponse::SetBrightness { result: true });
    round_trip_response(DaemonResponse::SetIdle { result: false });
    round_trip_response(DaemonResponse::GetBrightness { result: 200 });
    round_trip_response(DaemonResponse::SetSync { result: true });
    round_trip_response(DaemonResponse::GetSync { sync: false });
    round_trip_response(DaemonResponse::SetBatteryHealthOptimizer { result: true });
    round_trip_response(DaemonResponse::GetBatteryHealthOptimizer { is_on: true, threshold: 65 });
    round_trip_response(DaemonResponse::GetActualFanRpm { rpm: 4100 });
    round_trip_response(DaemonResponse::SetDgpuRuntimePM { result: false });
}

#[test]
fn response_round_trip_with_payloads() {
    round_trip_response(DaemonResponse::GetKeyboardRGB { layer: 0, rgbdata: vec![7; 270] });
    round_trip_response(DaemonResponse::GetDeviceName {
        name: String::from("Razer Blade 14"),
    });
    round_trip_response(DaemonResponse::GetStandardEffect { effect: 4, params: vec![9, 9] });
    round_trip_response(DaemonResponse::SetGpuMode {
        result: true,
        message: String::from("GPU mode set to 'hybrid'. Logout required to take effect."),
    });
}

fn sample_gpu(gpu_type: &str, slot: &str) -> GpuInfo {
    GpuInfo {
        name: format!("{} sample", gpu_type),
        pci_slot: String::from(slot),
        driver: String::from("drv"),
        gpu_type: String::from(gpu_type),
        runtime_status: String::from("suspended"),
    }
}

#[test]
fn response_round_trip_gpu_status() {
    round_trip_response(DaemonResponse::GetGpuStatus {
        gpus: vec![sample_gpu("igpu", "0000:00:02.0"), sample_gpu("dgpu", "0000:01:00.0")],
        dgpu_runtime_pm: true,
        envycontrol_mode: String::from("hybrid"),
        envycontrol_available: true,
    });
    round_trip_response(DaemonResponse::GetGpuStatus {
        gpus: Vec::new(),
        dgpu_runtime_pm: false,
        envycontrol_mode: String::from("unknown"),
        envycontrol_available: false,
    });
}

#[test]
fn decode_fixed_bytes() {
    // A bare tag decodes to the unit variant it names.
    assert_eq!(decode_command(&[15]), Some(DaemonCommand::GetSync()));
    assert_eq!(decode_command(&[21]), Some(DaemonCommand::GetGpuStatus));
    // Tag 1 carries one 64-bit little-endian selector.
    assert_eq!(
        decode_command(&[1, 1, 0, 0, 0, 0, 0, 0, 0]),
        Some(DaemonCommand::GetFanSpeed { ac: 1 })
    );
}

#[test]
fn decode_rejects_empty_input() {
    assert_eq!(decode_command(&[]), None);
    assert_eq!(decode_response(&[]), None);
}

#[test]
fn decode_rejects_unknown_tag() {
    assert_eq!(decode_command(&[99]), None);
    assert_eq!(decode_response(&[240, 0]), None);
}

#[test]
fn decode_rejects_truncated_input() {
    let full = encode_command(&DaemonCommand::SetFanSpeed { ac: 1, rpm: 5000 });
    for cut in 0..full.len() {
        if cut == 0 {
            continue;
        }
        assert_eq!(decode_command(&full[..cut]), None, "cut at {}", cut);
    }
}

#[test]
fn decode_rejects_trailing_bytes() {
    let mut bytes = encode_command(&DaemonCommand::GetDeviceName);
    bytes.push(0);
    assert_eq!(decode_command(bytes.as_slice()), None);
}

#[test]
fn decode_rejects_bad_boolean_byte() {
    // SetSync carries one boolean byte that must be exactly 0 or 1.
    assert_eq!(decode_command(&[14, 0]), Some(DaemonCommand::SetSync { sync: false }));
    assert_eq!(decode_command(&[14, 1]), Some(DaemonCommand::SetSync { sync: true }));
    assert_eq!(decode_command(&[14, 2]), None);
}

#[test]
fn decode_rejects_invalid_utf8_string() {
    // SetGpuMode: tag 23, then a length-prefixed UTF-8 string; 0xff alone
    // is not valid UTF-8.
    let bytes = [23, 1, 0, 0, 0, 0, 0, 0, 0, 0xff];
    assert_eq!(decode_command(&bytes), None);
}

#[test]
fn decode_rejects_overlong_length_prefix() {
    // A declared string length far past the end of the input.
    let bytes = [23, 255, 255, 255, 255, 255, 255, 255, 255];
    assert_eq!(decode_command(&bytes), None);
}

#[test]
fn encoding_starts_with_variant_tag() {
    assert_eq!(encode_command(&DaemonCommand::SetFanSpeed { ac: 0, rpm: 0 })[0], 0);
    assert_eq!(encode_command(&DaemonCommand::SetGpuMode { mode: String::new() })[0], 23);
    assert_eq!(encode_response(&DaemonResponse::SetFanSpeed { result: true })[0], 0);
}
