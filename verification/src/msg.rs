//! The command/response vocabulary exchanged between daemon and clients.
//!
//! `DaemonCommand` is everything a client may ask; `DaemonResponse` is the
//! matching reply vocabulary, one response variant per command variant.
//! `GpuInfo` is the value record produced by GPU discovery.  Each type has a
//! ghost view (`…View`) over sequences and plain scalars; the codec and the
//! dispatcher state their contracts over these views.

use vstd::prelude::*;

verus! {

use crate::wire::{str_fits, bytes_fit};

/// One discovered graphics device.
///
/// `gpu_type` is one of `"igpu"`, `"dgpu"`, `"unknown"`; `driver` is empty
/// when no kernel driver is bound; `runtime_status` mirrors the hardware
/// runtime power state, `"unsupported"` when the device does not report one.
#[derive(Debug, Clone, PartialEq)]
pub struct GpuInfo {
    pub name: String,
    pub pci_slot: String,
    pub driver: String,
    pub gpu_type: String,
    pub runtime_status: String,
}

pub ghost struct GpuInfoView {
    pub name: Seq<char>,
    pub pci_slot: Seq<char>,
    pub driver: Seq<char>,
    pub gpu_type: Seq<char>,
    pub runtime_status: Seq<char>,
}

impl View for GpuInfo {
    type V = GpuInfoView;

    open spec fn view(&self) -> GpuInfoView {
        GpuInfoView {
            name: self.name@,
            pci_slot: self.pci_slot@,
            driver: self.driver@,
            gpu_type: self.gpu_type@,
            runtime_status: self.runtime_status@,
        }
    }
}

/// Everything a client may request from the daemon.
#[derive(Debug, PartialEq)]
pub enum DaemonCommand {
    SetFanSpeed { ac: usize, rpm: i32 },
    GetFanSpeed { ac: usize },
    SetPowerMode { ac: usize, pwr: u8, cpu: u8, gpu: u8 },
    GetPwrLevel { ac: usize },
    GetCPUBoost { ac: usize },
    GetGPUBoost { ac: usize },
    SetLogoLedState { ac: usize, logo_state: u8 },
    GetLogoLedState { ac: usize },
    GetKeyboardRGB { layer: i32 },
    SetEffect { name: String, params: Vec<u8> },
    SetStandardEffect { name: String, params: Vec<u8> },
    SetBrightness { ac: usize, val: u8 },
    SetIdle { ac: usize, val: u32 },
    GetBrightness { ac: usize },
    SetSync { sync: bool },
    GetSync(),
    SetBatteryHealthOptimizer { is_on: bool, threshold: u8 },
    GetBatteryHealthOptimizer(),
    GetDeviceName,
    GetActualFanRpm,
    GetStandardEffect,
    GetGpuStatus,
    SetDgpuRuntimePM { enabled: bool },
    SetGpuMode { mode: String },
}

pub ghost enum CommandView {
    SetFanSpeed { ac: usize, rpm: i32 },
    GetFanSpeed { ac: usize },
    SetPowerMode { ac: usize, pwr: u8, cpu: u8, gpu: u8 },
    GetPwrLevel { ac: usize },
    GetCPUBoost { ac: usize },
    GetGPUBoost { ac: usize },
    SetLogoLedState { ac: usize, logo_state: u8 },
    GetLogoLedState { ac: usize },
    GetKeyboardRGB { layer: i32 },
    SetEffect { name: Seq<char>, params: Seq<u8> },
    SetStandardEffect { name: Seq<char>, params: Seq<u8> },
    SetBrightness { ac: usize, val: u8 },
    SetIdle { ac: usize, val: u32 },
    GetBrightness { ac: usize },
    SetSync { sync: bool },
    GetSync,
    SetBatteryHealthOptimizer { is_on: bool, threshold: u8 },
    GetBatteryHealthOptimizer,
    GetDeviceName,
    GetActualFanRpm,
    GetStandardEffect,
    GetGpuStatus,
    SetDgpuRuntimePM { enabled: bool },
    SetGpuMode { mode: Seq<char> },
}

impl View for DaemonCommand {
    type V = CommandView;

    open spec fn view(&self) -> CommandView {
        match self {
            DaemonCommand::SetFanSpeed { ac, rpm } => CommandView::SetFanSpeed {
                ac: *ac,
                rpm: *rpm,
            },
            DaemonCommand::GetFanSpeed { ac } => CommandView::GetFanSpeed { ac: *ac },
            DaemonCommand::SetPowerMode { ac, pwr, cpu, gpu } => CommandView::SetPowerMode {
                ac: *ac,
                pwr: *pwr,
                cpu: *cpu,
                gpu: *gpu,
            },
            DaemonCommand::GetPwrLevel { ac } => CommandView::GetPwrLevel { ac: *ac },
            DaemonCommand::GetCPUBoost { ac } => CommandView::GetCPUBoost { ac: *ac },
            DaemonCommand::GetGPUBoost { ac } => CommandView::GetGPUBoost { ac: *ac },
            DaemonCommand::SetLogoLedState { ac, logo_state } => CommandView::SetLogoLedState {
                ac: *ac,
                logo_state: *logo_state,
            },
            DaemonCommand::GetLogoLedState { ac } => CommandView::GetLogoLedState { ac: *ac },
            DaemonCommand::GetKeyboardRGB { layer } => CommandView::GetKeyboardRGB {
                layer: *layer,
            },
            DaemonCommand::SetEffect { name, params } => CommandView::SetEffect {
                name: name@,
                params: params@,
            },
            DaemonCommand::SetStandardEffect { name, params } => CommandView::SetStandardEffect {
                name: name@,
                params: params@,
            },
            DaemonCommand::SetBrightness { ac, val } => CommandView::SetBrightness {
                ac: *ac,
                val: *val,
            },
            DaemonCommand::SetIdle { ac, val } => CommandView::SetIdle { ac: *ac, val: *val },
            DaemonCommand::GetBrightness { ac } => CommandView::GetBrightness { ac: *ac },
            DaemonCommand::SetSync { sync } => CommandView::SetSync { sync: *sync },
            DaemonCommand::GetSync() => CommandView::GetSync,
            DaemonCommand::SetBatteryHealthOptimizer { is_on, threshold } => {
                CommandView::SetBatteryHealthOptimizer { is_on: *is_on, threshold: *threshold }
            },
            DaemonCommand::GetBatteryHealthOptimizer() => CommandView::GetBatteryHealthOptimizer,
            DaemonCommand::GetDeviceName => CommandView::GetDeviceName,
            DaemonCommand::GetActualFanRpm => CommandView::GetActualFanRpm,
            DaemonCommand::GetStandardEffect => CommandView::GetStandardEffect,
            DaemonCommand::GetGpuStatus => CommandView::GetGpuStatus,
            DaemonCommand::SetDgpuRuntimePM { enabled } => CommandView::SetDgpuRuntimePM {
                enabled: *enabled,
            },
            DaemonCommand::SetGpuMode { mode } => CommandView::SetGpuMode { mode: mode@ },
        }
    }
}

/// The reply the daemon sends back, one variant per command variant.
#[derive(Debug, PartialEq)]
pub enum DaemonResponse {
    SetFanSpeed { result: bool },
    GetFanSpeed { rpm: i32 },
    SetPowerMode { result: bool },
    GetPwrLevel { pwr: u8 },
    GetCPUBoost { cpu: u8 },
    GetGPUBoost { gpu: u8 },
    SetLogoLedState { result: bool },
    GetLogoLedState { logo_state: u8 },
    GetKeyboardRGB { layer: i32, rgbdata: Vec<u8> },
    SetEffect { result: bool },
    SetStandardEffect { result: bool },
    SetBrightness { result: bool },
    SetIdle { result: bool },
    GetBrightness { result: u8 },
    SetSync { result: bool },
    GetSync { sync: bool },
    SetBatteryHealthOptimizer { result: bool },
    GetBatteryHealthOptimizer { is_on: bool, threshold: u8 },
    GetDeviceName { name: String },
    GetActualFanRpm { rpm: i32 },
    GetStandardEffect { effect: u8, params: Vec<u8> },
    GetGpuStatus {
        gpus: Vec<GpuInfo>,
        dgpu_runtime_pm: bool,
        envycontrol_mode: String,
        envycontrol_available: bool,
    },
    SetDgpuRuntimePM { result: bool },
    SetGpuMode { result: bool, message: String },
}

pub ghost enum ResponseView {
    SetFanSpeed { result: bool },
    GetFanSpeed { rpm: i32 },
    SetPowerMode { result: bool },
    GetPwrLevel { pwr: u8 },
    GetCPUBoost { cpu: u8 },
    GetGPUBoost { gpu: u8 },
    SetLogoLedState { result: bool },
    GetLogoLedState { logo_state: u8 },
    GetKeyboardRGB { layer: i32, rgbdata: Seq<u8> },
    SetEffect { result: bool },
    SetStandardEffect { result: bool },
    SetBrightness { result: bool },
    SetIdle { result: bool },
    GetBrightness { result: u8 },
    SetSync { result: bool },
    GetSync { sync: bool },
    SetBatteryHealthOptimizer { result: bool },
    GetBatteryHealthOptimizer { is_on: bool, threshold: u8 },
    GetDeviceName { name: Seq<char> },
    GetActualFanRpm { rpm: i32 },
    GetStandardEffect { effect: u8, params: Seq<u8> },
    GetGpuStatus {
        gpus: Seq<GpuInfoView>,
        dgpu_runtime_pm: bool,
        envycontrol_mode: Seq<char>,
        envycontrol_available: bool,
    },
    SetDgpuRuntimePM { result: bool },
    SetGpuMode { result: bool, message: Seq<char> },
}

impl View for DaemonResponse {
    type V = ResponseView;

    open spec fn view(&self) -> ResponseView {
        match self {
            DaemonResponse::SetFanSpeed { result } => ResponseView::SetFanSpeed {
                result: *result,
            },
            DaemonResponse::GetFanSpeed { rpm } => ResponseView::GetFanSpeed { rpm: *rpm },
            DaemonResponse::SetPowerMode { result } => ResponseView::SetPowerMode {
                result: *result,
            },
            DaemonResponse::GetPwrLevel { pwr } => ResponseView::GetPwrLevel { pwr: *pwr },
            DaemonResponse::GetCPUBoost { cpu } => ResponseView::GetCPUBoost { cpu: *cpu },
            DaemonResponse::GetGPUBoost { gpu } => ResponseView::GetGPUBoost { gpu: *gpu },
            DaemonResponse::SetLogoLedState { result } => ResponseView::SetLogoLedState {
                result: *result,
            },
            DaemonResponse::GetLogoLedState { logo_state } => ResponseView::GetLogoLedState {
                logo_state: *logo_state,
            },
            DaemonResponse::GetKeyboardRGB { layer, rgbdata } => ResponseView::GetKeyboardRGB {
                layer: *layer,
                rgbdata: rgbdata@,
            },
            DaemonResponse::SetEffect { result } => ResponseView::SetEffect { result: *result },
            DaemonResponse::SetStandardEffect { result } => ResponseView::SetStandardEffect {
                result: *result,
            },
            DaemonResponse::SetBrightness { result } => ResponseView::SetBrightness {
                result: *result,
            },
            DaemonResponse::SetIdle { result } => ResponseView::SetIdle { result: *result },
            DaemonResponse::GetBrightness { result } => ResponseView::GetBrightness {
                result: *result,
            },
            DaemonResponse::SetSync { result } => ResponseView::SetSync { result: *result },
            DaemonResponse::GetSync { sync } => ResponseView::GetSync { sync: *sync },
            DaemonResponse::SetBatteryHealthOptimizer { result } => {
                ResponseView::SetBatteryHealthOptimizer { result: *result }
            },
            DaemonResponse::GetBatteryHealthOptimizer { is_on, threshold } => {
                ResponseView::GetBatteryHealthOptimizer { is_on: *is_on, threshold: *threshold }
            },
            DaemonResponse::GetDeviceName { name } => ResponseView::GetDeviceName { name: name@ },
            DaemonResponse::GetActualFanRpm { rpm } => ResponseView::GetActualFanRpm { rpm: *rpm },
            DaemonResponse::GetStandardEffect { effect, params } => {
                ResponseView::GetStandardEffect { effect: *effect, params: params@ }
            },
            DaemonResponse::GetGpuStatus {
                gpus,
                dgpu_runtime_pm,
                envycontrol_mode,
                envycontrol_available,
            } => ResponseView::GetGpuStatus {
                gpus: gpus@.map_values(|g: GpuInfo| g@),
                dgpu_runtime_pm: *dgpu_runtime_pm,
                envycontrol_mode: envycontrol_mode@,
                envycontrol_available: *envycontrol_available,
            },
            DaemonResponse::SetDgpuRuntimePM { result } => ResponseView::SetDgpuRuntimePM {
                result: *result,
            },
            DaemonResponse::SetGpuMode { result, message } => ResponseView::SetGpuMode {
                result: *result,
                message: message@,
            },
        }
    }
}

/// The length prefixes of the wire format are faithful for these values;
/// every value built from in-memory strings and vectors satisfies them.
pub open spec fn gpu_fits(g: GpuInfoView) -> bool {
    &&& str_fits(g.name)
    &&& str_fits(g.pci_slot)
    &&& str_fits(g.driver)
    &&& str_fits(g.gpu_type)
    &&& str_fits(g.runtime_status)
}

pub open spec fn cmd_fits(c: CommandView) -> bool {
    match c {
        CommandView::SetEffect { name, params } => str_fits(name) && bytes_fit(params),
        CommandView::SetStandardEffect { name, params } => str_fits(name) && bytes_fit(params),
        CommandView::SetGpuMode { mode } => str_fits(mode),
        _ => true,
    }
}

pub open spec fn resp_fits(r: ResponseView) -> bool {
    match r {
        ResponseView::GetKeyboardRGB { rgbdata, .. } => bytes_fit(rgbdata),
        ResponseView::GetDeviceName { name } => str_fits(name),
        ResponseView::GetStandardEffect { params, .. } => bytes_fit(params),
        ResponseView::GetGpuStatus { gpus, envycontrol_mode, .. } => {
            &&& gpus.len() <= u64::MAX
            &&& (forall|k: int| 0 <= k < gpus.len() ==> gpu_fits(#[trigger] gpus[k]))
            &&& str_fits(envycontrol_mode)
        },
        ResponseView::SetGpuMode { message, .. } => str_fits(message),
        _ => true,
    }
}

} // verus!
