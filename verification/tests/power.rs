//! Runtime power-management tests.

use razer_control::msg::GpuInfo;
use razer_control::power::{find_dgpu, get_dgpu_runtime_pm, plan_runtime_pm_write};

fn typed_gpu(gpu_type: &str, slot: &str) -> GpuInfo {
    GpuInfo {
        name: String::from("g"),
        pci_slot: String::from(slot),
        driver: String::new(),
        gpu_type: String::from(gpu_type),
        runtime_status: String::new(),
    }
}

#[test]
fn enabling_then_reading_reports_true_when_a_discrete_gpu_is_present() {
    let gpus = vec![typed_gpu("igpu", "0000:00:02.0"), typed_gpu("dgpu", "0000:01:00.0")];
    // Enabling decides a write of "auto" to the discrete GPU's control
    // attribute; once that value is in place, the state reads back true.
    let (slot, value) = plan_runtime_pm_write(&gpus, true).expect("a discrete GPU is present");
    assert_eq!(slot, "0000:01:00.0");
    assert_eq!(value, "auto");
    assert!(get_dgpu_runtime_pm(&gpus, Some(&value)));
}

#[test]
fn disabling_writes_on_and_reads_back_false() {
    let gpus = vec![typed_gpu("dgpu", "0000:01:00.0")];
    let (_, value) = plan_runtime_pm_write(&gpus, false).expect("a discrete GPU is present");
    assert_eq!(value, "on");
    assert!(!get_dgpu_runtime_pm(&gpus, Some(&value)));
}

#[test]
fn no_discrete_gpu_means_no_write_and_false() {
    let gpus = vec![typed_gpu("igpu", "0000:00:02.0")];
    assert!(plan_runtime_pm_write(&gpus, true).is_none());
    assert!(!get_dgpu_runtime_pm(&gpus, Some(&String::from("auto"))));
    assert!(find_dgpu(&gpus).is_none());
}

#[test]
fn unreadable_control_attribute_reads_false() {
    let gpus = vec![typed_gpu("dgpu", "0000:01:00.0")];
    assert!(!get_dgpu_runtime_pm(&gpus, None));
}

#[test]
fn first_discrete_gpu_is_the_target() {
    let gpus = vec![
        typed_gpu("igpu", "0000:00:02.0"),
        typed_gpu("dgpu", "0000:01:00.0"),
        typed_gpu("dgpu", "0000:02:00.0"),
    ];
    assert_eq!(find_dgpu(&gpus), Some(1));
    let (slot, _) = plan_runtime_pm_write(&gpus, true).expect("a discrete GPU is present");
    assert_eq!(slot, "0000:01:00.0");
}
