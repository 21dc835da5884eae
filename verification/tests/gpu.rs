//! Discovery, classification, naming, and ordering tests.

use razer_control::gpu::{
    build_gpu_info, classify_gpu_type, discover_gpus, is_gpu_class, resolve_gpu_name, sort_gpus,
    RawDevice,
};
use razer_control::msg::GpuInfo;

fn raw_device(slot: &str, class: &str, vendor: &str, driver: Option<&str>) -> RawDevice {
    RawDevice {
        pci_slot: String::from(slot),
        class: Some(class.as_bytes().to_vec()),
        vendor: Some(vendor.as_bytes().to_vec()),
        device: Some(b"0x1f15\n".to_vec()),
        driver: driver.map(String::from),
        runtime_status: Some(b"active\n".to_vec()),
        vendor_tool_out: None,
        pci_db_out: None,
    }
}

#[test]
fn integrated_only_vendor_with_its_driver_is_igpu() {
    let d = raw_device("0000:00:02.0", "0x030000\n", "0x8086\n", Some("i915"));
    let g = build_gpu_info(&d).expect("a display-class device");
    assert_eq!(g.gpu_type, "igpu");
    assert_eq!(g.pci_slot, "0000:00:02.0");
    assert_eq!(g.driver, "i915");
    assert_eq!(g.runtime_status, "active");
}

#[test]
fn ambiguous_vendor_with_other_driver_is_dgpu() {
    let d = raw_device("0000:03:00.0", "0x030000\n", "0x1002\n", Some("radeon"));
    let g = build_gpu_info(&d).expect("a display-class device");
    assert_eq!(g.gpu_type, "dgpu");
}

#[test]
fn ambiguous_vendor_with_integrated_driver_is_igpu() {
    let d = raw_device("0000:04:00.0", "0x030000\n", "0x1002\n", Some("amdgpu"));
    let g = build_gpu_info(&d).expect("a display-class device");
    assert_eq!(g.gpu_type, "igpu");
}

#[test]
fn discrete_only_vendor_is_dgpu_whatever_the_driver() {
    let d = raw_device("0000:01:00.0", "0x030200\n", "0x10de\n", Some("nouveau"));
    let g = build_gpu_info(&d).expect("a 3D-class device");
    assert_eq!(g.gpu_type, "dgpu");
    let d2 = raw_device("0000:01:00.0", "0x030000\n", "0x10de\n", None);
    let g2 = build_gpu_info(&d2).expect("a display-class device");
    assert_eq!(g2.gpu_type, "dgpu");
    assert_eq!(g2.driver, "");
}

#[test]
fn unknown_vendor_is_unknown() {
    let d = raw_device("0000:05:00.0", "0x030000\n", "0x1a2b\n", Some("drv"));
    let g = build_gpu_info(&d).expect("a display-class device");
    assert_eq!(g.gpu_type, "unknown");
}

#[test]
fn classify_without_vendor_is_unknown() {
    assert_eq!(classify_gpu_type(None, "i915"), "unknown");
}

#[test]
fn non_display_class_is_skipped() {
    let d = raw_device("0000:00:1f.0", "0x060100\n", "0x8086\n", None);
    assert!(build_gpu_info(&d).is_none());
    let unreadable = RawDevice { class: None, ..raw_device("x", "", "", None) };
    assert!(build_gpu_info(&unreadable).is_none());
}

#[test]
fn class_prefix_check() {
    assert!(is_gpu_class(Some(&String::from("0x030000"))));
    assert!(is_gpu_class(Some(&String::from("0x030200"))));
    assert!(!is_gpu_class(Some(&String::from("0x030100"))));
    assert!(!is_gpu_class(Some(&String::from("0x03"))));
    assert!(!is_gpu_class(None));
}

#[test]
fn unreadable_runtime_status_defaults_to_unsupported() {
    let mut d = raw_device("0000:01:00.0", "0x030000\n", "0x10de\n", None);
    d.runtime_status = None;
    let g = build_gpu_info(&d).expect("a display-class device");
    assert_eq!(g.runtime_status, "unsupported");
}

#[test]
fn igpu_precedes_dgpu_whatever_the_enumeration_order() {
    let dgpu_first = vec![
        raw_device("0000:01:00.0", "0x030000\n", "0x10de\n", Some("nvidia")),
        raw_device("0000:00:02.0", "0x030000\n", "0x8086\n", Some("i915")),
    ];
    let found = discover_gpus(&dgpu_first);
    assert_eq!(found.len(), 2);
    assert_eq!(found[0].gpu_type, "igpu");
    assert_eq!(found[1].gpu_type, "dgpu");

    let igpu_first = vec![
        raw_device("0000:00:02.0", "0x030000\n", "0x8086\n", Some("i915")),
        raw_device("0000:01:00.0", "0x030000\n", "0x10de\n", Some("nvidia")),
    ];
    let found2 = discover_gpus(&igpu_first);
    assert_eq!(found2[0].gpu_type, "igpu");
    assert_eq!(found2[1].gpu_type, "dgpu");
}

fn typed_gpu(gpu_type: &str, slot: &str) -> GpuInfo {
    GpuInfo {
        name: String::from("g"),
        pci_slot: String::from(slot),
        driver: String::new(),
        gpu_type: String::from(gpu_type),
        runtime_status: String::new(),
    }
}

#[test]
fn sort_keeps_groups_in_input_order_and_unknown_last() {
    let sorted = sort_gpus(vec![
        typed_gpu("unknown", "u1"),
        typed_gpu("dgpu", "d1"),
        typed_gpu("igpu", "i1"),
        typed_gpu("dgpu", "d2"),
        typed_gpu("igpu", "i2"),
    ]);
    let order: Vec<(&str, &str)> =
        sorted.iter().map(|g| (g.gpu_type.as_str(), g.pci_slot.as_str())).collect();
    assert_eq!(
        order,
        vec![("igpu", "i1"), ("igpu", "i2"), ("dgpu", "d1"), ("dgpu", "d2"), ("unknown", "u1")]
    );
}

#[test]
fn name_prefers_vendor_tool_for_discrete_vendor() {
    let vendor = String::from("0x10de");
    let device = String::from("0x2520");
    let name = resolve_gpu_name(
        Some(&vendor),
        Some(&device),
        "nvidia",
        Some(&b"NVIDIA GeForce RTX 3060 Laptop GPU\n".to_vec()),
        Some(&b"01:00.0 \"VGA\" \"NVIDIA Corporation\" \"GA106M\" -ra1 \"\" \"\"\n".to_vec()),
    );
    assert_eq!(name, "NVIDIA GeForce RTX 3060 Laptop GPU");
}

#[test]
fn name_falls_back_to_pci_database_fields() {
    let vendor = String::from("0x10de");
    let device = String::from("0x2520");
    let name = resolve_gpu_name(
        Some(&vendor),
        Some(&device),
        "nvidia",
        None,
        Some(&b"01:00.0 \"3D controller\" \"NVIDIA Corporation\" \"GA106M\" -ra1 \"\" \"\"\n".to_vec()),
    );
    assert_eq!(name, "NVIDIA Corporation GA106M");
}

#[test]
fn name_ignores_vendor_tool_for_other_vendors() {
    let vendor = String::from("0x8086");
    let device = String::from("0x9a49");
    let name = resolve_gpu_name(
        Some(&vendor),
        Some(&device),
        "i915",
        Some(&b"NVIDIA GeForce RTX 3060 Laptop GPU\n".to_vec()),
        None,
    );
    assert_eq!(name, "Intel GPU (i915)");
}

#[test]
fn name_synthesizes_vendor_label_and_driver() {
    let amd = String::from("0x1002");
    assert_eq!(resolve_gpu_name(Some(&amd), None, "amdgpu", None, None), "AMD GPU (amdgpu)");
    assert_eq!(resolve_gpu_name(Some(&amd), None, "", None, None), "AMD GPU");
    let other = String::from("0xabcd");
    assert_eq!(resolve_gpu_name(Some(&other), None, "", None, None), "Unknown GPU");
    assert_eq!(resolve_gpu_name(None, None, "drv", None, None), "Unknown GPU (drv)");
}

#[test]
fn name_with_blank_vendor_tool_output_uses_next_step() {
    let vendor = String::from("0x10de");
    assert_eq!(
        resolve_gpu_name(Some(&vendor), None, "nvidia", Some(&b"  \n".to_vec()), None),
        "NVIDIA GPU (nvidia)"
    );
}

#[test]
fn name_with_short_pci_line_falls_back() {
    let vendor = String::from("0x10de");
    let device = String::from("0x2520");
    assert_eq!(
        resolve_gpu_name(Some(&vendor), Some(&device), "", None, Some(&b"garbage\n".to_vec())),
        "NVIDIA GPU"
    );
}
