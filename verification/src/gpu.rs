//! GPU discovery: classification, naming, and ordering of PCI devices.
//!
//! The application layer enumerates the PCI device tree and reads each
//! device's attribute files; everything it reads arrives here as plain
//! bytes and strings.  This module decides which devices are graphics
//! devices, classifies them as integrated or discrete, resolves a
//! human-readable name through the fallback cascade, and orders the
//! result so integrated GPUs come before discrete ones.

use vstd::prelude::*;

verus! {

use crate::msg::{GpuInfo, GpuInfoView};
use crate::text::{spec_trim, trim_bytes, spec_split, split_bytes};
use crate::wire::{str_eq, string_from_utf8};
use vstd::utf8::{valid_utf8, decode_utf8};
use vstd::string::StrSliceExecFns;
use vstd::string::StringExecFns;

// ---------------------------------------------------------------------------
// Attribute files: trim and decode
// ---------------------------------------------------------------------------

/// The characters of a sysfs attribute: its bytes trimmed of ASCII
/// whitespace, when they are valid UTF-8.
pub open spec fn spec_attr(raw: Option<Seq<u8>>) -> Option<Seq<char>> {
    match raw {
        Some(bytes) => {
            if valid_utf8(spec_trim(bytes)) {
                Some(decode_utf8(spec_trim(bytes)))
            } else {
                None
            }
        },
        None => None,
    }
}

pub open spec fn opt_bytes_view(o: Option<Vec<u8>>) -> Option<Seq<u8>> {
    match o {
        Some(v) => Some(v@),
        None => None,
    }
}

pub open spec fn opt_string_view(o: Option<String>) -> Option<Seq<char>> {
    match o {
        Some(s) => Some(s@),
        None => None,
    }
}

/// Trim an attribute file's bytes and decode them as UTF-8.
pub fn attr_string(raw: Option<&Vec<u8>>) -> (r: Option<String>)
    ensures
        opt_string_view(r) == spec_attr(
            match raw {
                Some(v) => Some(v@),
                None => None,
            },
        ),
{
    match raw {
        Some(bytes) => {
            let trimmed = trim_bytes(bytes.as_slice());
            string_from_utf8(trimmed)
        },
        None => None,
    }
}

// ---------------------------------------------------------------------------
// Classification
// ---------------------------------------------------------------------------

/// Device-class prefixes of display controllers: VGA (`0x0300…`) and 3D
/// (`0x0302…`) controllers.
pub open spec fn spec_is_gpu_class(class: Option<Seq<char>>) -> bool {
    match class {
        Some(c) => c.len() >= 6 && (c.subrange(0, 6) == "0x0300"@ || c.subrange(0, 6)
            == "0x0302"@),
        None => false,
    }
}

pub fn is_gpu_class(class: Option<&String>) -> (r: bool)
    ensures
        r == spec_is_gpu_class(
            match class {
                Some(c) => Some(c@),
                None => None,
            },
        ),
{
    match class {
        Some(c) => {
            let n = c.as_str().unicode_len();
            if n < 6 {
                false
            } else {
                let p = c.as_str().substring_char(0, 6);
                str_eq(p, "0x0300") || str_eq(p, "0x0302")
            }
        },
        None => false,
    }
}

/// Vendor-based classification.  The discrete-only vendor is always
/// `"dgpu"`; the vendor that ships both kinds counts as integrated exactly
/// when the integrated-graphics driver is bound; the integrated-only
/// vendor is always `"igpu"`; anything else is `"unknown"`.
pub open spec fn spec_gpu_type(vendor: Option<Seq<char>>, driver: Seq<char>) -> Seq<char> {
    match vendor {
        Some(v) => {
            if v == "0x10de"@ {
                "dgpu"@
            } else if v == "0x1002"@ {
                if driver == "amdgpu"@ {
                    "igpu"@
                } else {
                    "dgpu"@
                }
            } else if v == "0x8086"@ {
                "igpu"@
            } else {
                "unknown"@
            }
        },
        None => "unknown"@,
    }
}

pub fn classify_gpu_type(vendor: Option<&String>, driver: &str) -> (r: String)
    ensures
        r@ == spec_gpu_type(
            match vendor {
                Some(v) => Some(v@),
                None => None,
            },
            driver@,
        ),
{
    match vendor {
        Some(v) => {
            if str_eq(v.as_str(), "0x10de") {
                String::from_str("dgpu")
            } else if str_eq(v.as_str(), "0x1002") {
                if str_eq(driver, "amdgpu") {
                    String::from_str("igpu")
                } else {
                    String::from_str("dgpu")
                }
            } else if str_eq(v.as_str(), "0x8086") {
                String::from_str("igpu")
            } else {
                String::from_str("unknown")
            }
        },
        None => String::from_str("unknown"),
    }
}

// ---------------------------------------------------------------------------
// Naming
// ---------------------------------------------------------------------------

/// The name the vendor query tool reported: its output trimmed, when that
/// is non-empty and valid UTF-8.
pub open spec fn spec_vendor_tool_name(out: Option<Seq<u8>>) -> Option<Seq<char>> {
    match out {
        Some(bytes) => {
            let t = spec_trim(bytes);
            if t.len() > 0 && valid_utf8(t) {
                Some(decode_utf8(t))
            } else {
                None
            }
        },
        None => None,
    }
}

/// The name parsed from the PCI database tool's quoted-field line: with
/// fields split on `"`, the fourth field is the vendor name and the sixth
/// the device name.
pub open spec fn spec_pci_db_name(out: Option<Seq<u8>>) -> Option<Seq<char>> {
    match out {
        Some(line) => {
            let fields = spec_split(line, 34u8);
            if fields.len() >= 8 {
                let piece = fields[3] + seq![32u8] + fields[5];
                if valid_utf8(piece) {
                    Some(decode_utf8(piece))
                } else {
                    None
                }
            } else {
                None
            }
        },
        None => None,
    }
}

pub open spec fn spec_vendor_label(vendor: Option<Seq<char>>) -> Seq<char> {
    match vendor {
        Some(v) => {
            if v == "0x10de"@ {
                "NVIDIA"@
            } else if v == "0x1002"@ {
                "AMD"@
            } else if v == "0x8086"@ {
                "Intel"@
            } else {
                "Unknown"@
            }
        },
        None => "Unknown"@,
    }
}

/// The synthesized name used when no external tool produced one.
pub open spec fn spec_fallback_name(vendor: Option<Seq<char>>, driver: Seq<char>) -> Seq<char> {
    if driver.len() == 0 {
        spec_vendor_label(vendor) + " GPU"@
    } else {
        spec_vendor_label(vendor) + " GPU ("@ + driver + ")"@
    }
}

/// The naming cascade: the vendor query tool's answer for the
/// discrete-capable vendor, else the PCI database lookup keyed by a known
/// device ID, else the synthesized vendor/driver name.
pub open spec fn spec_resolve_name(
    vendor: Option<Seq<char>>,
    device: Option<Seq<char>>,
    driver: Seq<char>,
    vendor_tool_out: Option<Seq<u8>>,
    pci_db_out: Option<Seq<u8>>,
) -> Seq<char> {
    let from_tool = if vendor == Some("0x10de"@) {
        spec_vendor_tool_name(vendor_tool_out)
    } else {
        Option::<Seq<char>>::None
    };
    match from_tool {
        Some(name) => name,
        None => match device {
            Some(_) => match spec_pci_db_name(pci_db_out) {
                Some(name) => name,
                None => spec_fallback_name(vendor, driver),
            },
            None => spec_fallback_name(vendor, driver),
        },
    }
}

fn vendor_tool_name(out: Option<&Vec<u8>>) -> (r: Option<String>)
    ensures
        opt_string_view(r) == spec_vendor_tool_name(
            match out {
                Some(v) => Some(v@),
                None => None,
            },
        ),
{
    match out {
        Some(bytes) => {
            let t = trim_bytes(bytes.as_slice());
            if t.len() > 0 {
                string_from_utf8(t)
            } else {
                None
            }
        },
        None => None,
    }
}

fn pci_db_name(out: Option<&Vec<u8>>) -> (r: Option<String>)
    ensures
        opt_string_view(r) == spec_pci_db_name(
            match out {
                Some(v) => Some(v@),
                None => None,
            },
        ),
{
    match out {
        Some(line) => {
            let fields = split_bytes(line.as_slice(), 34);
            if fields.len() >= 8 {
                let mut piece: Vec<u8> = Vec::new();
                piece.extend_from_slice(fields[3].as_slice());
                piece.push(32);
                piece.extend_from_slice(fields[5].as_slice());
                proof {
                    let sf = spec_split(line@, 34u8);
                    assert(fields@.map_values(|p: Vec<u8>| p@)[3] == sf[3]);
                    assert(fields@.map_values(|p: Vec<u8>| p@)[5] == sf[5]);
                    assert(piece@ =~= sf[3] + seq![32u8] + sf[5]);
                }
                string_from_utf8(piece)
            } else {
                None
            }
        },
        None => None,
    }
}

fn fallback_name(vendor: Option<&String>, driver: &str) -> (r: String)
    ensures
        r@ == spec_fallback_name(
            match vendor {
                Some(v) => Some(v@),
                None => None,
            },
            driver@,
        ),
{
    let label: &str = match vendor {
        Some(v) => {
            if str_eq(v.as_str(), "0x10de") {
                "NVIDIA"
            } else if str_eq(v.as_str(), "0x1002") {
                "AMD"
            } else if str_eq(v.as_str(), "0x8086") {
                "Intel"
            } else {
                "Unknown"
            }
        },
        None => "Unknown",
    };
    if driver.unicode_len() == 0 {
        String::from_str(label).concat(" GPU")
    } else {
        String::from_str(label).concat(" GPU (").concat(driver).concat(")")
    }
}

/// Resolve the display name for one device from the raw tool outputs.
pub fn resolve_gpu_name(
    vendor: Option<&String>,
    device: Option<&String>,
    driver: &str,
    vendor_tool_out: Option<&Vec<u8>>,
    pci_db_out: Option<&Vec<u8>>,
) -> (r: String)
    ensures
        r@ == spec_resolve_name(
            match vendor {
                Some(v) => Some(v@),
                None => None,
            },
            match device {
                Some(v) => Some(v@),
                None => None,
            },
            driver@,
            match vendor_tool_out {
                Some(v) => Some(v@),
                None => None,
            },
            match pci_db_out {
                Some(v) => Some(v@),
                None => None,
            },
        ),
{
    let is_discrete_vendor = match vendor {
        Some(v) => str_eq(v.as_str(), "0x10de"),
        None => false,
    };
    if is_discrete_vendor {
        match vendor_tool_name(vendor_tool_out) {
            Some(name) => {
                return name;
            },
            None => {},
        }
    }
    match device {
        Some(_) => {
            match pci_db_name(pci_db_out) {
                Some(name) => name,
                None => fallback_name(vendor, driver),
            }
        },
        None => fallback_name(vendor, driver),
    }
}

// ---------------------------------------------------------------------------
// Assembling one record and the whole discovery result
// ---------------------------------------------------------------------------

/// Everything the application layer reads about one PCI device: the bytes
/// of its attribute files (`None` where a file was unreadable), the bound
/// driver's name, and the raw output of the naming tools where they ran.
pub struct RawDevice {
    pub pci_slot: String,
    pub class: Option<Vec<u8>>,
    pub vendor: Option<Vec<u8>>,
    pub device: Option<Vec<u8>>,
    pub driver: Option<String>,
    pub runtime_status: Option<Vec<u8>>,
    pub vendor_tool_out: Option<Vec<u8>>,
    pub pci_db_out: Option<Vec<u8>>,
}

pub open spec fn spec_driver_chars(d: RawDevice) -> Seq<char> {
    match d.driver {
        Some(s) => s@,
        None => Seq::empty(),
    }
}

/// The record that discovery produces for a device, `None` when its class
/// does not identify a graphics device.
pub open spec fn spec_build(d: RawDevice) -> Option<GpuInfoView> {
    let class = spec_attr(opt_bytes_view(d.class));
    if spec_is_gpu_class(class) {
        let vendor = spec_attr(opt_bytes_view(d.vendor));
        let device = spec_attr(opt_bytes_view(d.device));
        let driver = spec_driver_chars(d);
        Some(
            GpuInfoView {
                name: spec_resolve_name(
                    vendor,
                    device,
                    driver,
                    opt_bytes_view(d.vendor_tool_out),
                    opt_bytes_view(d.pci_db_out),
                ),
                pci_slot: d.pci_slot@,
                driver,
                gpu_type: spec_gpu_type(vendor, driver),
                runtime_status: match spec_attr(opt_bytes_view(d.runtime_status)) {
                    Some(s) => s,
                    None => "unsupported"@,
                },
            },
        )
    } else {
        None
    }
}

/// Build the discovery record for one device; `None` when it is not a
/// graphics device.  Unreadable attributes fall back to their defaults
/// (empty driver, `"unsupported"` runtime status) rather than failing.
pub fn build_gpu_info(d: &RawDevice) -> (r: Option<GpuInfo>)
    ensures
        match r {
            Some(g) => spec_build(*d) == Some(g@),
            None => spec_build(*d) is None,
        },
{
    let class = attr_string(d.class.as_ref());
    if !is_gpu_class(class.as_ref()) {
        return None;
    }
    let vendor = attr_string(d.vendor.as_ref());
    let device = attr_string(d.device.as_ref());
    let driver: &str = match &d.driver {
        Some(s) => s.as_str(),
        None => "",
    };
    proof {
        reveal_strlit("");
        assert(""@ =~= Seq::<char>::empty());
    }
    let name = resolve_gpu_name(
        vendor.as_ref(),
        device.as_ref(),
        driver,
        d.vendor_tool_out.as_ref(),
        d.pci_db_out.as_ref(),
    );
    let gpu_type = classify_gpu_type(vendor.as_ref(), driver);
    let runtime_status = match attr_string(d.runtime_status.as_ref()) {
        Some(s) => s,
        None => String::from_str("unsupported"),
    };
    Some(
        GpuInfo {
            name,
            pci_slot: d.pci_slot.clone(),
            driver: String::from_str(driver),
            gpu_type,
            runtime_status,
        },
    )
}

/// The records of all graphics devices among the enumerated ones, in
/// enumeration order.
pub open spec fn spec_collect(ds: Seq<RawDevice>) -> Seq<GpuInfoView>
    decreases ds.len(),
{
    if ds.len() == 0 {
        Seq::empty()
    } else {
        (match spec_build(ds[0]) {
            Some(g) => seq![g],
            None => Seq::empty(),
        }) + spec_collect(ds.drop_first())
    }
}

proof fn lemma_collect_push(ds: Seq<RawDevice>, d: RawDevice)
    ensures
        spec_collect(ds.push(d)) == spec_collect(ds) + (match spec_build(d) {
            Some(g) => seq![g],
            None => Seq::<GpuInfoView>::empty(),
        }),
    decreases ds.len(),
{
    let tail = match spec_build(d) {
        Some(g) => seq![g],
        None => Seq::<GpuInfoView>::empty(),
    };
    if ds.len() == 0 {
        assert(ds.push(d)[0] == d);
        assert(ds.push(d).drop_first() =~= Seq::<RawDevice>::empty());
        assert(spec_collect(ds.push(d)) == tail + spec_collect(Seq::<RawDevice>::empty()));
        assert(tail + Seq::<GpuInfoView>::empty() =~= tail);
        assert(spec_collect(ds) + tail =~= tail);
    } else {
        lemma_collect_push(ds.drop_first(), d);
        assert(ds.push(d)[0] == ds[0]);
        assert(ds.push(d).drop_first() =~= ds.drop_first().push(d));
        let head = match spec_build(ds[0]) {
            Some(g) => seq![g],
            None => Seq::<GpuInfoView>::empty(),
        };
        assert(spec_collect(ds.push(d)) == head + (spec_collect(ds.drop_first()) + tail));
        assert(spec_collect(ds) == head + spec_collect(ds.drop_first()));
        assert(head + (spec_collect(ds.drop_first()) + tail) =~= (head + spec_collect(
            ds.drop_first(),
        )) + tail);
    }
}

pub open spec fn is_igpu(g: GpuInfoView) -> bool {
    g.gpu_type == "igpu"@
}

pub open spec fn is_dgpu(g: GpuInfoView) -> bool {
    g.gpu_type == "dgpu"@
}

/// Discovery order: integrated GPUs first, then discrete ones, then
/// everything else, each group keeping enumeration order.
pub open spec fn spec_order_gpus(gs: Seq<GpuInfoView>) -> Seq<GpuInfoView> {
    gs.filter(|g: GpuInfoView| is_igpu(g)) + gs.filter(
        |g: GpuInfoView| !is_igpu(g) && is_dgpu(g),
    ) + gs.filter(|g: GpuInfoView| !is_igpu(g) && !is_dgpu(g))
}

/// In an ordered discovery result, every integrated GPU stands before
/// every discrete one, whatever order the devices were enumerated in.
pub proof fn lemma_order_igpu_before_dgpu(gs: Seq<GpuInfoView>, i: int, j: int)
    requires
        0 <= i < spec_order_gpus(gs).len(),
        0 <= j < spec_order_gpus(gs).len(),
        is_igpu(spec_order_gpus(gs)[i]),
        is_dgpu(spec_order_gpus(gs)[j]),
    ensures
        i < j,
{
    broadcast use vstd::seq_lib::group_filter_ensures;

    reveal_strlit("igpu");
    reveal_strlit("dgpu");
    assert("igpu"@[0] != "dgpu"@[0]);
    let a = gs.filter(|g: GpuInfoView| is_igpu(g));
    let b = gs.filter(|g: GpuInfoView| !is_igpu(g) && is_dgpu(g));
    let c = gs.filter(|g: GpuInfoView| !is_igpu(g) && !is_dgpu(g));
    let r = spec_order_gpus(gs);
    assert(i < a.len()) by {
        if i >= a.len() {
            if i < a.len() + b.len() {
                assert(r[i] == b[i - a.len()]);
            } else {
                assert(r[i] == c[i - a.len() - b.len()]);
            }
        }
    }
    assert(j >= a.len()) by {
        if j < a.len() {
            assert(r[j] == a[j]);
        }
    }
}

/// A fresh copy of one record.
fn dup_gpu(g: &GpuInfo) -> (r: GpuInfo)
    ensures
        r@ == g@,
{
    GpuInfo {
        name: g.name.clone(),
        pci_slot: g.pci_slot.clone(),
        driver: g.driver.clone(),
        gpu_type: g.gpu_type.clone(),
        runtime_status: g.runtime_status.clone(),
    }
}

/// Order a discovery result: integrated GPUs precede discrete ones, and
/// unclassified devices come last; each group keeps its input order.
pub fn sort_gpus(gpus: Vec<GpuInfo>) -> (r: Vec<GpuInfo>)
    ensures
        r@.map_values(|g: GpuInfo| g@) == spec_order_gpus(gpus@.map_values(|g: GpuInfo| g@)),
{
    let ghost views = gpus@.map_values(|g: GpuInfo| g@);
    let ghost pi = |g: GpuInfoView| is_igpu(g);
    let ghost pd = |g: GpuInfoView| !is_igpu(g) && is_dgpu(g);
    let ghost po = |g: GpuInfoView| !is_igpu(g) && !is_dgpu(g);
    let mut igpus: Vec<GpuInfo> = Vec::new();
    let mut dgpus: Vec<GpuInfo> = Vec::new();
    let mut others: Vec<GpuInfo> = Vec::new();
    let n = gpus.len();
    let mut k: usize = 0;
    proof {
        reveal(Seq::filter);
        assert(views.subrange(0, 0) =~= Seq::<GpuInfoView>::empty());
        assert(igpus@.map_values(|g: GpuInfo| g@) =~= views.subrange(0, 0).filter(pi));
        assert(dgpus@.map_values(|g: GpuInfo| g@) =~= views.subrange(0, 0).filter(pd));
        assert(others@.map_values(|g: GpuInfo| g@) =~= views.subrange(0, 0).filter(po));
    }
    while k < n
        invariant
            k <= n,
            n == gpus@.len(),
            views == gpus@.map_values(|g: GpuInfo| g@),
            pi == (|g: GpuInfoView| is_igpu(g)),
            pd == (|g: GpuInfoView| !is_igpu(g) && is_dgpu(g)),
            po == (|g: GpuInfoView| !is_igpu(g) && !is_dgpu(g)),
            igpus@.map_values(|g: GpuInfo| g@) == views.subrange(0, k as int).filter(pi),
            dgpus@.map_values(|g: GpuInfo| g@) == views.subrange(0, k as int).filter(pd),
            others@.map_values(|g: GpuInfo| g@) == views.subrange(0, k as int).filter(po),
        decreases n - k,
    {
        let g = &gpus[k];
        let ghost pre = views.subrange(0, k as int);
        let ghost post = views.subrange(0, k as int + 1);
        proof {
            reveal(Seq::filter);
            assert(post.drop_last() =~= pre);
            assert(post.last() == views[k as int]);
            assert(post.filter(pi) == if pi(views[k as int]) {
                pre.filter(pi).push(views[k as int])
            } else {
                pre.filter(pi)
            });
            assert(post.filter(pd) == if pd(views[k as int]) {
                pre.filter(pd).push(views[k as int])
            } else {
                pre.filter(pd)
            });
            assert(post.filter(po) == if po(views[k as int]) {
                pre.filter(po).push(views[k as int])
            } else {
                pre.filter(po)
            });
        }
        if str_eq(g.gpu_type.as_str(), "igpu") {
            let ghost old_map = igpus@.map_values(|x: GpuInfo| x@);
            igpus.push(dup_gpu(g));
            proof {
                assert(igpus@.map_values(|x: GpuInfo| x@) =~= old_map.push(views[k as int]));
            }
        } else if str_eq(g.gpu_type.as_str(), "dgpu") {
            let ghost old_map = dgpus@.map_values(|x: GpuInfo| x@);
            dgpus.push(dup_gpu(g));
            proof {
                assert(dgpus@.map_values(|x: GpuInfo| x@) =~= old_map.push(views[k as int]));
            }
        } else {
            let ghost old_map = others@.map_values(|x: GpuInfo| x@);
            others.push(dup_gpu(g));
            proof {
                assert(others@.map_values(|x: GpuInfo| x@) =~= old_map.push(views[k as int]));
            }
        }
        k += 1;
    }
    proof {
        assert(views.subrange(0, n as int) =~= views);
    }
    let mut out = igpus;
    let mut dgpus = dgpus;
    out.append(&mut dgpus);
    proof {
        assert(out@.map_values(|g: GpuInfo| g@) =~= views.filter(pi) + views.filter(pd));
    }
    let mut others = others;
    out.append(&mut others);
    proof {
        assert(out@.map_values(|g: GpuInfo| g@) =~= (views.filter(pi) + views.filter(pd))
            + views.filter(po));
        assert((views.filter(pi) + views.filter(pd)) + views.filter(po) =~= spec_order_gpus(
            views,
        ));
    }
    out
}

/// Scan the enumerated PCI devices and return the ordered discovery
/// result: one record per graphics device, integrated GPUs first.
pub fn discover_gpus(devices: &Vec<RawDevice>) -> (r: Vec<GpuInfo>)
    ensures
        r@.map_values(|g: GpuInfo| g@) == spec_order_gpus(spec_collect(devices@)),
{
    let mut found: Vec<GpuInfo> = Vec::new();
    let n = devices.len();
    let mut k: usize = 0;
    proof {
        assert(devices@.subrange(0, 0) =~= Seq::<RawDevice>::empty());
        assert(found@.map_values(|g: GpuInfo| g@) =~= spec_collect(devices@.subrange(0, 0)));
    }
    while k < n
        invariant
            k <= n,
            n == devices@.len(),
            found@.map_values(|g: GpuInfo| g@) == spec_collect(devices@.subrange(0, k as int)),
        decreases n - k,
    {
        proof {
            lemma_collect_push(devices@.subrange(0, k as int), devices@[k as int]);
            assert(devices@.subrange(0, k as int).push(devices@[k as int]) =~= devices@.subrange(
                0,
                k as int + 1,
            ));
        }
        match build_gpu_info(&devices[k]) {
            Some(g) => {
                let ghost old_map = found@.map_values(|x: GpuInfo| x@);
                found.push(g);
                proof {
                    assert(found@.map_values(|x: GpuInfo| x@) =~= old_map.push(
                        spec_build(devices@[k as int]).unwrap(),
                    ));
                    assert(old_map.push(spec_build(devices@[k as int]).unwrap())
                        =~= old_map + (match spec_build(devices@[k as int]) {
                        Some(g) => seq![g],
                        None => Seq::<GpuInfoView>::empty(),
                    }));
                }
            },
            None => {
                proof {
                    assert(found@.map_values(|x: GpuInfo| x@)
                        + (match spec_build(devices@[k as int]) {
                        Some(g) => seq![g],
                        None => Seq::<GpuInfoView>::empty(),
                    }) =~= found@.map_values(|x: GpuInfo| x@));
                }
            },
        }
        k += 1;
    }
    proof {
        assert(devices@.subrange(0, n as int) =~= devices@);
    }
    sort_gpus(found)
}

} // verus!
