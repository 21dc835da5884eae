//! Runtime power-management control of the discrete GPU.
//!
//! The kernel exposes a `power/control` attribute per device; the value
//! `"auto"` permits runtime suspension, `"on"` keeps the device awake.
//! These functions decide everything about that attribute — which device
//! to touch and what to write or how to read it — from plain values; the
//! application layer performs the single file read or write they call for.

use vstd::prelude::*;

verus! {

use crate::msg::GpuInfo;
use crate::gpu::is_dgpu;
use crate::wire::str_eq;
use vstd::string::StringExecFns;

/// Some discovered device is a discrete GPU.
pub open spec fn has_dgpu(gs: Seq<GpuInfo>) -> bool {
    exists|j: int| 0 <= j < gs.len() && is_dgpu(gs[j]@)
}

/// Index of the first discrete GPU in a discovery result.
pub fn find_dgpu(gpus: &Vec<GpuInfo>) -> (r: Option<usize>)
    ensures
        match r {
            Some(i) => i < gpus@.len() && is_dgpu(gpus@[i as int]@) && (forall|j: int|
                0 <= j < i ==> !is_dgpu(gpus@[j]@)),
            None => !has_dgpu(gpus@),
        },
{
    let n = gpus.len();
    let mut k: usize = 0;
    while k < n
        invariant
            k <= n,
            n == gpus@.len(),
            forall|j: int| 0 <= j < k ==> !is_dgpu(gpus@[j]@),
        decreases n - k,
    {
        if str_eq(gpus[k].gpu_type.as_str(), "dgpu") {
            return Some(k);
        }
        k += 1;
    }
    None
}

/// Whether power saving is active on the discrete GPU: there is one, and
/// its `power/control` attribute — handed in by the caller — reads
/// `"auto"`.  Absence of a discrete GPU, an unreadable attribute, and any
/// other value all report `false`.
pub fn get_dgpu_runtime_pm(gpus: &Vec<GpuInfo>, control: Option<&String>) -> (r: bool)
    ensures
        r == (has_dgpu(gpus@) && (match control {
            Some(c) => c@ == "auto"@,
            None => false,
        })),
{
    match find_dgpu(gpus) {
        Some(i) => {
            proof {
                assert(is_dgpu(gpus@[i as int]@));
            }
            match control {
                Some(c) => str_eq(c.as_str(), "auto"),
                None => false,
            }
        },
        None => false,
    }
}

/// Decide the runtime-PM write for a discovery result: the PCI slot of
/// the first discrete GPU and the value to store, `"auto"` to enable
/// power saving and `"on"` to disable it.  `None` — nothing to write —
/// exactly when there is no discrete GPU.
pub fn plan_runtime_pm_write(gpus: &Vec<GpuInfo>, enabled: bool) -> (r: Option<(String, String)>)
    ensures
        match r {
            Some((slot, value)) => {
                &&& has_dgpu(gpus@)
                &&& (exists|i: int|
                    0 <= i < gpus@.len() && is_dgpu(gpus@[i]@) && slot@ == gpus@[i]@.pci_slot
                        && (forall|j: int| 0 <= j < i ==> !is_dgpu(gpus@[j]@)))
                &&& value@ == (if enabled {
                    "auto"@
                } else {
                    "on"@
                })
            },
            None => !has_dgpu(gpus@),
        },
{
    match find_dgpu(gpus) {
        Some(i) => {
            let slot = gpus[i].pci_slot.clone();
            let value = if enabled {
                String::from_str("auto")
            } else {
                String::from_str("on")
            };
            proof {
                assert(0 <= i < gpus@.len() && is_dgpu(gpus@[i as int]@) && slot@ == gpus@[
                    i as int]@.pci_slot && (forall|j: int| 0 <= j < i ==> !is_dgpu(gpus@[j]@)));
            }
            Some((slot, value))
        },
        None => None,
    }
}

} // verus!
