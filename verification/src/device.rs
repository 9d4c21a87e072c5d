//! Device selection and model identification.
//!
//! The caller owns the HID transport: it enumerates the attached devices,
//! opens candidate paths and probes them with a two-byte feature report.
//! Every decision — which entries are candidates, which probed candidate
//! becomes the session handle, and which catalog model a host-reported
//! identifier resolves to — stands here with a contract.

use vstd::prelude::*;

use crate::descriptor::{lookup_by_prefix, Descriptor};
use crate::error::Error;
use crate::text::{spec_starts_with, str_starts_with};

verus! {

/// The vendor id of every device this library can drive.
pub const RAZER_VID: u16 = 0x1532;

/// First bytes of every conforming model identifier.
pub open spec fn spec_vendor_model_pattern() -> Seq<char> {
    "RZ09-"@
}

/// Whether some enumerated entry is the vendor's device with this
/// product id.
pub open spec fn spec_has_vendor_pid(devices: Seq<(u16, u16)>, pid: u16) -> bool {
    exists|i: int| 0 <= i < devices.len() && devices[i] == (RAZER_VID, pid)
}

/// Indices of the enumerated `(vendor id, product id)` entries that are
/// candidates for the given product id, in enumeration order. One product
/// id can expose several HID interfaces; each is a candidate until probed.
pub fn matching_candidates(devices: &Vec<(u16, u16)>, pid: u16) -> (r: Vec<usize>)
    ensures
        forall|k: int|
            0 <= k < r@.len() ==> r@[k] < devices@.len() && devices@[#[trigger] r@[k] as int]
                == (RAZER_VID, pid),
        forall|k1: int, k2: int| 0 <= k1 < k2 < r@.len() ==> r@[k1] < r@[k2],
        forall|i: int|
            0 <= i < devices@.len() && #[trigger] devices@[i] == (RAZER_VID, pid)
                ==> r@.contains(i as usize),
{
    let mut r: Vec<usize> = Vec::new();
    let mut i: usize = 0;
    while i < devices.len()
        invariant
            i <= devices@.len(),
            forall|k: int|
                0 <= k < r@.len() ==> r@[k] < i && devices@[#[trigger] r@[k] as int]
                    == (RAZER_VID, pid),
            forall|k1: int, k2: int| 0 <= k1 < k2 < r@.len() ==> r@[k1] < r@[k2],
            forall|j: int|
                0 <= j < i && #[trigger] devices@[j] == (RAZER_VID, pid) ==> r@.contains(
                    j as usize,
                ),
        decreases devices@.len() - i,
    {
        let (vid, dpid) = devices[i];
        if vid == RAZER_VID && dpid == pid {
            proof {
                assert(devices@[i as int] == (RAZER_VID, pid));
            }
            let ghost old_r = r@;
            r.push(i);
            proof {
                assert(r@[r@.len() - 1] == i);
                assert(r@.contains(i));
                assert forall|x: usize| old_r.contains(x) implies r@.contains(x) by {
                    let idx = choose|idx: int| 0 <= idx < old_r.len() && old_r[idx] == x;
                    assert(r@[idx] == x);
                }
            }
        }
        i = i + 1;
    }
    r
}

/// Index of the first candidate whose probe was accepted: the session
/// binds to that candidate, and to no earlier one. With an empty
/// candidate list, or none accepting — the probe is how the one
/// feature-report interface among several on a shared product id is
/// told apart — the open fails with [`Error::DeviceOpenFailed`].
pub fn first_probe_accepted(outcomes: &Vec<bool>) -> (r: Result<usize, Error>)
    ensures
        r matches Ok(i) ==> i < outcomes@.len() && outcomes@[i as int] && forall|j: int|
            0 <= j < i ==> !outcomes@[j],
        r matches Err(e) ==> e == Error::DeviceOpenFailed && forall|j: int|
            0 <= j < outcomes@.len() ==> !outcomes@[j],
        (exists|j: int| 0 <= j < outcomes@.len() && outcomes@[j]) ==> r is Ok,
{
    let mut i: usize = 0;
    while i < outcomes.len()
        invariant
            i <= outcomes@.len(),
            forall|j: int| 0 <= j < i ==> !outcomes@[j],
        decreases outcomes@.len() - i,
    {
        if outcomes[i] {
            return Ok(i);
        }
        i = i + 1;
    }
    Err(Error::DeviceOpenFailed)
}

fn pid_list_contains(pids: &Vec<u16>, pid: u16) -> (r: bool)
    ensures
        r == pids@.contains(pid),
{
    let mut i: usize = 0;
    while i < pids.len()
        invariant
            i <= pids@.len(),
            forall|j: int| 0 <= j < i ==> pids@[j] != pid,
        decreases pids@.len() - i,
    {
        if pids[i] == pid {
            return true;
        }
        i = i + 1;
    }
    proof {
        if pids@.contains(pid) {
            let j = choose|j: int| 0 <= j < pids@.len() && pids@[j] == pid;
        }
    }
    false
}

/// The distinct product ids among the enumerated entries that carry the
/// vendor id, each listed once, in order of first appearance.
pub fn collect_razer_pids(devices: &Vec<(u16, u16)>) -> (r: Vec<u16>)
    ensures
        forall|k: int| 0 <= k < r@.len() ==> spec_has_vendor_pid(devices@, #[trigger] r@[k]),
        forall|i: int|
            0 <= i < devices@.len() && (#[trigger] devices@[i]).0 == RAZER_VID ==> r@.contains(
                devices@[i].1,
            ),
        forall|k1: int, k2: int| 0 <= k1 < k2 < r@.len() ==> r@[k1] != r@[k2],
{
    let mut r: Vec<u16> = Vec::new();
    let mut i: usize = 0;
    while i < devices.len()
        invariant
            i <= devices@.len(),
            forall|k: int| 0 <= k < r@.len() ==> spec_has_vendor_pid(devices@, #[trigger] r@[k]),
            forall|j: int|
                0 <= j < i && (#[trigger] devices@[j]).0 == RAZER_VID ==> r@.contains(
                    devices@[j].1,
                ),
            forall|k1: int, k2: int| 0 <= k1 < k2 < r@.len() ==> r@[k1] != r@[k2],
        decreases devices@.len() - i,
    {
        let (vid, pid) = devices[i];
        if vid == RAZER_VID {
            if !pid_list_contains(&r, pid) {
                proof {
                    assert(devices@[i as int] == (RAZER_VID, pid));
                }
                let ghost old_r = r@;
                r.push(pid);
                proof {
                    assert(r@[r@.len() - 1] == pid);
                    assert forall|x: u16| old_r.contains(x) implies r@.contains(x) by {
                        let idx = choose|idx: int| 0 <= idx < old_r.len() && old_r[idx] == x;
                        assert(r@[idx] == x);
                    }
                    assert(spec_has_vendor_pid(devices@, pid)) by {
                        assert(devices@[i as int] == (RAZER_VID, pid));
                    }
                    assert forall|k: int|
                        0 <= k < r@.len() implies spec_has_vendor_pid(
                        devices@,
                        #[trigger] r@[k],
                    ) by {
                        if k < old_r.len() {
                            assert(r@[k] == old_r[k]);
                        } else {
                            assert(r@[k] == pid);
                        }
                    }
                }
            }
            proof {
                assert(r@.contains(pid));
            }
        }
        i = i + 1;
    }
    r
}

/// Resolves a host-reported model identifier against the catalog, given
/// the product ids of the attached vendor devices.
///
/// With no vendor device attached the answer is [`Error::DeviceOpenFailed`];
/// an identifier outside the vendor pattern is [`Error::NotARazerDevice`];
/// a conforming identifier absent from the registry is
/// [`Error::UnsupportedModel`], carrying the identifier and the candidate
/// product ids so a caller can render an actionable message.
pub fn select_model<'a>(
    registry: &'a Vec<Descriptor>,
    model: &str,
    candidate_pids: &Vec<u16>,
) -> (r: Result<&'a Descriptor, Error>)
    ensures
        r matches Ok(d) ==> candidate_pids@.len() > 0 && spec_starts_with(
            model@,
            spec_vendor_model_pattern(),
        ) && d@.model_number_prefix == model@ && exists|i: int|
            0 <= i < registry@.len() && (#[trigger] registry@[i])@ == d@,
        r matches Err(e) && e == Error::DeviceOpenFailed <==> candidate_pids@.len() == 0,
        r matches Err(e) && e == Error::NotARazerDevice <==> candidate_pids@.len() > 0
            && !spec_starts_with(model@, spec_vendor_model_pattern()),
        r matches Err(Error::UnsupportedModel { detected_prefix, candidate_pids: pids })
            ==> detected_prefix@ == model@ && pids@ == candidate_pids@ && forall|i: int|
            0 <= i < registry@.len() ==> (#[trigger] registry@[i])@.model_number_prefix
                != model@,
        r matches Err(e) ==> (e == Error::DeviceOpenFailed || e == Error::NotARazerDevice
            || e matches Error::UnsupportedModel { .. }),
{
    if candidate_pids.len() == 0 {
        return Err(Error::DeviceOpenFailed);
    }
    if !str_starts_with(model, "RZ09-") {
        return Err(Error::NotARazerDevice);
    }
    match lookup_by_prefix(registry, model) {
        Some(d) => Ok(d),
        None => {
            let detected = model.to_owned();
            let pids = clone_pids(candidate_pids);
            proof {
                assert(detected@ == model@);
                assert(pids@ == candidate_pids@);
            }
            Err(Error::UnsupportedModel { detected_prefix: detected, candidate_pids: pids })
        }
    }
}

fn clone_pids(pids: &Vec<u16>) -> (r: Vec<u16>)
    ensures
        r@ == pids@,
{
    let mut r: Vec<u16> = Vec::new();
    let mut i: usize = 0;
    while i < pids.len()
        invariant
            i <= pids@.len(),
            r@ =~= pids@.subrange(0, i as int),
        decreases pids@.len() - i,
    {
        r.push(pids[i]);
        i = i + 1;
    }
    proof {
        assert(pids@.subrange(0, pids@.len() as int) =~= pids@);
    }
    r
}

/// Reports the model identifier of this host.
///
/// Identification reads a platform firmware table that only some hosts
/// expose; on this platform no implementation exists, so the query
/// answers [`Error::PlatformUnsupported`]. A caller with its own way to
/// learn the identifier passes it to [`select_model`] directly.
pub fn read_device_model() -> (r: Result<String, Error>)
    ensures
        r matches Err(e) && e == Error::PlatformUnsupported,
{
    Err(Error::PlatformUnsupported)
}

} // verus!
