//! Static catalog of supported hardware models and their capabilities.
//!
//! Each descriptor pairs a vendor SKU prefix with the USB product id,
//! capability tags, start-up command codes and fan-zone count of one
//! laptop model. The catalog is pure data: it is built once, proved well
//! formed below, and only read afterwards.

use vstd::prelude::*;

use crate::feature::{spec_all_recognized, spec_recognized_feature};
use crate::text::str_eq;
use crate::types::PerfMode;

verus! {

/// Character length of a vendor SKU prefix such as `RZ09-0483T`.
pub const MODEL_PREFIX_LEN: usize = 10;

/// Static capability record for one supported hardware model.
#[derive(Debug)]
pub struct Descriptor {
    /// Vendor SKU prefix used for identification; stable and unique
    /// across the catalog.
    pub model_number_prefix: &'static str,
    /// Human-readable model name.
    pub name: &'static str,
    /// 16-bit USB product id; several models may share one.
    pub pid: u16,
    /// Capability tags, drawn from the recognized feature vocabulary.
    pub features: Vec<&'static str>,
    /// Opaque 16-bit command codes sent once at session start.
    pub init_cmds: Vec<u16>,
    /// Number of fan zones; two for most models.
    pub fan_zones: u8,
    /// Restricted set of accepted performance modes; `None` means every
    /// mode is accepted.
    pub perf_modes: Option<Vec<PerfMode>>,
}

/// Mathematical model of a descriptor.
#[verifier::ext_equal]
pub struct DescriptorModel {
    pub model_number_prefix: Seq<char>,
    pub name: Seq<char>,
    pub pid: u16,
    pub features: Seq<Seq<char>>,
    pub init_cmds: Seq<u16>,
    pub fan_zones: u8,
    pub perf_modes: Option<Seq<PerfMode>>,
}

impl View for Descriptor {
    type V = DescriptorModel;

    open spec fn view(&self) -> DescriptorModel {
        DescriptorModel {
            model_number_prefix: self.model_number_prefix@,
            name: self.name@,
            pid: self.pid,
            features: self.features@.map_values(|t: &'static str| t@),
            init_cmds: self.init_cmds@,
            fan_zones: self.fan_zones,
            perf_modes: match self.perf_modes {
                Option::Some(v) => Some(v@),
                Option::None => None,
            },
        }
    }
}

impl DescriptorModel {
    /// A descriptor is well formed when its SKU prefix has the fixed
    /// length, it has at least one fan zone, and every feature tag is in
    /// the recognized vocabulary.
    pub open spec fn wf(self) -> bool {
        &&& self.model_number_prefix.len() == MODEL_PREFIX_LEN
        &&& 1 <= self.fan_zones
        &&& spec_all_recognized(self.features)
    }
}

/// A registry is well formed when every entry is and no two entries share
/// a SKU prefix.
pub open spec fn spec_registry_wf(rs: Seq<DescriptorModel>) -> bool {
    &&& forall|i: int| 0 <= i < rs.len() ==> (#[trigger] rs[i]).wf()
    &&& forall|i: int, j: int|
        0 <= i < j < rs.len() ==> rs[i].model_number_prefix != rs[j].model_number_prefix
}

/// The feature set of most catalog models.
pub open spec fn spec_standard_features() -> Seq<Seq<char>> {
    seq![
        "battery-care"@,
        "fan"@,
        "kbd-backlight"@,
        "lid-logo"@,
        "lights-always-on"@,
        "perf"@,
    ]
}

/// The standard set less the lid logo, for models without one.
pub open spec fn spec_no_lid_logo_features() -> Seq<Seq<char>> {
    seq!["battery-care"@, "fan"@, "kbd-backlight"@, "lights-always-on"@, "perf"@]
}

/// The standard set less battery care, for models without it.
pub open spec fn spec_no_battery_care_features() -> Seq<Seq<char>> {
    seq!["fan"@, "kbd-backlight"@, "lid-logo"@, "lights-always-on"@, "perf"@]
}

/// Start-up command codes of the models that need them.
pub open spec fn spec_blade16_2025_init_cmds() -> Seq<u16> {
    seq![0x0081u16, 0x0086, 0x0f90, 0x0086, 0x0f10, 0x0087]
}

/// The whole catalog, as mathematical values.
pub open spec fn spec_supported() -> Seq<DescriptorModel> {
    seq![
        DescriptorModel {
            model_number_prefix: "RZ09-0483T"@,
            name: "Razer Blade 16” (2023) Black"@,
            pid: 0x029f,
            features: spec_standard_features(),
            init_cmds: Seq::empty(),
            fan_zones: 2,
            perf_modes: None,
        },
        DescriptorModel {
            model_number_prefix: "RZ09-0482X"@,
            name: "Razer Blade 14” (2023) Mercury"@,
            pid: 0x029d,
            features: spec_no_lid_logo_features(),
            init_cmds: Seq::empty(),
            fan_zones: 2,
            perf_modes: None,
        },
        DescriptorModel {
            model_number_prefix: "RZ09-05289"@,
            name: "Razer Blade 16” (2025) 5090"@,
            pid: 0x02c6,
            features: spec_standard_features(),
            init_cmds: spec_blade16_2025_init_cmds(),
            fan_zones: 2,
            perf_modes: None,
        },
        DescriptorModel {
            model_number_prefix: "RZ09-05288"@,
            name: "Razer Blade 16” (2025) 5080"@,
            pid: 0x02c6,
            features: spec_standard_features(),
            init_cmds: spec_blade16_2025_init_cmds(),
            fan_zones: 2,
            perf_modes: None,
        },
        DescriptorModel {
            model_number_prefix: "RZ09-0421N"@,
            name: "Razer Blade 15” (2022)"@,
            pid: 0x028a,
            features: spec_standard_features(),
            init_cmds: Seq::empty(),
            fan_zones: 2,
            perf_modes: None,
        },
        DescriptorModel {
            model_number_prefix: "RZ09-0406A"@,
            name: "Razer Blade 17\" (2021)"@,
            pid: 0x0279,
            features: spec_no_battery_care_features(),
            init_cmds: Seq::empty(),
            fan_zones: 4,
            perf_modes: Some(seq![PerfMode::Balanced, PerfMode::Custom]),
        },
    ]
}

fn standard_features() -> (r: Vec<&'static str>)
    ensures
        r@.map_values(|t: &'static str| t@) =~~= spec_standard_features(),
{
    let mut r: Vec<&'static str> = Vec::new();
    r.push("battery-care");
    r.push("fan");
    r.push("kbd-backlight");
    r.push("lid-logo");
    r.push("lights-always-on");
    r.push("perf");
    r
}

fn no_lid_logo_features() -> (r: Vec<&'static str>)
    ensures
        r@.map_values(|t: &'static str| t@) =~~= spec_no_lid_logo_features(),
{
    let mut r: Vec<&'static str> = Vec::new();
    r.push("battery-care");
    r.push("fan");
    r.push("kbd-backlight");
    r.push("lights-always-on");
    r.push("perf");
    r
}

fn no_battery_care_features() -> (r: Vec<&'static str>)
    ensures
        r@.map_values(|t: &'static str| t@) =~~= spec_no_battery_care_features(),
{
    let mut r: Vec<&'static str> = Vec::new();
    r.push("fan");
    r.push("kbd-backlight");
    r.push("lid-logo");
    r.push("lights-always-on");
    r.push("perf");
    r
}

fn blade16_2025_init_cmds() -> (r: Vec<u16>)
    ensures
        r@ =~= spec_blade16_2025_init_cmds(),
{
    let mut r: Vec<u16> = Vec::new();
    r.push(0x0081);
    r.push(0x0086);
    r.push(0x0f90);
    r.push(0x0086);
    r.push(0x0f10);
    r.push(0x0087);
    r
}

/// Builds the catalog of supported models, well formed by construction.
pub fn supported() -> (r: Vec<Descriptor>)
    ensures
        r@.len() == spec_supported().len(),
        forall|i: int| 0 <= i < r@.len() ==> (#[trigger] r@[i])@ == spec_supported()[i],
        spec_registry_wf(r@.map_values(|d: Descriptor| d@)),
{
    let mut r: Vec<Descriptor> = Vec::new();
    r.push(
        Descriptor {
            model_number_prefix: "RZ09-0483T",
            name: "Razer Blade 16” (2023) Black",
            pid: 0x029f,
            features: standard_features(),
            init_cmds: Vec::new(),
            fan_zones: 2,
            perf_modes: None,
        },
    );
    r.push(
        Descriptor {
            model_number_prefix: "RZ09-0482X",
            name: "Razer Blade 14” (2023) Mercury",
            pid: 0x029d,
            features: no_lid_logo_features(),
            init_cmds: Vec::new(),
            fan_zones: 2,
            perf_modes: None,
        },
    );
    r.push(
        Descriptor {
            model_number_prefix: "RZ09-05289",
            name: "Razer Blade 16” (2025) 5090",
            pid: 0x02c6,
            features: standard_features(),
            init_cmds: blade16_2025_init_cmds(),
            fan_zones: 2,
            perf_modes: None,
        },
    );
    r.push(
        Descriptor {
            model_number_prefix: "RZ09-05288",
            name: "Razer Blade 16” (2025) 5080",
            pid: 0x02c6,
            features: standard_features(),
            init_cmds: blade16_2025_init_cmds(),
            fan_zones: 2,
            perf_modes: None,
        },
    );
    r.push(
        Descriptor {
            model_number_prefix: "RZ09-0421N",
            name: "Razer Blade 15” (2022)",
            pid: 0x028a,
            features: standard_features(),
            init_cmds: Vec::new(),
            fan_zones: 2,
            perf_modes: None,
        },
    );
    let mut restricted: Vec<PerfMode> = Vec::new();
    restricted.push(PerfMode::Balanced);
    restricted.push(PerfMode::Custom);
    r.push(
        Descriptor {
            model_number_prefix: "RZ09-0406A",
            name: "Razer Blade 17\" (2021)",
            pid: 0x0279,
            features: no_battery_care_features(),
            init_cmds: Vec::new(),
            fan_zones: 4,
            perf_modes: Some(restricted),
        },
    );
    proof {
        assert(r@[0]@ =~~= spec_supported()[0]);
        assert(r@[1]@ =~~= spec_supported()[1]);
        assert(r@[2]@ =~~= spec_supported()[2]);
        assert(r@[3]@ =~~= spec_supported()[3]);
        assert(r@[4]@ =~~= spec_supported()[4]);
        assert(r@[5]@ =~~= spec_supported()[5]);
        assert(r@.map_values(|d: Descriptor| d@) =~= spec_supported());
        lemma_supported_registry_wf();
    }
    r
}

/// Every catalog entry is well formed — in particular, every feature tag
/// is in the recognized vocabulary — and no two entries share a prefix.
pub proof fn lemma_supported_registry_wf()
    ensures
        spec_registry_wf(spec_supported()),
{
    reveal_strlit("RZ09-0483T");
    reveal_strlit("RZ09-0482X");
    reveal_strlit("RZ09-05289");
    reveal_strlit("RZ09-05288");
    reveal_strlit("RZ09-0421N");
    reveal_strlit("RZ09-0406A");
    assert(spec_supported()[0].wf());
    assert(spec_supported()[1].wf());
    assert(spec_supported()[2].wf());
    assert(spec_supported()[3].wf());
    assert(spec_supported()[4].wf());
    assert(spec_supported()[5].wf());
    assert forall|i: int, j: int| 0 <= i < j < spec_supported().len() implies spec_supported()[i].model_number_prefix
        != spec_supported()[j].model_number_prefix by {
        assert("RZ09-0483T"@[8] != "RZ09-0482X"@[8]);
        assert("RZ09-0483T"@[6] != "RZ09-05289"@[6]);
        assert("RZ09-0483T"@[6] != "RZ09-05288"@[6]);
        assert("RZ09-0483T"@[7] != "RZ09-0421N"@[7]);
        assert("RZ09-0483T"@[7] != "RZ09-0406A"@[7]);
        assert("RZ09-0482X"@[6] != "RZ09-05289"@[6]);
        assert("RZ09-0482X"@[6] != "RZ09-05288"@[6]);
        assert("RZ09-0482X"@[7] != "RZ09-0421N"@[7]);
        assert("RZ09-0482X"@[7] != "RZ09-0406A"@[7]);
        assert("RZ09-05289"@[9] != "RZ09-05288"@[9]);
        assert("RZ09-05289"@[6] != "RZ09-0421N"@[6]);
        assert("RZ09-05289"@[6] != "RZ09-0406A"@[6]);
        assert("RZ09-05288"@[6] != "RZ09-0421N"@[6]);
        assert("RZ09-05288"@[6] != "RZ09-0406A"@[6]);
        assert("RZ09-0421N"@[7] != "RZ09-0406A"@[7]);
    }
}

/// Finds the descriptor whose SKU prefix equals the given one.
pub fn lookup_by_prefix<'a>(registry: &'a Vec<Descriptor>, prefix: &str) -> (r: Option<
    &'a Descriptor,
>)
    ensures
        r matches Some(d) ==> d@.model_number_prefix == prefix@ && exists|i: int|
            0 <= i < registry@.len() && (#[trigger] registry@[i])@ == d@,
        r is None ==> forall|i: int|
            0 <= i < registry@.len() ==> (#[trigger] registry@[i])@.model_number_prefix
                != prefix@,
{
    let mut i: usize = 0;
    while i < registry.len()
        invariant
            i <= registry@.len(),
            forall|j: int|
                0 <= j < i ==> (#[trigger] registry@[j])@.model_number_prefix != prefix@,
        decreases registry@.len() - i,
    {
        if str_eq(registry[i].model_number_prefix, prefix) {
            return Some(&registry[i]);
        }
        i = i + 1;
    }
    None
}

/// Collects every descriptor with the given product id, in catalog order.
pub fn lookup_by_pid<'a>(registry: &'a Vec<Descriptor>, pid: u16) -> (r: Vec<&'a Descriptor>)
    ensures
        r@.map_values(|d: &Descriptor| d@) == registry@.map_values(|d: Descriptor| d@).filter(
            |m: DescriptorModel| m.pid == pid,
        ),
{
    let ghost all = registry@.map_values(|d: Descriptor| d@);
    let ghost pred = |m: DescriptorModel| m.pid == pid;
    let mut r: Vec<&Descriptor> = Vec::new();
    let mut i: usize = 0;
    proof {
        reveal(Seq::filter);
        assert(all.subrange(0, 0) =~= Seq::<DescriptorModel>::empty());
        assert(r@.map_values(|d: &Descriptor| d@) =~= all.subrange(0, 0).filter(pred));
    }
    while i < registry.len()
        invariant
            i <= registry@.len(),
            all == registry@.map_values(|d: Descriptor| d@),
            pred == (|m: DescriptorModel| m.pid == pid),
            r@.map_values(|d: &Descriptor| d@) == all.subrange(0, i as int).filter(pred),
        decreases registry@.len() - i,
    {
        proof {
            reveal(Seq::filter);
            assert(all.subrange(0, i + 1).drop_last() =~= all.subrange(0, i as int));
            assert(all.subrange(0, i + 1).last() == all[i as int]);
            assert(all[i as int] == registry@[i as int]@);
        }
        if registry[i].pid == pid {
            let d = &registry[i];
            proof {
                assert(r@.push(d).map_values(|d: &Descriptor| d@) =~= r@.map_values(
                    |d: &Descriptor| d@,
                ).push(d@));
            }
            r.push(d);
        }
        i = i + 1;
    }
    proof {
        assert(all.subrange(0, registry@.len() as int) =~= all);
    }
    r
}

} // verus!
