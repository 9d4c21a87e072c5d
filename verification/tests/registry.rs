use librazer::descriptor::{lookup_by_pid, lookup_by_prefix, supported, MODEL_PREFIX_LEN};
use librazer::feature::{is_recognized_feature, validate_features};
use librazer::types::PerfMode;

#[test]
fn every_feature_tag_is_recognized() {
    for d in supported().iter() {
        for tag in d.features.iter() {
            assert!(is_recognized_feature(tag), "unrecognized tag {tag}");
        }
        assert!(validate_features(&d.features));
    }
}

#[test]
fn vocabulary_rejects_unknown_tags() {
    assert!(is_recognized_feature("battery-care"));
    assert!(is_recognized_feature("perf"));
    assert!(!is_recognized_feature("battery"));
    assert!(!is_recognized_feature(""));
    assert!(!is_recognized_feature("Fan"));
    let odd = vec!["fan", "warp-drive"];
    assert!(!validate_features(&odd));
}

#[test]
fn registry_contents() {
    let registry = supported();
    assert_eq!(registry.len(), 6);
    for d in registry.iter() {
        assert_eq!(d.model_number_prefix.len(), MODEL_PREFIX_LEN);
        assert!(d.model_number_prefix.starts_with("RZ09-"));
        assert!(d.fan_zones >= 1);
    }
    // no two entries share a SKU prefix
    for i in 0..registry.len() {
        for j in i + 1..registry.len() {
            assert_ne!(registry[i].model_number_prefix, registry[j].model_number_prefix);
        }
    }
}

#[test]
fn lookup_by_prefix_finds_each_model() {
    let registry = supported();
    let d = lookup_by_prefix(&registry, "RZ09-0483T").expect("known model");
    assert_eq!(d.pid, 0x029f);
    assert_eq!(d.fan_zones, 2);
    assert!(d.perf_modes.is_none());

    let d = lookup_by_prefix(&registry, "RZ09-0406A").expect("known model");
    assert_eq!(d.pid, 0x0279);
    assert_eq!(d.fan_zones, 4);
    assert_eq!(
        d.perf_modes.as_ref().expect("restricted model"),
        &vec![PerfMode::Balanced, PerfMode::Custom]
    );

    assert!(lookup_by_prefix(&registry, "RZ09-9999X").is_none());
    assert!(lookup_by_prefix(&registry, "").is_none());
}

#[test]
fn lookup_by_pid_collects_shared_pid_models() {
    let registry = supported();
    let both = lookup_by_pid(&registry, 0x02c6);
    assert_eq!(both.len(), 2);
    assert_eq!(both[0].model_number_prefix, "RZ09-05289");
    assert_eq!(both[1].model_number_prefix, "RZ09-05288");

    let one = lookup_by_pid(&registry, 0x028a);
    assert_eq!(one.len(), 1);
    assert_eq!(one[0].model_number_prefix, "RZ09-0421N");

    assert!(lookup_by_pid(&registry, 0x1234).is_empty());
}

#[test]
fn init_commands_of_2025_models() {
    let registry = supported();
    let d = lookup_by_prefix(&registry, "RZ09-05289").expect("known model");
    assert_eq!(d.init_cmds, vec![0x0081, 0x0086, 0x0f90, 0x0086, 0x0f10, 0x0087]);
    let d = lookup_by_prefix(&registry, "RZ09-0421N").expect("known model");
    assert!(d.init_cmds.is_empty());
}
