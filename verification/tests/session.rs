use librazer::descriptor::supported;
use librazer::device::{
    collect_razer_pids, first_probe_accepted, matching_candidates, read_device_model,
    select_model, RAZER_VID,
};
use librazer::error::Error;

#[test]
fn candidates_filter_by_vendor_and_product() {
    let devices = vec![
        (0x046d, 0x029f),
        (RAZER_VID, 0x029f),
        (RAZER_VID, 0x0279),
        (RAZER_VID, 0x029f),
    ];
    assert_eq!(matching_candidates(&devices, 0x029f), vec![1, 3]);
    assert_eq!(matching_candidates(&devices, 0x0279), vec![2]);
    assert_eq!(matching_candidates(&devices, 0x9999), Vec::<usize>::new());
    assert_eq!(matching_candidates(&Vec::new(), 0x029f), Vec::<usize>::new());
}

#[test]
fn razer_pids_are_distinct_in_first_appearance_order() {
    let devices = vec![
        (0x046d, 0xc52b),
        (RAZER_VID, 0x029f),
        (RAZER_VID, 0x0279),
        (RAZER_VID, 0x029f),
        (0x8087, 0x0029),
    ];
    assert_eq!(collect_razer_pids(&devices), vec![0x029f, 0x0279]);
    assert_eq!(collect_razer_pids(&Vec::new()), Vec::<u16>::new());
}

#[test]
fn open_fails_with_empty_candidate_list() {
    assert_eq!(first_probe_accepted(&Vec::new()), Err(Error::DeviceOpenFailed));
}

#[test]
fn open_binds_to_first_accepting_candidate() {
    // one candidate that rejects the probe, one that accepts: the
    // session binds to the accepting one
    assert_eq!(first_probe_accepted(&vec![false, true]), Ok(1));
    assert_eq!(first_probe_accepted(&vec![true, true]), Ok(0));
    assert_eq!(first_probe_accepted(&vec![false, false]), Err(Error::DeviceOpenFailed));
}

#[test]
fn select_model_requires_an_attached_device() {
    let registry = supported();
    assert_eq!(
        select_model(&registry, "RZ09-0483T", &Vec::new()).err(),
        Some(Error::DeviceOpenFailed)
    );
}

#[test]
fn select_model_rejects_foreign_identifiers() {
    let registry = supported();
    let pids = vec![0x029f];
    assert_eq!(
        select_model(&registry, "LNVO-1234X", &pids).err(),
        Some(Error::NotARazerDevice)
    );
    assert_eq!(select_model(&registry, "", &pids).err(), Some(Error::NotARazerDevice));
}

#[test]
fn select_model_reports_unsupported_models_with_context() {
    let registry = supported();
    let pids = vec![0x9999, 0x029f];
    match select_model(&registry, "RZ09-7777A", &pids) {
        Err(Error::UnsupportedModel { detected_prefix, candidate_pids }) => {
            assert_eq!(detected_prefix, "RZ09-7777A");
            assert_eq!(candidate_pids, vec![0x9999, 0x029f]);
        }
        other => panic!("expected UnsupportedModel, got {other:?}"),
    }
}

#[test]
fn select_model_finds_supported_models() {
    let registry = supported();
    let pids = vec![0x029d];
    let d = select_model(&registry, "RZ09-0482X", &pids).expect("supported model");
    assert_eq!(d.pid, 0x029d);
    assert_eq!(d.name, "Razer Blade 14” (2023) Mercury");
}

#[test]
fn model_identification_is_unavailable_on_this_host() {
    assert_eq!(read_device_model(), Err(Error::PlatformUnsupported));
}
