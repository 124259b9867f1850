use freecam::layout::{
    chain_base, choose_patch_address, element_address, field_chain, patch_candidates,
    CAMERA_BASE_OFFSET, MATRIX_FIELD, X_FIELD,
};
use freecam::names::{contains_str, name_matches};

#[test]
fn camera_field_chains() {
    assert_eq!(field_chain(X_FIELD), vec![0x34C, 0x8, 0x4, 0x8C, 0x0, 0x324]);
    assert_eq!(field_chain(MATRIX_FIELD), vec![0x34C, 0x8, 0x4, 0x8C, 0x0, 0x2F4]);
}

#[test]
fn chain_base_adds_offset() {
    assert_eq!(chain_base(0x400000), Some(0x400000 + CAMERA_BASE_OFFSET));
    assert_eq!(chain_base(0x400000), Some(0x8E1E78));
    assert_eq!(chain_base(usize::MAX), None);
}

#[test]
fn matrix_element_addresses() {
    assert_eq!(element_address(0x1000, 0), Some(0x1000));
    assert_eq!(element_address(0x1000, 12), Some(0x1030));
    assert_eq!(element_address(usize::MAX - 3, 1), None);
}

#[test]
fn patch_candidate_addresses() {
    assert_eq!(patch_candidates(0x400000), vec![0x56B2E4, 0x56C2E4, 0x56A2E4]);
}

#[test]
fn patch_site_is_first_signature_match() {
    let c = patch_candidates(0x400000);
    let probes = vec![Some(vec![0x90, 0x90]), Some(vec![0xF3, 0xA5]), Some(vec![0xF3, 0xA5])];
    assert_eq!(choose_patch_address(&c, &probes), 0x56C2E4);
    let probes = vec![None, None, Some(vec![0xF3, 0xA5])];
    assert_eq!(choose_patch_address(&c, &probes), 0x56A2E4);
}

#[test]
fn patch_site_defaults_to_first_candidate() {
    let c = patch_candidates(0x400000);
    let probes = vec![None, Some(vec![0xA5, 0xF3]), Some(vec![0xF3])];
    assert_eq!(choose_patch_address(&c, &probes), 0x56B2E4);
}

#[test]
fn substring_search() {
    assert!(contains_str("Skate3.exe", "ate3"));
    assert!(contains_str("abc", ""));
    assert!(!contains_str("abc", "abcd"));
    assert!(!contains_str("Skate3.exe", "skate"));
}

#[test]
fn process_names_match_without_case() {
    assert!(name_matches("SKATE3.EXE", "skate3.exe"));
    assert!(name_matches("skate3.exe", "Skate3"));
    assert!(name_matches("MySkate3.exe", "SKATE"));
    assert!(!name_matches("explorer.exe", "skate3.exe"));
}
