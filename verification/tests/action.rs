use libriichi::action::{
    canonical_action_space, canonical_mask_from_model, interpret_model_idx,
    remap_mask_canonical_to_model, action_space,
};
use libriichi::consts::{ACTION_SPACE, CANONICAL_ACTION_SPACE};

#[test]
fn canonical_action_space_is_47() {
    assert_eq!(CANONICAL_ACTION_SPACE, 47);
    assert_eq!(canonical_action_space(), 47);
}

#[test]
fn action_space_is_44() {
    assert_eq!(ACTION_SPACE, 44);
    assert_eq!(action_space(), 44);
}

#[test]
fn remap_canonical_to_model_identity_region() {
    let mut canon = vec![0u8; 47];
    for &c in &[0usize, 5, 33, 34, 35, 36, 37, 38] {
        canon[c] = 1;
    }
    let model = remap_mask_canonical_to_model(&canon, 5).unwrap();
    assert_eq!(model.len(), 44);
    for &c in &[0usize, 5, 33, 34, 35, 36, 37, 38] {
        assert_eq!(model[c], 1, "canonical {c} must map to trained {c}");
    }
}

#[test]
fn remap_canonical_to_model_shifted_region() {
    let mut canon = vec![0u8; 47];
    for &c in &[42usize, 43, 44, 45, 46] {
        canon[c] = 1;
    }
    let model = remap_mask_canonical_to_model(&canon, 5).unwrap();
    assert_eq!(model[39], 1); // pon  <- canonical 42
    assert_eq!(model[40], 1); // kan  <- 43
    assert_eq!(model[41], 1); // agari<- 44
    assert_eq!(model[42], 1); // ryukyoku <- 45
    assert_eq!(model[43], 1); // pass <- 46
}

#[test]
fn remap_drops_chi_slots() {
    let mut canon = vec![0u8; 47];
    canon[39] = 1; // chi_low
    canon[40] = 1; // chi_mid
    canon[41] = 1; // chi_high
    let model = remap_mask_canonical_to_model(&canon, 5).unwrap();
    assert!(model.iter().all(|&b| b == 0), "chi must map to nothing in 3p");
}

#[test]
fn remap_rejects_wrong_length() {
    assert!(remap_mask_canonical_to_model(&[0u8; 44], 5).is_err());
    assert!(remap_mask_canonical_to_model(&[0u8; 48], 5).is_err());
}

#[test]
fn remap_error_text() {
    let err = remap_mask_canonical_to_model(&[0u8; 44], 5).unwrap_err();
    assert_eq!(err, "mask len 44 != canonical action space 47");
}

#[test]
fn remap_keeps_values_and_ignores_version() {
    let canon: Vec<u8> = (0..47u8).collect();
    let model = remap_mask_canonical_to_model(&canon, 1).unwrap();
    let expected: Vec<u8> = (0..39u8).chain(42..47u8).collect();
    assert_eq!(model, expected);
    assert_eq!(remap_mask_canonical_to_model(&canon, 5).unwrap(), expected);
}

#[test]
fn interpret_model_idx_identity_and_shift() {
    for t in 0..=38u32 {
        assert_eq!(interpret_model_idx(t, 5).unwrap(), t);
    }
    assert_eq!(interpret_model_idx(39, 5).unwrap(), 42); // pon
    assert_eq!(interpret_model_idx(40, 5).unwrap(), 43); // kan
    assert_eq!(interpret_model_idx(41, 5).unwrap(), 44); // agari
    assert_eq!(interpret_model_idx(42, 5).unwrap(), 45); // ryukyoku
    assert_eq!(interpret_model_idx(43, 5).unwrap(), 46); // pass
}

#[test]
fn interpret_model_idx_rejects_out_of_range() {
    assert!(interpret_model_idx(44, 5).is_err());
}

#[test]
fn interpret_model_idx_error_text() {
    assert_eq!(interpret_model_idx(44, 5).unwrap_err(), "model_idx 44 out of range (0..44)");
    assert_eq!(
        interpret_model_idx(u32::MAX, 2).unwrap_err(),
        "model_idx 4294967295 out of range (0..44)"
    );
}

#[test]
fn round_trip_canonical_to_model_to_canonical() {
    // For every set of canonical actions that have a trained slot (all but chi),
    // remap down then interpret the argmax back: identity must hold.
    let mut canon = vec![0u8; 47];
    for &c in &[3usize, 34, 37, 38, 42, 43, 44, 45, 46] {
        canon[c] = 1;
    }
    let model = remap_mask_canonical_to_model(&canon, 5).unwrap();
    for mi in 0..44 {
        if model[mi] == 1 {
            let back = interpret_model_idx(mi as u32, 5).unwrap() as usize;
            assert_eq!(canon[back], 1, "trained {mi} -> canonical {back} not set");
        }
    }
}

#[test]
fn interpreted_indices_are_distinct_and_avoid_chi() {
    let mut seen = vec![false; 47];
    for mi in 0..44u32 {
        let c = interpret_model_idx(mi, 5).unwrap() as usize;
        assert!(c < 47);
        assert!(!(39..=41).contains(&c));
        assert!(!seen[c]);
        seen[c] = true;
    }
}

#[test]
fn canonical_mask_expands_trained_mask() {
    let mut mask = vec![false; 44];
    for &m in &[0usize, 12, 38, 39, 43] {
        mask[m] = true;
    }
    let canon = canonical_mask_from_model(&mask);
    assert_eq!(canon.len(), 47);
    let set: Vec<usize> = (0..47).filter(|&c| canon[c] == 1).collect();
    assert_eq!(set, vec![0, 12, 38, 42, 46]);
    assert!(canon.iter().all(|&b| b <= 1));
}

#[test]
fn expand_then_remap_gives_trained_mask() {
    let mask: Vec<bool> = (0..44).map(|i| i % 3 == 1).collect();
    let canon = canonical_mask_from_model(&mask);
    assert_eq!(canon[39], 0);
    assert_eq!(canon[40], 0);
    assert_eq!(canon[41], 0);
    let back = remap_mask_canonical_to_model(&canon, 5).unwrap();
    let expected: Vec<u8> = mask.iter().map(|&b| b as u8).collect();
    assert_eq!(back, expected);
}

#[test]
fn remap_then_expand_gives_canonical_mask() {
    let mut canon = vec![0u8; 47];
    for &c in &[1usize, 7, 36, 42, 45] {
        canon[c] = 1;
    }
    let model = remap_mask_canonical_to_model(&canon, 5).unwrap();
    let bits: Vec<bool> = model.iter().map(|&b| b != 0).collect();
    assert_eq!(canonical_mask_from_model(&bits), canon);
}

#[test]
fn remap_ignores_chi_differences() {
    let mut a = vec![0u8; 47];
    a[5] = 1;
    a[44] = 1;
    let mut b = a.clone();
    b[39] = 1;
    b[41] = 1;
    assert_eq!(
        remap_mask_canonical_to_model(&a, 5).unwrap(),
        remap_mask_canonical_to_model(&b, 5).unwrap()
    );
}
