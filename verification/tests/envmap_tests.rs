use boring_build::envmap::{lookup, resolve_var};

fn env_pairs(pairs: &[(&str, &str)]) -> Vec<(String, String)> {
    pairs
        .iter()
        .map(|(k, v)| (k.to_string(), v.to_string()))
        .collect()
}

#[test]
fn lookup_takes_first_match() {
    let env = env_pairs(&[("A", "1"), ("B", "2"), ("A", "3")]);
    assert_eq!(lookup(&env, "A"), Some("1".to_string()));
    assert_eq!(lookup(&env, "B"), Some("2".to_string()));
    assert_eq!(lookup(&env, "C"), None);
}

#[test]
fn all_four_tiers_present_highest_wins() {
    let env = env_pairs(&[
        ("SYNTH_my-target", "tier1"),
        ("SYNTH_my_target", "tier2"),
        ("TARGET_SYNTH", "tier3"),
        ("SYNTH", "tier4"),
    ]);
    let mut consulted = Vec::new();
    let v = resolve_var(&env, "SYNTH", "my-target", false, &mut consulted);
    assert_eq!(v, Some("tier1".to_string()));
    assert_eq!(consulted, vec!["SYNTH_my-target".to_string()]);
}

#[test]
fn second_tier_maps_dashes_to_underscores() {
    let env = env_pairs(&[("SYNTH_my_target", "tier2")]);
    let mut consulted = Vec::new();
    let v = resolve_var(&env, "SYNTH", "my-target", false, &mut consulted);
    assert_eq!(v, Some("tier2".to_string()));
    assert_eq!(
        consulted,
        vec!["SYNTH_my-target".to_string(), "SYNTH_my_target".to_string()]
    );
}

#[test]
fn third_tier_uses_target_prefix_for_cross_builds() {
    let env = env_pairs(&[("TARGET_SYNTH", "tier3")]);
    let mut consulted = Vec::new();
    let v = resolve_var(&env, "SYNTH", "my-target", false, &mut consulted);
    assert_eq!(v, Some("tier3".to_string()));
}

#[test]
fn third_tier_uses_host_prefix_for_native_builds() {
    let env = env_pairs(&[("HOST_SYNTH", "tier3"), ("TARGET_SYNTH", "wrong")]);
    let mut consulted = Vec::new();
    let v = resolve_var(&env, "SYNTH", "my-target", true, &mut consulted);
    assert_eq!(v, Some("tier3".to_string()));
}

#[test]
fn fourth_tier_is_the_bare_name() {
    let env = env_pairs(&[("SYNTH", "tier4")]);
    let mut consulted = Vec::new();
    let v = resolve_var(&env, "SYNTH", "my-target", false, &mut consulted);
    assert_eq!(v, Some("tier4".to_string()));
}

#[test]
fn unset_variable_is_still_consulted() {
    let env: Vec<(String, String)> = Vec::new();
    let mut consulted = Vec::new();
    let v = resolve_var(&env, "SYNTH", "my-target", false, &mut consulted);
    assert_eq!(v, None);
    assert_eq!(
        consulted,
        vec![
            "SYNTH_my-target".to_string(),
            "SYNTH_my_target".to_string(),
            "TARGET_SYNTH".to_string(),
            "SYNTH".to_string(),
        ]
    );
}
