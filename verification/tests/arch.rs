use generic_simd::arch::{supported_tiers, Generic, Target, Tier, Token};

#[test]
fn the_fallback_token_is_always_detected() {
    assert!(Generic::new().is_some());
}

#[test]
fn tiers_come_most_capable_first() {
    assert_eq!(supported_tiers(Target::X86), vec![Tier::Avx, Tier::Sse, Tier::Generic]);
    assert_eq!(supported_tiers(Target::Aarch64), vec![Tier::Neon, Tier::Generic]);
    assert_eq!(supported_tiers(Target::Wasm32), vec![Tier::Simd128, Tier::Generic]);
    assert_eq!(supported_tiers(Target::Other), vec![Tier::Generic]);
}

#[test]
fn every_list_ends_with_the_fallback() {
    for target in [Target::X86, Target::Aarch64, Target::Wasm32, Target::Other] {
        let tiers = supported_tiers(target);
        assert_eq!(tiers.last(), Some(&Tier::Generic));
        for i in 0..tiers.len() {
            for j in i + 1..tiers.len() {
                assert!(tiers[i].can_convert_to(tiers[j]));
                assert!(!tiers[j].can_convert_to(tiers[i]));
            }
        }
    }
}

#[test]
fn tokens_convert_downward_only() {
    assert!(Tier::Avx.can_convert_to(Tier::Sse));
    assert!(Tier::Avx.can_convert_to(Tier::Generic));
    assert!(Tier::Sse.can_convert_to(Tier::Generic));
    assert!(Tier::Sse.can_convert_to(Tier::Sse));
    assert!(Tier::Generic.can_convert_to(Tier::Generic));
    assert!(!Tier::Sse.can_convert_to(Tier::Avx));
    assert!(!Tier::Generic.can_convert_to(Tier::Sse));
    assert!(!Tier::Neon.can_convert_to(Tier::Sse));
    assert!(!Tier::Simd128.can_convert_to(Tier::Neon));
}
