use endless_installer::tier::Tier;

#[test]
fn tier_from_cycle_boundaries() {
    assert_eq!(Tier::from_cycle(1), Tier::Baseline);
    assert_eq!(Tier::from_cycle(2), Tier::Ambient);
    assert_eq!(Tier::from_cycle(3), Tier::Ambient);
    assert_eq!(Tier::from_cycle(4), Tier::Familiar);
    assert_eq!(Tier::from_cycle(5), Tier::Familiar);
    assert_eq!(Tier::from_cycle(6), Tier::Invasive);
    assert_eq!(Tier::from_cycle(8), Tier::Invasive);
    assert_eq!(Tier::from_cycle(9), Tier::Cosmic);
    assert_eq!(Tier::from_cycle(100), Tier::Cosmic);
}

#[test]
fn tier_probabilities() {
    let baseline = Tier::Baseline.message_probability() as f64 / 100.0;
    let cosmic = Tier::Cosmic.message_probability() as f64 / 100.0;
    assert!((baseline - 0.15).abs() < f64::EPSILON);
    assert!((cosmic - 0.35).abs() < f64::EPSILON);
}

#[test]
fn tier_probabilities_all_tiers() {
    assert_eq!(Tier::Baseline.message_probability(), 15);
    assert_eq!(Tier::Ambient.message_probability(), 20);
    assert_eq!(Tier::Familiar.message_probability(), 25);
    assert_eq!(Tier::Invasive.message_probability(), 30);
    assert_eq!(Tier::Cosmic.message_probability(), 35);
}

#[test]
fn tier_never_regresses() {
    let mut last = Tier::from_cycle(1).level();
    for cycle in 2..200u32 {
        let level = Tier::from_cycle(cycle).level();
        assert!(level >= last);
        last = level;
    }
    assert_eq!(Tier::from_cycle(u32::MAX), Tier::Cosmic);
    assert_eq!(Tier::from_cycle(7).level(), 3);
}
