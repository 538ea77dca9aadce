use pdm_backend::config::SafetyConfig;
use pdm_backend::models::SystemStatus;
use pdm_backend::safety::classify;

#[test]
fn classifier_boundaries_with_default_thresholds() {
    // Defaults: supply window 10 V..16 V, 100 A, 85 C.
    let cfg = SafetyConfig::default();

    // 13.8 V, 79 A, 67 C: under every threshold.
    assert!(matches!(classify(13_800, 79_000, 67_000, &cfg), SystemStatus::Normal));

    // 81 A is over 80% of 100 A.
    assert!(matches!(classify(13_800, 81_000, 67_000, &cfg), SystemStatus::Warning));

    // 86 C is over the 85 C maximum.
    assert!(matches!(classify(13_800, 50_000, 86_000, &cfg), SystemStatus::Fault));

    // 9.9 V is under the 10 V minimum.
    assert!(matches!(classify(9_900, 0, 30_000, &cfg), SystemStatus::Fault));
}

#[test]
fn classifier_exact_bucket_edges() {
    let cfg = SafetyConfig::default();

    // Exactly 80% of the current maximum is still Normal; one milliampere
    // more is Warning.
    assert!(matches!(classify(13_800, 80_000, 25_000, &cfg), SystemStatus::Normal));
    assert!(matches!(classify(13_800, 80_001, 25_000, &cfg), SystemStatus::Warning));

    // Exactly 80% of the temperature maximum (68 C) is still Normal.
    assert!(matches!(classify(13_800, 0, 68_000, &cfg), SystemStatus::Normal));
    assert!(matches!(classify(13_800, 0, 68_001, &cfg), SystemStatus::Warning));

    // Exactly the temperature maximum is Warning, one more is Fault.
    assert!(matches!(classify(13_800, 0, 85_000, &cfg), SystemStatus::Warning));
    assert!(matches!(classify(13_800, 0, 85_001, &cfg), SystemStatus::Fault));

    // Exactly the voltage bounds are in the window.
    assert!(matches!(classify(10_000, 0, 25_000, &cfg), SystemStatus::Normal));
    assert!(matches!(classify(16_000, 0, 25_000, &cfg), SystemStatus::Normal));
    assert!(matches!(classify(9_999, 0, 25_000, &cfg), SystemStatus::Fault));
    assert!(matches!(classify(16_001, 0, 25_000, &cfg), SystemStatus::Fault));
}

#[test]
fn voltage_fault_wins_over_current_warning() {
    let cfg = SafetyConfig::default();
    assert!(matches!(classify(9_000, 95_000, 25_000, &cfg), SystemStatus::Fault));
}
