use wavelet_audio::transform::{TransformConfig, DEFAULT_N_CPUS};
use wavelet_audio::wavelet::{Normalization, WaveCoefficientType};

#[test]
fn config_uses_reported_parallelism() {
    let c = TransformConfig::new(4096, 512, Some(12));
    assert_eq!(c.block_size, 4096);
    assert_eq!(c.overlap_size, 512);
    assert_eq!(c.n_cpus, 12);
    assert_eq!(TransformConfig::new(8, 2, Some(1)).n_cpus, 1);
}

#[test]
fn config_defaults_to_four_cpus() {
    let c = TransformConfig::new(1024, 0, None);
    assert_eq!(c.n_cpus, 4);
    assert_eq!(DEFAULT_N_CPUS, 4);
}

#[test]
fn metric_names() {
    assert_eq!(Normalization::from_name("L1"), Some(Normalization::L1));
    assert_eq!(Normalization::from_name("L2"), Some(Normalization::L2));
    assert_eq!(Normalization::from_name("l2"), None);
    assert_eq!(Normalization::from_name("L2 "), None);
    assert_eq!(Normalization::from_name(""), None);
}

#[test]
fn unknown_metric_falls_back_to_l1() {
    assert_eq!(Normalization::from_name_or_default("L2"), (Normalization::L2, true));
    assert_eq!(Normalization::from_name_or_default("L1"), (Normalization::L1, true));
    assert_eq!(Normalization::from_name_or_default("Linf"), (Normalization::L1, false));
}

#[test]
fn coefficient_types_differ() {
    assert_ne!(WaveCoefficientType::Magnitude, WaveCoefficientType::Power);
}

