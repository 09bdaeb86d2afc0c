use car_compress::Quality;

#[test]
fn zstd_levels() {
    assert_eq!(Quality::Default.into_zstd(), 10);
    assert_eq!(Quality::FastLow.into_zstd(), 1);
    assert_eq!(Quality::SlowHigh.into_zstd(), 20);
}

#[test]
fn brotli_levels() {
    assert_eq!(Quality::Default.into_brotli(), 5);
    assert_eq!(Quality::FastLow.into_brotli(), 2);
    assert_eq!(Quality::SlowHigh.into_brotli(), 10);
}

#[test]
fn xz_levels() {
    assert_eq!(Quality::Default.into_xz(), 0);
    assert_eq!(Quality::FastLow.into_xz(), 3);
    assert_eq!(Quality::SlowHigh.into_xz(), 7);
}

#[test]
fn conversions_are_stable() {
    for q in [Quality::Default, Quality::FastLow, Quality::SlowHigh] {
        assert_eq!(q.into_zstd(), q.into_zstd());
        assert_eq!(q.into_brotli(), q.into_brotli());
        assert_eq!(q.into_xz(), q.into_xz());
        assert_eq!(q.bzip2_level(), q.bzip2_level());
        assert_eq!(q.gzip_level(), q.gzip_level());
    }
}

#[test]
fn default_quality_is_default_variant() {
    assert_eq!(Quality::default(), Quality::Default);
}

#[test]
fn bzip2_parameter_levels() {
    assert_eq!(Quality::Default.bzip2_level(), 6);
    assert_eq!(Quality::FastLow.bzip2_level(), 1);
    assert_eq!(Quality::SlowHigh.bzip2_level(), 9);
    assert_eq!(Quality::Default.into_bzip2().level(), 6);
    assert_eq!(Quality::FastLow.into_bzip2().level(), 1);
    assert_eq!(Quality::SlowHigh.into_bzip2().level(), 9);
    // The default quality picks the backend's own default parameter.
    assert_eq!(
        Quality::Default.into_bzip2(),
        bzip2::Compression::default()
    );
    assert_eq!(Quality::FastLow.into_bzip2(), bzip2::Compression::fast());
    assert_eq!(Quality::SlowHigh.into_bzip2(), bzip2::Compression::best());
}

#[test]
fn gzip_parameter_levels() {
    assert_eq!(Quality::Default.gzip_level(), 6);
    assert_eq!(Quality::FastLow.gzip_level(), 1);
    assert_eq!(Quality::SlowHigh.gzip_level(), 9);
    assert_eq!(Quality::Default.into_gzip().level(), 6);
    assert_eq!(Quality::FastLow.into_gzip().level(), 1);
    assert_eq!(Quality::SlowHigh.into_gzip().level(), 9);
    // The default quality picks the backend's own default parameter.
    assert_eq!(Quality::Default.into_gzip(), flate2::Compression::default());
    assert_eq!(Quality::FastLow.into_gzip(), flate2::Compression::fast());
    assert_eq!(Quality::SlowHigh.into_gzip(), flate2::Compression::best());
}
