use car_compress::Format;
use car_compress::Quality;

#[test]
fn extension_of_every_variant() {
    let q = Quality::Default;
    assert_eq!(Format::LZW(q).get_extension(), "z");
    assert_eq!(Format::LZH(q).get_extension(), "z");
    assert_eq!(Format::Gzip(q).get_extension(), "gz");
    assert_eq!(Format::Zip7(q).get_extension(), "7z");
    assert_eq!(Format::Bzip2(q).get_extension(), "bz2");
    assert_eq!(Format::Xz(q).get_extension(), "xz");
    assert_eq!(Format::Brotli(q).get_extension(), "br");
    assert_eq!(Format::Lz4(q).get_extension(), "lz4");
    assert_eq!(Format::Snappy(q).get_extension(), "sz");
    assert_eq!(Format::Zstd(q).get_extension(), "zst");
    assert_eq!(Format::Tar(q).get_extension(), "tar");
}

#[test]
fn extension_ignores_quality() {
    let variants: [fn(Quality) -> Format; 11] = [
        Format::LZW,
        Format::LZH,
        Format::Gzip,
        Format::Zip7,
        Format::Bzip2,
        Format::Xz,
        Format::Brotli,
        Format::Lz4,
        Format::Snappy,
        Format::Zstd,
        Format::Tar,
    ];
    for make in variants {
        let with_default = make(Quality::Default).get_extension();
        assert_eq!(make(Quality::FastLow).get_extension(), with_default);
        assert_eq!(make(Quality::SlowHigh).get_extension(), with_default);
    }
}
