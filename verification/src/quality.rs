use vstd::prelude::*;

verus! {

/// The speed / ratio trade-off a caller asks for, independent of any one
/// backend's native level scale. Conversion to each backend is total: every
/// variant has a defined level on every scale this library exposes.
#[derive(Copy, Clone, Debug, PartialEq, Eq, Structural)]
pub enum Quality {
    Default,
    FastLow,
    SlowHigh,
}

/// The zstd level chosen for each quality, on zstd's 1..=21 scale.
pub open spec fn zstd_level_of(q: Quality) -> i32 {
    match q {
        Quality::Default => 10,
        Quality::FastLow => 1,
        Quality::SlowHigh => 20,
    }
}

/// The brotli level chosen for each quality, on brotli's 0..=11 scale.
pub open spec fn brotli_level_of(q: Quality) -> u32 {
    match q {
        Quality::Default => 5,
        Quality::FastLow => 2,
        Quality::SlowHigh => 10,
    }
}

/// The xz level chosen for each quality, on xz's 0..=9 scale.
pub open spec fn xz_level_of(q: Quality) -> u32 {
    match q {
        Quality::Default => 0,
        Quality::FastLow => 3,
        Quality::SlowHigh => 7,
    }
}

/// The bzip2 level chosen for each quality, on bzip2's 1..=9 scale:
/// the backend's default, fastest and best settings.
pub open spec fn bzip2_level_of(q: Quality) -> u32 {
    match q {
        Quality::Default => 6,
        Quality::FastLow => 1,
        Quality::SlowHigh => 9,
    }
}

/// The gzip/deflate level chosen for each quality, on flate2's 0..=9
/// scale: the backend's default, fast and best settings.
pub open spec fn gzip_level_of(q: Quality) -> u32 {
    match q {
        Quality::Default => 6,
        Quality::FastLow => 1,
        Quality::SlowHigh => 9,
    }
}

#[verifier::external_type_specification]
#[verifier::external_body]
pub struct ExBzCompression(bzip2::Compression);

#[verifier::external_type_specification]
#[verifier::external_body]
pub struct ExGzCompression(flate2::Compression);

/// The numeric level that a bzip2 compression parameter carries.
pub uninterp spec fn bz_level_of(c: bzip2::Compression) -> u32;

/// The numeric level that a flate2 compression parameter carries.
pub uninterp spec fn gz_level_of(c: flate2::Compression) -> u32;

/// Relies on bzip2::Compression::new, which wraps exactly the given
/// numeric level and panics only when the level lies outside 1..=9.
#[verifier::external_body]
fn bz_compression_new(level: u32) -> (r: bzip2::Compression)
    requires
        1 <= level <= 9,
    ensures
        bz_level_of(r) == level,
{
    bzip2::Compression::new(level)
}

/// Relies on flate2::Compression::new, which wraps exactly the given
/// numeric level and never fails.
#[verifier::external_body]
fn gz_compression_new(level: u32) -> (r: flate2::Compression)
    ensures
        gz_level_of(r) == level,
{
    flate2::Compression::new(level)
}

impl Quality {
    /// The zstd compression level for this quality.
    pub fn into_zstd(self) -> (r: i32)
        ensures
            r == zstd_level_of(self),
    {
        match self {
            Quality::Default => 10,
            Quality::FastLow => 1,
            Quality::SlowHigh => 20,
        }
    }

    /// The brotli compression level for this quality.
    pub fn into_brotli(self) -> (r: u32)
        ensures
            r == brotli_level_of(self),
    {
        match self {
            Quality::Default => 5,
            Quality::FastLow => 2,
            Quality::SlowHigh => 10,
        }
    }

    /// The xz compression level for this quality.
    pub fn into_xz(self) -> (r: u32)
        ensures
            r == xz_level_of(self),
    {
        match self {
            Quality::Default => 0,
            Quality::FastLow => 3,
            Quality::SlowHigh => 7,
        }
    }

    /// The numeric bzip2 compression level for this quality.
    pub fn bzip2_level(self) -> (r: u32)
        ensures
            r == bzip2_level_of(self),
    {
        match self {
            Quality::Default => 6,
            Quality::FastLow => 1,
            Quality::SlowHigh => 9,
        }
    }

    /// The numeric gzip/deflate compression level for this quality.
    pub fn gzip_level(self) -> (r: u32)
        ensures
            r == gzip_level_of(self),
    {
        match self {
            Quality::Default => 6,
            Quality::FastLow => 1,
            Quality::SlowHigh => 9,
        }
    }

    /// The bzip2 backend's own compression parameter for this quality: it
    /// carries exactly the level of `bzip2_level`, so the default, fast-low
    /// and slow-high qualities yield the backend's default, fastest and
    /// best settings.
    pub fn into_bzip2(self) -> (r: bzip2::Compression)
        ensures
            bz_level_of(r) == bzip2_level_of(self),
    {
        bz_compression_new(self.bzip2_level())
    }

    /// The gzip/deflate backend's own compression parameter for this
    /// quality: it carries exactly the level of `gzip_level`, so the
    /// default, fast-low and slow-high qualities yield the backend's
    /// default, fast and best settings.
    pub fn into_gzip(self) -> (r: flate2::Compression)
        ensures
            gz_level_of(r) == gzip_level_of(self),
    {
        gz_compression_new(self.gzip_level())
    }
}

impl Default for Quality {
    /// The default quality is the variant named `Default`.
    fn default() -> (r: Self)
        ensures
            r == Quality::Default,
    {
        Quality::Default
    }
}

/// Every quality has a defined level on every backend scale this library
/// exposes, and each level lies inside that backend's documented range; the
/// conversions above return exactly these levels, so equal qualities always
/// convert to equal levels.
pub proof fn lemma_quality_levels_total(q: Quality)
    ensures
        1 <= zstd_level_of(q) <= 21,
        brotli_level_of(q) <= 11,
        xz_level_of(q) <= 9,
        1 <= bzip2_level_of(q) <= 9,
        gzip_level_of(q) <= 9,
{
}

} // verus!
