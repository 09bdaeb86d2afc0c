use vstd::prelude::*;

use crate::quality::Quality;

verus! {

/// The compression container or algorithm that a byte stream was recognized
/// as, or that a caller selects as a target. Each variant carries the
/// quality to use when compressing; detection always yields
/// `Quality::Default`.
#[derive(Copy, Clone, Debug, PartialEq, Eq, Structural)]
pub enum Format {
    LZW(Quality),
    LZH(Quality),
    Gzip(Quality),
    Zip7(Quality),
    Bzip2(Quality),
    Xz(Quality),
    Brotli(Quality),
    Lz4(Quality),
    Snappy(Quality),
    Zstd(Quality),
    Tar(Quality),
}

/// The customary file extension for each format: a function of the variant
/// tag alone, never of the carried quality.
pub open spec fn extension_of(f: Format) -> Seq<char> {
    match f {
        Format::LZW(_) => "z"@,
        Format::LZH(_) => "z"@,
        Format::Zip7(_) => "7z"@,
        Format::Gzip(_) => "gz"@,
        Format::Bzip2(_) => "bz2"@,
        Format::Xz(_) => "xz"@,
        Format::Brotli(_) => "br"@,
        Format::Lz4(_) => "lz4"@,
        Format::Snappy(_) => "sz"@,
        Format::Zstd(_) => "zst"@,
        Format::Tar(_) => "tar"@,
    }
}

/// True when the two formats carry the same variant tag, whatever quality
/// each holds.
pub open spec fn same_variant(a: Format, b: Format) -> bool {
    match (a, b) {
        (Format::LZW(_), Format::LZW(_)) => true,
        (Format::LZH(_), Format::LZH(_)) => true,
        (Format::Gzip(_), Format::Gzip(_)) => true,
        (Format::Zip7(_), Format::Zip7(_)) => true,
        (Format::Bzip2(_), Format::Bzip2(_)) => true,
        (Format::Xz(_), Format::Xz(_)) => true,
        (Format::Brotli(_), Format::Brotli(_)) => true,
        (Format::Lz4(_), Format::Lz4(_)) => true,
        (Format::Snappy(_), Format::Snappy(_)) => true,
        (Format::Zstd(_), Format::Zstd(_)) => true,
        (Format::Tar(_), Format::Tar(_)) => true,
        _ => false,
    }
}

impl Format {
    /// The suggested or common extension for a file of this format. This is
    /// not a hard and fast rule: some formats share an extension.
    pub fn get_extension(&self) -> (r: &'static str)
        ensures
            r@ == extension_of(*self),
    {
        match self {
            Format::LZW(_) => "z",
            Format::LZH(_) => "z",
            Format::Zip7(_) => "7z",
            Format::Gzip(_) => "gz",
            Format::Bzip2(_) => "bz2",
            Format::Xz(_) => "xz",
            Format::Brotli(_) => "br",
            Format::Lz4(_) => "lz4",
            Format::Snappy(_) => "sz",
            Format::Zstd(_) => "zst",
            Format::Tar(_) => "tar",
        }
    }
}

/// The extension is a function of the variant tag alone: two formats that
/// differ only in their quality payload share their extension.
pub proof fn lemma_extension_ignores_quality(a: Format, b: Format)
    requires
        same_variant(a, b),
    ensures
        extension_of(a) == extension_of(b),
{
}

} // verus!
