use vstd::prelude::*;

use crate::format::Format;
use crate::quality::Quality;

verus! {

/// How many leading bytes the classifier consults: the length of the
/// longest registered signature.
pub const REQUIRED_PREFIX_LEN: usize = 9;

/// Why classification of a prefix failed.
#[derive(Copy, Clone, Debug, PartialEq, Eq, Structural)]
pub enum DetectError {
    /// Fewer bytes were supplied than the longest registered signature
    /// needs, so the source itself may be invalid.
    Truncated,
    /// A full-length prefix was supplied, but it starts with no registered
    /// signature.
    UnknownFormat,
}

/// `p` stands at the very start of `s`.
pub open spec fn starts_with(s: Seq<u8>, p: Seq<u8>) -> bool {
    p.len() <= s.len() && forall|i: int| 0 <= i < p.len() ==> p[i] == s[i]
}

/// The registered signatures, each with the format it identifies, in the
/// order the classifier consults them: grouped by pattern length from the
/// shortest group up, and inside a group in registration order.
pub open spec fn signature_table() -> Seq<(Seq<u8>, Format)> {
    seq![
        (seq![0x1fu8, 0x9d], Format::LZW(Quality::Default)),
        (seq![0x1fu8, 0xa0], Format::LZH(Quality::Default)),
        (seq![0x1fu8, 0x8b], Format::Gzip(Quality::Default)),
        (seq![0x30u8, 0x30], Format::Tar(Quality::Default)),
        (seq![0x20u8, 0x00], Format::Tar(Quality::Default)),
        (seq![0x37u8, 0x7a, 0xbc], Format::Xz(Quality::Default)),
        (seq![0xafu8, 0x27, 0x1c], Format::Xz(Quality::Default)),
        (seq![0x42u8, 0x5a, 0x68], Format::Bzip2(Quality::Default)),
        (seq![0x75u8, 0x73, 0x74], Format::Tar(Quality::Default)),
        (seq![0x61u8, 0x72, 0x20], Format::Tar(Quality::Default)),
        (seq![0x61u8, 0x72, 0x00], Format::Tar(Quality::Default)),
        (seq![0xceu8, 0xb2, 0xcf, 0x81], Format::Brotli(Quality::Default)),
        (seq![0x04u8, 0x22, 0x4d, 0x18], Format::Lz4(Quality::Default)),
        (seq![0xfdu8, 0x2f, 0xb5, 0x28], Format::Zstd(Quality::Default)),
        (seq![0xfdu8, 0x37, 0x7a, 0x58, 0x5a, 0x00], Format::Xz(Quality::Default)),
        (seq![0xffu8, 0x06, 0x00, 0x73, 0x4e, 0x61, 0x50, 0x70, 0x59], Format::Snappy(Quality::Default)),
    ]
}

/// The first row at or after position `k` of `rows` whose signature stands
/// at the start of `s`, if any: the format that row identifies.
pub open spec fn match_from(rows: Seq<(Seq<u8>, Format)>, s: Seq<u8>, k: int) -> Option<Format>
    decreases rows.len() - k,
{
    if k < 0 || k >= rows.len() {
        None
    } else if starts_with(s, rows[k].0) {
        Some(rows[k].1)
    } else {
        match_from(rows, s, k + 1)
    }
}

/// The classification of a prefix: the first row of the signature table
/// whose pattern stands at the start of `s` decides the format; if no row
/// matches, the format is unknown.
pub open spec fn classification_of(s: Seq<u8>) -> Option<Format> {
    match_from(signature_table(), s, 0)
}

/// What classification of a supplied prefix returns: too short a prefix is
/// rejected as truncated, a full-length prefix either names its format or
/// is of no format this library knows.
pub open spec fn classification_result(s: Seq<u8>) -> Result<Format, DetectError> {
    if s.len() < REQUIRED_PREFIX_LEN {
        Err(DetectError::Truncated)
    } else {
        match classification_of(s) {
            Some(f) => Ok(f),
            None => Err(DetectError::UnknownFormat),
        }
    }
}

/// The classification, written out over the prefix bytes themselves; a
/// private bridge between the table and the executable matcher.
spec fn byte_classification(s: Seq<u8>) -> Option<Format> {
    if s[0] == 0x1f && s[1] == 0x9d {
        Some(Format::LZW(Quality::Default))
    } else if s[0] == 0x1f && s[1] == 0xa0 {
        Some(Format::LZH(Quality::Default))
    } else if s[0] == 0x1f && s[1] == 0x8b {
        Some(Format::Gzip(Quality::Default))
    } else if s[0] == 0x30 && s[1] == 0x30 {
        Some(Format::Tar(Quality::Default))
    } else if s[0] == 0x20 && s[1] == 0x00 {
        Some(Format::Tar(Quality::Default))
    } else if s[0] == 0x37 && s[1] == 0x7a && s[2] == 0xbc {
        Some(Format::Xz(Quality::Default))
    } else if s[0] == 0xaf && s[1] == 0x27 && s[2] == 0x1c {
        Some(Format::Xz(Quality::Default))
    } else if s[0] == 0x42 && s[1] == 0x5a && s[2] == 0x68 {
        Some(Format::Bzip2(Quality::Default))
    } else if s[0] == 0x75 && s[1] == 0x73 && s[2] == 0x74 {
        Some(Format::Tar(Quality::Default))
    } else if s[0] == 0x61 && s[1] == 0x72 && s[2] == 0x20 {
        Some(Format::Tar(Quality::Default))
    } else if s[0] == 0x61 && s[1] == 0x72 && s[2] == 0x00 {
        Some(Format::Tar(Quality::Default))
    } else if s[0] == 0xce && s[1] == 0xb2 && s[2] == 0xcf && s[3] == 0x81 {
        Some(Format::Brotli(Quality::Default))
    } else if s[0] == 0x04 && s[1] == 0x22 && s[2] == 0x4d && s[3] == 0x18 {
        Some(Format::Lz4(Quality::Default))
    } else if s[0] == 0xfd && s[1] == 0x2f && s[2] == 0xb5 && s[3] == 0x28 {
        Some(Format::Zstd(Quality::Default))
    } else if s[0] == 0xfd && s[1] == 0x37 && s[2] == 0x7a && s[3] == 0x58 && s[4] == 0x5a
        && s[5] == 0x00 {
        Some(Format::Xz(Quality::Default))
    } else if s[0] == 0xff && s[1] == 0x06 && s[2] == 0x00 && s[3] == 0x73 && s[4] == 0x4e
        && s[5] == 0x61 && s[6] == 0x50 && s[7] == 0x70 && s[8] == 0x59 {
        Some(Format::Snappy(Quality::Default))
    } else {
        None
    }
}

/// For a pattern of known length, `starts_with` is exactly the conjunction
/// of the byte equations.
proof fn lemma_starts_with_bytes(s: Seq<u8>, p: Seq<u8>)
    requires
        1 <= p.len() <= 9,
        s.len() >= p.len(),
    ensures
        starts_with(s, p) <==> (forall|i: int| 0 <= i < p.len() ==> s[i] == p[i]),
{
}

/// The table classification, written out byte by byte.
proof fn lemma_classification_bytes(s: Seq<u8>)
    requires
        s.len() >= REQUIRED_PREFIX_LEN,
    ensures
        classification_of(s) == byte_classification(s),
{
    reveal_with_fuel(match_from, 17);
    let t = signature_table();
    assert forall|k: int| 0 <= k < t.len() implies (starts_with(s, t[k].0) <==> (forall|i: int|
        0 <= i < t[k].0.len() ==> s[i] == t[k].0[i])) by {
        lemma_starts_with_bytes(s, t[k].0);
    }
}

/// Soundness of every row of the table: a full-length prefix that starts
/// with a registered signature is classified as exactly that row's format.
/// No two registered signatures collide, so the row the prefix was built
/// from is the row that decides.
pub proof fn lemma_signature_row_classified(s: Seq<u8>, k: int)
    requires
        s.len() >= REQUIRED_PREFIX_LEN,
        0 <= k < signature_table().len(),
        starts_with(s, signature_table()[k].0),
    ensures
        classification_of(s) == Some(signature_table()[k].1),
{
    lemma_classification_bytes(s);
    let t = signature_table();
    lemma_starts_with_bytes(s, t[k].0);
    if k == 0 {
        assert(s[0] == 0x1f && s[1] == 0x9d);
    } else if k == 1 {
        assert(s[0] == 0x1f && s[1] == 0xa0);
    } else if k == 2 {
        assert(s[0] == 0x1f && s[1] == 0x8b);
    } else if k == 3 {
        assert(s[0] == 0x30 && s[1] == 0x30);
    } else if k == 4 {
        assert(s[0] == 0x20 && s[1] == 0x00);
    } else if k == 5 {
        assert(s[0] == 0x37 && s[1] == 0x7a && s[2] == 0xbc);
    } else if k == 6 {
        assert(s[0] == 0xaf && s[1] == 0x27 && s[2] == 0x1c);
    } else if k == 7 {
        assert(s[0] == 0x42 && s[1] == 0x5a && s[2] == 0x68);
    } else if k == 8 {
        assert(s[0] == 0x75 && s[1] == 0x73 && s[2] == 0x74);
    } else if k == 9 {
        assert(s[0] == 0x61 && s[1] == 0x72 && s[2] == 0x20);
    } else if k == 10 {
        assert(s[0] == 0x61 && s[1] == 0x72 && s[2] == 0x00);
    } else if k == 11 {
        assert(s[0] == 0xce && s[1] == 0xb2 && s[2] == 0xcf && s[3] == 0x81);
    } else if k == 12 {
        assert(s[0] == 0x04 && s[1] == 0x22 && s[2] == 0x4d && s[3] == 0x18);
    } else if k == 13 {
        assert(s[0] == 0xfd && s[1] == 0x2f && s[2] == 0xb5 && s[3] == 0x28);
    } else if k == 14 {
        assert(s[0] == 0xfd && s[1] == 0x37 && s[2] == 0x7a && s[3] == 0x58 && s[4] == 0x5a && s[5]
            == 0x00);
    } else {
        assert(k == 15);
        assert(s[0] == 0xff && s[1] == 0x06 && s[2] == 0x00 && s[3] == 0x73 && s[4] == 0x4e && s[5]
            == 0x61 && s[6] == 0x50 && s[7] == 0x70 && s[8] == 0x59);
    }
}

/// Completeness of the table: a full-length prefix is of unknown format if
/// and only if no registered signature stands at its start.
pub proof fn lemma_unknown_iff_no_signature(s: Seq<u8>)
    requires
        s.len() >= REQUIRED_PREFIX_LEN,
    ensures
        classification_of(s) is None <==> (forall|k: int|
            0 <= k < signature_table().len() ==> !starts_with(s, signature_table()[k].0)),
{
    let t = signature_table();
    if exists|k: int| 0 <= k < t.len() && starts_with(s, t[k].0) {
        let k = choose|k: int| 0 <= k < t.len() && starts_with(s, t[k].0);
        lemma_signature_row_classified(s, k);
    } else {
        reveal_with_fuel(match_from, 17);
    }
}

impl Format {
    /// Classify a prefix of a byte source against the signature table. Too
    /// short a buffer is rejected as truncated; a buffer of full length is
    /// classified exactly as the table orders, and reported unknown if and
    /// only if no registered signature stands at its start.
    pub fn classify(buf: &[u8]) -> (r: Result<Format, DetectError>)
        ensures
            r == classification_result(buf@),
            buf@.len() < REQUIRED_PREFIX_LEN <==> r == Err::<Format, DetectError>(
                DetectError::Truncated,
            ),
            buf@.len() >= REQUIRED_PREFIX_LEN ==> (match classification_of(buf@) {
                Some(f) => r == Ok::<Format, DetectError>(f),
                None => r == Err::<Format, DetectError>(DetectError::UnknownFormat),
            }),
    {
        if buf.len() < REQUIRED_PREFIX_LEN {
            Err(DetectError::Truncated)
        } else {
            match what_format(buf) {
                Some(f) => Ok(f),
                None => Err(DetectError::UnknownFormat),
            }
        }
    }
}

/// Match a full-length prefix against the signature table: the length
/// groups are consulted from the shortest up, and inside a group the rows
/// in registration order; the first signature found at the start of `x`
/// decides the format.
pub fn what_format(x: &[u8]) -> (r: Option<Format>)
    requires
        x@.len() >= REQUIRED_PREFIX_LEN,
    ensures
        r == classification_of(x@),
{
    proof {
        lemma_classification_bytes(x@);
    }
    let b0 = x[0];
    let b1 = x[1];
    let b2 = x[2];
    let b3 = x[3];
    let b4 = x[4];
    let b5 = x[5];
    let b6 = x[6];
    let b7 = x[7];
    let b8 = x[8];
    if b0 == 0x1f && b1 == 0x9d {
        Some(Format::LZW(Quality::Default))
    } else if b0 == 0x1f && b1 == 0xa0 {
        Some(Format::LZH(Quality::Default))
    } else if b0 == 0x1f && b1 == 0x8b {
        Some(Format::Gzip(Quality::Default))
    } else if (b0 == 0x30 && b1 == 0x30) || (b0 == 0x20 && b1 == 0x00) {
        Some(Format::Tar(Quality::Default))
    } else if (b0 == 0x37 && b1 == 0x7a && b2 == 0xbc) || (b0 == 0xaf && b1 == 0x27 && b2 == 0x1c) {
        Some(Format::Xz(Quality::Default))
    } else if b0 == 0x42 && b1 == 0x5a && b2 == 0x68 {
        Some(Format::Bzip2(Quality::Default))
    } else if (b0 == 0x75 && b1 == 0x73 && b2 == 0x74) || (b0 == 0x61 && b1 == 0x72 && b2 == 0x20)
        || (b0 == 0x61 && b1 == 0x72 && b2 == 0x00) {
        Some(Format::Tar(Quality::Default))
    } else if b0 == 0xce && b1 == 0xb2 && b2 == 0xcf && b3 == 0x81 {
        Some(Format::Brotli(Quality::Default))
    } else if b0 == 0x04 && b1 == 0x22 && b2 == 0x4d && b3 == 0x18 {
        Some(Format::Lz4(Quality::Default))
    } else if b0 == 0xfd && b1 == 0x2f && b2 == 0xb5 && b3 == 0x28 {
        Some(Format::Zstd(Quality::Default))
    } else if b0 == 0xfd && b1 == 0x37 && b2 == 0x7a && b3 == 0x58 && b4 == 0x5a && b5 == 0x00 {
        Some(Format::Xz(Quality::Default))
    } else if b0 == 0xff && b1 == 0x06 && b2 == 0x00 && b3 == 0x73 && b4 == 0x4e && b5 == 0x61
        && b6 == 0x50 && b7 == 0x70 && b8 == 0x59 {
        Some(Format::Snappy(Quality::Default))
    } else {
        None
    }
}

} // verus!

